use vstd::prelude::*;

verus! {

/// Decimal digit for `d`, `0 <= d < 10`.
pub open spec fn digito(d: int) -> char {
    seq!['0', '1', '2', '3', '4', '5', '6', '7', '8', '9'][d]
}

/// Decimal representation of `n`, without leading zeros.
pub open spec fn decimal(n: nat) -> Seq<char>
    decreases n,
{
    if n < 10 {
        seq![digito(n as int)]
    } else {
        decimal(n / 10).push(digito((n % 10) as int))
    }
}

fn texto_digito(d: u64) -> (r: &'static str)
    requires
        d < 10,
    ensures
        r@ == seq![digito(d as int)],
{
    proof {
        reveal_strlit("0");
        reveal_strlit("1");
        reveal_strlit("2");
        reveal_strlit("3");
        reveal_strlit("4");
        reveal_strlit("5");
        reveal_strlit("6");
        reveal_strlit("7");
        reveal_strlit("8");
        reveal_strlit("9");
    }
    let ghost ds = seq!['0', '1', '2', '3', '4', '5', '6', '7', '8', '9'];
    assert(digito(d as int) == ds[d as int]);
    if d == 0 {
        "0"
    } else if d == 1 {
        "1"
    } else if d == 2 {
        "2"
    } else if d == 3 {
        "3"
    } else if d == 4 {
        "4"
    } else if d == 5 {
        "5"
    } else if d == 6 {
        "6"
    } else if d == 7 {
        "7"
    } else if d == 8 {
        "8"
    } else {
        "9"
    }
}

/// Appends the decimal representation of `n`.
fn agregar_decimal(out: &mut String, n: u64)
    ensures
        final(out)@ == old(out)@ + decimal(n as nat),
    decreases n,
{
    let ghost inicio = out@;
    if n >= 10 {
        agregar_decimal(out, n / 10);
    }
    out.append(texto_digito(n % 10));
    assert(out@ =~= inicio + decimal(n as nat));
}

/// Address of the session check, `{base}/auth/status?_={epoch_ms}`; the
/// time in milliseconds keeps caches from answering.
pub fn url_estado_auth(base: &str, epoch_ms: u64) -> (r: String)
    ensures
        r@ == base@ + "/auth/status?_="@ + decimal(epoch_ms as nat),
{
    let mut r = String::from_str(base);
    r.append("/auth/status?_=");
    agregar_decimal(&mut r, epoch_ms);
    r
}

/// Address that receives the submissions, `{base}/ingestar-encuesta`.
pub fn url_ingesta(base: &str) -> (r: String)
    ensures
        r@ == base@ + "/ingestar-encuesta"@,
{
    let mut r = String::from_str(base);
    r.append("/ingestar-encuesta");
    r
}

/// Address where the user signs in, `{base}/login`.
pub fn url_login(base: &str) -> (r: String)
    ensures
        r@ == base@ + "/login"@,
{
    let mut r = String::from_str(base);
    r.append("/login");
    r
}

} // verus!

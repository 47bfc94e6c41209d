use vstd::prelude::*;

use crate::modelo::{
    Campo, CampoConexion, Conexion, Encuesta, N_CAMPOS_CONEXION, N_CAMPOS_ENCUESTA,
};

verus! {

// ---------------------------------------------------------------------------
// JSON string literals
// ---------------------------------------------------------------------------

/// Unicode scalar value of a character.
pub open spec fn codigo(c: char) -> u32 {
    c as u32
}

/// The character whose scalar value is `v`.
pub open spec fn caracter(v: u32) -> char {
    choose|c: char| #[trigger] codigo(c) == v
}

/// Lower-case hexadecimal digit for `d`, `0 <= d < 16`.
pub open spec fn digito_hex(d: int) -> char {
    seq!['0', '1', '2', '3', '4', '5', '6', '7', '8', '9', 'a', 'b', 'c', 'd', 'e', 'f'][d]
}

/// How one character is written inside a JSON string: quote, backslash and
/// the control characters are escaped, everything else stands as it is.
pub open spec fn escapar_caracter(c: char) -> Seq<char> {
    if c == '"' {
        seq!['\\', '"']
    } else if c == '\\' {
        seq!['\\', '\\']
    } else if codigo(c) == 0x08 {
        seq!['\\', 'b']
    } else if codigo(c) == 0x09 {
        seq!['\\', 't']
    } else if codigo(c) == 0x0a {
        seq!['\\', 'n']
    } else if codigo(c) == 0x0c {
        seq!['\\', 'f']
    } else if codigo(c) == 0x0d {
        seq!['\\', 'r']
    } else if codigo(c) < 0x20 {
        seq![
            '\\',
            'u',
            '0',
            '0',
            digito_hex(codigo(c) as int / 16),
            digito_hex(codigo(c) as int % 16),
        ]
    } else {
        seq![c]
    }
}

/// The escaped body of a JSON string.
pub open spec fn escapar(s: Seq<char>) -> Seq<char>
    decreases s.len(),
{
    if s.len() == 0 {
        Seq::empty()
    } else {
        escapar_caracter(s[0]) + escapar(s.drop_first())
    }
}

/// The JSON string literal for `s`, quotes included.
pub open spec fn cadena(s: Seq<char>) -> Seq<char> {
    seq!['"'] + escapar(s) + seq!['"']
}

/// Value of a hexadecimal digit, either case.
pub open spec fn valor_hex(c: char) -> Option<int> {
    if 0x30 <= codigo(c) <= 0x39 {
        Some(codigo(c) - 0x30)
    } else if 0x61 <= codigo(c) <= 0x66 {
        Some(codigo(c) - 0x61 + 10)
    } else if 0x41 <= codigo(c) <= 0x46 {
        Some(codigo(c) - 0x41 + 10)
    } else {
        None
    }
}

/// Value of the four hexadecimal digits that start `t`.
pub open spec fn hex4(t: Seq<char>) -> Option<int> {
    if t.len() >= 4 && valor_hex(t[0]) is Some && valor_hex(t[1]) is Some && valor_hex(t[2]) is Some
        && valor_hex(t[3]) is Some {
        Some(
            valor_hex(t[0])->0 * 4096 + valor_hex(t[1])->0 * 256 + valor_hex(t[2])->0 * 16
                + valor_hex(t[3])->0,
        )
    } else {
        None
    }
}

/// The character that a two-character escape `\e` stands for.
pub open spec fn escape_simple(e: char) -> Option<char> {
    if e == '"' || e == '\\' || e == '/' {
        Some(e)
    } else if e == 'b' {
        Some(caracter(0x08))
    } else if e == 't' {
        Some(caracter(0x09))
    } else if e == 'n' {
        Some(caracter(0x0a))
    } else if e == 'f' {
        Some(caracter(0x0c))
    } else if e == 'r' {
        Some(caracter(0x0d))
    } else {
        None
    }
}

/// Puts `c` in front of the text of a successful read.
pub open spec fn anteponer(c: char, r: Option<(Seq<char>, Seq<char>)>) -> Option<
    (Seq<char>, Seq<char>),
> {
    match r {
        Some((s, resto)) => Some((seq![c] + s, resto)),
        None => None,
    }
}

/// Reads the body of a JSON string up to and including its closing quote:
/// the decoded text and what follows. Escapes of UTF-16 surrogates are not
/// read.
pub open spec fn leer_cuerpo(t: Seq<char>) -> Option<(Seq<char>, Seq<char>)>
    decreases t.len(),
{
    if t.len() == 0 {
        None
    } else if t[0] == '"' {
        Some((Seq::empty(), t.drop_first()))
    } else if t[0] == '\\' && t.len() >= 2 && escape_simple(t[1]) is Some {
        anteponer(escape_simple(t[1])->0, leer_cuerpo(t.subrange(2, t.len() as int)))
    } else if t[0] == '\\' && t.len() >= 6 && t[1] == 'u' && hex4(t.subrange(2, 6)) is Some && !(
    0xd800 <= hex4(t.subrange(2, 6))->0 <= 0xdfff) {
        anteponer(
            caracter(hex4(t.subrange(2, 6))->0 as u32),
            leer_cuerpo(t.subrange(6, t.len() as int)),
        )
    } else if t[0] == '\\' || codigo(t[0]) < 0x20 {
        None
    } else {
        anteponer(t[0], leer_cuerpo(t.drop_first()))
    }
}

/// Reads a JSON string at the start of `t`: its text and what follows.
pub open spec fn leer_cadena(t: Seq<char>) -> Option<(Seq<char>, Seq<char>)> {
    if t.len() > 0 && t[0] == '"' {
        leer_cuerpo(t.drop_first())
    } else {
        None
    }
}

proof fn lema_digito_hex(d: int)
    requires
        0 <= d < 16,
    ensures
        valor_hex(digito_hex(d)) == Some(d),
{
    let ds = seq!['0', '1', '2', '3', '4', '5', '6', '7', '8', '9', 'a', 'b', 'c', 'd', 'e', 'f'];
    assert(digito_hex(d) == ds[d]);
}

proof fn lema_caracter(c: char)
    ensures
        caracter(codigo(c)) == c,
{
    let d = caracter(codigo(c));
    assert(codigo(d) == codigo(c));
}

/// Reading an escaped character gives the character back.
proof fn lema_leer_escape(c: char, u: Seq<char>)
    ensures
        leer_cuerpo(escapar_caracter(c) + u) == anteponer(c, leer_cuerpo(u)),
{
    let t = escapar_caracter(c) + u;
    lema_caracter(c);
    if c == '"' || c == '\\' || codigo(c) == 0x08 || codigo(c) == 0x09 || codigo(c) == 0x0a
        || codigo(c) == 0x0c || codigo(c) == 0x0d {
        assert(t.subrange(2, t.len() as int) =~= u);
    } else if codigo(c) < 0x20 {
        let h = codigo(c) as int / 16;
        let l = codigo(c) as int % 16;
        lema_digito_hex(h);
        lema_digito_hex(l);
        assert(t.subrange(2, 6) =~= seq!['0', '0', digito_hex(h), digito_hex(l)]);
        assert(hex4(t.subrange(2, 6)) == Some(codigo(c) as int));
        assert(t.subrange(6, t.len() as int) =~= u);
    } else {
        assert(t.drop_first() =~= u);
    }
}

proof fn lema_leer_cuerpo(s: Seq<char>, resto: Seq<char>)
    ensures
        leer_cuerpo(escapar(s) + seq!['"'] + resto) == Some((s, resto)),
    decreases s.len(),
{
    let t = escapar(s) + seq!['"'] + resto;
    if s.len() == 0 {
        assert(t =~= seq!['"'] + resto);
        assert(t.drop_first() =~= resto);
    } else {
        let c = s[0];
        let u = escapar(s.drop_first()) + seq!['"'] + resto;
        assert(t =~= escapar_caracter(c) + u);
        lema_leer_escape(c, u);
        lema_leer_cuerpo(s.drop_first(), resto);
        assert(seq![c] + s.drop_first() =~= s);
    }
}

/// Reading the string literal of `s` gives `s` and leaves what follows.
pub proof fn lema_leer_cadena(s: Seq<char>, resto: Seq<char>)
    ensures
        leer_cadena(cadena(s) + resto) == Some((s, resto)),
{
    let t = cadena(s) + resto;
    assert(t.drop_first() =~= escapar(s) + seq!['"'] + resto);
    lema_leer_cuerpo(s, resto);
}

/// Relies on `serde_json::to_string` applied to a `str`: it writes the string
/// literal of `s` as `cadena` states (serde_json's `format_escaped_str`), into
/// a `Vec<u8>`, which cannot fail.
#[verifier::external_body]
fn cadena_json(s: &str) -> (r: Result<String, serde_json::Error>)
    ensures
        r is Ok,
        r->Ok_0@ == cadena(s@),
{
    serde_json::to_string(s)
}

#[verifier::external_type_specification]
#[verifier::external_body]
pub struct ExJsonError(serde_json::Error);


// ---------------------------------------------------------------------------
// Objects and arrays
// ---------------------------------------------------------------------------

/// One object member `"k":"v"`.
pub open spec fn miembro(k: Seq<char>, v: Seq<char>) -> Seq<char> {
    cadena(k) + seq![':'] + cadena(v)
}

/// The members `ks[i]: vs[i]` in order, separated by commas.
pub open spec fn miembros(ks: Seq<Seq<char>>, vs: Seq<Seq<char>>) -> Seq<char>
    decreases ks.len(),
{
    if ks.len() == 0 {
        Seq::empty()
    } else if ks.len() == 1 {
        miembro(ks[0], vs[0])
    } else {
        miembros(ks.drop_last(), vs.drop_last()) + seq![','] + miembro(ks.last(), vs.last())
    }
}

/// An object whose members are all strings.
pub open spec fn objeto(ks: Seq<Seq<char>>, vs: Seq<Seq<char>>) -> Seq<char> {
    seq!['{'] + miembros(ks, vs) + seq!['}']
}

/// Each element preceded by a comma.
pub open spec fn con_comas(xs: Seq<Seq<char>>) -> Seq<char>
    decreases xs.len(),
{
    if xs.len() == 0 {
        Seq::empty()
    } else {
        seq![','] + xs[0] + con_comas(xs.drop_first())
    }
}

/// An array of already written elements.
pub open spec fn arreglo(xs: Seq<Seq<char>>) -> Seq<char> {
    if xs.len() == 0 {
        seq!['[', ']']
    } else {
        seq!['['] + xs[0] + con_comas(xs.drop_first()) + seq![']']
    }
}

/// Keys of a connection object, in record order.
pub open spec fn claves_conexion() -> Seq<Seq<char>> {
    Seq::new(N_CAMPOS_CONEXION as nat, |i: int| CampoConexion::en(i).clave())
}

/// Keys of the scalar members of a survey object, in record order.
pub open spec fn claves_encuesta() -> Seq<Seq<char>> {
    Seq::new(N_CAMPOS_ENCUESTA as nat, |i: int| Campo::en(i).clave())
}

/// Key under which the connections travel.
pub open spec fn clave_conexiones() -> Seq<char> {
    "conexiones"@
}

/// A connection as a JSON object.
#[verifier::opaque]
pub open spec fn json_conexion(vs: Seq<Seq<char>>) -> Seq<char> {
    objeto(claves_conexion(), vs)
}

/// The payload for a survey with scalar fields `vs` and connections `cs`:
/// one object, the scalar members first, in record order, then the array of
/// connections under `conexiones`. No whitespace.
pub open spec fn json_encuesta(vs: Seq<Seq<char>>, cs: Seq<Seq<Seq<char>>>) -> Seq<char> {
    seq!['{'] + miembros(claves_encuesta(), vs) + seq![','] + cadena(clave_conexiones())
        + seq![':'] + arreglo(json_conexiones(cs)) + seq!['}']
}

/// Each connection as a JSON object.
pub open spec fn json_conexiones(cs: Seq<Seq<Seq<char>>>) -> Seq<Seq<char>> {
    cs.map_values(|c: Seq<Seq<char>>| json_conexion(c))
}

/// The payload of a survey.
pub open spec fn carga(e: Encuesta) -> Seq<char> {
    json_encuesta(e.valores(), e.conexiones())
}

// ---------------------------------------------------------------------------
// Reading a payload back
// ---------------------------------------------------------------------------

/// Reads `"k":` followed by a string: its text and what follows.
pub open spec fn leer_miembro(t: Seq<char>, k: Seq<char>) -> Option<(Seq<char>, Seq<char>)> {
    match leer_cadena(t) {
        Some((k2, r)) => if k2 == k && r.len() > 0 && r[0] == ':' {
            leer_cadena(r.drop_first())
        } else {
            None
        },
        None => None,
    }
}

/// Reads the members with keys `ks`, in that order, separated by commas.
pub open spec fn leer_miembros(t: Seq<char>, ks: Seq<Seq<char>>) -> Option<
    (Seq<Seq<char>>, Seq<char>),
>
    decreases ks.len(),
{
    if ks.len() == 0 {
        Some((Seq::empty(), t))
    } else if ks.len() == 1 {
        match leer_miembro(t, ks[0]) {
            Some((v, r)) => Some((seq![v], r)),
            None => None,
        }
    } else {
        match leer_miembros(t, ks.drop_last()) {
            Some((vs, r)) => if r.len() > 0 && r[0] == ',' {
                match leer_miembro(r.drop_first(), ks.last()) {
                    Some((v, r2)) => Some((vs.push(v), r2)),
                    None => None,
                }
            } else {
                None
            },
            None => None,
        }
    }
}

/// Reads a connection object: its fields in record order and what follows.
pub open spec fn leer_conexion(t: Seq<char>) -> Option<(Seq<Seq<char>>, Seq<char>)> {
    if t.len() > 0 && t[0] == '{' {
        match leer_miembros(t.drop_first(), claves_conexion()) {
            Some((vs, r)) => if r.len() > 0 && r[0] == '}' {
                Some((vs, r.drop_first()))
            } else {
                None
            },
            None => None,
        }
    } else {
        None
    }
}

/// Reads `,x` for each further connection `x`, up to and including `]`.
pub open spec fn leer_resto(t: Seq<char>) -> Option<(Seq<Seq<Seq<char>>>, Seq<char>)>
    decreases t.len(),
{
    if t.len() > 0 && t[0] == ']' {
        Some((Seq::empty(), t.drop_first()))
    } else if t.len() > 0 && t[0] == ',' {
        match leer_conexion(t.drop_first()) {
            Some((c, r)) => if r.len() < t.len() {
                match leer_resto(r) {
                    Some((cs, r2)) => Some((seq![c] + cs, r2)),
                    None => None,
                }
            } else {
                None
            },
            None => None,
        }
    } else {
        None
    }
}

/// Reads an array of connections.
pub open spec fn leer_arreglo(t: Seq<char>) -> Option<(Seq<Seq<Seq<char>>>, Seq<char>)> {
    if t.len() >= 2 && t[0] == '[' && t[1] == ']' {
        Some((Seq::empty(), t.subrange(2, t.len() as int)))
    } else if t.len() > 0 && t[0] == '[' {
        match leer_conexion(t.drop_first()) {
            Some((c, r)) => match leer_resto(r) {
                Some((cs, r2)) => Some((seq![c] + cs, r2)),
                None => None,
            },
            None => None,
        }
    } else {
        None
    }
}

/// Decodes a whole payload: the scalar fields in record order and the
/// connections, each as its fields in record order. `None` where `t` is not
/// a payload.
pub open spec fn decodificar(t: Seq<char>) -> Option<(Seq<Seq<char>>, Seq<Seq<Seq<char>>>)> {
    if t.len() > 0 && t[0] == '{' {
        match leer_miembros(t.drop_first(), claves_encuesta()) {
            Some((vs, r)) => if r.len() > 0 && r[0] == ',' {
                match leer_miembro_arreglo(r.drop_first()) {
                    Some((cs, r2)) => if r2 == seq!['}'] {
                        Some((vs, cs))
                    } else {
                        None
                    },
                    None => None,
                }
            } else {
                None
            },
            None => None,
        }
    } else {
        None
    }
}

/// Reads `"conexiones":` followed by an array of connections.
pub open spec fn leer_miembro_arreglo(t: Seq<char>) -> Option<(Seq<Seq<Seq<char>>>, Seq<char>)> {
    match leer_cadena(t) {
        Some((k, r)) => if k == clave_conexiones() && r.len() > 0 && r[0] == ':' {
            leer_arreglo(r.drop_first())
        } else {
            None
        },
        None => None,
    }
}

proof fn lema_leer_miembro(k: Seq<char>, v: Seq<char>, resto: Seq<char>)
    ensures
        leer_miembro(miembro(k, v) + resto, k) == Some((v, resto)),
{
    let t = miembro(k, v) + resto;
    assert(t =~= cadena(k) + (seq![':'] + cadena(v) + resto));
    lema_leer_cadena(k, seq![':'] + cadena(v) + resto);
    assert((seq![':'] + cadena(v) + resto).drop_first() =~= cadena(v) + resto);
    lema_leer_cadena(v, resto);
}

proof fn lema_leer_miembros(ks: Seq<Seq<char>>, vs: Seq<Seq<char>>, resto: Seq<char>)
    requires
        ks.len() == vs.len(),
    ensures
        leer_miembros(miembros(ks, vs) + resto, ks) == Some((vs, resto)),
    decreases ks.len(),
{
    let t = miembros(ks, vs) + resto;
    if ks.len() == 0 {
        assert(t =~= resto);
        assert(vs =~= Seq::<Seq<char>>::empty());
    } else if ks.len() == 1 {
        lema_leer_miembro(ks[0], vs[0], resto);
        assert(seq![vs[0]] =~= vs);
    } else {
        let tail = seq![','] + miembro(ks.last(), vs.last()) + resto;
        assert(t =~= miembros(ks.drop_last(), vs.drop_last()) + tail);
        lema_leer_miembros(ks.drop_last(), vs.drop_last(), tail);
        assert(tail.drop_first() =~= miembro(ks.last(), vs.last()) + resto);
        lema_leer_miembro(ks.last(), vs.last(), resto);
        assert(vs.drop_last().push(vs.last()) =~= vs);
    }
}

proof fn lema_leer_conexion(vs: Seq<Seq<char>>, resto: Seq<char>)
    requires
        vs.len() == N_CAMPOS_CONEXION,
    ensures
        leer_conexion(json_conexion(vs) + resto) == Some((vs, resto)),
        json_conexion(vs).len() > 0,
        json_conexion(vs)[0] == '{',
{
    reveal(json_conexion);
    let t = json_conexion(vs) + resto;
    assert(t.drop_first() =~= miembros(claves_conexion(), vs) + (seq!['}'] + resto));
    lema_leer_miembros(claves_conexion(), vs, seq!['}'] + resto);
    assert((seq!['}'] + resto).drop_first() =~= resto);
}

/// Every connection has one text per field.
pub open spec fn conexiones_bien_formadas(cs: Seq<Seq<Seq<char>>>) -> bool {
    forall|i: int| 0 <= i < cs.len() ==> (#[trigger] cs[i]).len() == N_CAMPOS_CONEXION
}

proof fn lema_leer_resto(cs: Seq<Seq<Seq<char>>>, resto: Seq<char>)
    requires
        conexiones_bien_formadas(cs),
    ensures
        leer_resto(con_comas(json_conexiones(cs)) + seq![']'] + resto) == Some((cs, resto)),
    decreases cs.len(),
{
    let xs = json_conexiones(cs);
    let t = con_comas(xs) + seq![']'] + resto;
    if cs.len() == 0 {
        assert(xs.len() == 0);
        assert(t =~= seq![']'] + resto);
        assert(t.drop_first() =~= resto);
        assert(cs =~= Seq::<Seq<Seq<char>>>::empty());
    } else {
        let cs2 = cs.drop_first();
        let xs2 = json_conexiones(cs2);
        assert(xs.drop_first() =~= xs2);
        let r = con_comas(xs2) + seq![']'] + resto;
        assert(con_comas(xs) == seq![','] + xs[0] + con_comas(xs.drop_first()));
        assert(t =~= seq![','] + (json_conexion(cs[0]) + r));
        assert(t.drop_first() =~= json_conexion(cs[0]) + r);
        assert(cs[0].len() == N_CAMPOS_CONEXION);
        lema_leer_conexion(cs[0], r);
        assert(leer_conexion(t.drop_first()) == Some((cs[0], r)));
        assert(r.len() < t.len());
        lema_leer_resto(cs2, resto);
        assert(leer_resto(r) == Some((cs2, resto)));
        assert(seq![cs[0]] + cs2 =~= cs);
    }
}

proof fn lema_leer_arreglo(cs: Seq<Seq<Seq<char>>>, resto: Seq<char>)
    requires
        conexiones_bien_formadas(cs),
    ensures
        leer_arreglo(arreglo(json_conexiones(cs)) + resto) == Some((cs, resto)),
{
    let xs = json_conexiones(cs);
    let t = arreglo(xs) + resto;
    if cs.len() == 0 {
        assert(xs.len() == 0);
        assert(t =~= seq!['[', ']'] + resto);
        assert(t.subrange(2, t.len() as int) =~= resto);
        assert(cs =~= Seq::<Seq<Seq<char>>>::empty());
    } else {
        let cs2 = cs.drop_first();
        let xs2 = json_conexiones(cs2);
        assert(xs.drop_first() =~= xs2);
        let r = con_comas(xs2) + seq![']'] + resto;
        assert(t =~= seq!['['] + (json_conexion(cs[0]) + r));
        assert(t.drop_first() =~= json_conexion(cs[0]) + r);
        assert(cs[0].len() == N_CAMPOS_CONEXION);
        lema_leer_conexion(cs[0], r);
        assert(t[1] == '{');
        lema_leer_resto(cs2, resto);
        assert(seq![cs[0]] + cs2 =~= cs);
    }
}

/// Decoding the payload of any survey gives back its scalar fields, by key
/// and in record order, and its connections, in order, each with its fields.
pub proof fn lema_decodificar_json(vs: Seq<Seq<char>>, cs: Seq<Seq<Seq<char>>>)
    requires
        vs.len() == N_CAMPOS_ENCUESTA,
        conexiones_bien_formadas(cs),
    ensures
        decodificar(json_encuesta(vs, cs)) == Some((vs, cs)),
{
    let xs = json_conexiones(cs);
    let t = json_encuesta(vs, cs);
    let r3 = arreglo(xs) + seq!['}'];
    let r2 = seq![':'] + r3;
    let r1 = seq![','] + cadena(clave_conexiones()) + r2;
    assert(t.drop_first() =~= miembros(claves_encuesta(), vs) + r1);
    lema_leer_miembros(claves_encuesta(), vs, r1);
    assert(r1.drop_first() =~= cadena(clave_conexiones()) + r2);
    lema_leer_cadena(clave_conexiones(), r2);
    assert(r2.drop_first() =~= r3);
    lema_leer_arreglo(cs, seq!['}']);
}

/// Serializing a survey and decoding the payload gives its scalar fields and
/// its connections back, in order.
pub proof fn ley_decodificar_carga(e: Encuesta)
    ensures
        decodificar(carga(e)) == Some((e.valores(), e.conexiones())),
{
    let cs = e.conexiones();
    assert forall|i: int| 0 <= i < cs.len() implies (#[trigger] cs[i]).len()
        == N_CAMPOS_CONEXION by {
        assert(cs[i] == e.lista_conexiones@[i].valores());
    }
    lema_decodificar_json(e.valores(), cs);
}


// ---------------------------------------------------------------------------
// Writing a payload
// ---------------------------------------------------------------------------

proof fn lema_con_comas_push(xs: Seq<Seq<char>>, x: Seq<char>)
    ensures
        con_comas(xs.push(x)) == con_comas(xs) + seq![','] + x,
    decreases xs.len(),
{
    if xs.len() == 0 {
        assert(xs.push(x).drop_first() =~= Seq::<Seq<char>>::empty());
        assert(con_comas(Seq::<Seq<char>>::empty()) == Seq::<char>::empty());
        assert(xs.push(x)[0] == x);
        assert(con_comas(xs.push(x)) =~= seq![','] + x);
    } else {
        assert(xs.push(x).drop_first() =~= xs.drop_first().push(x));
        lema_con_comas_push(xs.drop_first(), x);
        assert(con_comas(xs.push(x)) =~= con_comas(xs) + seq![','] + x);
    }
}

/// Appends the string literal of `s`.
fn agregar_cadena(out: &mut String, s: &str)
    ensures
        final(out)@ == old(out)@ + cadena(s@),
{
    match cadena_json(s) {
        Ok(t) => out.append(t.as_str()),
        Err(_) => {},
    }
}

/// Appends a single character given as a one-character literal.
fn agregar_signo(out: &mut String, signo: &str)
    requires
        signo@.len() == 1,
    ensures
        final(out)@ == old(out)@ + signo@,
{
    out.append(signo);
}

/// Appends the member `"k":"v"`.
fn agregar_miembro(out: &mut String, k: &str, v: &str)
    ensures
        final(out)@ == old(out)@ + miembro(k@, v@),
{
    let ghost inicio = out@;
    agregar_cadena(out, k);
    proof {
        reveal_strlit(":");
    }
    agregar_signo(out, ":");
    agregar_cadena(out, v);
    assert(out@ =~= inicio + miembro(k@, v@));
}

/// Appends one connection as a JSON object.
fn escribir_conexion(out: &mut String, c: &Conexion)
    ensures
        final(out)@ == old(out)@ + json_conexion(c.valores()),
{
    reveal(json_conexion);
    let ghost inicio = out@;
    let ghost ks = claves_conexion();
    let ghost vs = c.valores();
    proof {
        reveal_strlit("{");
        reveal_strlit(",");
        reveal_strlit("}");
    }
    agregar_signo(out, "{");
    let mut i: usize = 0;
    while i < N_CAMPOS_CONEXION
        invariant
            0 <= i <= N_CAMPOS_CONEXION,
            ks == claves_conexion(),
            vs == c.valores(),
            out@ == inicio + seq!['{'] + miembros(ks.take(i as int), vs.take(i as int)),
        decreases N_CAMPOS_CONEXION - i,
    {
        proof {
            reveal_strlit(",");
        }
        if i > 0 {
            agregar_signo(out, ",");
        }
        let campo = CampoConexion::de_indice(i);
        agregar_miembro(out, campo.nombre(), c.campo(campo).as_str());
        proof {
            assert(ks.take(i + 1).drop_last() =~= ks.take(i as int));
            assert(vs.take(i + 1).drop_last() =~= vs.take(i as int));
            assert(ks.take(i + 1).last() == campo.clave());
            assert(vs.take(i + 1).last() == c.valor(campo));
            if i == 0 {
                assert(miembros(ks.take(0), vs.take(0)) == Seq::<char>::empty());
                assert(out@ =~= inicio + seq!['{'] + miembros(ks.take(1), vs.take(1)));
            } else {
                assert(out@ =~= inicio + seq!['{'] + miembros(ks.take(i + 1), vs.take(i + 1)));
            }
        }
        i = i + 1;
    }
    agregar_signo(out, "}");
    assert(ks.take(N_CAMPOS_CONEXION as int) =~= ks);
    assert(vs.take(N_CAMPOS_CONEXION as int) =~= vs);
    assert(out@ =~= inicio + json_conexion(vs));
}

/// The JSON payload of a survey: an object with one string member per
/// scalar field, keyed by the field's name, in record order, and the
/// connections, in order, as an array of objects under `conexiones`.
/// Encoding cannot fail.
pub fn codificar_encuesta(e: &Encuesta) -> (r: String)
    ensures
        r@ == carga(*e),
{
    let ghost ks = claves_encuesta();
    let ghost vs = e.valores();
    let ghost cs = e.conexiones();
    let ghost xs = json_conexiones(cs);
    proof {
        reveal_strlit("{");
        reveal_strlit(",");
        reveal_strlit("}");
        reveal_strlit(":");
        reveal_strlit("[");
        reveal_strlit("]");
    }
    let mut out = String::new();
    agregar_signo(&mut out, "{");
    let mut i: usize = 0;
    while i < N_CAMPOS_ENCUESTA
        invariant
            0 <= i <= N_CAMPOS_ENCUESTA,
            ks == claves_encuesta(),
            vs == e.valores(),
            out@ == seq!['{'] + miembros(ks.take(i as int), vs.take(i as int)),
        decreases N_CAMPOS_ENCUESTA - i,
    {
        proof {
            reveal_strlit(",");
        }
        if i > 0 {
            agregar_signo(&mut out, ",");
        }
        let campo = Campo::de_indice(i);
        agregar_miembro(&mut out, campo.nombre(), e.campo(campo).as_str());
        proof {
            assert(ks.take(i + 1).drop_last() =~= ks.take(i as int));
            assert(vs.take(i + 1).drop_last() =~= vs.take(i as int));
            assert(ks.take(i + 1).last() == campo.clave());
            assert(vs.take(i + 1).last() == e.valor(campo));
            if i == 0 {
                assert(miembros(ks.take(0), vs.take(0)) == Seq::<char>::empty());
                assert(out@ =~= seq!['{'] + miembros(ks.take(1), vs.take(1)));
            } else {
                assert(out@ =~= seq!['{'] + miembros(ks.take(i + 1), vs.take(i + 1)));
            }
        }
        i = i + 1;
    }
    assert(ks.take(N_CAMPOS_ENCUESTA as int) =~= ks);
    assert(vs.take(N_CAMPOS_ENCUESTA as int) =~= vs);
    agregar_signo(&mut out, ",");
    agregar_cadena(&mut out, "conexiones");
    agregar_signo(&mut out, ":");
    let ghost pre = out@;
    assert(pre =~= seq!['{'] + miembros(ks, vs) + seq![','] + cadena(clave_conexiones())
        + seq![':']);
    agregar_signo(&mut out, "[");
    let n = e.lista_conexiones.len();
    let mut j: usize = 0;
    while j < n
        invariant
            0 <= j <= n,
            n == e.lista_conexiones@.len(),
            cs == e.conexiones(),
            xs == json_conexiones(cs),
            xs.len() == n,
            j == 0 ==> out@ == pre + seq!['['],
            j > 0 ==> out@ == pre + seq!['['] + xs[0] + con_comas(xs.subrange(1, j as int)),
        decreases n - j,
    {
        proof {
            reveal_strlit(",");
        }
        if j > 0 {
            agregar_signo(&mut out, ",");
        }
        escribir_conexion(&mut out, &e.lista_conexiones[j]);
        proof {
            assert(xs[j as int] == json_conexion(e.lista_conexiones@[j as int].valores()));
            if j == 0 {
                assert(xs.subrange(1, 1) =~= Seq::<Seq<char>>::empty());
                assert(out@ =~= pre + seq!['['] + xs[0] + con_comas(xs.subrange(1, 1)));
            } else {
                assert(xs.subrange(1, j + 1) =~= xs.subrange(1, j as int).push(xs[j as int]));
                lema_con_comas_push(xs.subrange(1, j as int), xs[j as int]);
                assert(out@ =~= pre + seq!['['] + xs[0] + con_comas(xs.subrange(1, j + 1)));
            }
        }
        j = j + 1;
    }
    agregar_signo(&mut out, "]");
    agregar_signo(&mut out, "}");
    proof {
        if n == 0 {
            assert(out@ =~= pre + arreglo(xs) + seq!['}']);
        } else {
            assert(xs.drop_first() =~= xs.subrange(1, n as int));
            assert(out@ =~= pre + arreglo(xs) + seq!['}']);
        }
    }
    out
}

} // verus!

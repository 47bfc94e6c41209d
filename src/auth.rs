use vstd::prelude::*;

verus! {

/// Whether the backend holds a session for this browser.
#[derive(Clone, Copy, Debug, PartialEq, Eq, Structural)]
pub enum AuthStatus {
    Authenticated,
    Unauthenticated,
}

/// A 2xx HTTP status.
pub open spec fn es_exito(estado: u16) -> bool {
    200 <= estado <= 299
}

/// The session state that an answer of the status endpoint stands for:
/// `Some(status)` where the server answered, `None` where it could not be
/// reached. Only a 2xx status means a session.
pub open spec fn estado_de(respuesta: Option<u16>) -> AuthStatus {
    match respuesta {
        Some(s) => if es_exito(s) {
            AuthStatus::Authenticated
        } else {
            AuthStatus::Unauthenticated
        },
        None => AuthStatus::Unauthenticated,
    }
}

/// Reads the answer of the status endpoint.
pub fn auth_status(respuesta: Option<u16>) -> (r: AuthStatus)
    ensures
        r == estado_de(respuesta),
{
    match respuesta {
        Some(s) => if 200 <= s && s <= 299 {
            AuthStatus::Authenticated
        } else {
            AuthStatus::Unauthenticated
        },
        None => AuthStatus::Unauthenticated,
    }
}

/// A refused session and an unreachable server look the same.
pub proof fn ley_fallos_iguales(estado: u16)
    requires
        !es_exito(estado),
    ensures
        estado_de(Some(estado)) == AuthStatus::Unauthenticated,
        estado_de(Some(estado)) == estado_de(None),
{
}

/// The startup check that decides between the form and the sign-in page:
/// pending until the first answer, then fixed.
pub struct ControlSesion {
    resultado: Option<AuthStatus>,
}

impl ControlSesion {
    /// `None` while pending, then the session state.
    pub closed spec fn vista(self) -> Option<AuthStatus> {
        self.resultado
    }

    /// A check that has not heard back yet.
    pub fn new() -> (r: ControlSesion)
        ensures
            r.vista() is None,
    {
        ControlSesion { resultado: None }
    }

    /// Takes the answer of the status endpoint. The first answer settles the
    /// outcome; later ones change nothing.
    pub fn resolver(&mut self, respuesta: Option<u16>)
        ensures
            old(self).vista() is None ==> final(self).vista() == Some(estado_de(respuesta)),
            old(self).vista() is Some ==> final(self).vista() == old(self).vista(),
    {
        if self.resultado.is_none() {
            self.resultado = Some(auth_status(respuesta));
        }
    }

    /// Pending (`None`) or the session state that was settled.
    pub fn estado(&self) -> (r: Option<AuthStatus>)
        ensures
            r == self.vista(),
    {
        self.resultado
    }
}

} // verus!

use vstd::prelude::*;

use crate::formulario::Adjunto;
use crate::json::{carga, codificar_encuesta};
use crate::modelo::Encuesta;

verus! {

/// One part of the multipart body sent to the ingestion endpoint.
#[derive(Clone, Debug)]
pub enum Parte {
    /// A text part: the field name and the text.
    Texto { campo: String, texto: String },
    /// A file part: the field name, the file name and the raw bytes.
    Archivo { campo: String, nombre_archivo: String, contenido: Vec<u8> },
}

/// Name of the part that carries the survey.
pub open spec fn campo_datos() -> Seq<char> {
    "data"@
}

/// Name of each part that carries a photo.
pub open spec fn campo_fotos() -> Seq<char> {
    "fotos"@
}

/// The parts of a submission, in order: the survey's JSON payload under
/// `data`, then one part under `fotos` per photo, in order, with the photo's
/// own file name and bytes.
pub fn armar_partes(e: &Encuesta, adjuntos: Vec<Adjunto>) -> (r: Vec<Parte>)
    ensures
        r@.len() == adjuntos@.len() + 1,
        r@[0] is Texto,
        r@[0]->Texto_campo@ == campo_datos(),
        r@[0]->Texto_texto@ == carga(*e),
        forall|i: int|
            0 <= i < adjuntos@.len() ==> {
                &&& (#[trigger] r@[i + 1]) is Archivo
                &&& r@[i + 1]->Archivo_campo@ == campo_fotos()
                &&& r@[i + 1]->Archivo_nombre_archivo == adjuntos@[i].nombre_archivo
                &&& r@[i + 1]->Archivo_contenido == adjuntos@[i].contenido
            },
{
    let ghost todos = adjuntos@;
    let mut resto = adjuntos;
    let mut r: Vec<Parte> = Vec::new();
    r.push(Parte::Texto { campo: String::from_str("data"), texto: codificar_encuesta(e) });
    let n = resto.len();
    let mut k: usize = 0;
    while k < n
        invariant
            0 <= k <= n,
            n == todos.len(),
            resto@ == todos.subrange(k as int, n as int),
            r@.len() == k + 1,
            r@[0] is Texto,
            r@[0]->Texto_campo@ == campo_datos(),
            r@[0]->Texto_texto@ == carga(*e),
            forall|i: int|
                0 <= i < k ==> {
                    &&& (#[trigger] r@[i + 1]) is Archivo
                    &&& r@[i + 1]->Archivo_campo@ == campo_fotos()
                    &&& r@[i + 1]->Archivo_nombre_archivo == todos[i].nombre_archivo
                    &&& r@[i + 1]->Archivo_contenido == todos[i].contenido
                },
        decreases n - k,
    {
        let a = resto.remove(0);
        assert(a == todos[k as int]);
        r.push(
            Parte::Archivo {
                campo: String::from_str("fotos"),
                nombre_archivo: a.nombre_archivo,
                contenido: a.contenido,
            },
        );
        k = k + 1;
        assert(resto@ =~= todos.subrange(k as int, n as int));
    }
    r
}

/// How a submission ended.
#[derive(Clone, Copy, Debug, PartialEq, Eq, Structural)]
pub enum ResultadoEnvio {
    /// The server answered; the submission is complete whatever the status.
    Enviado,
    /// The server answered 401: the session has to be renewed.
    NoAutorizado,
    /// The server could not be reached.
    ErrorTransporte,
}

/// Outcome of a submission given the HTTP status that came back, or `None`
/// where the request did not reach the server.
pub open spec fn resultado_de(estado: Option<u16>) -> ResultadoEnvio {
    match estado {
        None => ResultadoEnvio::ErrorTransporte,
        Some(s) => if s == 401 {
            ResultadoEnvio::NoAutorizado
        } else {
            ResultadoEnvio::Enviado
        },
    }
}

/// Classifies the end of a submission: no answer is a transport error, 401
/// asks for a new session, any other status completes it.
pub fn resultado_envio(estado: Option<u16>) -> (r: ResultadoEnvio)
    ensures
        r == resultado_de(estado),
{
    match estado {
        None => ResultadoEnvio::ErrorTransporte,
        Some(s) => if s == 401 {
            ResultadoEnvio::NoAutorizado
        } else {
            ResultadoEnvio::Enviado
        },
    }
}

} // verus!

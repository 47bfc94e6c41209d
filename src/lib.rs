//! Data model, wire encoding, form state and submission rules for a
//! manhole inspection form.

pub mod modelo;
pub mod json;
pub mod formulario;
pub mod envio;
pub mod rutas;
pub mod auth;
pub mod catalogo;
pub mod cola;

pub use modelo::{Conexion, Encuesta};

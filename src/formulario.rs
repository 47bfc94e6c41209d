use vstd::prelude::*;

use crate::modelo::{Campo, CampoConexion, Conexion, Encuesta};

verus! {

/// One photo chosen for the survey: its file name and its raw bytes.
#[derive(Clone, Debug)]
pub struct Adjunto {
    pub nombre_archivo: String,
    pub contenido: Vec<u8>,
}

/// A connection operation named a row that does not exist.
#[derive(Clone, Copy, Debug, PartialEq, Eq, Structural)]
pub enum ErrorFila {
    FueraDeRango,
}

/// A connection whose every field is empty.
pub open spec fn es_vacia(c: Conexion) -> bool {
    forall|f: CampoConexion| #[trigger] c.valor(f) == Seq::<char>::empty()
}

/// The survey being filled in and the photos chosen for it. Only its
/// methods change either of them.
pub struct Formulario {
    encuesta: Encuesta,
    adjuntos: Vec<Adjunto>,
}

impl Formulario {
    /// The survey being filled in.
    pub closed spec fn estado(self) -> Encuesta {
        self.encuesta
    }

    /// The photos chosen for it.
    pub closed spec fn fotos(self) -> Seq<Adjunto> {
        self.adjuntos@
    }

    /// The connections of the survey being filled in.
    pub open spec fn filas(self) -> Seq<Conexion> {
        self.estado().lista_conexiones@
    }

    /// An empty survey with no photos.
    pub fn new() -> (r: Formulario)
        ensures
            forall|c: Campo| #[trigger] r.estado().valor(c) == Seq::<char>::empty(),
            r.filas().len() == 0,
            r.fotos().len() == 0,
    {
        Formulario { encuesta: Encuesta::default(), adjuntos: Vec::new() }
    }

    /// The survey as it stands.
    pub fn encuesta(&self) -> (r: &Encuesta)
        ensures
            *r == self.estado(),
    {
        &self.encuesta
    }

    /// The photos as they stand.
    pub fn adjuntos(&self) -> (r: &Vec<Adjunto>)
        ensures
            r@ == self.fotos(),
    {
        &self.adjuntos
    }

    /// Reads one scalar field of the survey.
    pub fn field(&self, c: Campo) -> (r: &String)
        ensures
            r@ == self.estado().valor(c),
    {
        self.encuesta.campo(c)
    }

    /// Writes `v` into one scalar field, whatever text it is; nothing else
    /// changes.
    pub fn set_field(&mut self, c: Campo, v: String)
        ensures
            final(self).estado().valor(c) == v@,
            forall|d: Campo| d != c ==> final(self).estado().valor(d) == old(self).estado().valor(d),
            final(self).filas() == old(self).filas(),
            final(self).fotos() == old(self).fotos(),
    {
        self.encuesta.set_campo(c, v);
    }

    /// Appends an empty connection after the existing ones.
    pub fn add_connection(&mut self)
        ensures
            final(self).filas().len() == old(self).filas().len() + 1,
            final(self).filas().drop_last() == old(self).filas(),
            es_vacia(final(self).filas().last()),
            final(self).estado().valores() == old(self).estado().valores(),
            final(self).fotos() == old(self).fotos(),
    {
        let ghost antes = self.encuesta.lista_conexiones@;
        self.encuesta.lista_conexiones.push(Conexion::default());
        assert(self.encuesta.lista_conexiones@.drop_last() =~= antes);
    }

    /// Removes the connection at row `i` and returns it; the rows after it
    /// move up by one. A row that does not exist is an error and changes
    /// nothing.
    pub fn remove_connection(&mut self, i: usize) -> (r: Result<Conexion, ErrorFila>)
        ensures
            i < old(self).filas().len() ==> r == Ok::<Conexion, ErrorFila>(old(self).filas()[i as int])
                && final(self).filas() == old(self).filas().remove(i as int),
            i >= old(self).filas().len() ==> r == Err::<Conexion, ErrorFila>(ErrorFila::FueraDeRango)
                && final(self).filas() == old(self).filas(),
            final(self).estado().valores() == old(self).estado().valores(),
            final(self).fotos() == old(self).fotos(),
    {
        if i < self.encuesta.lista_conexiones.len() {
            Ok(self.encuesta.lista_conexiones.remove(i))
        } else {
            Err(ErrorFila::FueraDeRango)
        }
    }

    /// Reads one field of the connection at row `i`; `None` where that row
    /// does not exist.
    pub fn connection_field(&self, i: usize, c: CampoConexion) -> (r: Option<&String>)
        ensures
            i < self.filas().len() ==> r is Some && r->Some_0@ == self.filas()[i as int].valor(c),
            i >= self.filas().len() ==> r is None,
    {
        if i < self.encuesta.lista_conexiones.len() {
            Some(self.encuesta.lista_conexiones[i].campo(c))
        } else {
            None
        }
    }

    /// Writes `v` into one field of the connection at row `i`; nothing else
    /// changes. A row that does not exist is an error and changes nothing.
    pub fn set_connection_field(&mut self, i: usize, c: CampoConexion, v: String) -> (r: Result<
        (),
        ErrorFila,
    >)
        ensures
            i < old(self).filas().len() <==> r is Ok,
            r is Err ==> r == Err::<(), ErrorFila>(ErrorFila::FueraDeRango) && final(self).filas()
                == old(self).filas(),
            r is Ok ==> {
                &&& final(self).filas().len() == old(self).filas().len()
                &&& final(self).filas()[i as int].valor(c) == v@
                &&& forall|d: CampoConexion|
                    d != c ==> final(self).filas()[i as int].valor(d) == old(
                        self,
                    ).filas()[i as int].valor(d)
                &&& forall|j: int|
                    0 <= j < old(self).filas().len() && j != i ==> final(self).filas()[j] == old(
                        self,
                    ).filas()[j]
            },
            final(self).estado().valores() == old(self).estado().valores(),
            final(self).fotos() == old(self).fotos(),
    {
        if i < self.encuesta.lista_conexiones.len() {
            let ghost antes = self.encuesta.lista_conexiones@;
            let mut fila = self.encuesta.lista_conexiones.remove(i);
            fila.set_campo(c, v);
            self.encuesta.lista_conexiones.insert(i, fila);
            assert forall|j: int|
                0 <= j < antes.len() && j != i implies self.encuesta.lista_conexiones@[j]
                == antes[j] by {
                if j < i {
                } else {
                }
            }
            Ok(())
        } else {
            Err(ErrorFila::FueraDeRango)
        }
    }

    /// Discards the photos chosen so far and keeps `adjuntos`, in order.
    pub fn replace_attachments(&mut self, adjuntos: Vec<Adjunto>)
        ensures
            final(self).fotos() == adjuntos@,
            final(self).estado() == old(self).estado(),
    {
        self.adjuntos = adjuntos;
    }
}

/// Adding a connection and then removing the row it was added at leaves the
/// connections as they were, in length and content.
pub proof fn ley_agregar_quitar(antes: Seq<Conexion>, despues: Seq<Conexion>)
    requires
        despues.len() == antes.len() + 1,
        despues.drop_last() == antes,
    ensures
        despues.remove(antes.len() as int) == antes,
        despues.remove(antes.len() as int).len() == antes.len(),
{
    assert(despues.remove(antes.len() as int) =~= antes);
}

} // verus!

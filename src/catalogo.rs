use vstd::prelude::*;

use crate::modelo::Campo;

verus! {

/// A fixed, ordered list of the values offered for a classification field.
/// The lists are advisory: a field accepts any text.
#[derive(Clone, Copy, Debug, PartialEq, Eq, Structural)]
pub enum Catalogo {
    /// Values for the system type.
    TipoSistema,
    /// Values for the well type.
    TipoPozo,
    /// Values for the whether a component exists.
    SiNo,
    /// Values for the cover type.
    TapaTipo,
    /// Values for the three-level condition.
    BuenoRegularMalo,
    /// Values for the repair diagnosis.
    Diagnostico,
    /// Values for the condition of the loading ring and the cone.
    EstadoEstructural,
    /// Values for the cylinder material.
    CilindroMaterial,
    /// Values for the cylinder condition.
    CilindroEstado,
    /// Values for the channel condition.
    CanuelaEstado,
    /// Values for the step type.
    EscalonesTipo,
    /// Values for the step condition.
    EscalonesEstado,
    /// Values for the overall condition of the well.
    EstadoGeneralPozo,
}

impl Catalogo {
    /// The values, in the order they are offered.
    pub open spec fn lista(self) -> Seq<Seq<char>> {
        match self {
            Catalogo::TipoSistema => seq!["Aguas Lluvia"@, "Aguas Residuales"@, "Combinado"@],
            Catalogo::TipoPozo => seq!["Pozo"@, "Camara"@, "Alivio"@],
            Catalogo::SiNo => seq!["Si"@, "No"@],
            Catalogo::TapaTipo => seq!["Ferroconcreto"@, "Concreto"@, "Hierro sin Bisagra"@, "Hierro con bisagra"@, "Tapa Seguridad"@, "Tapa en fibra"@],
            Catalogo::BuenoRegularMalo => seq!["Bueno"@, "Regular"@, "Malo"@],
            Catalogo::Diagnostico => seq!["Cambiar"@, "Reparar"@, "No Requiere"@],
            Catalogo::EstadoEstructural => seq!["Bueno"@, "Regular"@, "Malo"@, "Grietas"@, "Partido"@, "Hundido"@],
            Catalogo::CilindroMaterial => seq!["Mamposteria"@, "Concreto"@, "GRP"@],
            Catalogo::CilindroEstado => seq!["Bueno"@, "Regular"@, "Malo"@, "Grietas"@, "Partido"@, "Huecos"@, "Sin Pañete"@, "Otro"@],
            Catalogo::CanuelaEstado => seq!["Bueno"@, "Regular"@, "Malo"@, "Sedimentada"@, "Desgastada"@, "Socavacion"@],
            Catalogo::EscalonesTipo => seq!["Escalones"@, "Ladrillos"@],
            Catalogo::EscalonesEstado => seq!["Bueno"@, "Regular"@, "Malo"@, "Doblados"@, "Faltan"@, "Corroidos"@],
            Catalogo::EstadoGeneralPozo => seq!["Infiltracion"@, "Represado"@, "Con basura"@, "Raices"@, "Fuera de Servicio"@, "Lleno de tierra"@],
        }
    }

    /// The values, in the order they are offered.
    pub fn opciones(&self) -> (r: Vec<&'static str>)
        ensures
            r@.map_values(|s: &'static str| s@) == self.lista(),
    {
        let r: Vec<&'static str> = match self {
            Catalogo::TipoSistema => vec!["Aguas Lluvia", "Aguas Residuales", "Combinado"],
            Catalogo::TipoPozo => vec!["Pozo", "Camara", "Alivio"],
            Catalogo::SiNo => vec!["Si", "No"],
            Catalogo::TapaTipo => vec!["Ferroconcreto", "Concreto", "Hierro sin Bisagra", "Hierro con bisagra", "Tapa Seguridad", "Tapa en fibra"],
            Catalogo::BuenoRegularMalo => vec!["Bueno", "Regular", "Malo"],
            Catalogo::Diagnostico => vec!["Cambiar", "Reparar", "No Requiere"],
            Catalogo::EstadoEstructural => vec!["Bueno", "Regular", "Malo", "Grietas", "Partido", "Hundido"],
            Catalogo::CilindroMaterial => vec!["Mamposteria", "Concreto", "GRP"],
            Catalogo::CilindroEstado => vec!["Bueno", "Regular", "Malo", "Grietas", "Partido", "Huecos", "Sin Pañete", "Otro"],
            Catalogo::CanuelaEstado => vec!["Bueno", "Regular", "Malo", "Sedimentada", "Desgastada", "Socavacion"],
            Catalogo::EscalonesTipo => vec!["Escalones", "Ladrillos"],
            Catalogo::EscalonesEstado => vec!["Bueno", "Regular", "Malo", "Doblados", "Faltan", "Corroidos"],
            Catalogo::EstadoGeneralPozo => vec!["Infiltracion", "Represado", "Con basura", "Raices", "Fuera de Servicio", "Lleno de tierra"],
        };
        assert(r@.map_values(|s: &'static str| s@) =~= self.lista());
        r
    }

    /// Whether `v` is one of the values offered.
    pub fn contiene(&self, v: &str) -> (r: bool)
        ensures
            r == self.lista().contains(v@),
    {
        let ops = self.opciones();
        let ghost vista = ops@.map_values(|s: &'static str| s@);
        let buscado = String::from_str(v);
        let mut i: usize = 0;
        while i < ops.len()
            invariant
                0 <= i <= ops@.len(),
                vista == ops@.map_values(|s: &'static str| s@),
                vista == self.lista(),
                buscado@ == v@,
                forall|j: int| 0 <= j < i ==> vista[j] != v@,
            decreases ops@.len() - i,
        {
            if String::from_str(ops[i]) == buscado {
                assert(vista[i as int] == v@);
                return true;
            }
            i = i + 1;
        }
        false
    }
}

/// The catalog offered for a field; `None` for the free-text fields.
pub open spec fn catalogo_spec(c: Campo) -> Option<Catalogo> {
    match c {
        Campo::PozoNumero => None,
        Campo::TipoSistema => Some(Catalogo::TipoSistema),
        Campo::TipoPozo => Some(Catalogo::TipoPozo),
        Campo::TapaExiste => Some(Catalogo::SiNo),
        Campo::TapaTipo => Some(Catalogo::TapaTipo),
        Campo::TapaEstado => Some(Catalogo::BuenoRegularMalo),
        Campo::TapaDiagnostico => Some(Catalogo::Diagnostico),
        Campo::CargueExiste => Some(Catalogo::SiNo),
        Campo::CargueEstado => Some(Catalogo::EstadoEstructural),
        Campo::CargueDiagnostico => Some(Catalogo::Diagnostico),
        Campo::ConoExiste => Some(Catalogo::SiNo),
        Campo::ConoEstado => Some(Catalogo::EstadoEstructural),
        Campo::ConoDiagnostico => Some(Catalogo::Diagnostico),
        Campo::CilindroMaterial => Some(Catalogo::CilindroMaterial),
        Campo::CilindroEstado => Some(Catalogo::CilindroEstado),
        Campo::CilindroDiagnostico => Some(Catalogo::Diagnostico),
        Campo::CanuelaEstado => Some(Catalogo::CanuelaEstado),
        Campo::CanuelaDiagnostico => Some(Catalogo::Diagnostico),
        Campo::EscalonesExiste => Some(Catalogo::SiNo),
        Campo::EscalonesTipo => Some(Catalogo::EscalonesTipo),
        Campo::EscalonesEstado => Some(Catalogo::EscalonesEstado),
        Campo::EscalonesDiagnostico => Some(Catalogo::Diagnostico),
        Campo::EstadoGeneralPozo => Some(Catalogo::EstadoGeneralPozo),
        Campo::Observaciones => None,
    }
}

/// The catalog offered for a field; `None` for the free-text fields.
pub fn catalogo_de(c: Campo) -> (r: Option<Catalogo>)
    ensures
        r == catalogo_spec(c),
{
    match c {
        Campo::PozoNumero => None,
        Campo::TipoSistema => Some(Catalogo::TipoSistema),
        Campo::TipoPozo => Some(Catalogo::TipoPozo),
        Campo::TapaExiste => Some(Catalogo::SiNo),
        Campo::TapaTipo => Some(Catalogo::TapaTipo),
        Campo::TapaEstado => Some(Catalogo::BuenoRegularMalo),
        Campo::TapaDiagnostico => Some(Catalogo::Diagnostico),
        Campo::CargueExiste => Some(Catalogo::SiNo),
        Campo::CargueEstado => Some(Catalogo::EstadoEstructural),
        Campo::CargueDiagnostico => Some(Catalogo::Diagnostico),
        Campo::ConoExiste => Some(Catalogo::SiNo),
        Campo::ConoEstado => Some(Catalogo::EstadoEstructural),
        Campo::ConoDiagnostico => Some(Catalogo::Diagnostico),
        Campo::CilindroMaterial => Some(Catalogo::CilindroMaterial),
        Campo::CilindroEstado => Some(Catalogo::CilindroEstado),
        Campo::CilindroDiagnostico => Some(Catalogo::Diagnostico),
        Campo::CanuelaEstado => Some(Catalogo::CanuelaEstado),
        Campo::CanuelaDiagnostico => Some(Catalogo::Diagnostico),
        Campo::EscalonesExiste => Some(Catalogo::SiNo),
        Campo::EscalonesTipo => Some(Catalogo::EscalonesTipo),
        Campo::EscalonesEstado => Some(Catalogo::EscalonesEstado),
        Campo::EscalonesDiagnostico => Some(Catalogo::Diagnostico),
        Campo::EstadoGeneralPozo => Some(Catalogo::EstadoGeneralPozo),
        Campo::Observaciones => None,
    }
}

} // verus!

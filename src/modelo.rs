use vstd::prelude::*;

verus! {

/// Number of text fields of a survey.
pub const N_CAMPOS_ENCUESTA: usize = 24;

/// Number of text fields of a connection.
pub const N_CAMPOS_CONEXION: usize = 5;

/// A text field of a connection.
#[derive(Clone, Copy, Debug, PartialEq, Eq, Structural)]
pub enum CampoConexion {
    CotaRazante,
    CotaClave,
    DiametroPulgadas,
    Material,
    ConectaA,
}

impl CampoConexion {
    /// Position of the field in the record, which is also its position on the wire.
    pub open spec fn indice(self) -> int {
        match self {
            CampoConexion::CotaRazante => 0,
            CampoConexion::CotaClave => 1,
            CampoConexion::DiametroPulgadas => 2,
            CampoConexion::Material => 3,
            CampoConexion::ConectaA => 4,
        }
    }

    /// The field at position `i`, for `0 <= i < 5`.
    pub open spec fn en(i: int) -> Self {
        if i == 0 {
            CampoConexion::CotaRazante
        } else if i == 1 {
            CampoConexion::CotaClave
        } else if i == 2 {
            CampoConexion::DiametroPulgadas
        } else if i == 3 {
            CampoConexion::Material
        } else {
            CampoConexion::ConectaA
        }
    }

    /// Key of the field in the JSON payload.
    pub open spec fn clave(self) -> Seq<char> {
        match self {
            CampoConexion::CotaRazante => "cota_razante"@,
            CampoConexion::CotaClave => "cota_clave"@,
            CampoConexion::DiametroPulgadas => "diametro_pulgadas"@,
            CampoConexion::Material => "material"@,
            CampoConexion::ConectaA => "conecta_a"@,
        }
    }

    /// The field at position `i`.
    pub fn de_indice(i: usize) -> (r: Self)
        requires
            i < N_CAMPOS_CONEXION,
        ensures
            r.indice() == i,
            r == Self::en(i as int),
    {
        if i == 0 {
            CampoConexion::CotaRazante
        } else if i == 1 {
            CampoConexion::CotaClave
        } else if i == 2 {
            CampoConexion::DiametroPulgadas
        } else if i == 3 {
            CampoConexion::Material
        } else {
            CampoConexion::ConectaA
        }
    }

    /// Key of the field in the JSON payload.
    pub fn nombre(&self) -> (r: &'static str)
        ensures
            r@ == self.clave(),
    {
        match self {
            CampoConexion::CotaRazante => "cota_razante",
            CampoConexion::CotaClave => "cota_clave",
            CampoConexion::DiametroPulgadas => "diametro_pulgadas",
            CampoConexion::Material => "material",
            CampoConexion::ConectaA => "conecta_a",
        }
    }
}

/// One pipe entering or leaving the manhole. Every field is free text.
#[derive(Clone, Debug)]
pub struct Conexion {
    pub cota_razante: String,
    pub cota_clave: String,
    pub diametro_pulgadas: String,
    pub material: String,
    pub conecta_a: String,
}

impl Conexion {
    /// Text held by one field.
    pub open spec fn valor(self, c: CampoConexion) -> Seq<char> {
        match c {
            CampoConexion::CotaRazante => self.cota_razante@,
            CampoConexion::CotaClave => self.cota_clave@,
            CampoConexion::DiametroPulgadas => self.diametro_pulgadas@,
            CampoConexion::Material => self.material@,
            CampoConexion::ConectaA => self.conecta_a@,
        }
    }

    /// The text fields in record order.
    pub open spec fn valores(self) -> Seq<Seq<char>> {
        Seq::new(5 as nat, |i: int| self.valor(CampoConexion::en(i)))
    }

    /// Reads one text field.
    pub fn campo(&self, c: CampoConexion) -> (r: &String)
        ensures
            r@ == self.valor(c),
    {
        match c {
            CampoConexion::CotaRazante => &self.cota_razante,
            CampoConexion::CotaClave => &self.cota_clave,
            CampoConexion::DiametroPulgadas => &self.diametro_pulgadas,
            CampoConexion::Material => &self.material,
            CampoConexion::ConectaA => &self.conecta_a,
        }
    }

    /// Overwrites one text field; every other field keeps its value.
    pub fn set_campo(&mut self, c: CampoConexion, v: String)
        ensures
            final(self).valor(c) == v@,
            forall|d: CampoConexion| d != c ==> final(self).valor(d) == old(self).valor(d),
    {
        match c {
            CampoConexion::CotaRazante => self.cota_razante = v,
            CampoConexion::CotaClave => self.cota_clave = v,
            CampoConexion::DiametroPulgadas => self.diametro_pulgadas = v,
            CampoConexion::Material => self.material = v,
            CampoConexion::ConectaA => self.conecta_a = v,
        }
    }
}

/// A text field of a survey.
#[derive(Clone, Copy, Debug, PartialEq, Eq, Structural)]
pub enum Campo {
    PozoNumero,
    TipoSistema,
    TipoPozo,
    TapaExiste,
    TapaTipo,
    TapaEstado,
    TapaDiagnostico,
    CargueExiste,
    CargueEstado,
    CargueDiagnostico,
    ConoExiste,
    ConoEstado,
    ConoDiagnostico,
    CilindroMaterial,
    CilindroEstado,
    CilindroDiagnostico,
    CanuelaEstado,
    CanuelaDiagnostico,
    EscalonesExiste,
    EscalonesTipo,
    EscalonesEstado,
    EscalonesDiagnostico,
    EstadoGeneralPozo,
    Observaciones,
}

impl Campo {
    /// Position of the field in the record, which is also its position on the wire.
    pub open spec fn indice(self) -> int {
        match self {
            Campo::PozoNumero => 0,
            Campo::TipoSistema => 1,
            Campo::TipoPozo => 2,
            Campo::TapaExiste => 3,
            Campo::TapaTipo => 4,
            Campo::TapaEstado => 5,
            Campo::TapaDiagnostico => 6,
            Campo::CargueExiste => 7,
            Campo::CargueEstado => 8,
            Campo::CargueDiagnostico => 9,
            Campo::ConoExiste => 10,
            Campo::ConoEstado => 11,
            Campo::ConoDiagnostico => 12,
            Campo::CilindroMaterial => 13,
            Campo::CilindroEstado => 14,
            Campo::CilindroDiagnostico => 15,
            Campo::CanuelaEstado => 16,
            Campo::CanuelaDiagnostico => 17,
            Campo::EscalonesExiste => 18,
            Campo::EscalonesTipo => 19,
            Campo::EscalonesEstado => 20,
            Campo::EscalonesDiagnostico => 21,
            Campo::EstadoGeneralPozo => 22,
            Campo::Observaciones => 23,
        }
    }

    /// The field at position `i`, for `0 <= i < 24`.
    pub open spec fn en(i: int) -> Self {
        if i == 0 {
            Campo::PozoNumero
        } else if i == 1 {
            Campo::TipoSistema
        } else if i == 2 {
            Campo::TipoPozo
        } else if i == 3 {
            Campo::TapaExiste
        } else if i == 4 {
            Campo::TapaTipo
        } else if i == 5 {
            Campo::TapaEstado
        } else if i == 6 {
            Campo::TapaDiagnostico
        } else if i == 7 {
            Campo::CargueExiste
        } else if i == 8 {
            Campo::CargueEstado
        } else if i == 9 {
            Campo::CargueDiagnostico
        } else if i == 10 {
            Campo::ConoExiste
        } else if i == 11 {
            Campo::ConoEstado
        } else if i == 12 {
            Campo::ConoDiagnostico
        } else if i == 13 {
            Campo::CilindroMaterial
        } else if i == 14 {
            Campo::CilindroEstado
        } else if i == 15 {
            Campo::CilindroDiagnostico
        } else if i == 16 {
            Campo::CanuelaEstado
        } else if i == 17 {
            Campo::CanuelaDiagnostico
        } else if i == 18 {
            Campo::EscalonesExiste
        } else if i == 19 {
            Campo::EscalonesTipo
        } else if i == 20 {
            Campo::EscalonesEstado
        } else if i == 21 {
            Campo::EscalonesDiagnostico
        } else if i == 22 {
            Campo::EstadoGeneralPozo
        } else {
            Campo::Observaciones
        }
    }

    /// Key of the field in the JSON payload.
    pub open spec fn clave(self) -> Seq<char> {
        match self {
            Campo::PozoNumero => "pozo_numero"@,
            Campo::TipoSistema => "tipo_sistema"@,
            Campo::TipoPozo => "tipo_pozo"@,
            Campo::TapaExiste => "tapa_existe"@,
            Campo::TapaTipo => "tapa_tipo"@,
            Campo::TapaEstado => "tapa_estado"@,
            Campo::TapaDiagnostico => "tapa_diagnostico"@,
            Campo::CargueExiste => "cargue_existe"@,
            Campo::CargueEstado => "cargue_estado"@,
            Campo::CargueDiagnostico => "cargue_diagnostico"@,
            Campo::ConoExiste => "cono_existe"@,
            Campo::ConoEstado => "cono_estado"@,
            Campo::ConoDiagnostico => "cono_diagnostico"@,
            Campo::CilindroMaterial => "cilindro_material"@,
            Campo::CilindroEstado => "cilindro_estado"@,
            Campo::CilindroDiagnostico => "cilindro_diagnostico"@,
            Campo::CanuelaEstado => "canuela_estado"@,
            Campo::CanuelaDiagnostico => "canuela_diagnostico"@,
            Campo::EscalonesExiste => "escalones_existe"@,
            Campo::EscalonesTipo => "escalones_tipo"@,
            Campo::EscalonesEstado => "escalones_estado"@,
            Campo::EscalonesDiagnostico => "escalones_diagnostico"@,
            Campo::EstadoGeneralPozo => "estado_general_pozo"@,
            Campo::Observaciones => "observaciones"@,
        }
    }

    /// The field at position `i`.
    pub fn de_indice(i: usize) -> (r: Self)
        requires
            i < N_CAMPOS_ENCUESTA,
        ensures
            r.indice() == i,
            r == Self::en(i as int),
    {
        if i == 0 {
            Campo::PozoNumero
        } else if i == 1 {
            Campo::TipoSistema
        } else if i == 2 {
            Campo::TipoPozo
        } else if i == 3 {
            Campo::TapaExiste
        } else if i == 4 {
            Campo::TapaTipo
        } else if i == 5 {
            Campo::TapaEstado
        } else if i == 6 {
            Campo::TapaDiagnostico
        } else if i == 7 {
            Campo::CargueExiste
        } else if i == 8 {
            Campo::CargueEstado
        } else if i == 9 {
            Campo::CargueDiagnostico
        } else if i == 10 {
            Campo::ConoExiste
        } else if i == 11 {
            Campo::ConoEstado
        } else if i == 12 {
            Campo::ConoDiagnostico
        } else if i == 13 {
            Campo::CilindroMaterial
        } else if i == 14 {
            Campo::CilindroEstado
        } else if i == 15 {
            Campo::CilindroDiagnostico
        } else if i == 16 {
            Campo::CanuelaEstado
        } else if i == 17 {
            Campo::CanuelaDiagnostico
        } else if i == 18 {
            Campo::EscalonesExiste
        } else if i == 19 {
            Campo::EscalonesTipo
        } else if i == 20 {
            Campo::EscalonesEstado
        } else if i == 21 {
            Campo::EscalonesDiagnostico
        } else if i == 22 {
            Campo::EstadoGeneralPozo
        } else {
            Campo::Observaciones
        }
    }

    /// Key of the field in the JSON payload.
    pub fn nombre(&self) -> (r: &'static str)
        ensures
            r@ == self.clave(),
    {
        match self {
            Campo::PozoNumero => "pozo_numero",
            Campo::TipoSistema => "tipo_sistema",
            Campo::TipoPozo => "tipo_pozo",
            Campo::TapaExiste => "tapa_existe",
            Campo::TapaTipo => "tapa_tipo",
            Campo::TapaEstado => "tapa_estado",
            Campo::TapaDiagnostico => "tapa_diagnostico",
            Campo::CargueExiste => "cargue_existe",
            Campo::CargueEstado => "cargue_estado",
            Campo::CargueDiagnostico => "cargue_diagnostico",
            Campo::ConoExiste => "cono_existe",
            Campo::ConoEstado => "cono_estado",
            Campo::ConoDiagnostico => "cono_diagnostico",
            Campo::CilindroMaterial => "cilindro_material",
            Campo::CilindroEstado => "cilindro_estado",
            Campo::CilindroDiagnostico => "cilindro_diagnostico",
            Campo::CanuelaEstado => "canuela_estado",
            Campo::CanuelaDiagnostico => "canuela_diagnostico",
            Campo::EscalonesExiste => "escalones_existe",
            Campo::EscalonesTipo => "escalones_tipo",
            Campo::EscalonesEstado => "escalones_estado",
            Campo::EscalonesDiagnostico => "escalones_diagnostico",
            Campo::EstadoGeneralPozo => "estado_general_pozo",
            Campo::Observaciones => "observaciones",
        }
    }
}

/// One manhole inspection report: text fields for each component of the
/// manhole and the ordered list of its connections.
#[derive(Clone, Debug)]
pub struct Encuesta {
    pub pozo_numero: String,
    pub tipo_sistema: String,
    pub tipo_pozo: String,
    pub tapa_existe: String,
    pub tapa_tipo: String,
    pub tapa_estado: String,
    pub tapa_diagnostico: String,
    pub cargue_existe: String,
    pub cargue_estado: String,
    pub cargue_diagnostico: String,
    pub cono_existe: String,
    pub cono_estado: String,
    pub cono_diagnostico: String,
    pub cilindro_material: String,
    pub cilindro_estado: String,
    pub cilindro_diagnostico: String,
    pub canuela_estado: String,
    pub canuela_diagnostico: String,
    pub escalones_existe: String,
    pub escalones_tipo: String,
    pub escalones_estado: String,
    pub escalones_diagnostico: String,
    pub estado_general_pozo: String,
    pub observaciones: String,
    /// Connections in the order they were entered; `conexiones` on the wire.
    pub lista_conexiones: Vec<Conexion>,
}

impl Encuesta {
    /// Text held by one field.
    pub open spec fn valor(self, c: Campo) -> Seq<char> {
        match c {
            Campo::PozoNumero => self.pozo_numero@,
            Campo::TipoSistema => self.tipo_sistema@,
            Campo::TipoPozo => self.tipo_pozo@,
            Campo::TapaExiste => self.tapa_existe@,
            Campo::TapaTipo => self.tapa_tipo@,
            Campo::TapaEstado => self.tapa_estado@,
            Campo::TapaDiagnostico => self.tapa_diagnostico@,
            Campo::CargueExiste => self.cargue_existe@,
            Campo::CargueEstado => self.cargue_estado@,
            Campo::CargueDiagnostico => self.cargue_diagnostico@,
            Campo::ConoExiste => self.cono_existe@,
            Campo::ConoEstado => self.cono_estado@,
            Campo::ConoDiagnostico => self.cono_diagnostico@,
            Campo::CilindroMaterial => self.cilindro_material@,
            Campo::CilindroEstado => self.cilindro_estado@,
            Campo::CilindroDiagnostico => self.cilindro_diagnostico@,
            Campo::CanuelaEstado => self.canuela_estado@,
            Campo::CanuelaDiagnostico => self.canuela_diagnostico@,
            Campo::EscalonesExiste => self.escalones_existe@,
            Campo::EscalonesTipo => self.escalones_tipo@,
            Campo::EscalonesEstado => self.escalones_estado@,
            Campo::EscalonesDiagnostico => self.escalones_diagnostico@,
            Campo::EstadoGeneralPozo => self.estado_general_pozo@,
            Campo::Observaciones => self.observaciones@,
        }
    }

    /// The text fields in record order.
    pub open spec fn valores(self) -> Seq<Seq<char>> {
        Seq::new(24 as nat, |i: int| self.valor(Campo::en(i)))
    }

    /// Reads one text field.
    pub fn campo(&self, c: Campo) -> (r: &String)
        ensures
            r@ == self.valor(c),
    {
        match c {
            Campo::PozoNumero => &self.pozo_numero,
            Campo::TipoSistema => &self.tipo_sistema,
            Campo::TipoPozo => &self.tipo_pozo,
            Campo::TapaExiste => &self.tapa_existe,
            Campo::TapaTipo => &self.tapa_tipo,
            Campo::TapaEstado => &self.tapa_estado,
            Campo::TapaDiagnostico => &self.tapa_diagnostico,
            Campo::CargueExiste => &self.cargue_existe,
            Campo::CargueEstado => &self.cargue_estado,
            Campo::CargueDiagnostico => &self.cargue_diagnostico,
            Campo::ConoExiste => &self.cono_existe,
            Campo::ConoEstado => &self.cono_estado,
            Campo::ConoDiagnostico => &self.cono_diagnostico,
            Campo::CilindroMaterial => &self.cilindro_material,
            Campo::CilindroEstado => &self.cilindro_estado,
            Campo::CilindroDiagnostico => &self.cilindro_diagnostico,
            Campo::CanuelaEstado => &self.canuela_estado,
            Campo::CanuelaDiagnostico => &self.canuela_diagnostico,
            Campo::EscalonesExiste => &self.escalones_existe,
            Campo::EscalonesTipo => &self.escalones_tipo,
            Campo::EscalonesEstado => &self.escalones_estado,
            Campo::EscalonesDiagnostico => &self.escalones_diagnostico,
            Campo::EstadoGeneralPozo => &self.estado_general_pozo,
            Campo::Observaciones => &self.observaciones,
        }
    }

    /// Overwrites one text field; every other field keeps its value.
    pub fn set_campo(&mut self, c: Campo, v: String)
        ensures
            final(self).valor(c) == v@,
            forall|d: Campo| d != c ==> final(self).valor(d) == old(self).valor(d),
            final(self).lista_conexiones == old(self).lista_conexiones,
    {
        match c {
            Campo::PozoNumero => self.pozo_numero = v,
            Campo::TipoSistema => self.tipo_sistema = v,
            Campo::TipoPozo => self.tipo_pozo = v,
            Campo::TapaExiste => self.tapa_existe = v,
            Campo::TapaTipo => self.tapa_tipo = v,
            Campo::TapaEstado => self.tapa_estado = v,
            Campo::TapaDiagnostico => self.tapa_diagnostico = v,
            Campo::CargueExiste => self.cargue_existe = v,
            Campo::CargueEstado => self.cargue_estado = v,
            Campo::CargueDiagnostico => self.cargue_diagnostico = v,
            Campo::ConoExiste => self.cono_existe = v,
            Campo::ConoEstado => self.cono_estado = v,
            Campo::ConoDiagnostico => self.cono_diagnostico = v,
            Campo::CilindroMaterial => self.cilindro_material = v,
            Campo::CilindroEstado => self.cilindro_estado = v,
            Campo::CilindroDiagnostico => self.cilindro_diagnostico = v,
            Campo::CanuelaEstado => self.canuela_estado = v,
            Campo::CanuelaDiagnostico => self.canuela_diagnostico = v,
            Campo::EscalonesExiste => self.escalones_existe = v,
            Campo::EscalonesTipo => self.escalones_tipo = v,
            Campo::EscalonesEstado => self.escalones_estado = v,
            Campo::EscalonesDiagnostico => self.escalones_diagnostico = v,
            Campo::EstadoGeneralPozo => self.estado_general_pozo = v,
            Campo::Observaciones => self.observaciones = v,
        }
    }
}

impl Default for Conexion {
    /// Every text field empty.
    fn default() -> (r: Self)
        ensures
            forall|c: CampoConexion| r.valor(c) == Seq::<char>::empty(),
    {
        Conexion {
            cota_razante: String::new(),
            cota_clave: String::new(),
            diametro_pulgadas: String::new(),
            material: String::new(),
            conecta_a: String::new(),
        }
    }
}

impl Default for Encuesta {
    /// Every text field empty, no connections.
    fn default() -> (r: Self)
        ensures
            forall|c: Campo| r.valor(c) == Seq::<char>::empty(),
            r.lista_conexiones@.len() == 0,
    {
        Encuesta {
            pozo_numero: String::new(),
            tipo_sistema: String::new(),
            tipo_pozo: String::new(),
            tapa_existe: String::new(),
            tapa_tipo: String::new(),
            tapa_estado: String::new(),
            tapa_diagnostico: String::new(),
            cargue_existe: String::new(),
            cargue_estado: String::new(),
            cargue_diagnostico: String::new(),
            cono_existe: String::new(),
            cono_estado: String::new(),
            cono_diagnostico: String::new(),
            cilindro_material: String::new(),
            cilindro_estado: String::new(),
            cilindro_diagnostico: String::new(),
            canuela_estado: String::new(),
            canuela_diagnostico: String::new(),
            escalones_existe: String::new(),
            escalones_tipo: String::new(),
            escalones_estado: String::new(),
            escalones_diagnostico: String::new(),
            estado_general_pozo: String::new(),
            observaciones: String::new(),
            lista_conexiones: Vec::new(),
        }
    }
}

impl Encuesta {
    /// The connections, each as its text fields in record order.
    pub open spec fn conexiones(self) -> Seq<Seq<Seq<char>>> {
        self.lista_conexiones@.map_values(|c: Conexion| c.valores())
    }
}

} // verus!

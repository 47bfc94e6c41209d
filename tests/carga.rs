use pozos::formulario::Formulario;
use pozos::json::codificar_encuesta;
use pozos::modelo::{Campo, CampoConexion};
use pozos::{Conexion, Encuesta};
use serde_json::Value;

fn conexion(cr: &str, cc: &str, d: &str, m: &str, a: &str) -> Conexion {
    Conexion {
        cota_razante: cr.to_string(),
        cota_clave: cc.to_string(),
        diametro_pulgadas: d.to_string(),
        material: m.to_string(),
        conecta_a: a.to_string(),
    }
}

#[test]
fn escenario_aguas_lluvia() {
    let mut e = Encuesta::default();
    e.tipo_sistema = "Aguas Lluvia".to_string();
    e.pozo_numero = "P-102".to_string();
    e.lista_conexiones.push(conexion("100.5", "98.2", "8", "PVC", "Pozo P-101"));
    let texto = codificar_encuesta(&e);
    let v: Value = serde_json::from_str(&texto).unwrap();
    assert_eq!(v["tipo_sistema"], Value::String("Aguas Lluvia".to_string()));
    assert_eq!(v["pozo_numero"], Value::String("P-102".to_string()));
    let cs = v["conexiones"].as_array().unwrap();
    assert_eq!(cs.len(), 1);
    let c = cs[0].as_object().unwrap();
    assert_eq!(c.len(), 5);
    assert_eq!(c["cota_razante"], "100.5");
    assert_eq!(c["cota_clave"], "98.2");
    assert_eq!(c["diametro_pulgadas"], "8");
    assert_eq!(c["material"], "PVC");
    assert_eq!(c["conecta_a"], "Pozo P-101");
    assert!(v.get("lista_conexiones").is_none());
}

#[test]
fn carga_vacia_exacta() {
    let e = Encuesta::default();
    let texto = codificar_encuesta(&e);
    let esperado = "{\"pozo_numero\":\"\",\"tipo_sistema\":\"\",\"tipo_pozo\":\"\",\"tapa_existe\":\"\",\"tapa_tipo\":\"\",\"tapa_estado\":\"\",\"tapa_diagnostico\":\"\",\"cargue_existe\":\"\",\"cargue_estado\":\"\",\"cargue_diagnostico\":\"\",\"cono_existe\":\"\",\"cono_estado\":\"\",\"cono_diagnostico\":\"\",\"cilindro_material\":\"\",\"cilindro_estado\":\"\",\"cilindro_diagnostico\":\"\",\"canuela_estado\":\"\",\"canuela_diagnostico\":\"\",\"escalones_existe\":\"\",\"escalones_tipo\":\"\",\"escalones_estado\":\"\",\"escalones_diagnostico\":\"\",\"estado_general_pozo\":\"\",\"observaciones\":\"\",\"conexiones\":[]}";
    assert_eq!(texto, esperado);
}

#[test]
fn carga_escapa_caracteres_especiales() {
    let mut e = Encuesta::default();
    e.observaciones = "dice \"hola\"\\ fin\nlinea\ttab\u{1}ñ".to_string();
    let texto = codificar_encuesta(&e);
    assert!(texto.contains("\"observaciones\":\"dice \\\"hola\\\"\\\\ fin\\nlinea\\ttab\\u0001ñ\""));
    let v: Value = serde_json::from_str(&texto).unwrap();
    assert_eq!(v["observaciones"], Value::String(e.observaciones.clone()));
}

#[test]
fn carga_devuelve_todos_los_campos() {
    let mut f = Formulario::new();
    let campos = [
        (Campo::PozoNumero, "pozo_numero"),
        (Campo::TipoPozo, "tipo_pozo"),
        (Campo::TapaDiagnostico, "tapa_diagnostico"),
        (Campo::CilindroEstado, "cilindro_estado"),
        (Campo::EscalonesTipo, "escalones_tipo"),
        (Campo::Observaciones, "observaciones"),
    ];
    for (i, (c, _)) in campos.iter().enumerate() {
        f.set_field(*c, format!("valor {} \"x\"", i));
    }
    f.add_connection();
    f.add_connection();
    f.set_connection_field(0, CampoConexion::Material, "PVC".to_string()).unwrap();
    f.set_connection_field(1, CampoConexion::ConectaA, "Pozo \\ 7".to_string()).unwrap();
    let v: Value = serde_json::from_str(&codificar_encuesta(f.encuesta())).unwrap();
    let obj = v.as_object().unwrap();
    assert_eq!(obj.len(), 25);
    for (i, (_, k)) in campos.iter().enumerate() {
        assert_eq!(obj[*k], Value::String(format!("valor {} \"x\"", i)));
    }
    assert_eq!(obj["tipo_sistema"], "");
    let cs = obj["conexiones"].as_array().unwrap();
    assert_eq!(cs.len(), 2);
    assert_eq!(cs[0]["material"], "PVC");
    assert_eq!(cs[0]["conecta_a"], "");
    assert_eq!(cs[1]["conecta_a"], "Pozo \\ 7");
}

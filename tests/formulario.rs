use pozos::formulario::{Adjunto, ErrorFila, Formulario};
use pozos::modelo::{Campo, CampoConexion};

#[test]
fn formulario_nuevo_vacio() {
    let f = Formulario::new();
    assert_eq!(f.field(Campo::TipoSistema), "");
    assert_eq!(f.field(Campo::Observaciones), "");
    assert!(f.encuesta().lista_conexiones.is_empty());
    assert!(f.adjuntos().is_empty());
}

#[test]
fn fijar_y_leer_campo() {
    let mut f = Formulario::new();
    for v in ["", "Aguas Lluvia", "fuera del catálogo", "\"\\\n\t{}[],:", "Sin Pañete"] {
        f.set_field(Campo::TipoSistema, v.to_string());
        assert_eq!(f.field(Campo::TipoSistema), v);
        assert_eq!(f.field(Campo::TipoPozo), "");
    }
}

#[test]
fn agregar_y_quitar_conexion() {
    let mut f = Formulario::new();
    f.add_connection();
    f.set_connection_field(0, CampoConexion::CotaClave, "98.2".to_string()).unwrap();
    let antes = f.encuesta().lista_conexiones.clone();
    f.add_connection();
    assert_eq!(f.encuesta().lista_conexiones.len(), 2);
    assert_eq!(f.connection_field(1, CampoConexion::Material).unwrap(), "");
    let quitada = f.remove_connection(1).unwrap();
    assert_eq!(quitada.cota_clave, "");
    let despues = &f.encuesta().lista_conexiones;
    assert_eq!(despues.len(), antes.len());
    assert_eq!(despues[0].cota_clave, antes[0].cota_clave);
    assert_eq!(f.connection_field(0, CampoConexion::CotaClave).unwrap(), "98.2");
}

#[test]
fn quitar_fila_inexistente() {
    let mut f = Formulario::new();
    f.add_connection();
    assert!(matches!(f.remove_connection(1), Err(ErrorFila::FueraDeRango)));
    assert_eq!(f.encuesta().lista_conexiones.len(), 1);
    assert_eq!(
        f.set_connection_field(3, CampoConexion::Material, "PVC".to_string()),
        Err(ErrorFila::FueraDeRango)
    );
    assert!(f.connection_field(1, CampoConexion::Material).is_none());
}

#[test]
fn quitar_fila_intermedia() {
    let mut f = Formulario::new();
    for m in ["a", "b", "c"] {
        f.add_connection();
        let i = f.encuesta().lista_conexiones.len() - 1;
        f.set_connection_field(i, CampoConexion::Material, m.to_string()).unwrap();
    }
    let q = f.remove_connection(1).unwrap();
    assert_eq!(q.material, "b");
    let l = &f.encuesta().lista_conexiones;
    assert_eq!(l.len(), 2);
    assert_eq!(l[0].material, "a");
    assert_eq!(l[1].material, "c");
}

#[test]
fn reemplazar_adjuntos() {
    let mut f = Formulario::new();
    f.replace_attachments(vec![
        Adjunto { nombre_archivo: "a.jpg".to_string(), contenido: vec![1, 2] },
        Adjunto { nombre_archivo: "b.jpg".to_string(), contenido: vec![3] },
    ]);
    f.set_field(Campo::PozoNumero, "P-1".to_string());
    assert_eq!(f.adjuntos().len(), 2);
    f.replace_attachments(vec![Adjunto { nombre_archivo: "c.png".to_string(), contenido: vec![] }]);
    assert_eq!(f.adjuntos().len(), 1);
    assert_eq!(f.adjuntos()[0].nombre_archivo, "c.png");
    assert_eq!(f.field(Campo::PozoNumero), "P-1");
}

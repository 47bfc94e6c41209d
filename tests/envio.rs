use pozos::auth::{auth_status, ControlSesion, AuthStatus};
use pozos::catalogo::{catalogo_de, Catalogo};
use pozos::cola::{ColaEnvios, PoliticaEnvio};
use pozos::envio::{armar_partes, resultado_envio, Parte, ResultadoEnvio};
use pozos::formulario::Adjunto;
use pozos::json::codificar_encuesta;
use pozos::modelo::Campo;
use pozos::rutas::{url_estado_auth, url_ingesta, url_login};
use pozos::Encuesta;

fn adjunto(n: &str, b: &[u8]) -> Adjunto {
    Adjunto { nombre_archivo: n.to_string(), contenido: b.to_vec() }
}

#[test]
fn partes_sin_adjuntos() {
    let mut e = Encuesta::default();
    e.pozo_numero = "P-102".to_string();
    let partes = armar_partes(&e, vec![]);
    assert_eq!(partes.len(), 1);
    match &partes[0] {
        Parte::Texto { campo, texto } => {
            assert_eq!(campo, "data");
            assert_eq!(texto, &codificar_encuesta(&e));
        }
        _ => panic!("the first part carries the survey"),
    }
}

#[test]
fn partes_con_adjuntos() {
    let e = Encuesta::default();
    let partes = armar_partes(&e, vec![adjunto("uno.jpg", &[1, 2, 3]), adjunto("dos.png", &[9])]);
    assert_eq!(partes.len(), 3);
    let datos = partes.iter().filter(|p| matches!(p, Parte::Texto { campo, .. } if campo == "data")).count();
    assert_eq!(datos, 1);
    let esperados = [("uno.jpg", vec![1u8, 2, 3]), ("dos.png", vec![9u8])];
    for (i, (n, b)) in esperados.iter().enumerate() {
        match &partes[i + 1] {
            Parte::Archivo { campo, nombre_archivo, contenido } => {
                assert_eq!(campo, "fotos");
                assert_eq!(nombre_archivo, n);
                assert_eq!(contenido, b);
            }
            _ => panic!("photo parts follow the survey"),
        }
    }
}

#[test]
fn resultado_de_envio() {
    assert_eq!(resultado_envio(None), ResultadoEnvio::ErrorTransporte);
    assert_eq!(resultado_envio(Some(401)), ResultadoEnvio::NoAutorizado);
    assert_eq!(resultado_envio(Some(200)), ResultadoEnvio::Enviado);
    assert_eq!(resultado_envio(Some(500)), ResultadoEnvio::Enviado);
}

#[test]
fn estado_de_sesion() {
    assert_eq!(auth_status(Some(200)), AuthStatus::Authenticated);
    assert_eq!(auth_status(Some(204)), AuthStatus::Authenticated);
    assert_eq!(auth_status(Some(401)), AuthStatus::Unauthenticated);
    assert_eq!(auth_status(None), AuthStatus::Unauthenticated);
    assert_eq!(auth_status(Some(401)), auth_status(None));
    assert_eq!(auth_status(Some(302)), AuthStatus::Unauthenticated);
}

#[test]
fn puerta_se_resuelve_una_vez() {
    let mut g = ControlSesion::new();
    assert_eq!(g.estado(), None);
    g.resolver(Some(200));
    assert_eq!(g.estado(), Some(AuthStatus::Authenticated));
    g.resolver(None);
    assert_eq!(g.estado(), Some(AuthStatus::Authenticated));
    let mut h = ControlSesion::new();
    h.resolver(None);
    assert_eq!(h.estado(), Some(AuthStatus::Unauthenticated));
}

#[test]
fn direcciones() {
    assert_eq!(
        url_estado_auth("http://192.168.128.15:5000", 1700000000123),
        "http://192.168.128.15:5000/auth/status?_=1700000000123"
    );
    assert_eq!(url_estado_auth("http://h", 0), "http://h/auth/status?_=0");
    assert_eq!(url_ingesta("http://h"), "http://h/ingestar-encuesta");
    assert_eq!(url_login("http://h"), "http://h/login");
}

#[test]
fn catalogos() {
    assert_eq!(Catalogo::TipoSistema.opciones(), vec!["Aguas Lluvia", "Aguas Residuales", "Combinado"]);
    assert_eq!(Catalogo::CilindroEstado.opciones().len(), 8);
    assert!(Catalogo::CilindroEstado.contiene("Sin Pañete"));
    assert!(!Catalogo::SiNo.contiene("Tal vez"));
    assert!(!Catalogo::SiNo.contiene(""));
    assert_eq!(catalogo_de(Campo::ConoEstado), Some(Catalogo::EstadoEstructural));
    assert_eq!(catalogo_de(Campo::Observaciones), None);
}

#[test]
fn cola_en_orden() {
    let mut c: ColaEnvios<u32> = ColaEnvios::new(PoliticaEnvio::Encolar);
    assert!(c.enviar(1));
    assert!(c.enviar(2));
    assert_eq!(c.siguiente(), Some(1));
    assert!(c.enviar(3));
    assert_eq!(c.siguiente(), None);
    c.terminar();
    assert_eq!(c.siguiente(), Some(2));
    c.terminar();
    assert_eq!(c.siguiente(), Some(3));
    c.terminar();
    assert_eq!(c.siguiente(), None);
}

#[test]
fn cola_rechaza_mientras_envia() {
    let mut c: ColaEnvios<u32> = ColaEnvios::new(PoliticaEnvio::Rechazar);
    assert!(c.enviar(1));
    assert!(!c.enviar(2));
    assert_eq!(c.siguiente(), Some(1));
    assert!(!c.enviar(3));
    c.terminar();
    assert!(c.enviar(4));
    assert_eq!(c.siguiente(), Some(4));
}

use clinica::citas::{create_cita, update_cita, Cita};
use clinica::errores::{eliminado, encontrado, listado, violates_unique, ApiError, StoreError};
use clinica::examenes::{add_examenes_a_diagnostico, ExamenDiagnostico, NuevoExamenDiagnostico};
use clinica::expedientes::{
    create_diagnostico, localizar_expediente, Expediente, NuevoExpedienteDiagnostico,
};
use clinica::fecha::{edad, Fecha, FechaHora, Hora};
use clinica::pacientes::{
    create_paciente, get_paciente_by_id, get_pacientes, update_paciente, Paciente,
};
use clinica::personal::{create_horario, create_usuario, update_horario, Horario, Usuario};

fn fecha(year: i32, month: u32, day: u32) -> Fecha {
    Fecha { year, month, day }
}

fn instante(year: i32, month: u32, day: u32, hour: u32) -> FechaHora {
    FechaHora {
        fecha: fecha(year, month, day),
        hora: Hora { hour, minute: 0, second: 0, nanosecond: 0 },
    }
}

fn paciente(nacimiento: Fecha) -> Paciente {
    Paciente {
        id: None,
        nombre: "Ana".to_string(),
        apellido: "Rojas".to_string(),
        ci: "1234567".to_string(),
        telefono: "70000000".to_string(),
        email: "ana@example.com".to_string(),
        fecha_nacimiento: nacimiento,
        sexo: "F".to_string(),
    }
}

#[test]
fn edad_en_el_trigesimo_aniversario() {
    assert_eq!(edad(&fecha(1994, 10, 19), &fecha(2024, 10, 19)), 30);
}

#[test]
fn edad_la_vispera_del_trigesimo_aniversario() {
    assert_eq!(edad(&fecha(1994, 10, 19), &fecha(2024, 10, 18)), 29);
    assert_eq!(edad(&fecha(1994, 1, 1), &fecha(2023, 12, 31)), 29);
}

#[test]
fn edad_de_un_nacido_un_29_de_febrero() {
    assert_eq!(edad(&fecha(2000, 2, 29), &fecha(2023, 2, 28)), 22);
    assert_eq!(edad(&fecha(2000, 2, 29), &fecha(2023, 3, 1)), 23);
    assert_eq!(edad(&fecha(2000, 2, 29), &fecha(2024, 2, 29)), 24);
}

#[test]
fn edad_el_dia_del_nacimiento_es_cero() {
    assert_eq!(edad(&fecha(2020, 5, 5), &fecha(2020, 5, 5)), 0);
}

#[test]
fn codigos_de_estado() {
    assert_eq!(ApiError::NotFound.status_code(), 404);
    assert_eq!(ApiError::Unauthorized.status_code(), 401);
    assert_eq!(ApiError::BadRequest.status_code(), 400);
    assert_eq!(ApiError::Conflict.status_code(), 409);
    assert_eq!(ApiError::InternalError.status_code(), 500);
}

#[test]
fn violacion_de_unicidad() {
    assert!(violates_unique(&StoreError::Database { code: Some("23505".to_string()) }));
    assert!(!violates_unique(&StoreError::Database { code: Some("23503".to_string()) }));
    assert!(!violates_unique(&StoreError::Database { code: None }));
    assert!(!violates_unique(&StoreError::RowNotFound));
}

#[test]
fn listado_y_busqueda() {
    assert_eq!(listado(Ok(vec![3, 1, 2])), Ok(vec![3, 1, 2]));
    assert_eq!(listado::<i32>(Err(StoreError::Other)), Err(ApiError::InternalError));
    assert_eq!(encontrado(Ok(5)), Ok(5));
    assert_eq!(encontrado::<i32>(Err(StoreError::RowNotFound)), Err(ApiError::NotFound));
    assert_eq!(encontrado::<i32>(Err(StoreError::Other)), Err(ApiError::InternalError));
    let rechazo = StoreError::Database { code: Some("42P01".to_string()) };
    assert_eq!(encontrado::<i32>(Err(rechazo)), Err(ApiError::InternalError));
}

#[test]
fn eliminar_dos_veces_da_lo_mismo() {
    let primera = eliminado(Ok(1));
    let segunda = eliminado(Ok(0));
    assert_eq!(primera, Ok(()));
    assert_eq!(segunda, primera);
    assert_eq!(eliminado(Err(StoreError::Other)), Err(ApiError::InternalError));
}

#[test]
fn pacientes_con_su_edad() {
    let hoy = fecha(2024, 10, 19);
    let filas = vec![(1, paciente(fecha(1994, 10, 19))), (2, paciente(fecha(1994, 10, 20)))];
    let leidos = get_pacientes(Ok(filas), &hoy).unwrap();
    assert_eq!(leidos.len(), 2);
    assert_eq!(leidos[0].id, 1);
    assert_eq!(leidos[0].edad, 30);
    assert_eq!(leidos[1].id, 2);
    assert_eq!(leidos[1].edad, 29);
    assert_eq!(leidos[1].ci, "1234567");
    assert_eq!(get_pacientes(Ok(vec![]), &hoy), Ok(vec![]));
    assert_eq!(get_pacientes(Err(StoreError::Other), &hoy), Err(ApiError::InternalError));
}

#[test]
fn paciente_creado_y_leido_de_nuevo() {
    let p = paciente(fecha(1990, 3, 15));
    let creado = create_paciente(p.clone(), Ok(42)).unwrap();
    assert_eq!(creado.id, Some(42));
    assert_eq!(Paciente { id: None, ..creado.clone() }, p);
    let leido = get_paciente_by_id(Ok((42, creado)), &fecha(2024, 3, 15)).unwrap();
    assert_eq!(leido.id, 42);
    assert_eq!(leido.nombre, p.nombre);
    assert_eq!(leido.apellido, p.apellido);
    assert_eq!(leido.ci, p.ci);
    assert_eq!(leido.telefono, p.telefono);
    assert_eq!(leido.email, p.email);
    assert_eq!(leido.fecha_nacimiento, p.fecha_nacimiento);
    assert_eq!(leido.sexo, p.sexo);
    assert_eq!(leido.edad, 34);
}

#[test]
fn paciente_que_falla_al_crearse() {
    let p = paciente(fecha(1990, 3, 15));
    assert_eq!(create_paciente(p, Err(StoreError::Other)), Err(ApiError::InternalError));
}

#[test]
fn paciente_ausente_o_en_conflicto() {
    let hoy = fecha(2024, 1, 1);
    assert_eq!(get_paciente_by_id(Err(StoreError::RowNotFound), &hoy), Err(ApiError::NotFound));
    let unicidad = StoreError::Database { code: Some("23505".to_string()) };
    assert_eq!(get_paciente_by_id(Err(unicidad), &hoy), Err(ApiError::Conflict));
    assert_eq!(get_paciente_by_id(Err(StoreError::Other), &hoy), Err(ApiError::InternalError));
    let rechazo = StoreError::Database { code: Some("08006".to_string()) };
    assert_eq!(get_paciente_by_id(Err(rechazo), &hoy), Err(ApiError::InternalError));
}

#[test]
fn paciente_actualizado() {
    let p = paciente(fecha(1990, 3, 15));
    let actualizado = update_paciente(9, p.clone(), Ok(1)).unwrap();
    assert_eq!(actualizado, Paciente { id: Some(9), ..p.clone() });
    assert_eq!(update_paciente(9, p, Err(StoreError::Other)), Err(ApiError::InternalError));
}

#[test]
fn diagnostico_sin_expediente_y_luego_con_el() {
    // the patient has no record yet
    assert_eq!(localizar_expediente(Err(StoreError::RowNotFound)), Err(ApiError::NotFound));
    // a failing store is not mistaken for a missing record
    assert_eq!(localizar_expediente(Err(StoreError::Other)), Err(ApiError::InternalError));
    // once the record exists the same call succeeds
    let expediente_id = localizar_expediente(Ok(7)).unwrap();
    let datos = NuevoExpedienteDiagnostico {
        diagnostico: "Gripe".to_string(),
        tratamiento: Some("Reposo".to_string()),
    };
    let registrado = instante(2024, 6, 1, 10);
    let d = create_diagnostico(expediente_id, datos, Ok((11, registrado))).unwrap();
    assert_eq!(d.id, 11);
    assert_eq!(d.expediente_id, 7);
    assert_eq!(d.diagnostico, "Gripe");
    assert_eq!(d.tratamiento, Some("Reposo".to_string()));
    assert_eq!(d.fecha_registro, registrado);
}

#[test]
fn diagnostico_que_falla_al_insertarse() {
    let datos = NuevoExpedienteDiagnostico { diagnostico: "Gripe".to_string(), tratamiento: None };
    assert_eq!(create_diagnostico(7, datos, Err(StoreError::Other)), Err(ApiError::InternalError));
}

#[test]
fn expediente_de_un_paciente() {
    let e = Expediente { id: 3, paciente_id: 8, fecha_creacion: instante(2024, 1, 2, 9) };
    assert_eq!(encontrado(Ok(e)), Ok(e));
    assert_eq!(encontrado::<Expediente>(Err(StoreError::RowNotFound)), Err(ApiError::NotFound));
}

#[test]
fn examenes_repetidos_dan_filas_distintas() {
    let datos = vec![
        NuevoExamenDiagnostico { examen_id: 5, resultado: Some("4.2".to_string()) },
        NuevoExamenDiagnostico { examen_id: 5, resultado: Some("4.2".to_string()) },
    ];
    let primeras = add_examenes_a_diagnostico(2, datos.clone(), Ok(vec![100, 101])).unwrap();
    assert_eq!(
        primeras,
        vec![
            ExamenDiagnostico {
                id: 100,
                expediente_diagnostico_id: 2,
                examen_id: 5,
                resultado: Some("4.2".to_string()),
            },
            ExamenDiagnostico {
                id: 101,
                expediente_diagnostico_id: 2,
                examen_id: 5,
                resultado: Some("4.2".to_string()),
            },
        ]
    );
    let segundas = add_examenes_a_diagnostico(2, datos, Ok(vec![102, 103])).unwrap();
    assert_eq!(segundas.len(), 2);
    assert_ne!(segundas[0].id, segundas[1].id);
    assert_ne!(segundas[0].id, primeras[0].id);
}

#[test]
fn examenes_sin_un_id_por_entrada() {
    let datos = vec![NuevoExamenDiagnostico { examen_id: 5, resultado: None }];
    assert_eq!(
        add_examenes_a_diagnostico(2, datos.clone(), Ok(vec![])),
        Err(ApiError::InternalError)
    );
    assert_eq!(
        add_examenes_a_diagnostico(2, datos, Err(StoreError::Other)),
        Err(ApiError::InternalError)
    );
    assert_eq!(add_examenes_a_diagnostico(2, vec![], Ok(vec![])), Ok(vec![]));
}

#[test]
fn usuario_creado() {
    let u = Usuario {
        id: None,
        nombre: "Luis".to_string(),
        apellido: "Paz".to_string(),
        telefono: "71111111".to_string(),
        email: "luis@example.com".to_string(),
        fecha_nacimiento: fecha(1980, 1, 31),
        sexo: "M".to_string(),
        rol_id: 2,
        contrasena_hash: "$2b$04$abc".to_string(),
    };
    assert_eq!(create_usuario(u.clone(), Ok(4)), Ok(Usuario { id: Some(4), ..u.clone() }));
    assert_eq!(create_usuario(u, Err(StoreError::Other)), Err(ApiError::InternalError));
}

#[test]
fn horario_creado_y_actualizado() {
    let h = Horario {
        id: None,
        usuario_id: 4,
        dia_semana: "Lunes".to_string(),
        hora_inicio: Hora { hour: 8, minute: 0, second: 0, nanosecond: 0 },
        hora_fin: Hora { hour: 12, minute: 30, second: 0, nanosecond: 0 },
    };
    assert_eq!(create_horario(h.clone(), Ok(6)), Ok(Horario { id: Some(6), ..h.clone() }));
    assert_eq!(update_horario(6, h.clone(), Ok(0)), Ok(Horario { id: Some(6), ..h.clone() }));
    assert_eq!(update_horario(6, h, Err(StoreError::Other)), Err(ApiError::InternalError));
}

#[test]
fn cita_creada_y_actualizada() {
    let c = Cita {
        id: None,
        paciente_id: 1,
        usuario_id: 4,
        fecha_hora: instante(2024, 7, 1, 15),
        estado: "pendiente".to_string(),
        motivo: None,
    };
    assert_eq!(create_cita(c.clone(), Ok(8)), Ok(Cita { id: Some(8), ..c.clone() }));
    assert_eq!(update_cita(8, c.clone(), Ok(1)), Ok(Cita { id: Some(8), ..c.clone() }));
    assert_eq!(create_cita(c, Err(StoreError::Other)), Err(ApiError::InternalError));
}

#[test]
fn fechas_validas_e_invalidas() {
    assert!(fecha(2024, 2, 29).es_valida());
    assert!(!fecha(2023, 2, 29).es_valida());
    assert!(fecha(2000, 2, 29).es_valida());
    assert!(!fecha(1900, 2, 29).es_valida());
    assert!(!fecha(2024, 4, 31).es_valida());
    assert!(fecha(2024, 12, 31).es_valida());
    assert!(!fecha(2024, 13, 1).es_valida());
    assert!(!fecha(2024, 1, 0).es_valida());
    assert!(!fecha(300_000, 1, 1).es_valida());
}

#[test]
fn horas_validas_e_invalidas() {
    assert!(Hora { hour: 23, minute: 59, second: 59, nanosecond: 1_500_000_000 }.es_valida());
    assert!(!Hora { hour: 23, minute: 59, second: 58, nanosecond: 1_500_000_000 }.es_valida());
    assert!(!Hora { hour: 24, minute: 0, second: 0, nanosecond: 0 }.es_valida());
    assert!(Hora { hour: 0, minute: 0, second: 0, nanosecond: 999_999_999 }.es_valida());
}

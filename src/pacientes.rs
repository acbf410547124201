use vstd::prelude::*;

use crate::errores::{
    es_violacion_unicidad, fallo_busqueda, spec_fallo_busqueda, violates_unique, ApiError,
    StoreError,
};
use crate::fecha::{anios_cumplidos, edad, Fecha};

verus! {

/// A patient as written by clients; `id` is assigned by the store.
#[derive(Clone, Debug, PartialEq, Eq)]
pub struct Paciente {
    pub id: Option<i32>,
    pub nombre: String,
    pub apellido: String,
    pub ci: String,
    pub telefono: String,
    pub email: String,
    pub fecha_nacimiento: Fecha,
    pub sexo: String,
}

/// A stored patient with the age derived from its birth date.
#[derive(Clone, Debug, PartialEq, Eq)]
pub struct PacienteConEdad {
    pub id: i32,
    pub nombre: String,
    pub apellido: String,
    pub ci: String,
    pub telefono: String,
    pub email: String,
    pub fecha_nacimiento: Fecha,
    pub sexo: String,
    pub edad: i32,
}

/// The read model of the patient stored under `id` with fields `p`, on `hoy`.
pub open spec fn spec_con_edad(id: i32, p: Paciente, hoy: Fecha) -> PacienteConEdad {
    PacienteConEdad {
        id,
        nombre: p.nombre,
        apellido: p.apellido,
        ci: p.ci,
        telefono: p.telefono,
        email: p.email,
        fecha_nacimiento: p.fecha_nacimiento,
        sexo: p.sexo,
        edad: anios_cumplidos(p.fecha_nacimiento, hoy) as i32,
    }
}

/// `p` with the id that the store assigned.
pub open spec fn spec_con_id(p: Paciente, id: i32) -> Paciente {
    Paciente { id: Some(id), ..p }
}

/// Builds the read model of the patient stored under `id`, with its age on `hoy`.
pub fn con_edad(id: i32, p: Paciente, hoy: &Fecha) -> (r: PacienteConEdad)
    requires
        p.fecha_nacimiento.wf(),
        hoy.wf(),
    ensures
        r == spec_con_edad(id, p, *hoy),
{
    let edad = edad(&p.fecha_nacimiento, hoy);
    PacienteConEdad {
        id,
        nombre: p.nombre,
        apellido: p.apellido,
        ci: p.ci,
        telefono: p.telefono,
        email: p.email,
        fecha_nacimiento: p.fecha_nacimiento,
        sexo: p.sexo,
        edad,
    }
}

/// Lists every patient that the store returned, each with its age on `hoy`.
pub fn get_pacientes(filas: Result<Vec<(i32, Paciente)>, StoreError>, hoy: &Fecha) -> (r: Result<
    Vec<PacienteConEdad>,
    ApiError,
>)
    requires
        hoy.wf(),
        filas matches Ok(v) ==> forall|i: int| 0 <= i < v.len() ==> (#[trigger] v[i].1.fecha_nacimiento).wf(),
    ensures
        match filas {
            Err(_) => r == Err::<Vec<PacienteConEdad>, ApiError>(ApiError::InternalError),
            Ok(v) => r matches Ok(w) && w.len() == v.len() && forall|i: int|
                0 <= i < v.len() ==> #[trigger] w[i] == spec_con_edad(v[i].0, v[i].1, *hoy),
        },
{
    match filas {
        Err(_) => Err(ApiError::InternalError),
        Ok(v) => {
            let ghost filas_v = v@;
            let mut resto = v;
            let mut w: Vec<PacienteConEdad> = Vec::new();
            while resto.len() > 0
                invariant
                    w.len() + resto.len() == filas_v.len(),
                    resto@ == filas_v.subrange(w.len() as int, filas_v.len() as int),
                    hoy.wf(),
                    forall|j: int| 0 <= j < filas_v.len() ==> (#[trigger] filas_v[j].1.fecha_nacimiento).wf(),
                    forall|j: int| 0 <= j < w.len() ==> #[trigger] w[j] == spec_con_edad(filas_v[j].0, filas_v[j].1, *hoy),
                decreases resto.len(),
            {
                let ghost k = w.len() as int;
                let (id, p) = resto.remove(0);
                assert(filas_v[k] == (id, p));
                w.push(con_edad(id, p, hoy));
            }
            Ok(w)
        },
    }
}

/// Echoes a created patient with the id that the store assigned to it.
pub fn create_paciente(p: Paciente, insertado: Result<i32, StoreError>) -> (r: Result<Paciente, ApiError>)
    ensures
        match insertado {
            Ok(id) => r == Ok::<Paciente, ApiError>(spec_con_id(p, id)),
            Err(_) => r == Err::<Paciente, ApiError>(ApiError::InternalError),
        },
{
    match insertado {
        Ok(id) => Ok(Paciente { id: Some(id), ..p }),
        Err(_) => Err(ApiError::InternalError),
    }
}

/// The patient stored under an id, with its age on `hoy`. No row means that
/// there is no such patient, a unique-constraint violation is a conflict, and
/// any other failure of the store is an internal error.
pub fn get_paciente_by_id(fila: Result<(i32, Paciente), StoreError>, hoy: &Fecha) -> (r: Result<
    PacienteConEdad,
    ApiError,
>)
    requires
        hoy.wf(),
        fila matches Ok(f) ==> f.1.fecha_nacimiento.wf(),
    ensures
        match fila {
            Ok(f) => r == Ok::<PacienteConEdad, ApiError>(spec_con_edad(f.0, f.1, *hoy)),
            Err(e) => r == Err::<PacienteConEdad, ApiError>(
                if es_violacion_unicidad(e) { ApiError::Conflict } else { spec_fallo_busqueda(e) },
            ),
        },
{
    match fila {
        Ok((id, p)) => Ok(con_edad(id, p, hoy)),
        Err(e) => {
            if violates_unique(&e) {
                Err(ApiError::Conflict)
            } else {
                Err(fallo_busqueda(&e))
            }
        },
    }
}

/// Echoes a patient replaced in full under `id`.
pub fn update_paciente(id: i32, p: Paciente, actualizado: Result<u64, StoreError>) -> (r: Result<
    Paciente,
    ApiError,
>)
    ensures
        match actualizado {
            Ok(_) => r == Ok::<Paciente, ApiError>(spec_con_id(p, id)),
            Err(_) => r == Err::<Paciente, ApiError>(ApiError::InternalError),
        },
{
    match actualizado {
        Ok(_) => Ok(Paciente { id: Some(id), ..p }),
        Err(_) => Err(ApiError::InternalError),
    }
}

/// A patient read back under the id that its creation returned holds the
/// fields it was created with, that id, and its age on the day of reading.
pub proof fn ley_paciente_ida_y_vuelta(p: Paciente, id: i32, hoy: Fecha)
    requires
        p.fecha_nacimiento.wf(),
        hoy.wf(),
    ensures
        ({
            let creado = spec_con_id(p, id);
            let leido = spec_con_edad(id, creado, hoy);
            &&& creado.id == Some(id)
            &&& leido.id == id
            &&& leido.nombre == p.nombre
            &&& leido.apellido == p.apellido
            &&& leido.ci == p.ci
            &&& leido.telefono == p.telefono
            &&& leido.email == p.email
            &&& leido.fecha_nacimiento == p.fecha_nacimiento
            &&& leido.sexo == p.sexo
            &&& leido.edad == anios_cumplidos(p.fecha_nacimiento, hoy)
        }),
{
}

} // verus!

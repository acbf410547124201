use vstd::prelude::*;

use crate::errores::{ApiError, StoreError};
use crate::fecha::FechaHora;

verus! {

/// An appointment of a patient with a staff user, as written by clients.
#[derive(Clone, Debug, PartialEq, Eq)]
pub struct Cita {
    pub id: Option<i32>,
    pub paciente_id: i32,
    pub usuario_id: i32,
    pub fecha_hora: FechaHora,
    pub estado: String,
    pub motivo: Option<String>,
}

/// A stored appointment with the names of its patient and of its staff user,
/// resolved by join.
#[derive(Clone, Debug, PartialEq, Eq)]
pub struct CitaConDetalles {
    pub id: i32,
    pub paciente_id: i32,
    pub nombre_paciente: String,
    pub apellido_paciente: String,
    pub usuario_id: i32,
    pub nombre_medico: String,
    pub apellido_medico: String,
    pub fecha_hora: FechaHora,
    pub estado: String,
    pub motivo: Option<String>,
}

/// Echoes a created appointment with the id that the store assigned to it.
pub fn create_cita(c: Cita, insertado: Result<i32, StoreError>) -> (r: Result<Cita, ApiError>)
    ensures
        match insertado {
            Ok(id) => r == Ok::<Cita, ApiError>(Cita { id: Some(id), ..c }),
            Err(_) => r == Err::<Cita, ApiError>(ApiError::InternalError),
        },
{
    match insertado {
        Ok(id) => Ok(Cita { id: Some(id), ..c }),
        Err(_) => Err(ApiError::InternalError),
    }
}

/// Echoes an appointment replaced in full under `id`.
pub fn update_cita(id: i32, c: Cita, actualizado: Result<u64, StoreError>) -> (r: Result<Cita, ApiError>)
    ensures
        match actualizado {
            Ok(_) => r == Ok::<Cita, ApiError>(Cita { id: Some(id), ..c }),
            Err(_) => r == Err::<Cita, ApiError>(ApiError::InternalError),
        },
{
    match actualizado {
        Ok(_) => Ok(Cita { id: Some(id), ..c }),
        Err(_) => Err(ApiError::InternalError),
    }
}

} // verus!

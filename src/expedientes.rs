use vstd::prelude::*;

use crate::errores::{fallo_busqueda, spec_fallo_busqueda, ApiError, StoreError};
use crate::fecha::FechaHora;

verus! {

/// The medical record of one patient.
#[derive(Clone, Copy, Debug, PartialEq, Eq, Structural)]
pub struct Expediente {
    pub id: i32,
    pub paciente_id: i32,
    pub fecha_creacion: FechaHora,
}

/// A diagnosis filed in a medical record.
#[derive(Clone, Debug, PartialEq, Eq)]
pub struct ExpedienteDiagnostico {
    pub id: i32,
    pub expediente_id: i32,
    pub diagnostico: String,
    pub tratamiento: Option<String>,
    pub fecha_registro: FechaHora,
}

/// A diagnosis as written by clients.
#[derive(Clone, Debug, PartialEq, Eq)]
pub struct NuevoExpedienteDiagnostico {
    pub diagnostico: String,
    pub tratamiento: Option<String>,
}

/// The record of a patient, which diagnoses need before they can be read or
/// filed: when the store has none for the patient, the patient is not found;
/// any other failure of the store is an internal error. The record is never
/// created here.
pub fn localizar_expediente(expediente_id: Result<i32, StoreError>) -> (r: Result<i32, ApiError>)
    ensures
        match expediente_id {
            Ok(id) => r == Ok::<i32, ApiError>(id),
            Err(e) => r == Err::<i32, ApiError>(spec_fallo_busqueda(e)),
        },
{
    match expediente_id {
        Ok(id) => Ok(id),
        Err(e) => Err(fallo_busqueda(&e)),
    }
}

pub open spec fn spec_diagnostico(
    expediente_id: i32,
    datos: NuevoExpedienteDiagnostico,
    id: i32,
    fecha_registro: FechaHora,
) -> ExpedienteDiagnostico {
    ExpedienteDiagnostico {
        id,
        expediente_id,
        diagnostico: datos.diagnostico,
        tratamiento: datos.tratamiento,
        fecha_registro,
    }
}

/// The diagnosis filed in record `expediente_id`, given the id and the
/// registration time that the store assigned on insert.
pub fn create_diagnostico(
    expediente_id: i32,
    datos: NuevoExpedienteDiagnostico,
    insertado: Result<(i32, FechaHora), StoreError>,
) -> (r: Result<ExpedienteDiagnostico, ApiError>)
    ensures
        match insertado {
            Ok((id, fecha)) => r == Ok::<ExpedienteDiagnostico, ApiError>(
                spec_diagnostico(expediente_id, datos, id, fecha),
            ),
            Err(_) => r == Err::<ExpedienteDiagnostico, ApiError>(ApiError::InternalError),
        },
{
    match insertado {
        Ok((id, fecha_registro)) => Ok(
            ExpedienteDiagnostico {
                id,
                expediente_id,
                diagnostico: datos.diagnostico,
                tratamiento: datos.tratamiento,
                fecha_registro,
            },
        ),
        Err(_) => Err(ApiError::InternalError),
    }
}

} // verus!

use vstd::prelude::*;

use crate::errores::{ApiError, StoreError};

verus! {

/// A category of lab exams.
#[derive(Clone, Debug, PartialEq, Eq)]
pub struct PerfilExamen {
    pub id: i32,
    pub nombre: String,
}

/// An entry of the exam catalog.
#[derive(Clone, Debug, PartialEq, Eq)]
pub struct Examen {
    pub id: i32,
    pub nombre: String,
    pub descripcion: Option<String>,
    pub referencia_resultado: Option<String>,
    pub perfil_id: i32,
}

/// An entry of the exam catalog with the name of its profile, resolved by join.
#[derive(Clone, Debug, PartialEq, Eq)]
pub struct ExamenConPerfil {
    pub id: i32,
    pub nombre: String,
    pub descripcion: Option<String>,
    pub referencia_resultado: Option<String>,
    pub perfil_nombre: String,
}

/// One result of an exam attached to a diagnosis.
#[derive(Clone, Debug, PartialEq, Eq)]
pub struct ExamenDiagnostico {
    pub id: i32,
    pub expediente_diagnostico_id: i32,
    pub examen_id: i32,
    pub resultado: Option<String>,
}

/// An exam result of a diagnosis with the catalog data of its exam.
#[derive(Clone, Debug, PartialEq, Eq)]
pub struct ExamenDiagnosticoConDetalles {
    pub id: i32,
    pub expediente_diagnostico_id: i32,
    pub examen_id: i32,
    pub examen_nombre: String,
    pub examen_descripcion: Option<String>,
    pub examen_referencia: Option<String>,
    pub resultado: Option<String>,
}

/// An exam result as written by clients.
#[derive(Clone, Debug, PartialEq, Eq)]
pub struct NuevoExamenDiagnostico {
    pub examen_id: i32,
    pub resultado: Option<String>,
}

pub open spec fn spec_examen_diagnostico(
    diagnostico_id: i32,
    dato: NuevoExamenDiagnostico,
    id: i32,
) -> ExamenDiagnostico {
    ExamenDiagnostico {
        id,
        expediente_diagnostico_id: diagnostico_id,
        examen_id: dato.examen_id,
        resultado: dato.resultado,
    }
}

/// The exam results attached to diagnosis `diagnostico_id`: one row for each
/// entry, in order, with the id that the store assigned to its insert. Entries
/// for the same exam each get a row of their own. Unless the store returned
/// one id for each entry, the operation failed.
pub fn add_examenes_a_diagnostico(
    diagnostico_id: i32,
    datos: Vec<NuevoExamenDiagnostico>,
    ids: Result<Vec<i32>, StoreError>,
) -> (r: Result<Vec<ExamenDiagnostico>, ApiError>)
    ensures
        match ids {
            Ok(ids) => if ids.len() == datos.len() {
                r matches Ok(filas) && filas.len() == datos.len() && forall|i: int|
                    0 <= i < datos.len() ==> #[trigger] filas[i] == spec_examen_diagnostico(
                        diagnostico_id,
                        datos[i],
                        ids[i],
                    )
            } else {
                r == Err::<Vec<ExamenDiagnostico>, ApiError>(ApiError::InternalError)
            },
            Err(_) => r == Err::<Vec<ExamenDiagnostico>, ApiError>(ApiError::InternalError),
        },
{
    let ids = match ids {
        Ok(ids) => ids,
        Err(_) => {
            return Err(ApiError::InternalError);
        },
    };
    if ids.len() != datos.len() {
        return Err(ApiError::InternalError);
    }
    let ghost datos_v = datos@;
    let mut resto = datos;
    let mut filas: Vec<ExamenDiagnostico> = Vec::new();
    while resto.len() > 0
        invariant
            ids.len() == datos_v.len(),
            filas.len() + resto.len() == datos_v.len(),
            resto@ == datos_v.subrange(filas.len() as int, datos_v.len() as int),
            forall|j: int|
                0 <= j < filas.len() ==> #[trigger] filas[j] == spec_examen_diagnostico(
                    diagnostico_id,
                    datos_v[j],
                    ids[j],
                ),
        decreases resto.len(),
    {
        let k = filas.len();
        let dato = resto.remove(0);
        assert(datos_v[k as int] == dato);
        filas.push(
            ExamenDiagnostico {
                id: ids[k],
                expediente_diagnostico_id: diagnostico_id,
                examen_id: dato.examen_id,
                resultado: dato.resultado,
            },
        );
    }
    Ok(filas)
}

} // verus!

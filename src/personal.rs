use vstd::prelude::*;

use crate::errores::{ApiError, StoreError};
use crate::fecha::{Fecha, Hora};

verus! {

/// A staff user as written by clients; `id` is assigned by the store.
#[derive(Clone, Debug, PartialEq, Eq)]
pub struct Usuario {
    pub id: Option<i32>,
    pub nombre: String,
    pub apellido: String,
    pub telefono: String,
    pub email: String,
    pub fecha_nacimiento: Fecha,
    pub sexo: String,
    pub rol_id: i32,
    pub contrasena_hash: String,
}

/// A stored staff user with the name of its role, resolved by join. Its
/// password hash is not part of it.
#[derive(Clone, Debug, PartialEq, Eq)]
pub struct UsuarioConRol {
    pub id: i32,
    pub nombre: String,
    pub apellido: String,
    pub telefono: String,
    pub email: String,
    pub fecha_nacimiento: Fecha,
    pub sexo: String,
    pub rol_id: i32,
    pub rol_nombre: String,
}

/// The working hours of a staff user on one day of the week.
#[derive(Clone, Debug, PartialEq, Eq)]
pub struct Horario {
    pub id: Option<i32>,
    pub usuario_id: i32,
    pub dia_semana: String,
    pub hora_inicio: Hora,
    pub hora_fin: Hora,
}

/// A stored schedule with the name of its staff user, resolved by join.
#[derive(Clone, Debug, PartialEq, Eq)]
pub struct HorarioConUsuario {
    pub id: i32,
    pub usuario_id: i32,
    pub nombre_usuario: String,
    pub apellido_usuario: String,
    pub dia_semana: String,
    pub hora_inicio: Hora,
    pub hora_fin: Hora,
}

/// Echoes a created staff user with the id that the store assigned to it.
pub fn create_usuario(u: Usuario, insertado: Result<i32, StoreError>) -> (r: Result<Usuario, ApiError>)
    ensures
        match insertado {
            Ok(id) => r == Ok::<Usuario, ApiError>(Usuario { id: Some(id), ..u }),
            Err(_) => r == Err::<Usuario, ApiError>(ApiError::InternalError),
        },
{
    match insertado {
        Ok(id) => Ok(Usuario { id: Some(id), ..u }),
        Err(_) => Err(ApiError::InternalError),
    }
}

/// Echoes a created schedule with the id that the store assigned to it.
pub fn create_horario(h: Horario, insertado: Result<i32, StoreError>) -> (r: Result<Horario, ApiError>)
    ensures
        match insertado {
            Ok(id) => r == Ok::<Horario, ApiError>(Horario { id: Some(id), ..h }),
            Err(_) => r == Err::<Horario, ApiError>(ApiError::InternalError),
        },
{
    match insertado {
        Ok(id) => Ok(Horario { id: Some(id), ..h }),
        Err(_) => Err(ApiError::InternalError),
    }
}

/// Echoes a schedule replaced in full under `id`.
pub fn update_horario(id: i32, h: Horario, actualizado: Result<u64, StoreError>) -> (r: Result<
    Horario,
    ApiError,
>)
    ensures
        match actualizado {
            Ok(_) => r == Ok::<Horario, ApiError>(Horario { id: Some(id), ..h }),
            Err(_) => r == Err::<Horario, ApiError>(ApiError::InternalError),
        },
{
    match actualizado {
        Ok(_) => Ok(Horario { id: Some(id), ..h }),
        Err(_) => Err(ApiError::InternalError),
    }
}

} // verus!

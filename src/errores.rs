use vstd::prelude::*;

verus! {

/// How an operation fails, as the caller of the service sees it.
#[derive(Clone, Copy, Debug, PartialEq, Eq, Structural)]
pub enum ApiError {
    /// A referenced entity is absent.
    NotFound,
    /// Bad credentials, or a bad, expired or wrong-kind token.
    Unauthorized,
    /// The target of a recovery request is unknown.
    BadRequest,
    /// A unique constraint was violated.
    Conflict,
    /// The store, the password hashing or the token signing failed.
    InternalError,
}

impl ApiError {
    pub open spec fn spec_status_code(self) -> u16 {
        match self {
            ApiError::NotFound => 404,
            ApiError::Unauthorized => 401,
            ApiError::BadRequest => 400,
            ApiError::Conflict => 409,
            ApiError::InternalError => 500,
        }
    }

    /// The HTTP status that reports this error.
    pub fn status_code(&self) -> (r: u16)
        ensures
            r == self.spec_status_code(),
    {
        match self {
            ApiError::NotFound => 404,
            ApiError::Unauthorized => 401,
            ApiError::BadRequest => 400,
            ApiError::Conflict => 409,
            ApiError::InternalError => 500,
        }
    }
}

/// What the relational store reported when a statement failed.
#[derive(Debug, PartialEq, Eq)]
pub enum StoreError {
    /// A statement that expects one row found none.
    RowNotFound,
    /// The database rejected the statement; `code` is its SQLSTATE, when given.
    Database { code: Option<String> },
    /// The connection, the pool or the decoding of a row failed.
    Other,
}

/// The SQLSTATE of a unique-constraint violation.
pub open spec fn violacion_unicidad() -> Seq<char> {
    "23505"@
}

/// The error is a unique-constraint violation reported by the database.
pub open spec fn es_violacion_unicidad(e: StoreError) -> bool {
    match e {
        StoreError::Database { code: Some(c) } => c@ == violacion_unicidad(),
        _ => false,
    }
}

/// Tells whether `e` is a unique-constraint violation.
pub fn violates_unique(e: &StoreError) -> (r: bool)
    ensures
        r == es_violacion_unicidad(*e),
{
    match e {
        StoreError::Database { code: Some(c) } => {
            let unicidad = "23505".to_owned();
            *c == unicidad
        },
        _ => false,
    }
}

/// The outcome of a listing: every row that the store returned, in its order.
pub fn listado<T>(filas: Result<Vec<T>, StoreError>) -> (r: Result<Vec<T>, ApiError>)
    ensures
        match filas {
            Ok(v) => r == Ok::<Vec<T>, ApiError>(v),
            Err(_) => r == Err::<Vec<T>, ApiError>(ApiError::InternalError),
        },
{
    match filas {
        Ok(v) => Ok(v),
        Err(_) => Err(ApiError::InternalError),
    }
}

/// The error of a lookup that failed: no row means that the entity is
/// absent; any other failure is the store's.
pub open spec fn spec_fallo_busqueda(e: StoreError) -> ApiError {
    match e {
        StoreError::RowNotFound => ApiError::NotFound,
        _ => ApiError::InternalError,
    }
}

/// Tells how a failed lookup is reported.
pub fn fallo_busqueda(e: &StoreError) -> (r: ApiError)
    ensures
        r == spec_fallo_busqueda(*e),
{
    match e {
        StoreError::RowNotFound => ApiError::NotFound,
        _ => ApiError::InternalError,
    }
}

/// The outcome of a lookup by id: no row means that the entity is absent,
/// and any other failure of the store is an internal error.
pub fn encontrado<T>(fila: Result<T, StoreError>) -> (r: Result<T, ApiError>)
    ensures
        match fila {
            Ok(v) => r == Ok::<T, ApiError>(v),
            Err(e) => r == Err::<T, ApiError>(spec_fallo_busqueda(e)),
        },
{
    match fila {
        Ok(v) => Ok(v),
        Err(e) => Err(fallo_busqueda(&e)),
    }
}

pub open spec fn spec_eliminado(borradas: Result<u64, StoreError>) -> Result<(), ApiError> {
    match borradas {
        Ok(_) => Ok(()),
        Err(_) => Err(ApiError::InternalError),
    }
}

/// The outcome of a hard delete, given the number of rows that the store
/// removed: removing none is no error.
pub fn eliminado(borradas: Result<u64, StoreError>) -> (r: Result<(), ApiError>)
    ensures
        r == spec_eliminado(borradas),
{
    match borradas {
        Ok(_) => Ok(()),
        Err(_) => Err(ApiError::InternalError),
    }
}

/// Deleting is idempotent: whether the first delete removed the row and the
/// second found nothing left, or any other counts, both report success alike.
pub proof fn ley_eliminacion_idempotente(primera: u64, segunda: u64)
    ensures
        spec_eliminado(Ok(primera)) == spec_eliminado(Ok(segunda)),
        spec_eliminado(Ok(segunda)) == Ok::<(), ApiError>(()),
{
}

} // verus!

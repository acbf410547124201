use vstd::prelude::*;

use crate::credenciales::{cifrar_contrasena, verificacion_bcrypt, verificar_contrasena};
use crate::errores::{ApiError, StoreError};
use crate::tokens::{firmar, spec_verificar, token_firmado, verificar, Claims, TokenError};

verus! {

/// Lifetime of a session token, in seconds.
pub const DURACION_SESION: u64 = 3600;

/// Lifetime of a recovery token, in seconds.
pub const DURACION_RECUPERACION: u64 = 900;

/// The role that marks a token as good for a password reset and nothing else.
pub open spec fn rol_recuperacion() -> Seq<char> {
    "recuperacion"@
}

pub open spec fn mensaje_recuperacion() -> Seq<char> {
    "Se ha enviado un token de recuperación a tu correo"@
}

pub open spec fn mensaje_cambio() -> Seq<char> {
    "Contraseña actualizada exitosamente"@
}

/// What the store holds of a staff user for a login, with the name of the
/// user's role resolved by join.
#[derive(Clone, Debug, PartialEq, Eq)]
pub struct CredencialesUsuario {
    pub id: i32,
    pub contrasena_hash: String,
    pub rol_id: i32,
    pub nombre: String,
    pub apellido: String,
    pub rol_nombre: String,
}

/// The answer to a successful login.
#[derive(Clone, Debug, PartialEq, Eq)]
pub struct LoginResponse {
    pub token: String,
    pub rol: String,
    pub usuario_id: i32,
    pub nombre: String,
    pub apellido: String,
}

/// A recovery token, for delivery to the user, and the confirmation to show.
#[derive(Clone, Debug, PartialEq, Eq)]
pub struct RecuperacionEmitida {
    pub token: String,
    pub mensaje: String,
}

/// The new password hash to store for a staff user.
#[derive(Clone, Debug, PartialEq, Eq)]
pub struct CambioContrasena {
    pub usuario_id: i32,
    pub contrasena_hash: String,
}

/// `r` is what a login owes for `email` and `contrasena`, given the user that
/// the store found for that e-mail, the time `ahora` and the signing secret.
/// An unknown e-mail and a wrong password are refused alike; a store that
/// fails otherwise is an internal error.
pub open spec fn es_resultado_login(
    email: Seq<char>,
    contrasena: Seq<char>,
    fila: Result<CredencialesUsuario, StoreError>,
    ahora: u64,
    secreto: Seq<u8>,
    r: Result<LoginResponse, ApiError>,
) -> bool {
    match fila {
        Err(StoreError::RowNotFound) => r == Err::<LoginResponse, ApiError>(ApiError::Unauthorized),
        Err(_) => r == Err::<LoginResponse, ApiError>(ApiError::InternalError),
        Ok(f) => match verificacion_bcrypt(contrasena, f.contrasena_hash@) {
            None => r == Err::<LoginResponse, ApiError>(ApiError::InternalError),
            Some(false) => r == Err::<LoginResponse, ApiError>(ApiError::Unauthorized),
            Some(true) => r matches Ok(resp) && resp.token@ == token_firmado(
                email,
                ahora + DURACION_SESION,
                f.rol_nombre@,
                f.id as int,
                secreto,
            ) && resp.rol == f.rol_nombre && resp.usuario_id == f.id && resp.nombre == f.nombre
                && resp.apellido == f.apellido,
        },
    }
}

/// Logs a staff user in: checks `contrasena` against the stored hash and, on
/// a match, issues a session token that carries the e-mail, the expiry
/// `ahora + DURACION_SESION`, the role name and the user id.
pub fn login(
    email: String,
    contrasena: &str,
    fila: Result<CredencialesUsuario, StoreError>,
    ahora: u64,
    secreto: &[u8],
) -> (r: Result<LoginResponse, ApiError>)
    requires
        ahora <= u64::MAX - DURACION_SESION,
    ensures
        es_resultado_login(email@, contrasena@, fila, ahora, secreto@, r),
{
    let f = match fila {
        Ok(f) => f,
        Err(StoreError::RowNotFound) => {
            return Err(ApiError::Unauthorized);
        },
        Err(_) => {
            return Err(ApiError::InternalError);
        },
    };
    match verificar_contrasena(contrasena, f.contrasena_hash.as_str()) {
        Err(_) => {
            return Err(ApiError::InternalError);
        },
        Ok(false) => {
            return Err(ApiError::Unauthorized);
        },
        Ok(true) => {},
    }
    let claims = Claims {
        sub: email,
        exp: ahora + DURACION_SESION,
        rol: f.rol_nombre.clone(),
        usuario_id: f.id,
    };
    match firmar(&claims, secreto) {
        Ok(token) => Ok(
            LoginResponse {
                token,
                rol: f.rol_nombre,
                usuario_id: f.id,
                nombre: f.nombre,
                apellido: f.apellido,
            },
        ),
        Err(_) => Err(ApiError::InternalError),
    }
}

/// Starts a password recovery for the staff user with e-mail `email`, whose
/// id the store returned: issues a recovery token that carries the e-mail,
/// the expiry `ahora + DURACION_RECUPERACION`, the recovery role and the user
/// id. An unknown e-mail is a bad request; a store that fails otherwise is an
/// internal error.
pub fn recuperar_contrasena(
    email: String,
    usuario_id: Result<i32, StoreError>,
    ahora: u64,
    secreto: &[u8],
) -> (r: Result<RecuperacionEmitida, ApiError>)
    requires
        ahora <= u64::MAX - DURACION_RECUPERACION,
    ensures
        match usuario_id {
            Err(StoreError::RowNotFound) => r == Err::<RecuperacionEmitida, ApiError>(
                ApiError::BadRequest,
            ),
            Err(_) => r == Err::<RecuperacionEmitida, ApiError>(ApiError::InternalError),
            Ok(id) => r matches Ok(emitida) && emitida.token@ == token_firmado(
                email@,
                ahora + DURACION_RECUPERACION,
                rol_recuperacion(),
                id as int,
                secreto@,
            ) && emitida.mensaje@ == mensaje_recuperacion(),
        },
{
    let id = match usuario_id {
        Ok(id) => id,
        Err(StoreError::RowNotFound) => {
            return Err(ApiError::BadRequest);
        },
        Err(_) => {
            return Err(ApiError::InternalError);
        },
    };
    let claims = Claims {
        sub: email,
        exp: ahora + DURACION_RECUPERACION,
        rol: "recuperacion".to_owned(),
        usuario_id: id,
    };
    match firmar(&claims, secreto) {
        Ok(token) => Ok(
            RecuperacionEmitida {
                token,
                mensaje: "Se ha enviado un token de recuperación a tu correo".to_owned(),
            },
        ),
        Err(_) => Err(ApiError::InternalError),
    }
}

/// Which user a token lets change its password at time `ahora`: only an
/// unexpired token of the recovery role does.
pub open spec fn spec_autorizacion(decodificado: Result<Claims, TokenError>, ahora: u64) -> Result<
    i32,
    ApiError,
> {
    match spec_verificar(decodificado, ahora) {
        Err(_) => Err(ApiError::Unauthorized),
        Ok(c) => if c.rol@ == rol_recuperacion() {
            Ok(c.usuario_id)
        } else {
            Err(ApiError::Unauthorized)
        },
    }
}

/// `r` is what completing a recovery owes: a refusal where the token does not
/// authorise a change; otherwise, unless hashing failed, the user that the
/// token names and a hash that `nueva_contrasena` verifies against.
pub open spec fn es_resultado_cambio(
    decodificado: Result<Claims, TokenError>,
    ahora: u64,
    nueva_contrasena: Seq<char>,
    r: Result<CambioContrasena, ApiError>,
) -> bool {
    match spec_autorizacion(decodificado, ahora) {
        Err(e) => r == Err::<CambioContrasena, ApiError>(e),
        Ok(id) => match r {
            Ok(cambio) => cambio.usuario_id == id && verificacion_bcrypt(
                nueva_contrasena,
                cambio.contrasena_hash@,
            ) == Some(true),
            Err(e) => e == ApiError::InternalError,
        },
    }
}

/// Completes a password recovery: given the claims of the presented token,
/// whose signature the caller has checked, refuses an expired token or one
/// that is not a recovery token, then hashes `nueva_contrasena` for the user
/// that the token names.
pub fn cambiar_contrasena(
    decodificado: Result<Claims, TokenError>,
    ahora: u64,
    nueva_contrasena: &str,
) -> (r: Result<CambioContrasena, ApiError>)
    ensures
        es_resultado_cambio(decodificado, ahora, nueva_contrasena@, r),
{
    let c = match verificar(decodificado, ahora) {
        Ok(c) => c,
        Err(_) => {
            return Err(ApiError::Unauthorized);
        },
    };
    let recuperacion = "recuperacion".to_owned();
    if c.rol != recuperacion {
        return Err(ApiError::Unauthorized);
    }
    match cifrar_contrasena(nueva_contrasena) {
        Ok(contrasena_hash) => Ok(CambioContrasena { usuario_id: c.usuario_id, contrasena_hash }),
        Err(_) => Err(ApiError::InternalError),
    }
}

/// The confirmation of a stored password change.
pub fn contrasena_actualizada(actualizado: Result<u64, StoreError>) -> (r: Result<String, ApiError>)
    ensures
        match actualizado {
            Ok(_) => r matches Ok(m) && m@ == mensaje_cambio(),
            Err(_) => r == Err::<String, ApiError>(ApiError::InternalError),
        },
{
    match actualizado {
        Ok(_) => Ok("Contraseña actualizada exitosamente".to_owned()),
        Err(_) => Err(ApiError::InternalError),
    }
}

/// A staff user whose stored hash matches the password logs in, and the
/// session token carries the user's role name and id; a password that does
/// not match is refused as unauthorized.
pub proof fn ley_login(
    email: Seq<char>,
    contrasena: Seq<char>,
    f: CredencialesUsuario,
    ahora: u64,
    secreto: Seq<u8>,
    r: Result<LoginResponse, ApiError>,
)
    requires
        es_resultado_login(email, contrasena, Ok(f), ahora, secreto, r),
        verificacion_bcrypt(contrasena, f.contrasena_hash@) is Some,
    ensures
        verificacion_bcrypt(contrasena, f.contrasena_hash@) == Some(true) ==> (r matches Ok(resp)
            && resp.rol == f.rol_nombre && resp.usuario_id == f.id && resp.token@ == token_firmado(
            email,
            ahora + DURACION_SESION,
            f.rol_nombre@,
            f.id as int,
            secreto,
        )),
        verificacion_bcrypt(contrasena, f.contrasena_hash@) == Some(false) ==> r == Err::<
            LoginResponse,
            ApiError,
        >(ApiError::Unauthorized),
{
}

/// After a completed recovery, the new password logs in: once the hash that
/// the change produced is the user's stored hash, a login with the new
/// password succeeds as that user, with the user's role.
pub proof fn ley_login_tras_recuperacion(
    decodificado: Result<Claims, TokenError>,
    cuando: u64,
    nueva_contrasena: Seq<char>,
    cambio: CambioContrasena,
    email: Seq<char>,
    f: CredencialesUsuario,
    ahora: u64,
    secreto: Seq<u8>,
    r: Result<LoginResponse, ApiError>,
)
    requires
        es_resultado_cambio(decodificado, cuando, nueva_contrasena, Ok(cambio)),
        f.id == cambio.usuario_id,
        f.contrasena_hash@ == cambio.contrasena_hash@,
        es_resultado_login(email, nueva_contrasena, Ok(f), ahora, secreto, r),
    ensures
        spec_autorizacion(decodificado, cuando) == Ok::<i32, ApiError>(f.id),
        r matches Ok(resp) && resp.usuario_id == f.id && resp.rol == f.rol_nombre,
{
}

/// A recovery token issued at `emitido` lets its user change the password
/// until its lifetime has passed, and no one after; a token of any other role
/// never does, expired or not.
pub proof fn ley_token_recuperacion(
    recuperacion: Claims,
    emitido: u64,
    antes: u64,
    ahora: u64,
    otro: Claims,
    cuando: u64,
)
    requires
        emitido <= u64::MAX - DURACION_RECUPERACION,
        recuperacion.exp == emitido + DURACION_RECUPERACION,
        recuperacion.rol@ == rol_recuperacion(),
        antes <= emitido + DURACION_RECUPERACION,
        ahora > emitido + DURACION_RECUPERACION,
        otro.rol@ != rol_recuperacion(),
    ensures
        spec_autorizacion(Ok(recuperacion), antes) == Ok::<i32, ApiError>(recuperacion.usuario_id),
        spec_autorizacion(Ok(recuperacion), ahora) == Err::<i32, ApiError>(ApiError::Unauthorized),
        spec_autorizacion(Ok(otro), cuando) == Err::<i32, ApiError>(ApiError::Unauthorized),
{
}

} // verus!

use vstd::prelude::*;

verus! {

#[verifier::external_type_specification]
#[verifier::external_body]
pub struct ExJwtError(jsonwebtoken::errors::Error);

/// The claims that a signed token carries.
#[derive(Clone, Debug, PartialEq, Eq)]
pub struct Claims {
    /// The e-mail of the staff user.
    pub sub: String,
    /// The instant, in seconds since the UNIX epoch, after which the token is expired.
    pub exp: u64,
    /// The role name, or the recovery sentinel.
    pub rol: String,
    pub usuario_id: i32,
}

/// Why a token is refused.
#[derive(Clone, Copy, Debug, PartialEq, Eq, Structural)]
pub enum TokenError {
    /// The signature does not match or the token is malformed.
    Invalid,
    /// The token's expiry has passed.
    Expired,
}

/// The signed token for the claims (`sub`, `exp`, `rol`, `usuario_id`) under
/// the HMAC secret `secreto`.
pub uninterp spec fn token_firmado(
    sub: Seq<char>,
    exp: int,
    rol: Seq<char>,
    usuario_id: int,
    secreto: Seq<u8>,
) -> Seq<char>;

/// Relies on jsonwebtoken::encode with the default header (HS256) and an HMAC
/// key made from `secreto`. The token depends on the claims and the secret
/// alone. It cannot fail here: the key's family is that of the header's
/// algorithm, and a JSON object with string keys always serialises.
#[verifier::external_body]
pub(crate) fn firmar(c: &Claims, secreto: &[u8]) -> (r: Result<String, jsonwebtoken::errors::Error>)
    ensures
        r is Ok,
        r matches Ok(t) ==> t@ == token_firmado(c.sub@, c.exp as int, c.rol@, c.usuario_id as int, secreto@),
{
    let carga = std::collections::BTreeMap::from([
        ("sub", serde_json::Value::from(c.sub.as_str())),
        ("exp", serde_json::Value::from(c.exp)),
        ("rol", serde_json::Value::from(c.rol.as_str())),
        ("usuario_id", serde_json::Value::from(c.usuario_id)),
    ]);
    let clave = jsonwebtoken::EncodingKey::from_secret(secreto);
    jsonwebtoken::encode(&jsonwebtoken::Header::default(), &carga, &clave)
}

pub open spec fn spec_verificar(decodificado: Result<Claims, TokenError>, ahora: u64) -> Result<Claims, TokenError> {
    match decodificado {
        Ok(c) => if ahora > c.exp { Err(TokenError::Expired) } else { Ok(c) },
        Err(e) => Err(e),
    }
}

/// Accepts the claims of a token whose signature has been checked, unless
/// `ahora` is past their expiry.
pub fn verificar(decodificado: Result<Claims, TokenError>, ahora: u64) -> (r: Result<Claims, TokenError>)
    ensures
        r == spec_verificar(decodificado, ahora),
{
    match decodificado {
        Ok(c) => {
            if ahora > c.exp {
                Err(TokenError::Expired)
            } else {
                Ok(c)
            }
        },
        Err(e) => Err(e),
    }
}

} // verus!

use vstd::prelude::*;

verus! {

#[verifier::external_type_specification]
#[verifier::external_body]
pub struct ExBcryptError(bcrypt::BcryptError);

/// What bcrypt reports when `contrasena` is checked against the stored hash
/// `hash`: whether they match, or `None` where the hash is malformed.
pub uninterp spec fn verificacion_bcrypt(contrasena: Seq<char>, hash: Seq<char>) -> Option<bool>;

/// Relies on bcrypt::verify: it recomputes the hash of `contrasena` with the
/// salt and cost read from `hash` and compares the two; it fails where `hash`
/// is malformed. The outcome depends on the two strings alone.
#[verifier::external_body]
pub(crate) fn verificar_contrasena(contrasena: &str, hash: &str) -> (r: Result<bool, bcrypt::BcryptError>)
    ensures
        match r {
            Ok(b) => verificacion_bcrypt(contrasena@, hash@) == Some(b),
            Err(_) => verificacion_bcrypt(contrasena@, hash@) is None,
        },
{
    bcrypt::verify(contrasena, hash)
}

/// Relies on bcrypt::hash at bcrypt's default cost: a salted one-way hash of
/// `contrasena` under a fresh random salt, written with its salt and cost so
/// that bcrypt::verify, which reads them back and recomputes, accepts
/// `contrasena` against it. It fails only when the random source does.
#[verifier::external_body]
pub(crate) fn cifrar_contrasena(contrasena: &str) -> (r: Result<String, bcrypt::BcryptError>)
    ensures
        r matches Ok(h) ==> verificacion_bcrypt(contrasena@, h@) == Some(true),
{
    bcrypt::hash(contrasena, bcrypt::DEFAULT_COST)
}

} // verus!

//! The admin guard in front of mutation routes, and the login that opens an
//! admin session.
use vstd::prelude::*;
use crate::error::VaderError;
use crate::model::AdminInfo;

verus! {

#[verifier::external_type_specification]
#[verifier::external_body]
pub struct ExBcryptError(bcrypt::BcryptError);

/// What `bcrypt::verify` decides for a clear password and a stored hash:
/// whether they match, or `None` where the hash is malformed.
pub uninterp spec fn bcrypt_verdict(password: Seq<char>, hash: Seq<char>) -> Option<bool>;

/// Relies on `bcrypt::verify`: whether `password` matches the bcrypt `hash`,
/// or an error where `hash` cannot be read; the verdict depends on the two
/// texts alone.
#[verifier::external_body]
fn bcrypt_verify(password: &str, hash: &str) -> (r: Result<bool, bcrypt::BcryptError>)
    ensures
        r is Ok <==> bcrypt_verdict(password@, hash@) is Some,
        r is Ok ==> r->Ok_0 == bcrypt_verdict(password@, hash@)->Some_0,
{
    bcrypt::verify(password, hash)
}

/// The verdict on a login, given the hash stored for its user name, if any.
pub open spec fn login_verdict(password: Seq<char>, stored: Option<Seq<char>>) -> Result<
    bool,
    VaderError,
> {
    match stored {
        None => Ok(false),
        Some(h) => match bcrypt_verdict(password, h) {
            Some(b) => Ok(b),
            None => Err(VaderError::AdminHash),
        },
    }
}

impl AdminInfo {
    /// Whether the clear password of this credential matches the hash stored
    /// for its user name; an unknown user name matches nothing.
    pub fn verify_passwd(&self, stored_hash: &Option<String>) -> (r: Result<bool, VaderError>)
        ensures
            r == login_verdict(
                self.password@,
                match stored_hash {
                    Some(h) => Some(h@),
                    None => None,
                },
            ),
    {
        match stored_hash {
            None => Ok(false),
            Some(h) => match bcrypt_verify(self.password.as_str(), h.as_str()) {
                Ok(b) => Ok(b),
                Err(_) => Err(VaderError::AdminHash),
            },
        }
    }
}

/// Whether a login verdict grants the admin session flag.
pub fn grants_admin(verdict: &Result<bool, VaderError>) -> (r: bool)
    ensures
        r == (*verdict == Ok::<bool, VaderError>(true)),
{
    match verdict {
        Ok(b) => *b,
        Err(_) => false,
    }
}

/// The status of a login: 200 once the admin flag is stored in the session,
/// 401 for a wrong credential, 500 for a failure to verify or to store.
pub fn login_status(verdict: &Result<bool, VaderError>, session_saved: bool) -> (r: u16)
    ensures
        *verdict == Ok::<bool, VaderError>(true) ==> r == (if session_saved { 200u16 } else { 500u16 }),
        *verdict == Ok::<bool, VaderError>(false) ==> r == 401,
        verdict is Err ==> r == 500,
{
    match verdict {
        Ok(true) => if session_saved {
            200
        } else {
            500
        },
        Ok(false) => 401,
        Err(_) => 500,
    }
}

/// The status the guard answers a refused request with.
pub const UNAUTHORIZED: u16 = 401;

/// The guard wrapped around the admin routes.
pub struct AdminOnlyGuard;

/// A route behind the guard.
pub struct AdminOnlyGuardService<S> {
    pub service: S,
}

impl AdminOnlyGuard {
    pub fn new_transform<S>(&self, service: S) -> (r: AdminOnlyGuardService<S>)
        ensures
            r.service == service,
    {
        AdminOnlyGuardService { service }
    }
}

impl<S> AdminOnlyGuardService<S> {
    /// Whether a request reaches the route: only with the session flag
    /// `admin` present and true. Otherwise it is answered `UNAUTHORIZED`.
    pub fn admits(&self, admin_flag: Option<bool>) -> (r: bool)
        ensures
            r == (admin_flag == Some(true)),
    {
        match admin_flag {
            Some(b) => b,
            None => false,
        }
    }
}

} // verus!

//! Signing in.

use crate::models::users::{argon2_accepts, password_matches, User};
use vstd::prelude::*;

verus! {

/// Whether the login page may be shown: not to a user who is signed in.
pub fn login_page(signed_in: bool) -> (res: Result<(), &'static str>)
    ensures
        res is Err <==> signed_in,
        res matches Err(m) ==> m@ == "You are already logged in"@,
{
    if signed_in {
        return Err("You are already logged in");
    }
    Ok(())
}

/// The outcome of a login with `password` for the account found under the
/// given user name, if any: the account's id and a message when it accepts
/// the password, else the message of a failed login.
pub fn login(found: Option<&User>, password: String) -> (res: Result<(u64, &'static str), &'static str>)
    ensures
        res is Ok <==> (found matches Some(u) && password_matches(u@, password@)),
        res is Ok <==> (found matches Some(u) && u.encrypted_password matches Some(h)
            && argon2_accepts(password@, h@)),
        res matches Ok(ok) ==> (found matches Some(u) && ok.0 == u@.id && ok.1@ == "You are signed in"@),
        res matches Err(m) ==> m@ == "Invlaid user name or password"@,
{
    if let Some(loaded_user) = found {
        if loaded_user.compare_password(password) {
            return Ok((loaded_user.id, "You are signed in"));
        }
    }
    Err("Invlaid user name or password")
}

} // verus!

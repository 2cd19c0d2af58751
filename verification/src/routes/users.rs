//! Signing up and changing a password.

use crate::text::same_text;
use vstd::prelude::*;

verus! {

/// Whether the sign-up page may be shown: not to a user who is signed in.
pub fn signup_page(signed_in: bool) -> (res: Result<(), &'static str>)
    ensures
        res is Err <==> signed_in,
        res matches Err(m) ==> m@ == "Please logout before signing up"@,
{
    if signed_in {
        return Err("Please logout before signing up");
    }
    Ok(())
}

/// Whether a sign-up may go ahead: the email must belong to no account yet,
/// and the password must be typed the same twice. The email is checked first.
pub fn signup_check(email_free: bool, password: &str, confirm_password: &str) -> (res: Result<
    (),
    &'static str,
>)
    ensures
        res is Ok <==> email_free && password@ == confirm_password@,
        !email_free ==> (res matches Err(m) && m@ == "Invalid email"@),
        email_free && password@ != confirm_password@ ==> (res matches Err(m) && m@
            == "Password must match"@),
{
    if !email_free {
        return Err("Invalid email");
    }
    if !same_text(password, confirm_password) {
        return Err("Password must match");
    }
    Ok(())
}

/// Whether a password change may go ahead: the new password must be typed
/// the same twice.
pub fn password_update_check(password: &str, confirm_password: &str) -> (res: Result<
    (),
    &'static str,
>)
    ensures
        res is Ok <==> password@ == confirm_password@,
        res matches Err(m) ==> m@ == "Password must match"@,
{
    if !same_text(password, confirm_password) {
        return Err("Password must match");
    }
    Ok(())
}

} // verus!

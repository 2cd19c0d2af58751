//! User accounts and their argon2-hashed passwords.

use argon2::password_hash::rand_core::OsRng;
use argon2::password_hash::{PasswordHash, PasswordHasher, PasswordVerifier, SaltString};
use argon2::Argon2;
use vstd::prelude::*;
use vstd::utf8::encode_utf8;

verus! {

/// The PHC string that argon2 (default algorithm, version and parameters)
/// makes of `password` with the B64-encoded salt `salt`, or `None` where it
/// makes none (a salt that does not parse, a failure of the hasher).
pub uninterp spec fn argon2_phc_hash(password: Seq<char>, salt: Seq<char>) -> Option<Seq<char>>;

/// Whether `encoded` parses as a PHC string and argon2 accepts `password` for it.
pub uninterp spec fn argon2_accepts(password: Seq<char>, encoded: Seq<char>) -> bool;

/// Generates a fresh random B64-encoded salt.
///
/// Calls `SaltString::generate` with the operating system's random number
/// generator, which encodes 16 random bytes as 22 B64 characters. Which salt
/// comes back is not stated (it is random); the contract claims only that
/// argon2 hashes with it every password of at most `0xFFFF_FFFF` UTF-8
/// bytes: `SaltString::from_b64` accepts it, and argon2 refuses only a
/// longer password or a salt of under 8 or over 64 bytes.
#[verifier::external_body]
fn generate_salt() -> (res: String)
    ensures
        forall|p: Seq<char>|
            encode_utf8(p).len() <= 0xFFFF_FFFF ==> (#[trigger] argon2_phc_hash(p, res@)) is Some,
{
    SaltString::generate(&mut OsRng).as_str().to_owned()
}

/// Hashes `password` with argon2's default configuration and the salt `salt`.
///
/// Calls `SaltString::from_b64` on the salt, then `Argon2::default().hash_password`
/// on the UTF-8 bytes of the password, and renders the hash as a PHC string.
/// The contract claims that the result is the named function of the two
/// texts, and that argon2's verifier accepts the password for a hash it made
/// (the verifier recomputes the hash with the algorithm, version, parameters
/// and salt that the PHC string holds, and compares).
#[verifier::external_body]
fn hash_password(password: &str, salt: &str) -> (res: Option<String>)
    ensures
        res.deep_view() == argon2_phc_hash(password@, salt@),
        res matches Some(h) ==> argon2_accepts(password@, h@),
{
    let salt = match SaltString::from_b64(salt) {
        Ok(s) => s,
        Err(_) => return None,
    };
    match Argon2::default().hash_password(password.as_bytes(), &salt) {
        Ok(hash) => Some(hash.to_string()),
        Err(_) => None,
    }
}

/// Checks `password` against the PHC string `encoded`.
///
/// Calls `PasswordHash::new` on `encoded` (a parse failure gives `false`),
/// then `Argon2::default().verify_password` on the UTF-8 bytes of the
/// password. The contract claims that the result is the named function of
/// the two texts.
#[verifier::external_body]
fn verify_password(password: &str, encoded: &str) -> (res: bool)
    ensures
        res == argon2_accepts(password@, encoded@),
{
    match PasswordHash::new(encoded) {
        Ok(hash) => Argon2::default().verify_password(password.as_bytes(), &hash).is_ok(),
        Err(_) => false,
    }
}

/// A user account.
pub struct User {
    pub id: u64,
    pub first_name: Option<String>,
    pub last_name: Option<String>,
    pub email: String,
    pub encrypted_password: Option<String>,
    pub password_salt: Option<String>,
}

/// A user account as values.
pub struct UserView {
    pub id: u64,
    pub first_name: Option<Seq<char>>,
    pub last_name: Option<Seq<char>>,
    pub email: Seq<char>,
    pub encrypted_password: Option<Seq<char>>,
    pub password_salt: Option<Seq<char>>,
}

impl View for User {
    type V = UserView;

    open spec fn view(&self) -> UserView {
        UserView {
            id: self.id,
            first_name: self.first_name.deep_view(),
            last_name: self.last_name.deep_view(),
            email: self.email@,
            encrypted_password: self.encrypted_password.deep_view(),
            password_salt: self.password_salt.deep_view(),
        }
    }
}

impl UserView {
    /// The account after a hashing attempt with salt `salt` that gave `hash`:
    /// a hash replaces the stored hash and salt, no hash leaves the account as it was.
    pub open spec fn with_hash(self, hash: Option<Seq<char>>, salt: Seq<char>) -> UserView {
        match hash {
            Some(h) => UserView {
                encrypted_password: Some(h),
                password_salt: Some(salt),
                ..self
            },
            None => self,
        }
    }

    /// The account after its password was set to `password` with the salt `salt`.
    pub open spec fn with_password(self, password: Seq<char>, salt: Seq<char>) -> UserView {
        self.with_hash(argon2_phc_hash(password, salt), salt)
    }
}

/// Whether the account holds a password hash that accepts `password`.
pub open spec fn password_matches(u: UserView, password: Seq<char>) -> bool {
    match u.encrypted_password {
        Some(h) => argon2_accepts(password, h),
        None => false,
    }
}

/// An account matches a password exactly when it holds a hash and argon2's
/// verifier accepts that very password for it.
pub proof fn password_matches_is_argon2_check(u: UserView, password: Seq<char>)
    ensures
        password_matches(u, password) <==> (u.encrypted_password is Some && argon2_accepts(
            password,
            u.encrypted_password.unwrap(),
        )),
        u.encrypted_password is None ==> !password_matches(u, password),
{
}

/// Setting a password changes only the stored hash and salt: the id, the
/// names and the email stay as they were, whatever the salt.
pub proof fn with_password_keeps_the_account(u: UserView, password: Seq<char>, salt: Seq<char>)
    ensures
        u.with_password(password, salt).id == u.id,
        u.with_password(password, salt).first_name == u.first_name,
        u.with_password(password, salt).last_name == u.last_name,
        u.with_password(password, salt).email == u.email,
        argon2_phc_hash(password, salt) matches Some(h) ==> u.with_password(password, salt).encrypted_password
            == Some(h) && u.with_password(password, salt).password_salt == Some(salt),
        argon2_phc_hash(password, salt) is None ==> u.with_password(password, salt) == u,
{
}

/// A new account with no password yet.
pub open spec fn fresh_user(
    first_name: Option<Seq<char>>,
    last_name: Option<Seq<char>>,
    email: Seq<char>,
) -> UserView {
    UserView {
        id: 0,
        first_name,
        last_name,
        email,
        encrypted_password: None,
        password_salt: None,
    }
}

impl User {
    /// A new account (id 0) with the given names and email, and `password`
    /// hashed with a fresh random salt.
    pub fn build(
        first_name: Option<String>,
        last_name: Option<String>,
        email: String,
        password: String,
    ) -> (res: User)
        ensures
            exists|salt: Seq<char>|
                #[trigger] fresh_user(first_name.deep_view(), last_name.deep_view(), email@).with_password(password@, salt)
                    == res@,
            res@.encrypted_password is Some ==> password_matches(res@, password@),
            encode_utf8(password@).len() <= 0xFFFF_FFFF ==> res@.encrypted_password is Some
                && res@.password_salt is Some && password_matches(res@, password@),
            res.id == 0,
            res.first_name == first_name,
            res.last_name == last_name,
            res.email == email,
    {
        let mut u = User {
            id: 0,
            first_name,
            last_name,
            email,
            encrypted_password: None,
            password_salt: None,
        };
        u.set_password(password);
        u
    }

    /// Sets the password to `password`, hashed with the salt `salt`; where
    /// hashing gives no hash, the account stays as it was.
    pub fn set_password_with_salt(&mut self, password: String, salt: String)
        ensures
            final(self)@ == old(self)@.with_password(password@, salt@),
            argon2_phc_hash(password@, salt@) is Some ==> password_matches(final(self)@, password@),
            final(self).id == old(self).id,
            final(self).first_name == old(self).first_name,
            final(self).last_name == old(self).last_name,
            final(self).email == old(self).email,
    {
        match hash_password(password.as_str(), salt.as_str()) {
            Some(h) => {
                self.encrypted_password = Some(h);
                self.password_salt = Some(salt);
            },
            None => {},
        }
    }

    /// Sets the password to `password`, hashed with a fresh random salt.
    pub fn set_password(&mut self, password: String)
        ensures
            exists|salt: Seq<char>| #[trigger] old(self)@.with_password(password@, salt) == final(self)@,
            final(self)@ == old(self)@ || password_matches(final(self)@, password@),
            encode_utf8(password@).len() <= 0xFFFF_FFFF ==> final(self)@.encrypted_password is Some
                && final(self)@.password_salt is Some && password_matches(final(self)@, password@),
            final(self).id == old(self).id,
            final(self).first_name == old(self).first_name,
            final(self).last_name == old(self).last_name,
            final(self).email == old(self).email,
    {
        let salt = generate_salt();
        let ghost s = salt@;
        self.set_password_with_salt(password, salt);
        assert(old(self)@.with_password(password@, s) == self@);
    }

    /// Whether `password` is the account's password.
    pub fn compare_password(&self, password: String) -> (res: bool)
        ensures
            res == password_matches(self@, password@),
            res == (self.encrypted_password matches Some(h) && argon2_accepts(password@, h@)),
    {
        match &self.encrypted_password {
            Some(enc_pass) => verify_password(password.as_str(), enc_pass.as_str()),
            None => false,
        }
    }
}

} // verus!

//! Logging in and hashing passwords.

use vstd::prelude::*;
use crate::api::access::{subject_of, subject_text, Reply};
use crate::models::user::User;

verus! {

/// The credentials that a user logs in with.
#[derive(Clone, Debug, PartialEq, Eq)]
pub struct LoginRequest {
    pub username: String,
    pub password: String,
}

/// The answer to a login that succeeded.
#[derive(Clone, Debug, PartialEq, Eq)]
pub struct LoginResponse {
    pub code: u16,
    pub message: String,
    pub token: String,
    pub name: String,
    pub role: String,
}

/// A password to hash.
#[derive(Clone, Debug, PartialEq, Eq)]
pub struct PasswordInput {
    pub password: String,
}

/// A hashed password.
#[derive(Clone, Debug, PartialEq, Eq)]
pub struct HashedPasswordOutput {
    pub hashed_password: String,
}

/// What holding a password against a stored hash gave.
#[derive(Clone, Copy, Debug, PartialEq, Eq)]
pub enum PasswordCheck {
    /// The password is the one that was hashed.
    Matches,
    /// The password is another one.
    Differs,
    /// The stored hash cannot be read as a hash.
    Unreadable,
}

/// What a user who has logged in is known by: the three parts of the
/// subject that the token will carry, and the user's name.
#[derive(Clone, Debug, PartialEq, Eq)]
pub struct LoginGrant {
    pub user_id: i32,
    pub role: String,
    pub shop_id: i32,
    pub name: String,
}

impl LoginGrant {
    /// The subject that the user's token carries.
    pub fn subject(&self) -> (r: String)
        ensures
            r@ == subject_of(self.user_id, self.role@, self.shop_id),
    {
        subject_text(self.user_id, self.role.as_str(), self.shop_id)
    }
}

/// The error type of the `bcrypt` crate, carried through without a look
/// inside.
#[verifier::external_type_specification]
#[verifier::external_body]
pub struct ExBcryptError(bcrypt::BcryptError);

/// What `bcrypt::verify` returns for a password and a stored hash: whether
/// the password is the hashed one, or nothing where the hash is refused.
pub uninterp spec fn bcrypt_verdict(password: Seq<char>, hashed: Seq<char>) -> Option<bool>;

/// Calls `bcrypt::verify`, which reads cost and salt out of the stored hash,
/// hashes the password with them and compares. The result depends on the two
/// texts alone; the contract gives it its name and claims nothing else.
#[verifier::external_body]
fn bcrypt_verify(password: &str, hashed: &str) -> (r: Result<bool, bcrypt::BcryptError>)
    ensures
        match r {
            Ok(same) => bcrypt_verdict(password@, hashed@) == Some(same),
            Err(_) => bcrypt_verdict(password@, hashed@) is None,
        },
{
    bcrypt::verify(password, hashed)
}

/// Calls `bcrypt::hash` at the crate's default cost. The salt is random, so
/// nothing is claimed of the hash but its length: bcrypt writes a hash as 60
/// characters.
#[verifier::external_body]
fn bcrypt_hash(password: &str) -> (r: Result<String, bcrypt::BcryptError>)
    ensures
        r is Ok ==> r.unwrap()@.len() == 60,
{
    bcrypt::hash(password, bcrypt::DEFAULT_COST)
}

/// What [`bcrypt_verdict`] means for a login.
pub open spec fn check_of(verdict: Option<bool>) -> PasswordCheck {
    match verdict {
        Some(true) => PasswordCheck::Matches,
        Some(false) => PasswordCheck::Differs,
        None => PasswordCheck::Unreadable,
    }
}

/// The answer to a login, given the stored user of that name, if there is
/// one, and what holding the password against the user's hash gave.
pub open spec fn login_outcome(user: Option<User>, check: PasswordCheck) -> Result<LoginGrant, Reply> {
    match user {
        None => Err(Reply { status: 401, code: 401, message: "Invalid username!" }),
        Some(user) => match check {
            PasswordCheck::Matches => Ok(
                LoginGrant {
                    user_id: user.id,
                    role: user.role_name,
                    shop_id: user.shop_id,
                    name: user.name,
                },
            ),
            PasswordCheck::Differs => Err(
                Reply { status: 401, code: 401, message: "Invalid password!" },
            ),
            PasswordCheck::Unreadable => Err(
                Reply { status: 500, code: 500, message: "Something went wrong!" },
            ),
        },
    }
}

/// Holds a password against a stored hash.
pub fn check_password(password: &str, hashed: &str) -> (r: PasswordCheck)
    ensures
        r == check_of(bcrypt_verdict(password@, hashed@)),
{
    match bcrypt_verify(password, hashed) {
        Ok(true) => PasswordCheck::Matches,
        Ok(false) => PasswordCheck::Differs,
        Err(_) => PasswordCheck::Unreadable,
    }
}

/// Decides a login from what is known of the user and the password: an
/// unknown user and a wrong password are refused with status 401, a stored
/// hash that cannot be read with status 500.
pub fn login_decision(user: Option<&User>, check: PasswordCheck) -> (r: Result<LoginGrant, Reply>)
    ensures
        match user {
            None => r == login_outcome(None, check),
            Some(user) => r == login_outcome(Some(*user), check),
        },
{
    match user {
        None => Err(Reply { status: 401, code: 401, message: "Invalid username!" }),
        Some(user) => match check {
            PasswordCheck::Matches => Ok(
                LoginGrant {
                    user_id: user.id,
                    role: user.role_name.clone(),
                    shop_id: user.shop_id,
                    name: user.name.clone(),
                },
            ),
            PasswordCheck::Differs => Err(
                Reply { status: 401, code: 401, message: "Invalid password!" },
            ),
            PasswordCheck::Unreadable => Err(
                Reply { status: 500, code: 500, message: "Something went wrong!" },
            ),
        },
    }
}

/// Logs a user in: `user` is the stored user of the name that the
/// credentials give, if there is one.
pub fn login(credentials: &LoginRequest, user: Option<&User>) -> (r: Result<LoginGrant, Reply>)
    ensures
        match user {
            None => r == login_outcome(None, PasswordCheck::Differs),
            Some(user) => r == login_outcome(
                Some(*user),
                check_of(bcrypt_verdict(credentials.password@, user.password@)),
            ),
        },
{
    match user {
        None => login_decision(None, PasswordCheck::Differs),
        Some(stored) => {
            let check = check_password(credentials.password.as_str(), stored.password.as_str());
            login_decision(user, check)
        },
    }
}

/// The body that answers a login that succeeded, with the signed token.
pub fn login_response(grant: LoginGrant, token: String) -> (r: LoginResponse)
    ensures
        r.code == 200,
        r.message@ == "Token generated successfully."@,
        r.token == token,
        r.name == grant.name,
        r.role == grant.role,
{
    LoginResponse {
        code: 200,
        message: "Token generated successfully.".to_owned(),
        token,
        name: grant.name,
        role: grant.role,
    }
}

/// The number of seconds that a token is good for: one day.
pub const TOKEN_LIFETIME: u64 = 86400;

/// The time at which a token signed at `now` expires, if the clock can hold
/// it.
pub fn token_expiry(now: u64) -> (r: Option<u64>)
    ensures
        match r {
            Some(at) => at == now + TOKEN_LIFETIME,
            None => now + TOKEN_LIFETIME > u64::MAX,
        },
{
    now.checked_add(TOKEN_LIFETIME)
}

/// The answer to a request for a hash, given the hash if the hashing
/// succeeded: the hash, or status 500.
pub fn hashing_outcome(hashed: Option<String>) -> (r: Result<HashedPasswordOutput, Reply>)
    ensures
        match hashed {
            Some(text) => r == Ok::<HashedPasswordOutput, Reply>(
                HashedPasswordOutput { hashed_password: text },
            ),
            None => r == Err::<HashedPasswordOutput, Reply>(
                Reply { status: 500, code: 500, message: "Failed to hash password" },
            ),
        },
{
    match hashed {
        Some(text) => Ok(HashedPasswordOutput { hashed_password: text }),
        None => Err(Reply { status: 500, code: 500, message: "Failed to hash password" }),
    }
}

/// Hashes a password for storage. The salt is drawn at random, so two calls
/// give two hashes; a failure of the hashing is answered with status 500.
pub fn hash_password(input: &PasswordInput) -> (r: Result<HashedPasswordOutput, Reply>)
    ensures
        match r {
            Ok(output) => output.hashed_password@.len() == 60,
            Err(reply) => reply == (Reply {
                status: 500,
                code: 500,
                message: "Failed to hash password",
            }),
        },
{
    match bcrypt_hash(input.password.as_str()) {
        Ok(hashed) => hashing_outcome(Some(hashed)),
        Err(_) => hashing_outcome(None),
    }
}

} // verus!

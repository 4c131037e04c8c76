//! Account policy: the login and account-creation decisions, and the session
//! token they hand out. The metadata store that salts, verifiers and folders
//! live in is an outside collaborator; callers fetch from it and pass plain
//! values in.

use vstd::prelude::*;

pub mod auth;

pub use auth::{
    hmac_sha256_of, lemma_sign_validate_window, lemma_validate_rejects_wrong_code, mac_message,
    mac_ok, spec_sign, spec_validate, Auth, AuthError, AuthView, Authenticator,
};

use crate::vault::{Cipher, FolderName, PasswordHash};

verus! {

/// What a successful login or account creation hands back: a fresh session
/// token and the account's encrypted folder names.
pub struct LoginData {
    pub auth: Auth,
    pub folder_names: Vec<Cipher<FolderName>>,
}

/// Why a login was refused. Only these coarse categories are ever reported;
/// cryptographic detail stays server-side.
#[derive(Clone, Copy, PartialEq, Eq, Structural, Debug)]
pub enum LoginError {
    /// No account of that name exists.
    UnknownUser,
    /// The presented verifier does not match the stored one.
    IncorrectPassword,
}

/// Why an account creation was refused.
#[derive(Clone, Copy, PartialEq, Eq, Structural, Debug)]
pub enum CreateAccountError {
    /// An account of that name already exists.
    UsernameTaken,
}

/// The login decision: given the verifier the client presented and the one
/// the store holds (if any), either refuse with the matching coarse error or
/// sign a session token and hand back the account's encrypted folder names.
pub fn login(
    username: String,
    hash: &PasswordHash,
    stored_hash: Option<&PasswordHash>,
    folder_names: Vec<Cipher<FolderName>>,
    authenticator: &Authenticator,
    valid_for: u64,
) -> (r: Result<LoginData, LoginError>)
    ensures
        match r {
            Ok(data) => {
                &&& stored_hash matches Some(h) && h@ == hash@
                &&& data.auth@ == spec_sign(
                    authenticator@,
                    username@,
                    data.auth@.generated_at,
                    valid_for,
                )
                &&& data.folder_names == folder_names
            },
            Err(LoginError::UnknownUser) => stored_hash is None,
            Err(LoginError::IncorrectPassword) => stored_hash matches Some(h) && h@ != hash@,
        },
{
    let correct_hash = match stored_hash {
        Some(h) => h,
        None => {
            return Err(LoginError::UnknownUser);
        },
    };
    if !hash.matches(correct_hash) {
        return Err(LoginError::IncorrectPassword);
    }
    let auth = authenticator.sign(username, valid_for);
    Ok(LoginData { auth, folder_names })
}

/// The account-creation decision: refuse when the name is taken, else sign a
/// first session token; a new account starts with no folders. The caller
/// persists the salt and verifier exactly when this returns success.
pub fn create_account(
    username: String,
    username_taken: bool,
    authenticator: &Authenticator,
    valid_for: u64,
) -> (r: Result<LoginData, CreateAccountError>)
    ensures
        match r {
            Ok(data) => {
                &&& !username_taken
                &&& data.auth@ == spec_sign(
                    authenticator@,
                    username@,
                    data.auth@.generated_at,
                    valid_for,
                )
                &&& data.folder_names@.len() == 0
            },
            Err(CreateAccountError::UsernameTaken) => username_taken,
        },
{
    if username_taken {
        return Err(CreateAccountError::UsernameTaken);
    }
    let auth = authenticator.sign(username, valid_for);
    Ok(LoginData { auth, folder_names: Vec::new() })
}

} // verus!

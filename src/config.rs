//! The configuration snapshot and the administrative account in it.
//!
//! Loading, persisting and publishing snapshots to concurrent readers belong
//! to the server around this library: an update here produces the next
//! snapshot, which the caller persists and then installs.

use crate::error::AppError;
use crate::models::{AppConfig, UserInfo, ZeroTierConfig};
use crate::text::same_text;
use vstd::prelude::*;

verus! {

#[verifier::external_type_specification]
#[verifier::external_body]
pub struct ExBcryptError(bcrypt::BcryptError);

/// What `bcrypt::verify` answers for a password and a stored hash: whether
/// they match, or none where the hash is not a well-formed bcrypt hash.
pub uninterp spec fn bcrypt_verdict(password: Seq<char>, hash: Seq<char>) -> Option<bool>;

/// Relies on `bcrypt::verify`: it re-hashes `password` with the cost and
/// salt read from `hash` and compares, so its answer depends on the two
/// texts alone; an ill-formed hash is an error.
#[verifier::external_body]
fn bcrypt_verify(password: &str, hash: &str) -> (r: Option<bool>)
    ensures
        r == bcrypt_verdict(password@, hash@),
{
    bcrypt::verify(password, hash).ok()
}

/// Relies on `bcrypt::hash` at `bcrypt::DEFAULT_COST`: a hash of `password`
/// under a fresh random salt, which `bcrypt::verify` accepts for `password`
/// since it re-hashes with the salt and cost written into the hash. It fails
/// where no random salt could be drawn.
#[verifier::external_body]
fn bcrypt_hash(password: &str) -> (r: Result<String, bcrypt::BcryptError>)
    ensures
        r matches Ok(h) ==> bcrypt_verdict(password@, h@) == Some(true),
{
    bcrypt::hash(password, bcrypt::DEFAULT_COST)
}

/// Whether a login is accepted, given the answer of the password check.
pub open spec fn login_accepted(username_matches: bool, verdict: Option<bool>) -> bool {
    username_matches && verdict == Some(true)
}

/// Whether `username` and `password` are the account's credentials.
pub open spec fn credentials_valid(info: UserInfo, username: Seq<char>, password: Seq<char>) -> bool {
    login_accepted(username == info.username@, bcrypt_verdict(password, info.password@))
}

/// Whether a password check answered "match": a hash that cannot be read
/// counts as a mismatch.
pub fn password_verdict_accepts(verdict: Option<bool>) -> (r: bool)
    ensures
        r == login_accepted(true, verdict),
{
    match verdict {
        Some(b) => b,
        None => false,
    }
}

/// The current configuration snapshot and where it is persisted.
pub struct ConfigService {
    config: AppConfig,
    config_path: String,
}

impl ConfigService {
    /// A service over an already loaded configuration, persisted at
    /// `config_path`.
    pub fn new(config_path: String, config: AppConfig) -> (r: Self)
        ensures
            r.spec_config() == config,
            r.spec_config_path() == config_path,
    {
        ConfigService { config, config_path }
    }

    pub closed spec fn spec_config(&self) -> AppConfig {
        self.config
    }

    pub closed spec fn spec_config_path(&self) -> String {
        self.config_path
    }

    /// A copy of the current snapshot.
    pub fn get_config(&self) -> (r: AppConfig)
        ensures
            r == self.spec_config(),
    {
        self.config.duplicate()
    }

    /// Where the configuration is persisted.
    pub fn get_config_path(&self) -> (r: String)
        ensures
            r == self.spec_config_path(),
    {
        self.config_path.clone()
    }

    /// Whether `username` and `password` are the account's credentials. The
    /// password is checked only where the username matches.
    pub fn verify_user(&self, username: &str, password: &str) -> (r: bool)
        ensures
            r == credentials_valid(self.spec_config().info, username@, password@),
    {
        if !same_text(username, self.config.info.username.as_str()) {
            return false;
        }
        let verdict = bcrypt_verify(password, self.config.info.password.as_str());
        password_verdict_accepts(verdict)
    }

    /// Replaces the account with `username` and a fresh hash of `password`,
    /// keeping the rest of the snapshot; afterwards exactly these
    /// credentials are accepted. Where no hash could be made the snapshot is
    /// unchanged and the error is internal.
    pub fn update_user_info(&mut self, username: &str, password: &str) -> (r: Result<(), AppError>)
        ensures
            match r {
                Ok(()) => {
                    &&& final(self).spec_config().info.username@ == username@
                    &&& credentials_valid(final(self).spec_config().info, username@, password@)
                    &&& final(self).spec_config().listen == old(self).spec_config().listen
                    &&& final(self).spec_config().zerotier == old(self).spec_config().zerotier
                    &&& final(self).spec_config_path() == old(self).spec_config_path()
                },
                Err(e) => {
                    &&& e is InternalServerError
                    &&& *final(self) == *old(self)
                },
            },
    {
        match bcrypt_hash(password) {
            Ok(hash) => {
                self.config.info = UserInfo { username: username.to_owned(), password: hash };
                Ok(())
            },
            Err(_) => Err(AppError::InternalServerError("Failed to hash password".to_owned())),
        }
    }

    /// The address the server listens on.
    pub fn get_listen_address(&self) -> (r: String)
        ensures
            r == self.spec_config().listen,
    {
        self.config.listen.clone()
    }

    /// The upstream controller's address and token.
    pub fn get_zerotier_config(&self) -> (r: ZeroTierConfig)
        ensures
            r == self.spec_config().zerotier,
    {
        self.config.zerotier.duplicate()
    }
}

} // verus!

//! Request bodies and the persisted configuration.

use vstd::prelude::*;

verus! {

/// The body of a login request.
#[derive(Clone, Debug)]
pub struct LoginRequest {
    pub username: String,
    pub password: String,
}

/// The body of a profile update: the new username and password.
#[derive(Clone, Debug)]
pub struct UpdateProfileRequest {
    pub username: String,
    pub password: String,
}

/// The administrative account: a username and a bcrypt hash of its
/// password (never the password itself).
#[derive(Clone, Debug)]
pub struct UserInfo {
    pub username: String,
    pub password: String,
}

/// Where the upstream controller listens, and the token it expects.
#[derive(Clone, Debug)]
pub struct ZeroTierConfig {
    pub auth_token: String,
    pub address: String,
}

/// The whole persisted configuration.
#[derive(Clone, Debug)]
pub struct AppConfig {
    pub info: UserInfo,
    pub listen: String,
    pub zerotier: ZeroTierConfig,
}

impl UserInfo {
    /// A copy of this account.
    pub fn duplicate(&self) -> (r: UserInfo)
        ensures
            r == *self,
    {
        UserInfo { username: self.username.clone(), password: self.password.clone() }
    }
}

impl ZeroTierConfig {
    /// A copy of these upstream settings.
    pub fn duplicate(&self) -> (r: ZeroTierConfig)
        ensures
            r == *self,
    {
        ZeroTierConfig { auth_token: self.auth_token.clone(), address: self.address.clone() }
    }
}

impl AppConfig {
    /// A copy of this configuration.
    pub fn duplicate(&self) -> (r: AppConfig)
        ensures
            r == *self,
    {
        AppConfig {
            info: self.info.duplicate(),
            listen: self.listen.clone(),
            zerotier: self.zerotier.duplicate(),
        }
    }
}

impl Default for AppConfig {
    /// No account, no upstream, and the loopback listen address.
    fn default() -> (r: AppConfig)
        ensures
            r.info.username@ == Seq::<char>::empty(),
            r.info.password@ == Seq::<char>::empty(),
            r.listen@ == "127.0.0.1:3000"@,
            r.zerotier.auth_token@ == Seq::<char>::empty(),
            r.zerotier.address@ == Seq::<char>::empty(),
    {
        AppConfig {
            info: UserInfo { username: String::new(), password: String::new() },
            listen: "127.0.0.1:3000".to_owned(),
            zerotier: ZeroTierConfig { auth_token: String::new(), address: String::new() },
        }
    }
}

} // verus!

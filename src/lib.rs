//! Authentication gateway in front of a network controller's local API:
//! client address resolution, brute-force defence, bearer credentials and
//! request forwarding, each stated and proved with Verus.

pub mod auth;
pub mod client_ip;
pub mod clock;
pub mod config;
pub mod error;
pub mod gate;
pub mod ip_ban;
pub mod models;
pub mod net;
pub mod static_files;
mod text;
pub mod zerotier;

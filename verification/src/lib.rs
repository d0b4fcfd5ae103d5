//! The security plugins of a DDS participant behind one interface.
//!
//! Three plugins do the work: one authenticates participants, one controls what
//! they may do, and one protects what they send. Each names what it has worked on
//! by handles. [`SecurityPlugins`] keeps these handles, finds them again by
//! participant and endpoint, and skips the cryptographic plugin where nothing needs
//! protection. Its contracts say which handles reach the plugins, what is stored and
//! returned for each of their replies, and what record of it all is kept for proofs.

pub mod access_control;
pub mod authentication;
mod cache;
pub mod cryptographic;
pub mod error;
pub mod guid;
pub mod history;
pub mod laws;
pub mod plugin;
pub mod qos;
pub mod recipients;
pub mod rtps;
pub mod security_plugins;
pub mod state;
pub mod types;

pub use access_control::AccessControl;
pub use authentication::Authentication;
pub use cryptographic::{CryptoKeyExchange, CryptoKeyFactory, CryptoTransform, Cryptographic};
pub use error::{SecurityError, SecurityResult};
pub use plugin::Plugin;
pub use security_plugins::SecurityPlugins;

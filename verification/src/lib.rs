//! The core of a dual-mode server launcher: the settings of the plaintext and
//! TLS listeners, the TLS material a listener serves with, the rule by which a
//! failed handshake is dropped without closing its listener, and the order in
//! which two runtime instances bring their listeners up on neighbouring ports.

pub mod settings;
pub mod tls;
pub mod launch;
pub mod accept;
pub mod handler;
pub mod banner;

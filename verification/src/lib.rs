//! Silent Sparrow: a signed liveness beacon and the rules by which a signer and
//! an unprivileged watchdog share one statement.
//!
//! The signer ([`canary`]) holds an Ed25519 key pair ([`crypto`]) and, at every
//! refresh, makes a statement that says when it was signed and whether the
//! signer is on schedule. The watchdog ([`watchdog`]) holds no key. It reads the
//! statement, judges its age by a threshold of its own, and where the message
//! no longer fits it rewrites the message and puts a sentinel in place of the
//! signature. A statement therefore either verifies under the key it names or
//! openly carries the sentinel.
//!
//! The library decides and computes; it reads no file and opens no connection.
//! Its callers read the statement from disk, write what the library
//! hands them, and send what it asks them to send.
//!
//! Everything here is verified, down to these outside functions, whose
//! contracts are taken on trust and stated where they are called:
//! `ed25519_dalek` for keys and signatures ([`crypto`]), `base64ct` and `hex`
//! for text forms of bytes ([`encoding`]), `chrono` for RFC 3339 and the clock
//! ([`time`]), and `Duration::from_secs` ([`config`]).

pub mod canary;
pub mod config;
pub mod crypto;
pub mod encoding;
pub mod publisher;
pub mod text;
pub mod time;
pub mod watchdog;

pub use canary::Canary;
pub use config::Config;

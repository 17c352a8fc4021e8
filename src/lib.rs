//! A pluggable SASL negotiation and exchange engine: mechanism names, a
//! priority-ordered registry, a per-exchange session state machine, the
//! property/validation protocol, and the ANONYMOUS and PLAIN mechanisms.

pub mod mechname;
pub mod utf8;
pub mod validate;
pub mod session;
pub mod anonymous;
pub mod plain;
pub mod property;
pub mod client;
pub mod registry;
pub mod init;
pub mod digest_md5;

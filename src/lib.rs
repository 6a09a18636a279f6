//! Hierarchical authorization modules: leaves that decide on their own
//! (allow-always, whitelist, message filter), composites that combine their
//! children's decisions (all-of, any-of), the structural matcher the filter
//! uses, and the fan-out of state updates from a module to its children.
//!
//! Storage, transport and the encoding of messages stay with the host: the
//! functions here take module state, structured actions and the children's
//! answers as plain values.

pub mod addr_set;
pub mod authorization;
pub mod basic;
pub mod composite;
pub mod message_filter;
pub mod satisfies_all;
pub mod satisfies_any;
pub mod value;
pub mod whitelist;

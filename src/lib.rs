//! A custodial vault keyed to an owning authority and a name: the address
//! of each vault is derived from its owner and name, re-checked on every
//! withdrawal, and funds leave it only on the owner's signature and only up
//! to its balance.
pub mod derivation;
pub mod identity;
pub mod laws;
pub mod vault;

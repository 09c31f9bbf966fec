//! Claim settlement and compensating refunds for linkdrop keys.
//!
//! The library decides which remote calls a claim needs, keeps the
//! accounting that lets a failed call be undone, and authorises key
//! holders by a signature over a per-key nonce. It performs no remote
//! call itself: it hands back plans that the host glue carries out.

pub mod bytemap;
pub mod types;
pub mod refunds;
pub mod keypom;
pub mod registry;
pub mod authorizer;
pub mod dispatch;
pub mod events;

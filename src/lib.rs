//! Batch ordering of plugin upgrades for supplier tenants: paging over the
//! eligible suppliers, building and signing order requests, reading the
//! order service's replies, and the state machine of the whole batch.
pub mod apporder;
pub mod batch;
pub mod decimal;
pub mod paging;
pub mod reply;
pub mod signing;

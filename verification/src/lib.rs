//! Build-orchestration core: fetching toolchain archives over HTTPS with
//! manual redirect handling, an existence-checked download/extraction cache,
//! and a capability-scoped sandbox execution contract.
//!
//! The crate decides; its caller performs.  Every network, filesystem and
//! process effect is described here as a plain value — a request plan, an
//! acquisition step, a command, a capability grant — with a proved
//! contract, and carried out by unverified driver code around the library.

pub mod command;
pub mod errors;
pub mod fetch;
pub mod sandbox;
pub mod strutil;
pub mod toolchain;
pub mod url;

//! Conditional, fail-fast composition of capability modules during
//! application bootstrap.
//!
//! A statically declared, ordered table pairs each capability module with an
//! inclusion predicate over the platform and profile classification. The
//! [`context::BootstrapContext`] state machine attempts the included modules
//! in declared order, stops for good at the first registration failure, and
//! hands control to the host runtime's run loop only when every included
//! module has registered successfully. The registration calls themselves and
//! the run loop belong to the host runtime; a driver performs them and
//! reports each outcome back to the context.

pub mod classification;
pub mod context;
pub mod laws;
pub mod modules;

pub use classification::{Classification, Inclusion, included};
pub use context::{BootstrapContext, Phase, StartupError, Step};
pub use modules::{ModuleEntry, ModuleId, module_table, plan};

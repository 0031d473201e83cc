//! A counting processor for grant-program records and the single pass that
//! drives it: every item handed in is numbered, stamped and summarised.

pub mod clock;
pub mod decimal;
pub mod error;
pub mod json;
pub mod processor;
pub mod runner;

pub use error::GrantProgramError;
pub use processor::{GrantProgramProcessor, ProcessResult};
pub use runner::run;

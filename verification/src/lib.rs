//! Verified core of the Excel COM Range Automation evidence probe: the
//! Automation value codec, invocation frames, evidence records and their
//! merge, the generated reports, and the decisions of the live runs.

pub mod automation;
pub mod cli;
pub mod codec;
pub mod evidence;
pub mod floatbits;
pub mod frame;
pub mod geometry;
pub mod kernel;
pub mod parity;
pub mod pydiff;
pub mod report;
pub mod runtime_report;
pub mod scode;
pub mod scode_runtime;
pub mod text;
pub mod typelib;
pub mod typelib_report;
pub mod utf16;
pub mod value_runtime;
pub mod value;
pub mod variant;

pub use automation::{automation_value_check, automation_value_live};
pub use evidence::{diagnose, live, parity};
pub use parity::{parity_configuration, LiveSummary, ParityConfiguration, ParityMode};
pub use runtime_report::refresh;
pub use typelib::{audit, AuditInput, AuditSummary};

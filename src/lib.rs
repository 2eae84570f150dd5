//! Process resource detection: the command-line arguments and the process id
//! of the running process, as a telemetry resource.

pub mod attributes;
pub mod process;
pub mod resource;

pub use process::ProcessResourceDetector;

//! A thin, verified shim over the `tesseract` command-line OCR tool.
//!
//! The library builds the argument lists that the external binary expects,
//! and interprets what a finished subprocess left behind (captured output,
//! captured standard error, and its exit status) as a typed result.  The
//! actual spawning of the subprocess is input/output and lives outside the
//! library; callers hand the observed outcome back in as plain data.

pub mod command;
pub mod decimal;
pub mod error;
pub mod image;
pub mod lines;
pub mod options;
pub mod runner;

pub use command::TessCommand;
pub use command::create_tesseract_command;
pub use command::get_tesseract_command;
pub use command::list_langs_command;
pub use command::version_command;
pub use error::TessError;
pub use error::TessResult;
pub use image::Image;
pub use options::Args;
pub use options::ConfigVariable;
pub use runner::ExitStatus;
pub use runner::ProcessOutput;
pub use runner::SpawnOutcome;
pub use runner::get_tesseract_langs;
pub use runner::get_tesseract_version;
pub use runner::image_to_string;
pub use runner::run_tesseract_command;

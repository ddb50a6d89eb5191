//! Export of a package through a helper package.
//!
//! A format keyword is resolved to the helper package that implements the
//! format, the helper is installed when it is not yet present, and control is
//! handed to the helper's executable with the coordinates of the package to
//! export. This crate holds the decisions of that protocol; probing the disk,
//! installing, printing and replacing the process are left to the caller, who
//! performs each [`session::Action`] and reports back how it went.

pub mod error;
pub mod platform;
pub mod ident;
pub mod registry;
pub mod session;
pub mod text;
pub mod ui;

pub use error::Error;
pub use platform::Platform;
pub use ident::PackageIdent;
pub use registry::format_for;
pub use registry::ExportFormat;
pub use session::start;
pub use session::Action;
pub use session::Export;
pub use session::Handoff;
pub use session::InstallRequest;
pub use session::Phase;
pub use ui::Message;
pub use ui::Ui;

//! Colourful `--version` output for command-line programs built on clap.
//!
//! The library holds the banner (`name vVERSION by AUTHOR`), the colours it
//! is painted with, and the hex colour parser that reads those colours.

pub mod banner;
pub mod error;
pub mod flag;
pub mod hex;

pub use banner::{ColorfulVersion, Colors};
pub use error::VersionError;
pub use flag::{ColorfulVersionExt, VERSION_FLAG_ID};
pub use hex::parse_hex;

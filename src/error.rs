//! The library's error type.

use vstd::prelude::*;

verus! {

/// Relies on `std::io::Error` only as an opaque value carried by `VersionError::IoError`.
#[verifier::external_type_specification]
#[verifier::external_body]
pub struct ExIoError(std::io::Error);

/// What can go wrong while configuring or writing the banner.
#[derive(Debug)]
pub enum VersionError {
    /// A colour string that is not `#RGB` or `#RRGGBB`; holds the text after
    /// its leading `#`.
    InvalidHexColor(String),
    /// Writing the banner failed.
    IoError(std::io::Error),
}

/// `e` reports `text` as an invalid hex colour.
pub open spec fn is_invalid_hex(e: VersionError, text: Seq<char>) -> bool {
    e matches VersionError::InvalidHexColor(s) && s@ == text
}

impl VersionError {
    /// Creates a new `InvalidHexColor` error.
    pub fn invalid_hex(color: &str) -> (r: Self)
        ensures
            is_invalid_hex(r, color@),
    {
        VersionError::InvalidHexColor(color.to_owned())
    }

    /// A sentence that describes the error.
    pub fn message(&self) -> (r: String)
        ensures
            match self {
                VersionError::InvalidHexColor(s) => r@ == "Invalid hex color format: '"@ + s@
                    + "'. Expected format: #RRGGBB or #RGB"@,
                VersionError::IoError(_) => "I/O error: "@.is_prefix_of(r@),
            },
    {
        match self {
            VersionError::InvalidHexColor(s) => {
                let mut r = String::from_str("Invalid hex color format: '");
                r.append(s.as_str());
                r.append("'. Expected format: #RRGGBB or #RGB");
                r
            },
            VersionError::IoError(e) => {
                let mut r = String::from_str("I/O error: ");
                let detail = e.to_string();
                r.append(detail.as_str());
                r
            },
        }
    }
}

} // verus!

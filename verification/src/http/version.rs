use vstd::prelude::*;

verus! {

/// An HTTP version. `HTTP/1.0` and `HTTP/1.1` are the only ones supported.
#[derive(Debug, PartialEq, Eq, PartialOrd, Ord, Copy, Clone, Hash, Structural)]
pub enum Version {
    Http10,
    Http11,
}

/// The byte of a request line did not name a supported version.
#[derive(Debug, PartialEq, Eq, Copy, Clone, Structural)]
pub struct InvalidHttpVersion;

impl Version {
    /// `HTTP/1.0`
    pub const HTTP_10: Version = Version::Http10;

    /// `HTTP/1.1`
    pub const HTTP_11: Version = Version::Http11;

    /// The version that the minor-version byte of a parsed request line
    /// stands for: `0` and `1` are both taken as `HTTP/1.0`, any other byte
    /// is refused.
    pub open spec fn of_minor(minor: u8) -> Result<Version, InvalidHttpVersion> {
        if minor == 0 || minor == 1 {
            Ok(Version::HTTP_10)
        } else {
            Err(InvalidHttpVersion)
        }
    }

    /// Reads the version from the minor-version byte of a parsed request
    /// line.
    pub fn from_minor(minor: u8) -> (r: Result<Version, InvalidHttpVersion>)
        ensures
            r == Version::of_minor(minor),
    {
        match minor {
            0 => Ok(Version::HTTP_10),
            1 => Ok(Version::HTTP_10),
            _ => Err(InvalidHttpVersion),
        }
    }

    /// The text of the version.
    pub open spec fn text(self) -> Seq<char> {
        if self == Version::HTTP_10 {
            "HTTP/1.0"@
        } else {
            "HTTP/1.1"@
        }
    }

    /// The version as it is written on the wire.
    pub fn as_str(&self) -> (text: &'static str)
        ensures
            text@ == self.text(),
    {
        match self {
            Version::Http10 => "HTTP/1.0",
            Version::Http11 => "HTTP/1.1",
        }
    }
}

impl Default for Version {
    fn default() -> (version: Version)
        ensures
            version == Version::HTTP_11,
    {
        Version::HTTP_11
    }
}

} // verus!

use vstd::prelude::*;

verus! {

/// Failure conditions surfaced to callers.  Corrupt persisted state is
/// always reported as a distinct, named condition and never silently
/// tolerated or auto-migrated.
#[derive(Debug)]
pub enum Error {
    /// A persisted file whose magic identifier is not the expected one.
    FileHeader(String),
    /// A persisted file with the right identifier but another version.
    FileVersion(String),
    /// A persisted payload that does not decompress or parse.
    CorruptPayload(String),
    /// A generator id the dispatch table does not know.
    UnknownGenerator(String),
}

impl Error {
    /// A short human-readable description of the failure.
    pub fn describe(&self) -> (r: String)
        ensures
            match self {
                Error::FileHeader(m) => r@ == "invalid file header: "@ + m@,
                Error::FileVersion(m) => r@ == "invalid file version: "@ + m@,
                Error::CorruptPayload(m) => r@ == "corrupt payload: "@ + m@,
                Error::UnknownGenerator(m) => r@ == "unknown generator: "@ + m@,
            },
    {
        let mut s: String;
        match self {
            Error::FileHeader(m) => {
                s = "invalid file header: ".to_owned();
                s.append(m.as_str());
            },
            Error::FileVersion(m) => {
                s = "invalid file version: ".to_owned();
                s.append(m.as_str());
            },
            Error::CorruptPayload(m) => {
                s = "corrupt payload: ".to_owned();
                s.append(m.as_str());
            },
            Error::UnknownGenerator(m) => {
                s = "unknown generator: ".to_owned();
                s.append(m.as_str());
            },
        }
        s
    }
}

} // verus!

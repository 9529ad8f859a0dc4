use vstd::prelude::*;

verus! {

/// The error taxonomy of the library. Configuration discovery, configuration
/// file handling and remote-device retrieval each report a distinct kind, so
/// the process boundary can turn any failure into a message and an exit code.
#[derive(Debug, Clone)]
pub enum Error {
    /// The operating system offered no per-application configuration directory.
    ConfigPathUnresolved,
    /// No configuration file exists yet; carries the path where one was expected.
    ConfigMissing(String),
    /// The configuration file exists but its content is malformed.
    ConfigParseError,
    /// The configuration file or its directory could not be written.
    ConfigWriteError,
    /// The remote request failed at the transport level.
    NetworkError,
    /// The remote response is not valid JSON of the expected shape.
    ResponseParseError,
}

impl Error {
    /// True when this error reports a missing configuration file at `path`.
    pub open spec fn is_missing_at(&self, path: Seq<char>) -> bool {
        match self {
            Error::ConfigMissing(p) => p@ == path,
            _ => false,
        }
    }

    /// A human-readable description for the process boundary to print: one
    /// fixed text per kind, and the missing-file text names the expected path.
    pub fn message(&self) -> (r: String)
        ensures
            self is ConfigPathUnresolved ==> r@ == "Invalid config: config dir not found"@,
            self matches Error::ConfigMissing(p) ==> r@ == "Missing config file expected to be at "@
                + p@,
            self is ConfigParseError ==> r@ == "Invalid config: malformed config file"@,
            self is ConfigWriteError ==> r@ == "Could not write the config file"@,
            self is NetworkError ==> r@ == "Request to the router failed"@,
            self is ResponseParseError ==> r@ == "Could not decode the router response"@,
    {
        match self {
            Error::ConfigPathUnresolved => "Invalid config: config dir not found".to_owned(),
            Error::ConfigMissing(p) => "Missing config file expected to be at ".to_owned().concat(
                p.as_str(),
            ),
            Error::ConfigParseError => "Invalid config: malformed config file".to_owned(),
            Error::ConfigWriteError => "Could not write the config file".to_owned(),
            Error::NetworkError => "Request to the router failed".to_owned(),
            Error::ResponseParseError => "Could not decode the router response".to_owned(),
        }
    }
}

} // verus!

use vstd::prelude::*;

verus! {

/// The failures that the protocol layer and the endpoints report.
pub enum Error {
    /// A request could not be read from its header; holds the reason.
    Malformed(String),
    /// A client-side call to an endpoint failed; names the endpoint and the
    /// call, and holds the failure underneath.
    Request { endpoint: String, func: String, cause: Box<Error> },
    /// A subprocess exited unsuccessfully; holds its collected output.
    Command(String),
    /// A system helper failed at the process level; holds its command line.
    SystemCommand(String),
    /// A system file that is needed is missing; holds its path.
    SystemFile(String),
    /// A system file could not be read or parsed; holds its path.
    SystemFileOutput(String),
    /// No provider of the named endpoint is available on this host.
    ProviderUnavailable(String),
    /// The remote agent answered with an error message.
    Remote(String),
    /// The exit status slot was closed before a status arrived.
    StreamDropped,
    /// A pattern for reading a helper's output did not compile; holds the
    /// pattern.
    Regex(String),
    /// Any other failure, described by a message.
    Msg(String),
}

impl Error {
    /// This failure, as met by the call `func` of the endpoint `endpoint`.
    pub fn in_request(self, endpoint: &str, func: &str) -> (r: Error)
        ensures
            r matches Error::Request { endpoint: e, func: f, cause: c } && e@ == endpoint@ && f@
                == func@ && *c == self,
    {
        Error::Request { endpoint: endpoint.to_owned(), func: func.to_owned(), cause: Box::new(self) }
    }
}

} // verus!

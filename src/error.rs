use vstd::prelude::*;
use vstd::string::StringExecFns;

verus! {

/// The error vocabulary shared by the codec, the client and the server.
///
/// Where an outside library reported the failure, `detail` holds its message.
#[derive(Debug, PartialEq, Eq)]
pub enum Error {
    /// The client failed to serialize a request.
    EncodeRequest { detail: String },
    /// The server failed to serialize a response.
    EncodeResponse { detail: String },
    /// The server failed to parse a request into its schema.
    DecodeRequest { detail: String },
    /// The client failed to parse a response into its schema.
    DecodeResponse { detail: String },
    /// The server received a request token outside the base64 alphabet.
    AlphabetDecodeRequest { detail: String },
    /// The client received a response token outside the base64 alphabet.
    AlphabetDecodeResponse { detail: String },
    /// The transport executable could not be started.
    TransportLaunch { detail: String },
    /// The transport ran but exited unsuccessfully.
    RemoteExecution { diagnostic: String },
    /// The requested route does not exist.
    InvalidRoute { route_name: String },
    /// The server binary is not installed on the remote host.
    RemoteBinaryMissing,
}

impl Error {
    /// The human-readable text of the error.
    pub open spec fn spec_message(&self) -> Seq<char> {
        match self {
            Error::EncodeRequest { detail } => "failed to serialize the request: "@ + detail@,
            Error::EncodeResponse { detail } => "failed to serialize the response: "@ + detail@,
            Error::DecodeRequest { detail } => "failed to deserialize the request: "@ + detail@,
            Error::DecodeResponse { detail } => "failed to deserialize the response: "@ + detail@,
            Error::AlphabetDecodeRequest { detail } => "failed to decode the request from base 64: "@ + detail@,
            Error::AlphabetDecodeResponse { detail } => "failed to decode the response from base 64: "@ + detail@,
            Error::TransportLaunch { detail } => "failed to launch the ssh process: "@ + detail@,
            Error::RemoteExecution { diagnostic } => "the remote command failed: "@ + diagnostic@,
            Error::InvalidRoute { route_name } => "'"@ + route_name@ + "' is not a valid route"@,
            Error::RemoteBinaryMissing => "the server component is not installed on the server"@,
        }
    }

    /// Renders the error as the text that the server writes to its
    /// diagnostic stream.
    pub fn message(&self) -> (r: String)
        ensures
            r@ == self.spec_message(),
    {
        match self {
            Error::EncodeRequest { detail } => String::from_str("failed to serialize the request: ").concat(detail.as_str()),
            Error::EncodeResponse { detail } => String::from_str("failed to serialize the response: ").concat(detail.as_str()),
            Error::DecodeRequest { detail } => String::from_str("failed to deserialize the request: ").concat(detail.as_str()),
            Error::DecodeResponse { detail } => String::from_str("failed to deserialize the response: ").concat(detail.as_str()),
            Error::AlphabetDecodeRequest { detail } => String::from_str("failed to decode the request from base 64: ").concat(detail.as_str()),
            Error::AlphabetDecodeResponse { detail } => String::from_str("failed to decode the response from base 64: ").concat(detail.as_str()),
            Error::TransportLaunch { detail } => String::from_str("failed to launch the ssh process: ").concat(detail.as_str()),
            Error::RemoteExecution { diagnostic } => String::from_str("the remote command failed: ").concat(diagnostic.as_str()),
            Error::InvalidRoute { route_name } => String::from_str("'").concat(
                route_name.as_str(),
            ).concat("' is not a valid route"),
            Error::RemoteBinaryMissing => String::from_str(
                "the server component is not installed on the server",
            ),
        }
    }
}

} // verus!

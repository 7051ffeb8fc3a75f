//! The closed failure taxonomy of the gateway, and the Error Mapper that
//! translates every failure into its caller-facing HTTP outcome.

use vstd::prelude::*;
use vstd::string::StringExecFns;

verus! {

/// A failure while establishing the remote session: transport trouble,
/// rejected credentials, or file-transfer sub-protocol negotiation.
#[derive(Debug)]
pub enum SftpClientError {
    /// The transport layer failed; carries the transport's diagnostic text.
    SshError(String),
    /// The remote host did not accept the supplied credentials, or the
    /// authentication exchange itself failed.
    SshAuthFailure,
    /// Negotiating the file-transfer sub-protocol failed; carries its
    /// diagnostic text.
    SftpError(String),
}

/// Every failure a request can end in. The taxonomy is closed: the Error
/// Mapper gives each variant exactly one caller-facing outcome.
#[derive(Debug)]
pub enum RemoteFileError {
    /// The requested path tried to escape the configured base directory.
    PathTraversal,
    /// The remote session could not be established.
    SftpClientError(SftpClientError),
    /// The remote target is absent, or is not a regular file.
    FileNotFound,
    /// The remote side failed while the target was inspected or opened;
    /// carries the diagnostic text.
    FileAccessError(String),
}

/// What `SftpClientError::message` returns for each variant.
pub open spec fn spec_client_message(e: SftpClientError) -> Seq<char> {
    match e {
        SftpClientError::SshError(m) => "ssh error: "@ + m@,
        SftpClientError::SshAuthFailure => "failed to authenticate to remote server"@,
        SftpClientError::SftpError(m) => "sftp error: "@ + m@,
    }
}

impl SftpClientError {
    /// A short, human-readable description of the failure.
    pub fn message(&self) -> (r: String)
        ensures
            r@ == spec_client_message(*self),
    {
        match self {
            SftpClientError::SshError(m) => String::from_str("ssh error: ").concat(m.as_str()),
            SftpClientError::SshAuthFailure => String::from_str(
                "failed to authenticate to remote server",
            ),
            SftpClientError::SftpError(m) => String::from_str("sftp error: ").concat(m.as_str()),
        }
    }
}

impl From<SftpClientError> for RemoteFileError {
    fn from(value: SftpClientError) -> (r: Self) {
        RemoteFileError::SftpClientError(value)
    }
}

impl vstd::std_specs::convert::FromSpecImpl<SftpClientError> for RemoteFileError {
    open spec fn obeys_from_spec() -> bool {
        true
    }

    open spec fn from_spec(v: SftpClientError) -> Self {
        RemoteFileError::SftpClientError(v)
    }
}

/// A caller-facing HTTP outcome: a status code and a short message body.
pub struct HttpResponse {
    pub status: u16,
    pub message: String,
}

/// The status code the Error Mapper assigns to each failure. Traversal is
/// client-caused (400), a missing target is 404, and everything raised by
/// the transport, authentication or the remote protocol is server-caused
/// (500).
pub open spec fn spec_response_status(e: RemoteFileError) -> u16 {
    match e {
        RemoteFileError::PathTraversal => 400,
        RemoteFileError::SftpClientError(_) => 500,
        RemoteFileError::FileNotFound => 404,
        RemoteFileError::FileAccessError(_) => 500,
    }
}

/// The message body the Error Mapper assigns to each failure. Client-caused
/// failures get generic, safe text; server-caused ones include the
/// underlying diagnostic to aid operability.
pub open spec fn spec_response_message(e: RemoteFileError) -> Seq<char> {
    match e {
        RemoteFileError::PathTraversal => "Request contains path traversal"@,
        RemoteFileError::SftpClientError(c) => spec_client_message(c),
        RemoteFileError::FileNotFound => "File not found"@,
        RemoteFileError::FileAccessError(m) => "Error accessing file: "@ + m@,
    }
}

impl RemoteFileError {
    /// The Error Mapper: translate a failure into its caller-facing outcome.
    /// Total and deterministic: every variant of the taxonomy has exactly
    /// one mapped outcome.
    pub fn into_response(self) -> (r: HttpResponse)
        ensures
            r.status == spec_response_status(self),
            r.message@ == spec_response_message(self),
    {
        match self {
            RemoteFileError::PathTraversal => HttpResponse {
                status: 400,
                message: String::from_str("Request contains path traversal"),
            },
            RemoteFileError::SftpClientError(c) => HttpResponse {
                status: 500,
                message: c.message(),
            },
            RemoteFileError::FileNotFound => HttpResponse {
                status: 404,
                message: String::from_str("File not found"),
            },
            RemoteFileError::FileAccessError(m) => HttpResponse {
                status: 500,
                message: String::from_str("Error accessing file: ").concat(m.as_str()),
            },
        }
    }
}

/// Law: an authentication failure and a pure transport failure both map to
/// status 500, but their message bodies always differ, whatever diagnostic
/// text the transport produced — the two server-caused outcomes stay
/// distinguishable.
pub proof fn lemma_auth_failure_distinguishable(transport_diag: String)
    ensures
        spec_response_status(
            RemoteFileError::SftpClientError(SftpClientError::SshAuthFailure),
        ) == 500,
        spec_response_status(
            RemoteFileError::SftpClientError(SftpClientError::SshError(transport_diag)),
        ) == 500,
        spec_response_message(RemoteFileError::SftpClientError(SftpClientError::SshAuthFailure))
            != spec_response_message(
            RemoteFileError::SftpClientError(SftpClientError::SshError(transport_diag)),
        ),
{
    reveal_strlit("ssh error: ");
    reveal_strlit("failed to authenticate to remote server");
    assert(("ssh error: "@ + transport_diag@)[0] == 's');
    assert("failed to authenticate to remote server"@[0] == 'f');
}

} // verus!

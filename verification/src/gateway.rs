//! The request pipeline as a state machine: each request resolves its path,
//! then walks connect → authenticate → open channel → request subsystem →
//! initialize the file-transfer session → stat → open → stream, strictly in
//! order, one remote operation per step. The machine decides; the caller
//! performs the remote operations and feeds their outcomes back as events.

use vstd::prelude::*;
use vstd::pervasive::unreached;
use vstd::string::StringExecFns;

use crate::config::AppConfig;
use crate::errors::RemoteFileError;
use crate::errors::SftpClientError;
use crate::paths::get_full_path;
use crate::paths::has_parent_component;
use crate::paths::spec_join;
use crate::paths::spec_resolves;
use crate::transcode::effective_fetch_name;
use crate::transcode::has_bz2_suffix;
use crate::transcode::lemma_fetch_name_keeps_traversal;
use crate::transcode::spec_fetch_name;

verus! {

/// Where a request stands in its pipeline. `Stream` and `Done` are
/// terminal for the machine: streaming itself, like every other remote
/// operation, is the caller's work.
#[derive(Clone, Copy, Debug, PartialEq, Eq, Structural)]
pub enum Phase {
    /// Waiting for the transport connection's outcome.
    Connect,
    /// Waiting for the password authentication's outcome.
    Authenticate,
    /// Waiting for the logical channel to open.
    OpenChannel,
    /// Waiting for the file-transfer subsystem request's outcome.
    RequestSubsystem,
    /// Waiting for the file-transfer session to initialize.
    InitSftp,
    /// Waiting for the metadata request's outcome.
    Stat,
    /// Waiting for the open-for-read's outcome.
    Open,
    /// The file is open; the response body is being streamed.
    Stream,
    /// The request ended in a failure response.
    Done,
}

/// The outcome of one remote operation, handed back by the caller. Failure
/// variants carry the remote side's diagnostic text.
#[derive(Debug)]
pub enum Event {
    Connected,
    ConnectFailed(String),
    /// The remote host accepted the credentials.
    AuthAccepted,
    /// The remote host answered, but did not accept the credentials.
    AuthRejected,
    /// The authentication exchange itself failed.
    AuthError(String),
    ChannelOpened,
    ChannelFailed(String),
    SubsystemStarted,
    SubsystemFailed(String),
    SftpReady,
    SftpInitFailed(String),
    /// Metadata came back and the target is a regular file.
    StatRegular,
    /// Metadata came back, but the target is not a regular file.
    StatNotRegular,
    /// The remote side reported that the target does not exist.
    StatNoSuchFile,
    /// The metadata request failed some other way.
    StatFailed(String),
    Opened,
    OpenFailed(String),
}

/// What the caller must do next: perform a remote operation, stream the
/// open file as the response body, or send a failure response.
#[derive(Debug)]
pub enum Action {
    Connect,
    Authenticate,
    OpenChannel,
    RequestSubsystem,
    InitSftp,
    Stat,
    Open,
    /// Respond with status 200 and the file's bytes, compressed when the
    /// machine's `compress` flag is set.
    Stream,
    /// Map the failure through the Error Mapper and respond with it.
    Fail(RemoteFileError),
}

/// One request's pipeline state.
pub struct FetchMachine {
    pub phase: Phase,
    /// The resolved absolute remote path to fetch.
    pub remote_path: String,
    /// The name the client asked for, as requested — what the response's
    /// `Content-Disposition` filename should say.
    pub download_name: String,
    /// Serve the body through the compressing transform.
    pub compress: bool,
}

/// Which events a phase can answer. The terminal phases answer none.
pub open spec fn accepts(phase: Phase, e: Event) -> bool {
    match phase {
        Phase::Connect => e is Connected || e is ConnectFailed,
        Phase::Authenticate => e is AuthAccepted || e is AuthRejected || e is AuthError,
        Phase::OpenChannel => e is ChannelOpened || e is ChannelFailed,
        Phase::RequestSubsystem => e is SubsystemStarted || e is SubsystemFailed,
        Phase::InitSftp => e is SftpReady || e is SftpInitFailed,
        Phase::Stat => e is StatRegular || e is StatNotRegular || e is StatNoSuchFile
            || e is StatFailed,
        Phase::Open => e is Opened || e is OpenFailed,
        Phase::Stream => false,
        Phase::Done => false,
    }
}

/// `m`, moved to phase `p`.
pub open spec fn with_phase(m: FetchMachine, p: Phase) -> FetchMachine {
    FetchMachine { phase: p, ..m }
}

/// `m`, failed with `e`: the terminal phase paired with the failing action.
pub open spec fn fail_with(m: FetchMachine, e: RemoteFileError) -> (FetchMachine, Action) {
    (with_phase(m, Phase::Done), Action::Fail(e))
}

/// The full transition relation of the pipeline, one remote outcome at a
/// time. Every successful outcome moves to the next phase in order; every
/// failing outcome ends the request with the failure the Error Mapper
/// expects for it: transport and negotiation failures are session errors,
/// any non-acceptance of the credentials is an authentication failure, a
/// missing or non-regular target is `FileNotFound`, and a failure while
/// inspecting or opening the target is a file-access error.
pub open spec fn spec_step(m: FetchMachine, e: Event) -> (FetchMachine, Action)
    recommends
        accepts(m.phase, e),
{
    match (m.phase, e) {
        (Phase::Connect, Event::Connected) => (
            with_phase(m, Phase::Authenticate),
            Action::Authenticate,
        ),
        (Phase::Connect, Event::ConnectFailed(d)) => fail_with(
            m,
            RemoteFileError::SftpClientError(SftpClientError::SshError(d)),
        ),
        (Phase::Authenticate, Event::AuthAccepted) => (
            with_phase(m, Phase::OpenChannel),
            Action::OpenChannel,
        ),
        (Phase::Authenticate, Event::AuthRejected) => fail_with(
            m,
            RemoteFileError::SftpClientError(SftpClientError::SshAuthFailure),
        ),
        (Phase::Authenticate, Event::AuthError(_)) => fail_with(
            m,
            RemoteFileError::SftpClientError(SftpClientError::SshAuthFailure),
        ),
        (Phase::OpenChannel, Event::ChannelOpened) => (
            with_phase(m, Phase::RequestSubsystem),
            Action::RequestSubsystem,
        ),
        (Phase::OpenChannel, Event::ChannelFailed(d)) => fail_with(
            m,
            RemoteFileError::SftpClientError(SftpClientError::SshError(d)),
        ),
        (Phase::RequestSubsystem, Event::SubsystemStarted) => (
            with_phase(m, Phase::InitSftp),
            Action::InitSftp,
        ),
        (Phase::RequestSubsystem, Event::SubsystemFailed(d)) => fail_with(
            m,
            RemoteFileError::SftpClientError(SftpClientError::SshError(d)),
        ),
        (Phase::InitSftp, Event::SftpReady) => (with_phase(m, Phase::Stat), Action::Stat),
        (Phase::InitSftp, Event::SftpInitFailed(d)) => fail_with(
            m,
            RemoteFileError::SftpClientError(SftpClientError::SftpError(d)),
        ),
        (Phase::Stat, Event::StatRegular) => (with_phase(m, Phase::Open), Action::Open),
        (Phase::Stat, Event::StatNotRegular) => fail_with(m, RemoteFileError::FileNotFound),
        (Phase::Stat, Event::StatNoSuchFile) => fail_with(m, RemoteFileError::FileNotFound),
        (Phase::Stat, Event::StatFailed(d)) => fail_with(m, RemoteFileError::FileAccessError(d)),
        (Phase::Open, Event::Opened) => (with_phase(m, Phase::Stream), Action::Stream),
        (Phase::Open, Event::OpenFailed(d)) => fail_with(m, RemoteFileError::FileAccessError(d)),
        _ => (m, arbitrary()),
    }
}

impl FetchMachine {
    /// Advance the pipeline by one remote outcome; the returned action is
    /// what the caller must perform next.
    pub fn step(&mut self, e: Event) -> (a: Action)
        requires
            accepts(old(self).phase, e),
        ensures
            (*final(self), a) == spec_step(*old(self), e),
    {
        match (self.phase, e) {
            (Phase::Connect, Event::Connected) => {
                self.phase = Phase::Authenticate;
                Action::Authenticate
            },
            (Phase::Connect, Event::ConnectFailed(d)) => {
                self.phase = Phase::Done;
                Action::Fail(RemoteFileError::SftpClientError(SftpClientError::SshError(d)))
            },
            (Phase::Authenticate, Event::AuthAccepted) => {
                self.phase = Phase::OpenChannel;
                Action::OpenChannel
            },
            (Phase::Authenticate, Event::AuthRejected) => {
                self.phase = Phase::Done;
                Action::Fail(RemoteFileError::SftpClientError(SftpClientError::SshAuthFailure))
            },
            (Phase::Authenticate, Event::AuthError(_)) => {
                self.phase = Phase::Done;
                Action::Fail(RemoteFileError::SftpClientError(SftpClientError::SshAuthFailure))
            },
            (Phase::OpenChannel, Event::ChannelOpened) => {
                self.phase = Phase::RequestSubsystem;
                Action::RequestSubsystem
            },
            (Phase::OpenChannel, Event::ChannelFailed(d)) => {
                self.phase = Phase::Done;
                Action::Fail(RemoteFileError::SftpClientError(SftpClientError::SshError(d)))
            },
            (Phase::RequestSubsystem, Event::SubsystemStarted) => {
                self.phase = Phase::InitSftp;
                Action::InitSftp
            },
            (Phase::RequestSubsystem, Event::SubsystemFailed(d)) => {
                self.phase = Phase::Done;
                Action::Fail(RemoteFileError::SftpClientError(SftpClientError::SshError(d)))
            },
            (Phase::InitSftp, Event::SftpReady) => {
                self.phase = Phase::Stat;
                Action::Stat
            },
            (Phase::InitSftp, Event::SftpInitFailed(d)) => {
                self.phase = Phase::Done;
                Action::Fail(RemoteFileError::SftpClientError(SftpClientError::SftpError(d)))
            },
            (Phase::Stat, Event::StatRegular) => {
                self.phase = Phase::Open;
                Action::Open
            },
            (Phase::Stat, Event::StatNotRegular) => {
                self.phase = Phase::Done;
                Action::Fail(RemoteFileError::FileNotFound)
            },
            (Phase::Stat, Event::StatNoSuchFile) => {
                self.phase = Phase::Done;
                Action::Fail(RemoteFileError::FileNotFound)
            },
            (Phase::Stat, Event::StatFailed(d)) => {
                self.phase = Phase::Done;
                Action::Fail(RemoteFileError::FileAccessError(d))
            },
            (Phase::Open, Event::Opened) => {
                self.phase = Phase::Stream;
                Action::Stream
            },
            (Phase::Open, Event::OpenFailed(d)) => {
                self.phase = Phase::Done;
                Action::Fail(RemoteFileError::FileAccessError(d))
            },
            _ => unreached(),
        }
    }
}

/// Resolve `fetch_name` against the configured base directory and start the
/// machine: in the `Connect` phase when the path resolves, and failed with
/// `PathTraversal` — before any remote work — when it does not.
fn make_machine(fetch_name: &str, download_name: &str, compress: bool, app_config: &AppConfig) -> (r:
    (FetchMachine, Action))
    ensures
        r.0.download_name@ == download_name@,
        r.0.compress == compress,
        r.1 is Connect <==> spec_resolves(app_config.sftp.path@, fetch_name@),
        spec_resolves(app_config.sftp.path@, fetch_name@) ==> r.0.phase is Connect
            && r.0.remote_path@ == spec_join(app_config.sftp.path@, fetch_name@),
        !spec_resolves(app_config.sftp.path@, fetch_name@) ==> r.0.phase is Done && (
        r.1 matches Action::Fail(e) && e is PathTraversal),
{
    match get_full_path(fetch_name, app_config.sftp.path.as_str()) {
        Ok(p) => (
            FetchMachine {
                phase: Phase::Connect,
                remote_path: p,
                download_name: String::from_str(download_name),
                compress,
            },
            Action::Connect,
        ),
        Err(e) => (
            FetchMachine {
                phase: Phase::Done,
                remote_path: String::new(),
                download_name: String::from_str(download_name),
                compress,
            },
            Action::Fail(e),
        ),
    }
}

/// Start a fetch of exactly `file_path` (no suffix handling): resolve it
/// and hand back the machine with its first action.
pub fn get_remote_file(file_path: &str, app_config: &AppConfig) -> (r: (FetchMachine, Action))
    ensures
        r.0.download_name@ == file_path@,
        r.0.compress == false,
        r.1 is Connect <==> spec_resolves(app_config.sftp.path@, file_path@),
        spec_resolves(app_config.sftp.path@, file_path@) ==> r.0.phase is Connect
            && r.0.remote_path@ == spec_join(app_config.sftp.path@, file_path@),
        !spec_resolves(app_config.sftp.path@, file_path@) ==> r.0.phase is Done && (
        r.1 matches Action::Fail(e) && e is PathTraversal),
{
    make_machine(file_path, file_path, false, app_config)
}

/// Serve one HTTP request: a requested name ending in `.bz2` fetches the
/// name with the suffix stripped and is served compressed; any other name
/// is fetched as it is. The machine's `download_name` stays the name as
/// requested.
pub fn start_request(requested: &str, app_config: &AppConfig) -> (r: (FetchMachine, Action))
    ensures
        r.0.download_name@ == requested@,
        r.0.compress == has_bz2_suffix(requested@),
        r.1 is Connect <==> spec_resolves(app_config.sftp.path@, spec_fetch_name(requested@)),
        spec_resolves(app_config.sftp.path@, spec_fetch_name(requested@)) ==> r.0.phase is Connect
            && r.0.remote_path@ == spec_join(app_config.sftp.path@, spec_fetch_name(requested@)),
        !spec_resolves(app_config.sftp.path@, spec_fetch_name(requested@)) ==> r.0.phase is Done
            && (r.1 matches Action::Fail(e) && e is PathTraversal),
{
    let (fetch_name, compress) = effective_fetch_name(requested);
    make_machine(fetch_name.as_str(), requested, compress, app_config)
}

/// Law: a request whose suffix-stripped path holds an upward-traversal
/// component never resolves, so `start_request` refuses it outright — the
/// machine starts in the terminal phase, which accepts no event, and the
/// connect action, by `start_request`'s contract, is only ever issued for a
/// path that resolved. The remote session step is never reached.
pub proof fn lemma_traversal_never_connects(requested: Seq<char>, base: Seq<char>)
    requires
        has_parent_component(requested),
    ensures
        has_parent_component(spec_fetch_name(requested)),
        !spec_resolves(base, spec_fetch_name(requested)),
        forall|e: Event| !accepts(Phase::Done, e),
        crate::errors::spec_response_status(RemoteFileError::PathTraversal) == 400,
{
    lemma_fetch_name_keeps_traversal(requested);
}

/// Law: from a freshly connected request, the successful outcome of every
/// remote operation walks the pipeline strictly in order — authenticate,
/// open the channel, request the subsystem, initialize the file-transfer
/// session, stat, open — and ends streaming, with the resolved path, the
/// download name and the compression choice untouched along the way.
pub proof fn lemma_successful_run(m0: FetchMachine)
    requires
        m0.phase is Connect,
    ensures
        ({
            let (m1, a1) = spec_step(m0, Event::Connected);
            let (m2, a2) = spec_step(m1, Event::AuthAccepted);
            let (m3, a3) = spec_step(m2, Event::ChannelOpened);
            let (m4, a4) = spec_step(m3, Event::SubsystemStarted);
            let (m5, a5) = spec_step(m4, Event::SftpReady);
            let (m6, a6) = spec_step(m5, Event::StatRegular);
            let (m7, a7) = spec_step(m6, Event::Opened);
            &&& a1 is Authenticate
            &&& a2 is OpenChannel
            &&& a3 is RequestSubsystem
            &&& a4 is InitSftp
            &&& a5 is Stat
            &&& a6 is Open
            &&& a7 is Stream
            &&& m7.phase is Stream
            &&& m7.remote_path == m0.remote_path
            &&& m7.download_name == m0.download_name
            &&& m7.compress == m0.compress
        }),
{
}

/// Law: when the metadata answer says the target is absent or is not a
/// regular file, the request ends with `FileNotFound`, whose mapped outcome
/// is status 404 — the two cases are indistinguishable to the caller.
pub proof fn lemma_missing_file_yields_404(m: FetchMachine, e: Event)
    requires
        m.phase is Stat,
        e is StatNoSuchFile || e is StatNotRegular,
    ensures
        spec_step(m, e).0.phase is Done,
        spec_step(m, e).1 matches Action::Fail(err) && err is FileNotFound
            && crate::errors::spec_response_status(err) == 404,
{
}

/// Law: any authentication outcome other than acceptance — a rejection or a
/// failure of the exchange itself — ends the request with an
/// authentication-classified failure, mapped to a 500 whose message differs
/// from that of a 500 caused by a pure transport failure, whatever
/// diagnostic the transport produced.
pub proof fn lemma_auth_failure_classified(m: FetchMachine, e: Event, transport_diag: String)
    requires
        m.phase is Authenticate,
        e is AuthRejected || e is AuthError,
    ensures
        spec_step(m, e).0.phase is Done,
        spec_step(m, e).1 matches Action::Fail(err) && err == RemoteFileError::SftpClientError(
            SftpClientError::SshAuthFailure,
        ) && crate::errors::spec_response_status(err) == 500
            && crate::errors::spec_response_message(err) != crate::errors::spec_response_message(
            RemoteFileError::SftpClientError(SftpClientError::SshError(transport_diag)),
        ),
{
    crate::errors::lemma_auth_failure_distinguishable(transport_diag);
}

} // verus!

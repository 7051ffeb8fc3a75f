//! An HTTP-to-SFTP gateway library: it validates client-requested paths
//! against a configured remote base directory, plans the remote
//! connect/authenticate/stat/open pipeline as a step-by-step state machine,
//! selects on-the-fly compression from the requested filename's extension,
//! and maps every failure to a caller-facing HTTP outcome.

pub mod config;
pub mod errors;
pub mod gateway;
pub mod paths;
pub mod transcode;

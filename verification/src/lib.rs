//! Supervision of a session to a cluster that may fail and is then made anew.
//!
//! A supervisor keeps at most one connected cluster alive at a time, closes
//! it when a consumer finds it broken, and makes the next one as its restart
//! policy says. Loops of steps on the session keep their state across such a
//! restart. The supervisor and the loops decide; they make no call and wait
//! for nothing themselves. Who drives them hands in what happened and makes
//! the calls that are asked for.

pub mod cluster;
pub mod connected;
pub mod init;
pub mod laws;
pub mod lode;
pub mod model;
pub mod policy;
pub mod protocol;
pub mod retry;
pub mod severity;
pub mod supervisor;

pub use cluster::ClusterParams;
pub use connected::{aquire, close, release, ConnectedCluster, SharedSession};
pub use init::{init, Init, InitOutcome, InitStep};
pub use lode::{spawn, Lode, LodeParams, Params};
pub use policy::{RestartDecision, RestartPolicy};
pub use protocol::{Call, Event, Exit, Heed, Output, Phase, Reply, Stage, Verdict};
pub use retry::{
    using_resource, using_resource_loop, LoopError, LoopEvent, LoopNext, LoopOutput, Report,
    RetryLoop,
};
pub use severity::{LoopSignal, Severity, UsingOutcome};
pub use supervisor::{Admission, Supervisor};

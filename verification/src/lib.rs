//! A verified model of a readiness-driven bridge from a blocking protocol
//! engine to asynchronous callers: the retry loop that absorbs would-block
//! results, the error taxonomy it surfaces, and the pooled-connection
//! admission control layered on top.

pub mod agent_auth;
pub mod block_directions;
pub mod driver;
pub mod error;
pub mod forward;
pub mod manager;
pub mod session;
pub mod sftp;

pub use agent_auth::AgentAttempt;
pub use block_directions::{BlockDirections, BlockDirectionsExt};
pub use driver::{DriveOutcome, DriverAction, DriverStep, EngineEvent, NotBlockedPolicy};
pub use error::{EngineError, Error};
pub use forward::ForwardListenRetry;
pub use manager::{AdmissionGate, AsyncSessionManagerError, AsyncSessionUserauthType, AsyncSftpManagerError, ConnectFlow, ConnectStage};
pub use session::{SessionConfiguration, SessionKeepaliveConfiguration, SessionOption};
pub use sftp::FileStat;

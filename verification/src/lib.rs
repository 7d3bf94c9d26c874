//! QUIC wire-level building blocks: error codes, version negotiation and
//! stateless retry packets, variable-length integers and transport
//! parameters.

pub mod cc;
pub mod config;
pub mod connection;
pub mod error;
pub mod foreign_types;
pub mod octets;
pub mod packet;
pub mod scheduler;
pub mod stats;
pub mod text;
pub mod transport_params;

pub use crate::cc::Algorithm as CongestionControlAlgorithm;
pub use crate::config::Config;
pub use crate::scheduler::SchedulerType;
pub use crate::error::{Error, Result, Shutdown};
pub use crate::stats::Stats;
pub use crate::packet::{
    negotiate_version, retry, version_is_supported, MAX_CONN_ID_LEN, MIN_CLIENT_INITIAL_LEN,
    PROTOCOL_VERSION,
};

pub use rand_core::{CryptoRng, RngCore, SeedableRng};

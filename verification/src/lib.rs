//! Building blocks of the sprinkler DoS-prevention framework: the anomaly
//! state machine that agent threads run, the wire format that agents use to
//! notify master threads, the decisions that the master side takes on what it
//! reads, and the configuration that every sprinkler of a deployment shares.

pub mod anomaly;
pub mod builder;
pub mod commcheck;
pub mod proto;

pub use anomaly::{Anomaly, AnomalyTransition};
pub use builder::{agent_retry_pause, select_agents, SprinklerBuilder, SprinklerOptions};
pub use commcheck::{monitor_step, MonitorEvent, MonitorStep, COMMCHK, MAX_HEART_BEAT};
pub use proto::{
    compose_message, compose_message_at, HeaderPoll, MAX_FRAME_LEN, MAX_TIMESTAMP, MIN_TIMESTAMP, RelayAction, SprinklerProto,
    SprinklerProtoHeader,
};

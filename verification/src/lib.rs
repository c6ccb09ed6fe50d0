//! Replica rebuild engine for a block-storage data plane.
//!
//! The engine resynchronizes a degraded replica from a healthy source:
//! it splits the total block range into segments, copies them through a
//! caller-supplied backend with bounded concurrency, and runs a state
//! machine supporting start, pause, resume and stop with verified
//! progress accounting and drain guarantees.

pub mod grpc;
pub mod nvme_uri;
pub mod pool_backend;
pub mod range;
pub mod rebuild_error;
pub mod rebuild_backend;
pub mod rebuild_descriptor;
pub mod rebuild_job;
pub mod rebuild_record;
pub mod rebuild_state;
pub mod rebuild_task;

pub use grpc::default_endpoint_str;
pub use grpc::default_port;
pub use nvme_uri::NvmeError;
pub use nvme_uri::NvmeTarget;
pub use nvme_uri::NvmeTransportType;
pub use pool_backend::Encryption;
pub use pool_backend::PoolArgs;
pub use pool_backend::PoolBackend;
pub use range::Range;
pub use range::Within;
pub use rebuild_backend::RebuildBackend;
pub use rebuild_error::BackendError;
pub use rebuild_error::RebuildError;
pub use rebuild_job::RebuildJob;
pub use rebuild_job::RebuildJobList;
pub use rebuild_descriptor::RebuildDescriptor;
pub use rebuild_descriptor::SEGMENT_SIZE;
pub use rebuild_record::RebuildRecord;
pub use rebuild_record::RebuildStats;
pub use rebuild_state::RebuildOperation;
pub use rebuild_state::RebuildState;
pub use rebuild_state::RebuildStates;
pub use rebuild_task::RebuildTask;
pub use rebuild_task::RebuildTaskPool;
pub use rebuild_task::SEGMENT_TASKS;

//! File transfers: life-cycle state machine, retry policy, checkpoints,
//! metrics and the connection pool's bookkeeping.
pub mod retry;
pub mod state;
pub mod types;
pub mod observability;
pub mod checkpoint;
pub mod pool;
pub mod manager;
pub mod sftp_loop;
pub mod prompt;

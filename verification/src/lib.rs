pub mod channel;
pub mod config;
pub mod errors;
pub mod pipeline;
pub mod queue;
pub mod server;
pub mod text;
pub mod worker;

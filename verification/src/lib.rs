pub mod args;
pub mod events;
pub mod paths;
pub mod pipeline;
pub mod status;

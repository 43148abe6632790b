pub mod args;
pub mod environment;
pub mod extractors;
pub mod probe;
pub mod resolve;
pub mod sniff;
pub mod text;

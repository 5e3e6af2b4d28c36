pub mod http;
pub mod tonic;

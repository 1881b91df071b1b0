//! A lookahead adapter over a sequence producer: peek arbitrarily far ahead
//! without consuming, while still supporting ordinary forward consumption.

pub mod adapter;
pub mod laws;
pub mod model;
pub mod source;

pub use adapter::lookahead;
pub use adapter::Lookahead;
pub use source::Source;
pub use source::VecSource;

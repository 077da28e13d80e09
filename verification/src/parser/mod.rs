//! What the platform's answers say: rooms, their live state, and their streams.

pub mod error;
pub mod http;
pub mod input;
pub mod room;
pub mod streams;

pub use error::ParseError;
pub use http::BILIBILI_UA;
pub use room::{BilibiliParser, LiveInfo};
pub use streams::{StreamCandidate, StreamSelection};

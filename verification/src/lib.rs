//! Decoder for a self-describing binary runtime trace format: a header that
//! declares the event kinds a log uses, followed by a tagged stream of
//! timestamped records, closed by a terminator word.  The decoder rebuilds the
//! typed events, attributes each span of the stream to the logical CPU
//! capability that produced it, and can merge everything into one
//! time-ordered, capability-annotated event sequence.

pub mod agg;
pub mod bytes;
pub mod dispatch;
pub mod header;
pub mod printer;
pub mod record;
pub mod registry;
pub mod sink;
pub mod tracker;
pub mod types;

pub use agg::SchedEvents;
pub use dispatch::parse;
pub use dispatch::validate;
pub use printer::Note;
pub use printer::PrintEvents;
pub use registry::Registry;
pub use sink::EventlogParser;
pub use tracker::BlockCtx;
pub use types::Ev;
pub use types::EventSize;
pub use types::EventType;
pub use types::ParseError;
pub use types::SinkError;
pub use types::StopStatus;

//! Safe decision core for a binding over the babeltrace trace-reading
//! library. The native layer owns every session, cursor and event; this
//! crate holds the logic that surrounds those foreign calls: path
//! encoding, trace registration bookkeeping, the iterator's advance
//! protocol, and the interpretation of native return codes, sentinels
//! and the side-channel error flag. Each public function states exactly
//! which result each native outcome produces.

mod context;
pub mod ctf;
mod error;

pub use context::{encode_trace_path, Context, Format, TraceHandleId};
pub use error::Error;

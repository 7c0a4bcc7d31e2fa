//! Verified core of a browser console for a distributed search engine:
//! request building and URL parameter serialisation, time-range resolution,
//! size formatting, split statistics and the query editor's state
//! transitions.

pub mod api;
pub mod editor;
pub mod encoding;
pub mod index;
pub mod size;
pub mod text;
pub mod time_range;

pub use api::{QueryBuilder, QuickwitApi};
pub use editor::{QueryEditorState, SearchRequest};
pub use time_range::{DateRange, UtcInstant};

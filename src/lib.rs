//! Error values that carry the trail of places they were propagated through.
//!
//! An [`Error`] wraps an origin error of any type together with the ordered list of
//! [`ErrorPoint`]s at which it was raised and re-raised, and an ordered list of key/value
//! context entries ([`KvPair`]). The text form lists the origin first, then the context
//! and the points, most recent first.

mod context;
mod decimal;
mod error;
mod laws;
mod point;

pub use context::{value_text, KvPair, KvView, ThrowContextValues};
pub use decimal::{digit_char, int_text, nat_text};
pub use error::{
    context_line, context_lines, kv_views, point_line, point_lines, rendered, Error, StructuredError,
};
pub use laws::{
    context_lines_in_order, lemma_context_chain, lemma_context_lines_append,
    lemma_context_lines_reversed, lemma_point_lines_append, lemma_point_lines_reversed,
    lemma_propagation_chain, lemma_render_bare, lemma_render_idempotent, point_lines_in_order,
};
pub use point::{ErrorPoint, PointView};

//! In-memory representation of OpenStreetMap geographic features: the three
//! element kinds (node, way, relation) unified under one variant type, the
//! identifier key space, the tag mapping, and the shared revision metadata.
//!
//! Everything here is a plain value: cross-element relationships are weak
//! references (an identifier plus a kind), never ownership edges, and no
//! operation does I/O or keeps hidden state.

mod decimal;
mod element;
mod id;
mod info;
mod tags;
mod time;

pub use decimal::{spec_valid_decimal, FixedDecimal, MANTISSA_LIMIT};
pub use element::{
    lemma_strip_info_idempotent, Element, ElementView, Member, MemberType, Node, NodeView,
    Relation, RelationView, Way, WayView,
};
pub use id::{lemma_id_total_order, Id};
pub use info::{lemma_visible_default, Info};
pub use tags::{lemma_tags_order_independent, map_of, Tags};
pub use time::{
    days_in_month, is_leap_year, spec_days_in_month, spec_is_leap_year, spec_valid_date, Timestamp,
};

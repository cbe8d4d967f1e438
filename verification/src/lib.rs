use vstd::prelude::*;

pub mod alerts;
pub mod alt_contract;
pub mod auto_tracker;
pub mod clock;
pub mod codec;
pub mod debug_counts;
pub mod deduper;
pub mod discord;
pub mod event_pages;
pub mod events;
pub mod formatter;
pub mod gate;
pub mod hydrate;
pub mod keyed;
pub mod liquidation_scope;
pub mod orderflow;
pub mod payloads;
pub mod pipeline_debug;
pub mod main_force;
pub mod message;
pub mod metrics;
pub mod projection;
pub mod proxy;
pub mod push_limiter;
pub mod query_parse;
pub mod retention;
pub mod structure_lite;
pub mod ranges;
pub mod routes_misc;
pub mod tally;
pub mod text;
pub mod timeline;
pub mod transport;
pub mod whale_labels;
pub mod whale_query;
pub mod whale_routes;
pub mod whale_stats;

verus! {

} // verus!

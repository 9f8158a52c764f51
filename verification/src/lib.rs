//! Deck state for a DJ-status bridge: the events that describe four playback
//! decks, the rules by which they change the decks' state, and the nested,
//! addressed bundle that publishes a snapshot of it.

pub mod units;
pub mod models;
pub mod deck_state;
pub mod messages;
pub mod aggregator;
pub mod packet;
pub mod osc_api;

//! The events that reach the aggregator.

use vstd::prelude::*;
use crate::models::{Deck, DeckLoaded, DeckLoadedView, MasterClock, UpdateDeck};

verus! {

/// One event, as it is taken from the queue.
#[derive(Clone, Debug, PartialEq)]
pub enum Messages {
    DeckLoaded(Deck, DeckLoaded),
    DeckUpdated(Deck, UpdateDeck),
    MasterClock(MasterClock),
}

/// A `Messages`, with its texts as sequences of characters.
pub enum MessagesView {
    DeckLoaded(Deck, DeckLoadedView),
    DeckUpdated(Deck, UpdateDeck),
    MasterClock(MasterClock),
}

impl View for Messages {
    type V = MessagesView;

    open spec fn view(&self) -> MessagesView {
        match self {
            Messages::DeckLoaded(deck, loaded) => MessagesView::DeckLoaded(*deck, loaded@),
            Messages::DeckUpdated(deck, update) => MessagesView::DeckUpdated(*deck, *update),
            Messages::MasterClock(clock) => MessagesView::MasterClock(*clock),
        }
    }
}

impl MessagesView {
    /// The deck whose track, playing flag, tempo or elapsed time the event may
    /// change. A change of the master clock has none: it speaks of all decks.
    pub open spec fn deck(self) -> Option<Deck> {
        match self {
            MessagesView::DeckLoaded(deck, _) => Some(deck),
            MessagesView::DeckUpdated(deck, _) => Some(deck),
            MessagesView::MasterClock(_) => None,
        }
    }
}

} // verus!

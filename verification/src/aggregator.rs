//! The state of all four decks, and the one step that applies an event to it.

use vstd::prelude::*;
use crate::deck_state::{DeckState, DeckStateView, TrackView};
use crate::messages::{Messages, MessagesView};
use crate::models::{Deck, DeckLoadedView, MasterClock, UpdateDeck};
use crate::units::Real;

verus! {

/// The state of the four decks: one `DeckState` for each, from construction on.
#[derive(Clone, Debug, PartialEq)]
pub struct DecksState {
    pub a: DeckState,
    pub b: DeckState,
    pub c: DeckState,
    pub d: DeckState,
}

/// The state of the four decks as a mapping that is defined on every deck.
pub type DecksView = Map<Deck, DeckStateView>;

impl View for DecksState {
    type V = DecksView;

    open spec fn view(&self) -> DecksView {
        Map::new(|deck: Deck| true, |deck: Deck| self.slot(deck)@)
    }
}

/// The two numbers that an event asks to be multiplied, a bpm and a ratio: for a
/// load the event's own, for an update the loaded track's bpm and the update's
/// ratio. There are none for an update without a ratio or on a deck without a
/// track, and none for a change of the master clock.
pub open spec fn factors(decks: DecksView, msg: MessagesView) -> Option<(Real, Real)> {
    match msg {
        MessagesView::DeckLoaded(_, loaded) => Some((loaded.bpm, loaded.tempo)),
        MessagesView::DeckUpdated(deck, update) => decks[deck].factors(update),
        MessagesView::MasterClock(_) => None,
    }
}

/// The state after one event, given the product of the event's factors where it
/// has any.
///
/// A load and an update change the deck they name and no other. A change of the
/// master clock sets every deck's master flag anew, to whether the event names
/// that deck; the event's bpm is stored nowhere.
pub open spec fn step(decks: DecksView, msg: MessagesView, tempo: Real) -> DecksView {
    match msg {
        MessagesView::DeckLoaded(deck, loaded) => decks.insert(
            deck,
            decks[deck].loaded(loaded, tempo),
        ),
        MessagesView::DeckUpdated(deck, update) => decks.insert(
            deck,
            decks[deck].updated(update, tempo),
        ),
        MessagesView::MasterClock(clock) => Map::new(
            |deck: Deck| true,
            |deck: Deck| decks[deck].with_master(clock.deck == Some(deck)),
        ),
    }
}

/// The effective tempo of the deck that the event names; zero where it names
/// none.
pub open spec fn tempo_at(decks: DecksView, msg: MessagesView) -> Real {
    match msg.deck() {
        Some(deck) => decks[deck].tempo,
        None => Real::zero_spec(),
    }
}

/// Whether `after` is the state that one event leaves, `before` being the state
/// it found and `scale` the multiplication it was given: the effective tempo
/// that the event sets is what `scale` gave for the event's factors, and the
/// rest is as `step` says.
pub open spec fn follows<F: Fn(Real, Real) -> Real>(
    before: DecksView,
    msg: MessagesView,
    scale: F,
    after: DecksView,
) -> bool {
    &&& after == step(before, msg, tempo_at(after, msg))
    &&& factors(before, msg) matches Some(f) ==> call_ensures(scale, f, tempo_at(after, msg))
}

/// After a load the deck holds the event's track, with the event's bpm, the
/// event's playing flag, and as its effective tempo what scaling the event's
/// bpm by the event's ratio gave. Elapsed time and master flag stay, and so
/// does every other deck.
pub proof fn lemma_load_sets_track_playing_tempo<F: Fn(Real, Real) -> Real>(
    before: DecksView,
    deck: Deck,
    loaded: DeckLoadedView,
    scale: F,
    after: DecksView,
)
    requires
        follows(before, MessagesView::DeckLoaded(deck, loaded), scale, after),
    ensures
        after[deck].track == Some(TrackView::of(loaded)),
        after[deck].track->0.bpm == loaded.bpm,
        call_ensures(scale, (loaded.bpm, loaded.tempo), after[deck].tempo),
        after[deck].playing == loaded.is_playing,
        after[deck].elapsed_time == before[deck].elapsed_time,
        after[deck].master == before[deck].master,
        forall|other: Deck| other != deck ==> #[trigger] after[other] == before[other],
{
}

/// An update on a deck without a track leaves the deck's effective tempo as
/// it was, whatever ratio it names, and loads no track.
pub proof fn lemma_update_without_track_keeps_tempo<F: Fn(Real, Real) -> Real>(
    before: DecksView,
    deck: Deck,
    update: UpdateDeck,
    scale: F,
    after: DecksView,
)
    requires
        follows(before, MessagesView::DeckUpdated(deck, update), scale, after),
        before[deck].track.is_none(),
    ensures
        after[deck].tempo == before[deck].tempo,
        after[deck].track.is_none(),
{
}

/// An update that names a ratio, on a deck with a track, makes the deck's
/// effective tempo what scaling the track's bpm by that ratio gave, whatever
/// the tempo was before. The track stays.
pub proof fn lemma_update_with_track_sets_tempo<F: Fn(Real, Real) -> Real>(
    before: DecksView,
    deck: Deck,
    update: UpdateDeck,
    scale: F,
    after: DecksView,
)
    requires
        follows(before, MessagesView::DeckUpdated(deck, update), scale, after),
        before[deck].track.is_some(),
        update.tempo.is_some(),
    ensures
        call_ensures(scale, (before[deck].track->0.bpm, update.tempo->0), after[deck].tempo),
        after[deck].track == before[deck].track,
{
}

/// An update changes what it names and nothing else: a field that is absent
/// leaves its state, the reserved fields have no effect, the track and the
/// master flag stay, and so does every other deck.
pub proof fn lemma_update_is_partial<F: Fn(Real, Real) -> Real>(
    before: DecksView,
    deck: Deck,
    update: UpdateDeck,
    scale: F,
    after: DecksView,
)
    requires
        follows(before, MessagesView::DeckUpdated(deck, update), scale, after),
    ensures
        after[deck].playing == match update.is_playing {
            Some(playing) => playing,
            None => before[deck].playing,
        },
        after[deck].elapsed_time == match update.elapsed_time {
            Some(elapsed) => elapsed,
            None => before[deck].elapsed_time,
        },
        update.tempo.is_none() ==> after[deck].tempo == before[deck].tempo,
        after[deck].track == before[deck].track,
        after[deck].master == before[deck].master,
        forall|other: Deck| other != deck ==> #[trigger] after[other] == before[other],
        follows(
            before,
            MessagesView::DeckUpdated(
                deck,
                UpdateDeck { next_cue_pos: None, is_synced: None, ..update },
            ),
            scale,
            after,
        ),
{
}

/// A change of the master clock that names a deck makes that deck the master
/// and no other, and changes nothing but master flags.
pub proof fn lemma_master_clock_selects_one<F: Fn(Real, Real) -> Real>(
    before: DecksView,
    clock: MasterClock,
    scale: F,
    after: DecksView,
)
    requires
        follows(before, MessagesView::MasterClock(clock), scale, after),
        clock.deck.is_some(),
    ensures
        forall|deck: Deck| (#[trigger] after[deck]).master == (deck == clock.deck->0),
        forall|deck: Deck| #[trigger]
            after[deck] == before[deck].with_master(deck == clock.deck->0),
{
}

/// A change of the master clock that names no deck leaves no deck the master,
/// and changes nothing but master flags.
pub proof fn lemma_master_clock_none_clears_all<F: Fn(Real, Real) -> Real>(
    before: DecksView,
    clock: MasterClock,
    scale: F,
    after: DecksView,
)
    requires
        follows(before, MessagesView::MasterClock(clock), scale, after),
        clock.deck.is_none(),
    ensures
        forall|deck: Deck| !(#[trigger] after[deck]).master,
        forall|deck: Deck| #[trigger] after[deck] == before[deck].with_master(false),
{
}

/// Applying the same change of the master clock twice in a row gives what
/// applying it once gives.
pub proof fn lemma_master_clock_idempotent<F: Fn(Real, Real) -> Real>(
    before: DecksView,
    clock: MasterClock,
    scale: F,
    once: DecksView,
    twice: DecksView,
)
    requires
        follows(before, MessagesView::MasterClock(clock), scale, once),
        follows(once, MessagesView::MasterClock(clock), scale, twice),
    ensures
        twice == once,
{
}

/// With a multiplication that gives one product for each pair of factors, the
/// state after an event depends on the state before and the event alone.
pub proof fn lemma_step_is_determined<F: Fn(Real, Real) -> Real>(
    before: DecksView,
    msg: MessagesView,
    scale: F,
    one: DecksView,
    other: DecksView,
)
    requires
        forall|f: (Real, Real), p: Real, q: Real|
            call_ensures(scale, f, p) && call_ensures(scale, f, q) ==> p == q,
        follows(before, msg, scale, one),
        follows(before, msg, scale, other),
    ensures
        one == other,
{
    match msg {
        MessagesView::DeckLoaded(deck, loaded) => {
        },
        MessagesView::DeckUpdated(deck, update) => {
        },
        MessagesView::MasterClock(_) => {},
    }
}

/// Every event leaves the state defined on all four decks.
pub proof fn lemma_step_keeps_decks<F: Fn(Real, Real) -> Real>(
    before: DecksView,
    msg: MessagesView,
    scale: F,
    after: DecksView,
)
    requires
        before.dom() == Set::<Deck>::full(),
        follows(before, msg, scale, after),
    ensures
        after.dom() == Set::<Deck>::full(),
{
}

impl Default for DecksState {
    fn default() -> (decks: DecksState)
        ensures
            forall|deck: Deck| #[trigger] decks@[deck] == DeckStateView::initial(),
            decks@.dom() == Set::<Deck>::full(),
    {
        let decks = DecksState {
            a: DeckState::default(),
            b: DeckState::default(),
            c: DeckState::default(),
            d: DeckState::default(),
        };
        assert(decks@.dom() =~= Set::<Deck>::full());
        decks
    }
}

impl DecksState {
    /// The state that is held for `deck`.
    pub open spec fn slot(self, deck: Deck) -> DeckState {
        match deck {
            Deck::A => self.a,
            Deck::B => self.b,
            Deck::C => self.c,
            Deck::D => self.d,
        }
    }

    /// The state of one deck.
    pub fn deck(&self, deck: Deck) -> (state: &DeckState)
        ensures
            *state == self.slot(deck),
            state@ == self@[deck],
    {
        match deck {
            Deck::A => &self.a,
            Deck::B => &self.b,
            Deck::C => &self.c,
            Deck::D => &self.d,
        }
    }

    /// The state of one deck, to be changed in place: no other deck changes with
    /// it.
    pub fn deck_mut(&mut self, deck: Deck) -> (state: &mut DeckState)
        ensures
            *state == old(self).slot(deck),
            final(self).slot(deck) == *final(state),
            forall|other: Deck| other != deck ==> final(self).slot(other) == old(self).slot(other),
    {
        match deck {
            Deck::A => &mut self.a,
            Deck::B => &mut self.b,
            Deck::C => &mut self.c,
            Deck::D => &mut self.d,
        }
    }

    /// A copy of the state of all decks, as it is now: what is done to the
    /// state afterwards does not reach the copy.
    pub fn snapshot(&self) -> (copy: DecksState)
        ensures
            copy@ == self@,
    {
        let copy = DecksState {
            a: self.a.snapshot(),
            b: self.b.snapshot(),
            c: self.c.snapshot(),
            d: self.d.snapshot(),
        };
        assert(copy@ =~= self@);
        copy
    }

    /// Applies one event. `scale` multiplies a bpm by a ratio; it is called once
    /// where the event has factors, on those, and not at all where it has none.
    pub fn process<F: Fn(Real, Real) -> Real>(&mut self, msg: Messages, scale: F)
        requires
            factors(old(self)@, msg@) matches Some(f) ==> call_requires(scale, f),
        ensures
            follows(old(self)@, msg@, scale, final(self)@),
    {
        match msg {
            Messages::DeckLoaded(deck, loaded) => {
                let state = self.deck_mut(deck);
                state.load(loaded, scale);
            },
            Messages::DeckUpdated(deck, update) => {
                let state = self.deck_mut(deck);
                state.update(update, scale);
            },
            Messages::MasterClock(clock) => {
                self.a.update_master(names(clock.deck, Deck::A));
                self.b.update_master(names(clock.deck, Deck::B));
                self.c.update_master(names(clock.deck, Deck::C));
                self.d.update_master(names(clock.deck, Deck::D));
            },
        }
        assert(self@ =~= step(old(self)@, msg@, tempo_at(self@, msg@)));
    }
}

/// Whether `selected` is present and is `deck`.
fn names(selected: Option<Deck>, deck: Deck) -> (r: bool)
    ensures
        r == (selected == Some(deck)),
{
    match selected {
        Some(s) => s == deck,
        None => false,
    }
}

} // verus!

//! What is held for one deck, and how an event changes it.

use vstd::prelude::*;
use crate::models::{text_view, DeckLoaded, DeckLoadedView, UpdateDeck};
use crate::units::{Real, Span};

verus! {

/// The track that is loaded on a deck. A load replaces it whole; nothing else
/// touches it.
#[derive(Clone, Debug, PartialEq)]
pub struct Track {
    pub title: String,
    pub artist: Option<String>,
    pub album: Option<String>,
    pub length: Span,
    pub bpm: Real,
}

/// A `Track`, with its texts as sequences of characters.
pub struct TrackView {
    pub title: Seq<char>,
    pub artist: Option<Seq<char>>,
    pub album: Option<Seq<char>>,
    pub length: Span,
    pub bpm: Real,
}

impl View for Track {
    type V = TrackView;

    open spec fn view(&self) -> TrackView {
        TrackView {
            title: self.title@,
            artist: text_view(self.artist),
            album: text_view(self.album),
            length: self.length,
            bpm: self.bpm,
        }
    }
}

impl TrackView {
    /// The track that a load event describes.
    pub open spec fn of(loaded: DeckLoadedView) -> TrackView {
        TrackView {
            title: loaded.title,
            artist: loaded.artist,
            album: loaded.album,
            length: loaded.track_length,
            bpm: loaded.bpm,
        }
    }
}

impl From<DeckLoaded> for Track {
    fn from(value: DeckLoaded) -> (track: Track) {
        Track {
            title: value.title,
            album: value.album,
            artist: value.artist,
            length: value.track_length,
            bpm: value.bpm,
        }
    }
}

impl vstd::std_specs::convert::FromSpecImpl<DeckLoaded> for Track {
    open spec fn obeys_from_spec() -> bool {
        true
    }

    open spec fn from_spec(value: DeckLoaded) -> Track {
        Track {
            title: value.title,
            album: value.album,
            artist: value.artist,
            length: value.track_length,
            bpm: value.bpm,
        }
    }
}

/// The state of one deck.
///
/// `tempo` is the effective tempo: the loaded track's nominal bpm scaled by the
/// playback rate. It is a field of its own, written when an event sets it and
/// kept until the next one does.
#[derive(Clone, Debug, PartialEq)]
pub struct DeckState {
    pub track: Option<Track>,
    pub playing: bool,
    pub tempo: Real,
    pub elapsed_time: Span,
    pub master: bool,
}

/// A `DeckState`, with its texts as sequences of characters.
pub struct DeckStateView {
    pub track: Option<TrackView>,
    pub playing: bool,
    pub tempo: Real,
    pub elapsed_time: Span,
    pub master: bool,
}

impl View for DeckState {
    type V = DeckStateView;

    open spec fn view(&self) -> DeckStateView {
        DeckStateView {
            track: match self.track {
                Some(track) => Some(track@),
                None => None,
            },
            playing: self.playing,
            tempo: self.tempo,
            elapsed_time: self.elapsed_time,
            master: self.master,
        }
    }
}

impl DeckStateView {
    /// A deck on which nothing has happened yet: no track, not playing, tempo
    /// and elapsed time zero, not the master.
    pub open spec fn initial() -> DeckStateView {
        DeckStateView {
            track: None,
            playing: false,
            tempo: Real::zero_spec(),
            elapsed_time: Span::zero_spec(),
            master: false,
        }
    }

    /// The state after a load, given the effective tempo that scaling the new
    /// track's bpm by the event's ratio gave.
    pub open spec fn loaded(self, loaded: DeckLoadedView, tempo: Real) -> DeckStateView {
        DeckStateView {
            track: Some(TrackView::of(loaded)),
            playing: loaded.is_playing,
            tempo,
            ..self
        }
    }

    /// The two numbers that an update asks to be multiplied: the loaded track's
    /// bpm and the update's ratio. There are none where the update names no
    /// ratio, and none where no track is loaded.
    pub open spec fn factors(self, update: UpdateDeck) -> Option<(Real, Real)> {
        match (update.tempo, self.track) {
            (Some(ratio), Some(track)) => Some((track.bpm, ratio)),
            _ => None,
        }
    }

    /// The state after a partial update, given the effective tempo that scaling
    /// gave where the update asked for it. A field that the update leaves out
    /// stays; the reserved fields change nothing.
    pub open spec fn updated(self, update: UpdateDeck, tempo: Real) -> DeckStateView {
        DeckStateView {
            playing: match update.is_playing {
                Some(playing) => playing,
                None => self.playing,
            },
            elapsed_time: match update.elapsed_time {
                Some(elapsed) => elapsed,
                None => self.elapsed_time,
            },
            tempo: if self.factors(update).is_some() {
                tempo
            } else {
                self.tempo
            },
            ..self
        }
    }

    /// The state with its master flag set to `master`.
    pub open spec fn with_master(self, master: bool) -> DeckStateView {
        DeckStateView { master, ..self }
    }
}

impl Default for DeckState {
    fn default() -> (state: DeckState)
        ensures
            state@ == DeckStateView::initial(),
    {
        DeckState {
            track: None,
            playing: false,
            tempo: Real::zero(),
            elapsed_time: Span::zero(),
            master: false,
        }
    }
}

/// A copy of a text that may be absent.
fn copy_text(text: &Option<String>) -> (copy: Option<String>)
    ensures
        text_view(copy) == text_view(*text),
{
    match text {
        Some(t) => Some(t.clone()),
        None => None,
    }
}

impl Track {
    /// A copy of the track that shares nothing with it.
    pub fn snapshot(&self) -> (copy: Track)
        ensures
            copy@ == self@,
    {
        Track {
            title: self.title.clone(),
            artist: copy_text(&self.artist),
            album: copy_text(&self.album),
            length: self.length,
            bpm: self.bpm,
        }
    }
}

impl DeckState {
    /// A copy of the state that shares nothing with it.
    pub fn snapshot(&self) -> (copy: DeckState)
        ensures
            copy@ == self@,
    {
        DeckState {
            track: match &self.track {
                Some(track) => Some(track.snapshot()),
                None => None,
            },
            playing: self.playing,
            tempo: self.tempo,
            elapsed_time: self.elapsed_time,
            master: self.master,
        }
    }

    /// Applies a partial update. `scale` multiplies a bpm by a ratio; it is
    /// called once, on the loaded track's bpm and the update's ratio, where the
    /// update names a ratio and a track is loaded, and not at all otherwise.
    pub fn update<F: Fn(Real, Real) -> Real>(&mut self, update_deck: UpdateDeck, scale: F)
        requires
            old(self)@.factors(update_deck) matches Some(f) ==> call_requires(scale, f),
        ensures
            final(self)@ == old(self)@.updated(update_deck, final(self).tempo),
            old(self)@.factors(update_deck) matches Some(f) ==> call_ensures(
                scale,
                f,
                final(self).tempo,
            ),
            old(self)@.factors(update_deck).is_none() ==> final(self).tempo == old(self).tempo,
    {
        if let Some(is_playing) = update_deck.is_playing {
            self.playing = is_playing;
        }
        if let Some(elapsed_time) = update_deck.elapsed_time {
            self.elapsed_time = elapsed_time;
        }
        if let Some(tempo) = update_deck.tempo {
            let bpm = match &self.track {
                Some(track) => Some(track.bpm),
                None => None,
            };
            if let Some(bpm) = bpm {
                self.tempo = scale(bpm, tempo);
            }
        }
    }

    /// Sets the master flag.
    pub fn update_master(&mut self, master: bool)
        ensures
            final(self)@ == old(self)@.with_master(master),
    {
        self.master = master;
    }

    /// Loads a track: the event's metadata replaces the track whole, its
    /// playing flag replaces the deck's, and the effective tempo becomes what
    /// `scale` gives for the event's bpm and ratio.
    pub fn load<F: Fn(Real, Real) -> Real>(&mut self, deck_loaded: DeckLoaded, scale: F)
        requires
            call_requires(scale, (deck_loaded.bpm, deck_loaded.tempo)),
        ensures
            final(self)@ == old(self)@.loaded(deck_loaded@, final(self).tempo),
            call_ensures(scale, (deck_loaded.bpm, deck_loaded.tempo), final(self).tempo),
    {
        self.playing = deck_loaded.is_playing;
        self.tempo = scale(deck_loaded.bpm, deck_loaded.tempo);
        self.track = Some(Track::from(deck_loaded));
    }
}

} // verus!

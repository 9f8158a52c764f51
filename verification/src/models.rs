//! The vocabulary of events: which deck, and what is said about it.

use vstd::prelude::*;
use vstd::string::*;
use crate::units::{Real, Span};

verus! {

/// One of the four playback decks.
#[derive(Clone, Copy, Debug, PartialEq, Eq, Hash, Structural)]
pub enum Deck {
    A,
    B,
    C,
    D,
}

impl Deck {
    /// The letter that names the deck.
    pub open spec fn letter(self) -> char {
        match self {
            Deck::A => 'A',
            Deck::B => 'B',
            Deck::C => 'C',
            Deck::D => 'D',
        }
    }

    /// The deck's name as text: its letter alone.
    pub open spec fn name_spec(self) -> Seq<char> {
        seq![self.letter()]
    }

    /// The deck that `name` names, if it names one: the match is exact and
    /// case-sensitive, so the text is one of the four letters and nothing more.
    pub open spec fn from_name_spec(name: Seq<char>) -> Option<Deck> {
        if name.len() != 1 {
            None
        } else if name[0] == 'A' {
            Some(Deck::A)
        } else if name[0] == 'B' {
            Some(Deck::B)
        } else if name[0] == 'C' {
            Some(Deck::C)
        } else if name[0] == 'D' {
            Some(Deck::D)
        } else {
            None
        }
    }

    /// The deck's name.
    pub fn name(&self) -> (r: &'static str)
        ensures
            r@ == self.name_spec(),
    {
        proof {
            reveal_strlit("A");
            reveal_strlit("B");
            reveal_strlit("C");
            reveal_strlit("D");
        }
        let r = match self {
            Deck::A => "A",
            Deck::B => "B",
            Deck::C => "C",
            Deck::D => "D",
        };
        assert(r@ =~= self.name_spec());
        r
    }

    /// Reads a deck's name.
    pub fn from_name(name: &str) -> (r: Option<Deck>)
        ensures
            r == Deck::from_name_spec(name@),
    {
        if name.unicode_len() != 1 {
            return None;
        }
        let c = name.get_char(0);
        if c == 'A' {
            Some(Deck::A)
        } else if c == 'B' {
            Some(Deck::B)
        } else if c == 'C' {
            Some(Deck::C)
        } else if c == 'D' {
            Some(Deck::D)
        } else {
            None
        }
    }

    /// Reading a deck's name gives the deck back, and a text that reads as a
    /// deck is that deck's name.
    pub proof fn lemma_name_round_trip(deck: Deck, name: Seq<char>)
        ensures
            Deck::from_name_spec(deck.name_spec()) == Some(deck),
            Deck::from_name_spec(name) == Some(deck) <==> name == deck.name_spec(),
    {
        if Deck::from_name_spec(name) == Some(deck) {
            assert(name =~= deck.name_spec());
        }
    }
}

/// The master clock changed: `deck` drives it now, or no deck does.
#[derive(Clone, Copy, Debug, PartialEq)]
pub struct MasterClock {
    pub bpm: Real,
    pub deck: Option<Deck>,
}

/// A partial update of one deck: a field that is absent leaves the state it
/// speaks of as it was.
#[derive(Clone, Copy, Debug, PartialEq)]
pub struct UpdateDeck {
    pub elapsed_time: Option<Span>,
    pub next_cue_pos: Option<Real>,
    pub is_playing: Option<bool>,
    pub tempo: Option<Real>,
    pub is_synced: Option<bool>,
}

/// A track was loaded on a deck.
#[derive(Clone, Debug, PartialEq)]
pub struct DeckLoaded {
    pub title: String,
    pub album: Option<String>,
    pub artist: Option<String>,
    pub bpm: Real,
    pub is_playing: bool,
    pub tempo: Real,
    pub track_length: Span,
}

/// What a `DeckLoaded` says, with its texts as sequences of characters.
pub struct DeckLoadedView {
    pub title: Seq<char>,
    pub album: Option<Seq<char>>,
    pub artist: Option<Seq<char>>,
    pub bpm: Real,
    pub is_playing: bool,
    pub tempo: Real,
    pub track_length: Span,
}

/// The characters of a text that may be absent.
pub open spec fn text_view(text: Option<String>) -> Option<Seq<char>> {
    match text {
        Some(t) => Some(t@),
        None => None,
    }
}

impl View for DeckLoaded {
    type V = DeckLoadedView;

    open spec fn view(&self) -> DeckLoadedView {
        DeckLoadedView {
            title: self.title@,
            album: text_view(self.album),
            artist: text_view(self.artist),
            bpm: self.bpm,
            is_playing: self.is_playing,
            tempo: self.tempo,
            track_length: self.track_length,
        }
    }
}

/// A text that is there: an empty text counts as none.
pub open spec fn present(text: Option<Seq<char>>) -> Option<Seq<char>> {
    match text {
        Some(t) => if t.len() == 0 {
            None
        } else {
            Some(t)
        },
        None => None,
    }
}

/// Drops a text that is empty.
fn present_text(text: Option<String>) -> (r: Option<String>)
    ensures
        text_view(r) == present(text_view(text)),
{
    match text {
        Some(t) => if t.as_str().is_empty() {
            None
        } else {
            Some(t)
        },
        None => None,
    }
}

impl DeckLoaded {
    /// The event that a producer's fields describe. An album or an artist
    /// that is empty is taken as absent; everything else is taken as it is.
    pub fn new(
        title: String,
        album: Option<String>,
        artist: Option<String>,
        bpm: Real,
        is_playing: bool,
        tempo: Real,
        track_length: Span,
    ) -> (loaded: DeckLoaded)
        ensures
            loaded@ == (DeckLoadedView {
                title: title@,
                album: present(text_view(album)),
                artist: present(text_view(artist)),
                bpm,
                is_playing,
                tempo,
                track_length,
            }),
    {
        DeckLoaded {
            title,
            album: present_text(album),
            artist: present_text(artist),
            bpm,
            is_playing,
            tempo,
            track_length,
        }
    }
}

/// A mixer channel went on or off air.
#[derive(Clone, Copy, Debug, PartialEq, Eq, Structural)]
pub struct UpdateChannel {
    pub is_on_air: bool,
}

} // verus!

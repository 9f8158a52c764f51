//! Publishing a snapshot: one bundle for each deck, its fields addressed under
//! the deck's name, and one bundle around the four.

use std::time::SystemTime;
use rosc::{OscTime, OscTimeError};
use vstd::prelude::*;
use vstd::string::*;
use crate::aggregator::{DecksState, DecksView};
use crate::deck_state::{DeckState, DeckStateView, TrackView};
use crate::models::Deck;
use crate::packet::{
    find, find_in, lemma_find_first_hit, lemma_find_no_hit, packets_view, Bundle, BundleView,
    Message, MessageView, Packet, PacketView, TimeTag, Value, ValueView,
};

verus! {

/// std's `SystemTime`: a reading of the system clock, carried as it is.
#[verifier::external_type_specification]
#[verifier::external_body]
pub struct ExSystemTime(std::time::SystemTime);

/// rosc's `OscTimeError`: why a time has no time tag. It is carried as it is,
/// inside a `PublishError`.
#[verifier::external_type_specification]
#[verifier::external_body]
pub struct ExOscTimeError(rosc::OscTimeError);

/// Why a snapshot could not be published.
#[derive(Debug)]
pub enum PublishError {
    /// The time of publication has no time tag. The error is the one that the
    /// conversion gave, and tells which way: the time lies before 1970, or
    /// past what a time tag can count.
    Timetag(OscTimeError),
}

/// What converting a time to a time tag gives: the result of rosc's
/// `OscTime::try_from` on that time, which depends on the time alone.
pub uninterp spec fn tag_of(time: SystemTime) -> Result<TimeTag, OscTimeError>;

/// Whether `err` is what converting some time to a time tag gives.
pub open spec fn refuses(err: OscTimeError) -> bool {
    exists|time: SystemTime| tag_of(time) == Err::<TimeTag, OscTimeError>(err)
}

/// Reads the system clock with `std::time::SystemTime::now`. Nothing is claimed
/// of the reading.
#[verifier::external_body]
fn system_now() -> (time: SystemTime) {
    SystemTime::now()
}

/// Converts a time to a time tag with rosc's `OscTime::try_from`, which refuses
/// times that a tag cannot hold. The claim is that the outcome is `tag_of` of
/// the time, that is, that the same time always converts alike; nothing is
/// claimed of which times are refused, nor of the tag's value.
#[verifier::external_body]
fn time_tag(time: SystemTime) -> (r: Result<TimeTag, OscTimeError>)
    ensures
        r == tag_of(time),
{
    match OscTime::try_from(time) {
        Ok(tag) => Ok(TimeTag { seconds: tag.seconds, fractional: tag.fractional }),
        Err(e) => Err(e),
    }
}

/// The address of a field: the prefix, where there is one, a slash, and the
/// field's name.
pub open spec fn address(prefix: Option<Seq<char>>, name: Seq<char>) -> Seq<char> {
    match prefix {
        Some(p) => p + seq!['/'] + name,
        None => seq!['/'] + name,
    }
}

/// The message that carries one value to a field's address.
pub open spec fn field(prefix: Option<Seq<char>>, name: Seq<char>, value: ValueView) -> PacketView {
    PacketView::Message(MessageView { addr: address(prefix, name), args: seq![value] })
}

/// The prefix under which a deck's fields are addressed.
pub open spec fn deck_prefix(deck: Deck) -> Seq<char> {
    "/decks/"@ + deck.name_spec()
}

/// The message that carries one value of a deck.
pub open spec fn deck_field(deck: Deck, name: Seq<char>, value: ValueView) -> PacketView {
    field(Some(deck_prefix(deck)), name, value)
}

/// The address of one field of a deck.
pub open spec fn deck_address(deck: Deck, name: Seq<char>) -> Seq<char> {
    address(Some(deck_prefix(deck)), name)
}

/// What a deck's state sends to the field `name`: nothing where no field has
/// that name, and nothing to a track's field where no track is loaded.
pub open spec fn field_value(state: DeckStateView, name: Seq<char>) -> Option<Seq<ValueView>> {
    if name == "tempo"@ {
        Some(seq![ValueView::Real(state.tempo)])
    } else if name == "master"@ {
        Some(seq![ValueView::Flag(state.master)])
    } else if name == "playing"@ {
        Some(seq![ValueView::Flag(state.playing)])
    } else if name == "elapsed_time"@ {
        Some(seq![ValueView::Seconds(state.elapsed_time)])
    } else {
        match state.track {
            Some(t) => if name == "title"@ {
                Some(seq![ValueView::Text(t.title)])
            } else if name == "bpm"@ {
                Some(seq![ValueView::Real(t.bpm)])
            } else if name == "length"@ {
                Some(seq![ValueView::Seconds(t.length)])
            } else {
                None
            },
            None => None,
        }
    }
}

/// The fields of the loaded track: title, bpm and length; none where no track
/// is loaded.
pub open spec fn track_fields(deck: Deck, track: Option<TrackView>) -> Seq<PacketView> {
    match track {
        Some(t) => seq![
            deck_field(deck, "title"@, ValueView::Text(t.title)),
            deck_field(deck, "bpm"@, ValueView::Real(t.bpm)),
            deck_field(deck, "length"@, ValueView::Seconds(t.length)),
        ],
        None => seq![],
    }
}

/// The fields of a deck, in the order in which they are sent: those of the
/// track, then tempo, master, playing and elapsed time.
pub open spec fn deck_fields(deck: Deck, state: DeckStateView) -> Seq<PacketView> {
    track_fields(deck, state.track) + seq![
        deck_field(deck, "tempo"@, ValueView::Real(state.tempo)),
        deck_field(deck, "master"@, ValueView::Flag(state.master)),
        deck_field(deck, "playing"@, ValueView::Flag(state.playing)),
        deck_field(deck, "elapsed_time"@, ValueView::Seconds(state.elapsed_time)),
    ]
}

/// Whether a packet is a bundle that holds exactly the fields of `deck` in
/// `state`, whatever its time tag.
pub open spec fn publishes_deck(packet: PacketView, deck: Deck, state: DeckStateView) -> bool {
    packet matches PacketView::Bundle(inner) && inner.content == deck_fields(deck, state)
}

/// Whether a bundle publishes a snapshot: it holds four bundles, one for each
/// deck from A to D, each with that deck's fields.
pub open spec fn publishes(bundle: BundleView, decks: DecksView) -> bool {
    &&& bundle.content.len() == 4
    &&& publishes_deck(bundle.content[0], Deck::A, decks[Deck::A])
    &&& publishes_deck(bundle.content[1], Deck::B, decks[Deck::B])
    &&& publishes_deck(bundle.content[2], Deck::C, decks[Deck::C])
    &&& publishes_deck(bundle.content[3], Deck::D, decks[Deck::D])
}

/// Collects packets for a bundle. Messages are addressed under the builder's
/// prefix, if it has one.
pub struct BundleBuilder {
    packets: Vec<Packet>,
    prefix: Option<String>,
}

/// What a `BundleBuilder` holds.
pub struct BundleBuilderView {
    pub packets: Seq<PacketView>,
    pub prefix: Option<Seq<char>>,
}

impl View for BundleBuilder {
    type V = BundleBuilderView;

    closed spec fn view(&self) -> BundleBuilderView {
        BundleBuilderView {
            packets: packets_view(self.packets@),
            prefix: match self.prefix {
                Some(p) => Some(p@),
                None => None,
            },
        }
    }
}

impl Default for BundleBuilder {
    fn default() -> (builder: BundleBuilder)
        ensures
            builder@.packets == Seq::<PacketView>::empty(),
            builder@.prefix.is_none(),
    {
        let builder = BundleBuilder { packets: Vec::new(), prefix: None };
        assert(builder@.packets =~= Seq::<PacketView>::empty());
        builder
    }
}

impl BundleBuilder {
    /// An empty builder whose messages are addressed under `prefix`.
    pub fn new(prefix: String) -> (builder: BundleBuilder)
        ensures
            builder@.packets == Seq::<PacketView>::empty(),
            builder@.prefix == Some(prefix@),
    {
        let builder = BundleBuilder { packets: Vec::new(), prefix: Some(prefix) };
        assert(builder@.packets =~= Seq::<PacketView>::empty());
        builder
    }

    /// Appends a bundle.
    pub fn add_bundle(&mut self, bundle: Bundle)
        ensures
            final(self)@.packets == old(self)@.packets.push(PacketView::Bundle(bundle@)),
            final(self)@.prefix == old(self)@.prefix,
    {
        self.packets.push(Packet::Bundle(bundle));
        assert(self@.packets =~= old(self)@.packets.push(PacketView::Bundle(bundle@)));
    }

    /// Appends a message that carries `arg` to the field `addr`.
    pub fn add(&mut self, addr: &str, arg: Value)
        ensures
            final(self)@.packets == old(self)@.packets.push(field(old(self)@.prefix, addr@, arg@)),
            final(self)@.prefix == old(self)@.prefix,
    {
        let mut full = match &self.prefix {
            Some(p) => p.clone(),
            None => String::new(),
        };
        proof {
            reveal_strlit("/");
        }
        full.append("/");
        full.append(addr);
        assert(full@ =~= address(old(self)@.prefix, addr@));
        let mut args: Vec<Value> = Vec::new();
        args.push(arg);
        let message = Message { addr: full, args };
        assert(message@.args =~= seq![arg@]);
        self.packets.push(Packet::Message(message));
        assert(self@.packets =~= old(self)@.packets.push(field(old(self)@.prefix, addr@, arg@)));
    }

    /// The bundle of the collected packets under a given time tag.
    pub fn stamped(self, timetag: TimeTag) -> (bundle: Bundle)
        ensures
            bundle@ == (BundleView { timetag, content: self@.packets }),
    {
        Bundle { timetag, content: self.packets }
    }

    /// What building gives for each outcome of converting the time of
    /// publication to a time tag: the bundle of the collected packets under the
    /// tag where there is one, and the conversion's error where there is none.
    pub fn tagged(self, tag: Result<TimeTag, OscTimeError>) -> (r: Result<Bundle, PublishError>)
        ensures
            match tag {
                Ok(timetag) => r matches Ok(bundle) && bundle@ == (BundleView {
                    timetag,
                    content: self@.packets,
                }),
                Err(err) => r matches Err(e) && e == PublishError::Timetag(err),
            },
    {
        match tag {
            Ok(timetag) => Ok(self.stamped(timetag)),
            Err(err) => Err(PublishError::Timetag(err)),
        }
    }

    /// The bundle of the collected packets, tagged with `time`: under the time
    /// tag of `time` where it has one, and failing with the conversion's error
    /// where it has none.
    pub fn build_at(self, time: SystemTime) -> (r: Result<Bundle, PublishError>)
        ensures
            match tag_of(time) {
                Ok(timetag) => r matches Ok(bundle) && bundle@ == (BundleView {
                    timetag,
                    content: self@.packets,
                }),
                Err(err) => r matches Err(e) && e == PublishError::Timetag(err),
            },
    {
        self.tagged(time_tag(time))
    }

    /// The bundle of the collected packets, tagged with the time at which it is
    /// built. It fails only as the conversion of a time fails.
    pub fn build(self) -> (r: Result<Bundle, PublishError>)
        ensures
            r matches Ok(bundle) ==> bundle@.content == self@.packets,
            r matches Err(PublishError::Timetag(err)) ==> refuses(err),
    {
        self.build_at(system_now())
    }
}

/// The fields of one deck, collected under the deck's prefix and not yet
/// tagged: what `update_deck` hands on to be built.
pub fn deck_builder(deck: Deck, state: DeckState) -> (builder: BundleBuilder)
    ensures
        builder@ == (BundleBuilderView {
            packets: deck_fields(deck, state@),
            prefix: Some(deck_prefix(deck)),
        }),
{
    let prefix = String::from_str("/decks/").concat(deck.name());
    let mut builder = BundleBuilder::new(prefix);
    let DeckState { track, playing, tempo, elapsed_time, master } = state;
    if let Some(track) = track {
        builder.add("title", Value::Text(track.title));
        builder.add("bpm", Value::Real(track.bpm));
        builder.add("length", Value::Seconds(track.length));
    }
    builder.add("tempo", Value::Real(tempo));
    builder.add("master", Value::Flag(master));
    builder.add("playing", Value::Flag(playing));
    builder.add("elapsed_time", Value::Seconds(elapsed_time));
    assert(builder@.packets =~= deck_fields(deck, state@));
    builder
}

/// The bundle of one deck: its fields, addressed under the deck's name. It
/// fails only as the conversion of a time fails.
pub fn update_deck(deck: Deck, state: DeckState) -> (r: Result<Bundle, PublishError>)
    ensures
        r matches Ok(bundle) ==> bundle@.content == deck_fields(deck, state@),
        r matches Err(PublishError::Timetag(err)) ==> refuses(err),
{
    deck_builder(deck, state).build()
}

/// The bundles of the four decks, collected from A to D and not yet tagged:
/// what `update` hands on to be built.
pub fn decks_builder(a: Bundle, b: Bundle, c: Bundle, d: Bundle) -> (builder: BundleBuilder)
    ensures
        builder@ == (BundleBuilderView {
            packets: seq![
                PacketView::Bundle(a@),
                PacketView::Bundle(b@),
                PacketView::Bundle(c@),
                PacketView::Bundle(d@),
            ],
            prefix: None,
        }),
{
    let mut builder = BundleBuilder::default();
    builder.add_bundle(a);
    builder.add_bundle(b);
    builder.add_bundle(c);
    builder.add_bundle(d);
    assert(builder@.packets =~= seq![
        PacketView::Bundle(a@),
        PacketView::Bundle(b@),
        PacketView::Bundle(c@),
        PacketView::Bundle(d@),
    ]);
    builder
}

/// The bundle that publishes a snapshot: the bundles of the four decks, from A
/// to D. It fails only as the conversion of a time fails.
pub fn update(state: DecksState) -> (r: Result<Bundle, PublishError>)
    ensures
        r matches Ok(bundle) ==> publishes(bundle@, state@),
        r matches Err(PublishError::Timetag(err)) ==> refuses(err),
{
    let DecksState { a, b, c, d } = state;
    let a = update_deck(Deck::A, a)?;
    let b = update_deck(Deck::B, b)?;
    let c = update_deck(Deck::C, c)?;
    let d = update_deck(Deck::D, d)?;
    decks_builder(a, b, c, d).build()
}

/// Two fields of decks have the same address only if they are the same field of
/// the same deck.
pub proof fn lemma_deck_address_injective(
    deck: Deck,
    name: Seq<char>,
    other: Deck,
    other_name: Seq<char>,
)
    ensures
        deck_address(deck, name) == deck_address(other, other_name) <==> (deck == other && name
            == other_name),
{
    reveal_strlit("/decks/");
    let a = deck_address(deck, name);
    let b = deck_address(other, other_name);
    assert(a[7] == deck.letter());
    assert(b[7] == other.letter());
    assert(name =~= a.subrange(9, a.len() as int));
    assert(other_name =~= b.subrange(9, b.len() as int));
}

/// The names of a deck's fields differ from one another.
proof fn lemma_field_names_differ()
    ensures
        "title"@.len() == 5,
        "bpm"@.len() == 3,
        "length"@.len() == 6,
        "tempo"@.len() == 5,
        "master"@.len() == 6,
        "playing"@.len() == 7,
        "elapsed_time"@.len() == 12,
        "title"@ != "tempo"@,
        "length"@ != "master"@,
{
    reveal_strlit("title");
    reveal_strlit("bpm");
    reveal_strlit("length");
    reveal_strlit("tempo");
    reveal_strlit("master");
    reveal_strlit("playing");
    reveal_strlit("elapsed_time");
    assert("title"@[1] == 'i' && "tempo"@[1] == 'e');
    assert("length"@[0] == 'l' && "master"@[0] == 'm');
}

/// What a search for a deck's field finds among the fields of a deck: that
/// field's value where the deck is the same and its state sends the field,
/// and nothing otherwise.
pub proof fn lemma_find_in_deck_fields(
    deck: Deck,
    state: DeckStateView,
    other: Deck,
    name: Seq<char>,
)
    ensures
        find(deck_fields(deck, state), deck_address(other, name)) == if deck == other {
            field_value(state, name)
        } else {
            None
        },
{
    lemma_field_names_differ();
    lemma_deck_address_injective(deck, "title"@, other, name);
    lemma_deck_address_injective(deck, "bpm"@, other, name);
    lemma_deck_address_injective(deck, "length"@, other, name);
    lemma_deck_address_injective(deck, "tempo"@, other, name);
    lemma_deck_address_injective(deck, "master"@, other, name);
    lemma_deck_address_injective(deck, "playing"@, other, name);
    lemma_deck_address_injective(deck, "elapsed_time"@, other, name);
    let fields = deck_fields(deck, state);
    let addr = deck_address(other, name);
    // The track's three fields, where there are any, come first.
    let base: int = if state.track.is_some() {
        3
    } else {
        0
    };
    assert(fields.len() == base + 4);
    assert(fields[base + 3] == deck_field(
        deck,
        "elapsed_time"@,
        ValueView::Seconds(state.elapsed_time),
    ));
    let expected = if deck == other {
        field_value(state, name)
    } else {
        None
    };
    if expected.is_none() {
        assert forall|j: int| 0 <= j < fields.len() implies (#[trigger] find_in(
            fields[j],
            addr,
        )).is_none() by {
            assert(0 <= j < base + 4);
        }
        lemma_find_no_hit(fields, addr);
    } else {
        let i: int = if name == "tempo"@ {
            base
        } else if name == "master"@ {
            base + 1
        } else if name == "playing"@ {
            base + 2
        } else if name == "elapsed_time"@ {
            base + 3
        } else if name == "title"@ {
            0
        } else if name == "bpm"@ {
            1
        } else {
            2
        };
        assert(find_in(fields[i], addr) == expected);
        assert forall|j: int| 0 <= j < i implies (#[trigger] find_in(fields[j], addr)).is_none() by {
            assert(0 <= j < base + 4);
        }
        lemma_find_first_hit(fields, addr, i);
    }
}

/// Reading a published snapshot back by address gives, for every deck and
/// every field, what the snapshot holds: tempo, master, playing and elapsed
/// time always, title, bpm and length where a track is loaded. No other
/// address of a deck's field is answered.
pub proof fn lemma_published_fields_read_back(
    bundle: BundleView,
    decks: DecksView,
    deck: Deck,
    name: Seq<char>,
)
    requires
        publishes(bundle, decks),
    ensures
        find(bundle.content, deck_address(deck, name)) == field_value(decks[deck], name),
{
    let addr = deck_address(deck, name);
    let content = bundle.content;
    lemma_find_in_deck_fields(Deck::A, decks[Deck::A], deck, name);
    lemma_find_in_deck_fields(Deck::B, decks[Deck::B], deck, name);
    lemma_find_in_deck_fields(Deck::C, decks[Deck::C], deck, name);
    lemma_find_in_deck_fields(Deck::D, decks[Deck::D], deck, name);
    assert(find_in(content[0], addr) == find(deck_fields(Deck::A, decks[Deck::A]), addr));
    assert(find_in(content[1], addr) == find(deck_fields(Deck::B, decks[Deck::B]), addr));
    assert(find_in(content[2], addr) == find(deck_fields(Deck::C, decks[Deck::C]), addr));
    assert(find_in(content[3], addr) == find(deck_fields(Deck::D, decks[Deck::D]), addr));
    // The deck's own bundle is the first that answers.
    let i: int = match deck {
        Deck::A => 0,
        Deck::B => 1,
        Deck::C => 2,
        Deck::D => 3,
    };
    if field_value(decks[deck], name).is_some() {
        lemma_find_first_hit(content, addr, i);
    } else {
        lemma_find_no_hit(content, addr);
    }
}

} // verus!

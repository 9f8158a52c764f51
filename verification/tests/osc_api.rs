use std::time::{Duration, UNIX_EPOCH};

use deck_osc::aggregator::DecksState;
use deck_osc::deck_state::{DeckState, Track};
use deck_osc::messages::Messages;
use deck_osc::models::{Deck, DeckLoaded, MasterClock, UpdateDeck};
use deck_osc::osc_api::{
    deck_builder, decks_builder, update, update_deck, BundleBuilder, PublishError,
};
use deck_osc::packet::{Bundle, Message, Packet, TimeTag, Value};
use deck_osc::units::{Real, Span};
use rosc::{OscBundle, OscMessage, OscPacket, OscTime, OscType};

fn num(x: f64) -> Real {
    Real { bits: x.to_bits() }
}

fn seconds(s: f64) -> Span {
    Span { nanos: Duration::from_secs_f64(s).as_nanos() }
}

fn scale(bpm: Real, ratio: Real) -> Real {
    num(f64::from_bits(bpm.bits) * f64::from_bits(ratio.bits))
}

fn message(addr: &str, value: Value) -> Packet {
    Packet::Message(Message { addr: addr.to_string(), args: vec![value] })
}

fn refusal(result: Result<Bundle, PublishError>) -> String {
    match result {
        Err(PublishError::Timetag(err)) => err.to_string(),
        Ok(bundle) => panic!("a bundle where a refusal belongs: {:?}", bundle),
    }
}

fn content_of(packet: &Packet) -> &Vec<Packet> {
    match packet {
        Packet::Bundle(bundle) => &bundle.content,
        Packet::Message(m) => panic!("a message where a bundle belongs: {:?}", m),
    }
}

fn playing_deck() -> DeckState {
    DeckState {
        track: Some(Track {
            title: "Xtal".to_string(),
            artist: Some("Aphex Twin".to_string()),
            album: None,
            length: seconds(291.5),
            bpm: num(115.0),
        }),
        playing: true,
        tempo: num(117.3),
        elapsed_time: seconds(12.25),
        master: true,
    }
}

fn busy_decks() -> DecksState {
    let mut decks = DecksState::default();
    decks.process(
        Messages::DeckLoaded(
            Deck::A,
            DeckLoaded::new("Xtal".to_string(), None, None, num(115.0), true, num(1.02), seconds(291.5)),
        ),
        scale,
    );
    decks.process(
        Messages::DeckLoaded(
            Deck::C,
            DeckLoaded::new("Ageispolis".to_string(), None, None, num(101.0), false, num(1.0), seconds(323.0)),
        ),
        scale,
    );
    decks.process(
        Messages::DeckUpdated(
            Deck::A,
            UpdateDeck {
                elapsed_time: Some(seconds(64.125)),
                next_cue_pos: None,
                is_playing: None,
                tempo: None,
                is_synced: None,
            },
        ),
        scale,
    );
    decks.process(
        Messages::DeckUpdated(
            Deck::D,
            UpdateDeck {
                elapsed_time: Some(seconds(3.0)),
                next_cue_pos: None,
                is_playing: Some(true),
                tempo: Some(num(0.9)),
                is_synced: None,
            },
        ),
        scale,
    );
    decks.process(Messages::MasterClock(MasterClock { bpm: num(115.0), deck: Some(Deck::A) }), scale);
    decks
}

fn osc_value(value: &Value) -> OscType {
    match value {
        Value::Text(text) => OscType::String(text.clone()),
        Value::Real(number) => OscType::Double(f64::from_bits(number.bits)),
        Value::Flag(flag) => OscType::Bool(*flag),
        Value::Seconds(span) => {
            let whole = (span.nanos / 1_000_000_000) as u64;
            let rest = (span.nanos % 1_000_000_000) as u32;
            OscType::Double(Duration::new(whole, rest).as_secs_f64())
        }
    }
}

fn osc_packet(packet: &Packet) -> OscPacket {
    match packet {
        Packet::Message(m) => OscPacket::Message(OscMessage {
            addr: m.addr.clone(),
            args: m.args.iter().map(osc_value).collect(),
        }),
        Packet::Bundle(b) => OscPacket::Bundle(osc_bundle(b)),
    }
}

fn osc_bundle(bundle: &Bundle) -> OscBundle {
    OscBundle {
        timetag: OscTime { seconds: bundle.timetag.seconds, fractional: bundle.timetag.fractional },
        content: bundle.content.iter().map(osc_packet).collect(),
    }
}

fn received(packet: &OscPacket, addr: &str) -> Option<Vec<OscType>> {
    match packet {
        OscPacket::Message(m) => {
            if m.addr == addr {
                Some(m.args.clone())
            } else {
                None
            }
        }
        OscPacket::Bundle(b) => b.content.iter().find_map(|p| received(p, addr)),
    }
}

#[test]
fn a_deck_without_track_sends_four_fields() {
    let state = DeckState {
        track: None,
        playing: true,
        tempo: num(0.0),
        elapsed_time: seconds(1.5),
        master: false,
    };
    let bundle = update_deck(Deck::B, state).unwrap();
    assert_eq!(
        bundle.content,
        vec![
            message("/decks/B/tempo", Value::Real(num(0.0))),
            message("/decks/B/master", Value::Flag(false)),
            message("/decks/B/playing", Value::Flag(true)),
            message("/decks/B/elapsed_time", Value::Seconds(Span { nanos: 1_500_000_000 })),
        ]
    );
}

#[test]
fn a_deck_with_track_sends_seven_fields() {
    let bundle = update_deck(Deck::D, playing_deck()).unwrap();
    assert_eq!(
        bundle.content,
        vec![
            message("/decks/D/title", Value::Text("Xtal".to_string())),
            message("/decks/D/bpm", Value::Real(num(115.0))),
            message("/decks/D/length", Value::Seconds(Span { nanos: 291_500_000_000 })),
            message("/decks/D/tempo", Value::Real(num(117.3))),
            message("/decks/D/master", Value::Flag(true)),
            message("/decks/D/playing", Value::Flag(true)),
            message("/decks/D/elapsed_time", Value::Seconds(Span { nanos: 12_250_000_000 })),
        ]
    );
}

#[test]
fn artist_and_album_are_not_sent() {
    let bundle = update_deck(Deck::A, playing_deck()).unwrap();
    assert_eq!(bundle.find("/decks/A/artist"), None);
    assert_eq!(bundle.find("/decks/A/album"), None);
    assert_eq!(bundle.content.len(), 7);
}

#[test]
fn a_snapshot_holds_one_bundle_for_each_deck() {
    let decks = busy_decks();
    let bundle = update(decks.snapshot()).unwrap();
    assert_eq!(bundle.content.len(), 4);
    for (i, deck) in [Deck::A, Deck::B, Deck::C, Deck::D].into_iter().enumerate() {
        let expected = update_deck(deck, decks.deck(deck).snapshot()).unwrap();
        assert_eq!(content_of(&bundle.content[i]), &expected.content);
    }
    assert_eq!(content_of(&bundle.content[0]).len(), 7);
    assert_eq!(content_of(&bundle.content[1]).len(), 4);
    assert_eq!(content_of(&bundle.content[2]).len(), 7);
    assert_eq!(content_of(&bundle.content[3]).len(), 4);
}

#[test]
fn the_zero_state_is_published_too() {
    let bundle = update(DecksState::default()).unwrap();
    for (i, name) in ["A", "B", "C", "D"].into_iter().enumerate() {
        assert_eq!(
            content_of(&bundle.content[i]),
            &vec![
                message(&format!("/decks/{}/tempo", name), Value::Real(num(0.0))),
                message(&format!("/decks/{}/master", name), Value::Flag(false)),
                message(&format!("/decks/{}/playing", name), Value::Flag(false)),
                message(&format!("/decks/{}/elapsed_time", name), Value::Seconds(Span { nanos: 0 })),
            ]
        );
    }
}

#[test]
fn only_the_master_deck_is_published_as_master() {
    let mut decks = DecksState::default();
    decks.process(Messages::MasterClock(MasterClock { bpm: num(128.0), deck: Some(Deck::C) }), scale);
    let bundle = update(decks).unwrap();
    assert_eq!(bundle.find("/decks/A/master"), Some(&vec![Value::Flag(false)]));
    assert_eq!(bundle.find("/decks/B/master"), Some(&vec![Value::Flag(false)]));
    assert_eq!(bundle.find("/decks/C/master"), Some(&vec![Value::Flag(true)]));
    assert_eq!(bundle.find("/decks/D/master"), Some(&vec![Value::Flag(false)]));
}

#[test]
fn fields_are_found_by_address() {
    let decks = busy_decks();
    let bundle = update(decks.snapshot()).unwrap();
    for deck in [Deck::A, Deck::B, Deck::C, Deck::D] {
        let state = decks.deck(deck);
        let at = |field: &str| format!("/decks/{}/{}", deck.name(), field);
        assert_eq!(bundle.find(&at("tempo")), Some(&vec![Value::Real(state.tempo)]));
        assert_eq!(bundle.find(&at("master")), Some(&vec![Value::Flag(state.master)]));
        assert_eq!(bundle.find(&at("playing")), Some(&vec![Value::Flag(state.playing)]));
        assert_eq!(bundle.find(&at("elapsed_time")), Some(&vec![Value::Seconds(state.elapsed_time)]));
        match &state.track {
            Some(track) => {
                assert_eq!(bundle.find(&at("title")), Some(&vec![Value::Text(track.title.clone())]));
                assert_eq!(bundle.find(&at("bpm")), Some(&vec![Value::Real(track.bpm)]));
                assert_eq!(bundle.find(&at("length")), Some(&vec![Value::Seconds(track.length)]));
            }
            None => {
                assert_eq!(bundle.find(&at("title")), None);
                assert_eq!(bundle.find(&at("bpm")), None);
                assert_eq!(bundle.find(&at("length")), None);
            }
        }
        assert_eq!(bundle.find(&at("")), None);
        assert_eq!(bundle.find(&at("Tempo")), None);
    }
    assert_eq!(bundle.find("/decks/E/tempo"), None);
    assert_eq!(bundle.find("/decks/A"), None);
    assert_eq!(bundle.find("tempo"), None);
    assert_eq!(bundle.find(""), None);
}

#[test]
fn find_answers_with_the_first_message_at_an_address() {
    let mut inner = BundleBuilder::new("/x".to_string());
    inner.add("a", Value::Flag(true));
    inner.add("b", Value::Real(num(1.0)));
    let inner = inner.stamped(TimeTag { seconds: 1, fractional: 0 });
    let mut outer = BundleBuilder::default();
    outer.add("first", Value::Flag(false));
    outer.add_bundle(inner);
    outer.add("", Value::Text("root".to_string()));
    outer.add("b", Value::Real(num(2.0)));
    let mut shadow = BundleBuilder::new("/x".to_string());
    shadow.add("b", Value::Real(num(3.0)));
    outer.add_bundle(shadow.stamped(TimeTag { seconds: 2, fractional: 0 }));
    let outer = outer.stamped(TimeTag { seconds: 3, fractional: 0 });
    assert_eq!(outer.find("/first"), Some(&vec![Value::Flag(false)]));
    assert_eq!(outer.find("/x/a"), Some(&vec![Value::Flag(true)]));
    assert_eq!(outer.find("/x/b"), Some(&vec![Value::Real(num(1.0))]));
    assert_eq!(outer.find("/b"), Some(&vec![Value::Real(num(2.0))]));
    assert_eq!(outer.find("/"), Some(&vec![Value::Text("root".to_string())]));
    assert_eq!(outer.find("/x"), None);
    assert_eq!(outer.find("x/a"), None);
}

#[test]
fn a_builder_addresses_under_its_prefix() {
    let mut builder = BundleBuilder::new("/decks/A".to_string());
    builder.add("tempo", Value::Real(num(64.0)));
    builder.add("title", Value::Text("t".to_string()));
    let bundle = builder.stamped(TimeTag { seconds: 7, fractional: 9 });
    assert_eq!(
        bundle,
        Bundle {
            timetag: TimeTag { seconds: 7, fractional: 9 },
            content: vec![
                message("/decks/A/tempo", Value::Real(num(64.0))),
                message("/decks/A/title", Value::Text("t".to_string())),
            ],
        }
    );
}

#[test]
fn a_builder_without_prefix_addresses_at_the_root() {
    let mut builder = BundleBuilder::default();
    builder.add("tempo", Value::Flag(true));
    let bundle = builder.stamped(TimeTag { seconds: 0, fractional: 0 });
    assert_eq!(bundle.content, vec![message("/tempo", Value::Flag(true))]);
}

#[test]
fn a_builder_keeps_bundles_in_the_order_given() {
    let mut first = BundleBuilder::new("/a".to_string());
    first.add("x", Value::Flag(true));
    let first = first.stamped(TimeTag { seconds: 1, fractional: 1 });
    let second = BundleBuilder::new("/b".to_string()).stamped(TimeTag { seconds: 2, fractional: 2 });
    let mut outer = BundleBuilder::default();
    outer.add_bundle(first);
    outer.add("between", Value::Flag(false));
    outer.add_bundle(second);
    let outer = outer.stamped(TimeTag { seconds: 3, fractional: 3 });
    assert_eq!(
        outer.content,
        vec![
            Packet::Bundle(Bundle {
                timetag: TimeTag { seconds: 1, fractional: 1 },
                content: vec![message("/a/x", Value::Flag(true))],
            }),
            message("/between", Value::Flag(false)),
            Packet::Bundle(Bundle { timetag: TimeTag { seconds: 2, fractional: 2 }, content: vec![] }),
        ]
    );
}

#[test]
fn the_epoch_of_1970_has_a_time_tag() {
    let mut builder = BundleBuilder::default();
    builder.add("x", Value::Flag(true));
    let bundle = builder.build_at(UNIX_EPOCH).unwrap();
    assert_eq!(bundle.timetag, TimeTag { seconds: 2_208_988_800, fractional: 0 });
    assert_eq!(bundle.content, vec![message("/x", Value::Flag(true))]);
    let later = BundleBuilder::default().build_at(UNIX_EPOCH + Duration::new(10, 500_000_000)).unwrap();
    assert_eq!(later.timetag, TimeTag { seconds: 2_208_988_810, fractional: 1 << 31 });
}

#[test]
fn a_time_before_1970_has_no_time_tag() {
    let result = BundleBuilder::default().build_at(UNIX_EPOCH - Duration::from_secs(1));
    assert_eq!(refusal(result), "time is before the unix epoch and cannot be stored");
    let mut builder = BundleBuilder::new("/p".to_string());
    builder.add("x", Value::Flag(true));
    let result = builder.build_at(UNIX_EPOCH - Duration::new(0, 1));
    assert_eq!(refusal(result), "time is before the unix epoch and cannot be stored");
}

#[test]
fn a_time_past_the_tags_range_has_no_time_tag() {
    let result = BundleBuilder::default().build_at(UNIX_EPOCH + Duration::from_secs(1 << 32));
    assert_eq!(refusal(result), "time overflows what OSC time can store");
    let last = u64::from(u32::MAX) - 2_208_988_800;
    let bundle = BundleBuilder::default().build_at(UNIX_EPOCH + Duration::from_secs(last)).unwrap();
    assert_eq!(bundle.timetag, TimeTag { seconds: u32::MAX, fractional: 0 });
    let result = BundleBuilder::default().build_at(UNIX_EPOCH + Duration::from_secs(last + 1));
    assert_eq!(refusal(result), "time overflows what OSC time can store");
}

#[test]
fn a_bundle_is_tagged_with_the_time_it_is_built_at() {
    let before = OscTime::try_from(std::time::SystemTime::now()).unwrap();
    let bundle = BundleBuilder::default().build().unwrap();
    let after = OscTime::try_from(std::time::SystemTime::now()).unwrap();
    assert!(before.seconds <= bundle.timetag.seconds);
    assert!(bundle.timetag.seconds <= after.seconds);
    assert!(bundle.content.is_empty());
}

#[test]
fn a_snapshot_survives_the_wire() {
    let decks = busy_decks();
    let bundle = update(decks.snapshot()).unwrap();
    let bytes = rosc::encoder::encode(&OscPacket::Bundle(osc_bundle(&bundle))).unwrap();
    let (rest, packet) = rosc::decoder::decode_udp(&bytes).unwrap();
    assert!(rest.is_empty());
    match &packet {
        OscPacket::Bundle(outer) => {
            assert_eq!(outer.timetag.seconds, bundle.timetag.seconds);
            assert_eq!(outer.timetag.fractional, bundle.timetag.fractional);
            assert_eq!(outer.content.len(), 4);
        }
        OscPacket::Message(m) => panic!("a message where a bundle belongs: {:?}", m),
    }
    for deck in [Deck::A, Deck::B, Deck::C, Deck::D] {
        let state = decks.deck(deck);
        let at = |field: &str| format!("/decks/{}/{}", deck.name(), field);
        let elapsed = Duration::new(
            (state.elapsed_time.nanos / 1_000_000_000) as u64,
            (state.elapsed_time.nanos % 1_000_000_000) as u32,
        );
        assert_eq!(received(&packet, &at("tempo")), Some(vec![OscType::Double(f64::from_bits(state.tempo.bits))]));
        assert_eq!(received(&packet, &at("master")), Some(vec![OscType::Bool(state.master)]));
        assert_eq!(received(&packet, &at("playing")), Some(vec![OscType::Bool(state.playing)]));
        assert_eq!(received(&packet, &at("elapsed_time")), Some(vec![OscType::Double(elapsed.as_secs_f64())]));
        match &state.track {
            Some(track) => {
                assert_eq!(received(&packet, &at("title")), Some(vec![OscType::String(track.title.clone())]));
                assert_eq!(
                    received(&packet, &at("bpm")),
                    Some(vec![OscType::Double(f64::from_bits(track.bpm.bits))])
                );
            }
            None => {
                assert_eq!(received(&packet, &at("title")), None);
                assert_eq!(received(&packet, &at("bpm")), None);
                assert_eq!(received(&packet, &at("length")), None);
            }
        }
    }
    assert_eq!(received(&packet, "/decks/A/tempo"), Some(vec![OscType::Double(115.0 * 1.02)]));
    assert_eq!(received(&packet, "/decks/A/elapsed_time"), Some(vec![OscType::Double(64.125)]));
    assert_eq!(received(&packet, "/decks/A/length"), Some(vec![OscType::Double(291.5)]));
    assert_eq!(received(&packet, "/decks/A/master"), Some(vec![OscType::Bool(true)]));
    assert_eq!(received(&packet, "/decks/C/tempo"), Some(vec![OscType::Double(101.0)]));
    assert_eq!(received(&packet, "/decks/D/tempo"), Some(vec![OscType::Double(0.0)]));
    assert_eq!(received(&packet, "/decks/D/playing"), Some(vec![OscType::Bool(true)]));
    assert_eq!(received(&packet, "/decks/D/elapsed_time"), Some(vec![OscType::Double(3.0)]));
}

#[test]
fn a_tag_gives_the_bundle_under_it() {
    let mut builder = BundleBuilder::new("/p".to_string());
    builder.add("x", Value::Real(num(1.5)));
    let result = builder.tagged(Ok(TimeTag { seconds: 11, fractional: 12 }));
    assert_eq!(
        result.unwrap(),
        Bundle {
            timetag: TimeTag { seconds: 11, fractional: 12 },
            content: vec![message("/p/x", Value::Real(num(1.5)))],
        }
    );
}

#[test]
fn no_tag_gives_no_bundle() {
    let before_epoch = OscTime::try_from(UNIX_EPOCH - Duration::from_secs(1)).unwrap_err();
    let mut builder = BundleBuilder::default();
    builder.add("x", Value::Flag(true));
    assert_eq!(
        refusal(builder.tagged(Err(before_epoch))),
        "time is before the unix epoch and cannot be stored"
    );
    let overflow = OscTime::try_from(UNIX_EPOCH + Duration::from_secs(1 << 32)).unwrap_err();
    assert_eq!(
        refusal(BundleBuilder::default().tagged(Err(overflow))),
        "time overflows what OSC time can store"
    );
}

#[test]
fn a_decks_builder_holds_its_fields_under_its_prefix() {
    let mut builder = deck_builder(Deck::C, playing_deck());
    builder.add("extra", Value::Flag(false));
    let bundle = builder.stamped(TimeTag { seconds: 1, fractional: 2 });
    assert_eq!(
        bundle,
        Bundle {
            timetag: TimeTag { seconds: 1, fractional: 2 },
            content: vec![
                message("/decks/C/title", Value::Text("Xtal".to_string())),
                message("/decks/C/bpm", Value::Real(num(115.0))),
                message("/decks/C/length", Value::Seconds(Span { nanos: 291_500_000_000 })),
                message("/decks/C/tempo", Value::Real(num(117.3))),
                message("/decks/C/master", Value::Flag(true)),
                message("/decks/C/playing", Value::Flag(true)),
                message("/decks/C/elapsed_time", Value::Seconds(Span { nanos: 12_250_000_000 })),
                message("/decks/C/extra", Value::Flag(false)),
            ],
        }
    );
    let empty = deck_builder(Deck::A, DeckState::default()).stamped(TimeTag { seconds: 0, fractional: 0 });
    assert_eq!(
        empty.content,
        vec![
            message("/decks/A/tempo", Value::Real(num(0.0))),
            message("/decks/A/master", Value::Flag(false)),
            message("/decks/A/playing", Value::Flag(false)),
            message("/decks/A/elapsed_time", Value::Seconds(Span { nanos: 0 })),
        ]
    );
}

#[test]
fn the_four_bundles_are_collected_from_a_to_d() {
    let tagged = |seconds: u32, name: &str| {
        let mut builder = BundleBuilder::new(name.to_string());
        builder.add("x", Value::Flag(true));
        builder.stamped(TimeTag { seconds, fractional: 0 })
    };
    let mut builder = decks_builder(tagged(1, "/a"), tagged(2, "/b"), tagged(3, "/c"), tagged(4, "/d"));
    builder.add("after", Value::Flag(false));
    let bundle = builder.stamped(TimeTag { seconds: 9, fractional: 9 });
    assert_eq!(
        bundle,
        Bundle {
            timetag: TimeTag { seconds: 9, fractional: 9 },
            content: vec![
                Packet::Bundle(tagged(1, "/a")),
                Packet::Bundle(tagged(2, "/b")),
                Packet::Bundle(tagged(3, "/c")),
                Packet::Bundle(tagged(4, "/d")),
                message("/after", Value::Flag(false)),
            ],
        }
    );
}

#[test]
fn building_at_a_time_is_tagging_with_that_times_tag() {
    let time = UNIX_EPOCH + Duration::new(1_700_000_000, 250_000_000);
    let tag = OscTime::try_from(time).unwrap();
    let built = deck_builder(Deck::D, playing_deck()).build_at(time);
    let tagged = deck_builder(Deck::D, playing_deck())
        .tagged(Ok(TimeTag { seconds: tag.seconds, fractional: tag.fractional }));
    let built = built.unwrap();
    assert_eq!(built, tagged.unwrap());
    assert_eq!(built.timetag, TimeTag { seconds: 3_908_988_800, fractional: 1 << 30 });
}

#[test]
fn the_same_time_is_tagged_alike() {
    let time = UNIX_EPOCH + Duration::new(1_234_567_890, 123_456_789);
    let first = deck_builder(Deck::A, playing_deck()).build_at(time).unwrap();
    let second = deck_builder(Deck::A, playing_deck()).build_at(time).unwrap();
    assert_eq!(first, second);
    let tag = OscTime::try_from(time).unwrap();
    assert_eq!(first.timetag, TimeTag { seconds: tag.seconds, fractional: tag.fractional });
    assert_eq!(first.timetag.seconds, 3_443_556_690);
}

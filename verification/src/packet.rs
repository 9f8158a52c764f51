//! The nested, addressed message in which a snapshot is published.

use vstd::prelude::*;
use vstd::string::*;
use crate::units::{Real, Span};

verus! {

/// A time tag: seconds since the start of 1900, and a fraction of a second in
/// units of two to the power of minus 32.
#[derive(Clone, Copy, Debug, PartialEq, Eq, Structural)]
pub struct TimeTag {
    pub seconds: u32,
    pub fractional: u32,
}

/// The value of one field: a text, a real, a flag, or a length of time, which
/// goes out as a real number of seconds.
#[derive(Clone, Debug, PartialEq)]
pub enum Value {
    Text(String),
    Real(Real),
    Flag(bool),
    Seconds(Span),
}

/// A `Value`, with its text as a sequence of characters.
pub enum ValueView {
    Text(Seq<char>),
    Real(Real),
    Flag(bool),
    Seconds(Span),
}

impl View for Value {
    type V = ValueView;

    open spec fn view(&self) -> ValueView {
        match self {
            Value::Text(text) => ValueView::Text(text@),
            Value::Real(number) => ValueView::Real(*number),
            Value::Flag(flag) => ValueView::Flag(*flag),
            Value::Seconds(span) => ValueView::Seconds(*span),
        }
    }
}

/// An address and the values sent to it.
#[derive(Clone, Debug, PartialEq)]
pub struct Message {
    pub addr: String,
    pub args: Vec<Value>,
}

/// A `Message` as sequences.
pub struct MessageView {
    pub addr: Seq<char>,
    pub args: Seq<ValueView>,
}

impl View for Message {
    type V = MessageView;

    open spec fn view(&self) -> MessageView {
        MessageView { addr: self.addr@, args: values_view(self.args@) }
    }
}

/// A message, or a bundle of packets.
#[derive(Debug, PartialEq)]
pub enum Packet {
    Message(Message),
    Bundle(Bundle),
}

/// A time tag and the packets that it stamps.
#[derive(Debug, PartialEq)]
pub struct Bundle {
    pub timetag: TimeTag,
    pub content: Vec<Packet>,
}

/// A `Packet` as sequences.
pub enum PacketView {
    Message(MessageView),
    Bundle(BundleView),
}

/// A `Bundle` as sequences.
pub struct BundleView {
    pub timetag: TimeTag,
    pub content: Seq<PacketView>,
}

/// The views of a vector's packets, in order.
pub open spec fn packets_view(packets: Seq<Packet>) -> Seq<PacketView>
    decreases packets,
{
    Seq::new(
        packets.len(),
        |i: int|
            if 0 <= i < packets.len() {
                packets[i]@
            } else {
                arbitrary()
            },
    )
}

impl View for Packet {
    type V = PacketView;

    open spec fn view(&self) -> PacketView
        decreases self,
    {
        match self {
            Packet::Message(message) => PacketView::Message(message@),
            Packet::Bundle(bundle) => PacketView::Bundle(
                BundleView { timetag: bundle.timetag, content: packets_view(bundle.content@) },
            ),
        }
    }
}

impl View for Bundle {
    type V = BundleView;

    open spec fn view(&self) -> BundleView {
        BundleView { timetag: self.timetag, content: packets_view(self.content@) }
    }
}

/// What a search for `addr` finds in one packet: the values of a message that
/// has that address, or what the search finds in a bundle's content.
pub open spec fn find_in(packet: PacketView, addr: Seq<char>) -> Option<Seq<ValueView>>
    decreases packet,
{
    match packet {
        PacketView::Message(message) => if message.addr == addr {
            Some(message.args)
        } else {
            None
        },
        PacketView::Bundle(bundle) => find(bundle.content, addr),
    }
}

/// The values of the first message addressed to `addr` among the packets, in
/// order, each bundle searched where it stands; `None` where no message has
/// that address. This is how a receiver that dispatches by address reads a
/// field.
pub open spec fn find(packets: Seq<PacketView>, addr: Seq<char>) -> Option<Seq<ValueView>>
    decreases packets,
{
    if packets.len() == 0 {
        None
    } else {
        match find_in(packets[0], addr) {
            Some(values) => Some(values),
            None => find(packets.drop_first(), addr),
        }
    }
}

/// A search finds what the first packet that holds the address holds.
pub proof fn lemma_find_first_hit(packets: Seq<PacketView>, addr: Seq<char>, i: int)
    requires
        0 <= i < packets.len(),
        forall|j: int| 0 <= j < i ==> (#[trigger] find_in(packets[j], addr)).is_none(),
        find_in(packets[i], addr).is_some(),
    ensures
        find(packets, addr) == find_in(packets[i], addr),
    decreases i,
{
    if i > 0 {
        let rest = packets.drop_first();
        assert(find_in(packets[0], addr).is_none());
        assert forall|j: int| 0 <= j < i - 1 implies (#[trigger] find_in(rest[j], addr)).is_none() by {
            assert(rest[j] == packets[j + 1]);
        }
        assert(rest[i - 1] == packets[i]);
        lemma_find_first_hit(rest, addr, i - 1);
    }
}

/// A search finds nothing where no packet holds the address.
pub proof fn lemma_find_no_hit(packets: Seq<PacketView>, addr: Seq<char>)
    requires
        forall|j: int| 0 <= j < packets.len() ==> (#[trigger] find_in(packets[j], addr)).is_none(),
    ensures
        find(packets, addr).is_none(),
    decreases packets.len(),
{
    if packets.len() > 0 {
        let rest = packets.drop_first();
        assert(find_in(packets[0], addr).is_none());
        assert forall|j: int| 0 <= j < rest.len() implies (#[trigger] find_in(rest[j], addr)).is_none() by {
            assert(rest[j] == packets[j + 1]);
        }
        lemma_find_no_hit(rest, addr);
    }
}

/// The views of a message's values, in order.
pub open spec fn values_view(values: Seq<Value>) -> Seq<ValueView> {
    values.map_values(|value: Value| value@)
}

/// Searches the packets for the first message addressed to `addr`.
fn find_among<'a>(packets: &'a Vec<Packet>, addr: &String) -> (r: Option<&'a Vec<Value>>)
    ensures
        match r {
            Some(values) => find(packets_view(packets@), addr@) == Some(values_view(values@)),
            None => find(packets_view(packets@), addr@).is_none(),
        },
    decreases packets,
{
    let ghost views = packets_view(packets@);
    let mut i: usize = 0;
    while i < packets.len()
        invariant
            i <= packets.len(),
            views == packets_view(packets@),
            forall|j: int| 0 <= j < i ==> (#[trigger] find_in(views[j], addr@)).is_none(),
        decreases packets.len() - i,
    {
        let found = match &packets[i] {
            Packet::Message(message) => if message.addr == *addr {
                Some(&message.args)
            } else {
                None
            },
            Packet::Bundle(bundle) => find_among(&bundle.content, addr),
        };
        if let Some(values) = found {
            proof {
                assert(find_in(views[i as int], addr@) == Some(values_view(values@)));
                lemma_find_first_hit(views, addr@, i as int);
            }
            return Some(values);
        }
        i = i + 1;
    }
    proof {
        lemma_find_no_hit(views, addr@);
    }
    None
}

impl Bundle {
    /// The values of the first message addressed to `addr` in the bundle, as a
    /// receiver that dispatches by address reads them.
    pub fn find(&self, addr: &str) -> (r: Option<&Vec<Value>>)
        ensures
            match r {
                Some(values) => find(self@.content, addr@) == Some(values_view(values@)),
                None => find(self@.content, addr@).is_none(),
            },
    {
        let addr = String::from_str(addr);
        find_among(&self.content, &addr)
    }
}

} // verus!

//! The addresses of the message bus.
//!
//! Every address that a component publishes to or subscribes to is made by
//! [`Topic::get`], and every address that arrives is taken apart by
//! [`relayed_address`] and [`segment_of`], so that producers and consumers
//! cannot drift apart.
use vstd::prelude::*;
use crate::library::text::chars_of;

verus! {

/// The addresses used on the bus.
pub enum Topic<'a> {
    /// Control channel of the host.
    HostI,
    /// Status channel of the host, keyed by a name.
    HostS(&'a str),
    /// Direct command channel of a vehicle.
    VehicleI(&'a str),
    /// Status stream of a vehicle.
    VehicleS(&'a str),
    /// Telemetry of a vehicle, keyed by the event's name.
    VehicleE(&'a str, &'a str),
    /// A command that waits to be relayed; wraps the address it is meant for.
    Relay(&'a str),
    /// Speed telemetry of a vehicle.
    SpeedE(&'a str),
    /// The global emergency flag.
    Emergency,
    /// The global slow-zone membership.
    Zone,
}

/// What a [`Topic`] holds, as plain text.
pub enum TopicView {
    HostI,
    HostS(Seq<char>),
    VehicleI(Seq<char>),
    VehicleS(Seq<char>),
    VehicleE(Seq<char>, Seq<char>),
    Relay(Seq<char>),
    SpeedE(Seq<char>),
    Emergency,
    Zone,
}

impl TopicView {
    /// The address that the topic stands for.
    pub open spec fn text(self) -> Seq<char> {
        match self {
            TopicView::HostI => "Anki/Hosts/U/hyperdrive/I"@,
            TopicView::HostS(name) => "Anki/Hosts/U/hyperdrive/S/"@ + name,
            TopicView::VehicleI(id) => "Anki/Vehicles/U/"@ + id + "/I"@,
            TopicView::VehicleS(id) => "Anki/Vehicles/U/"@ + id + "/S"@,
            TopicView::VehicleE(id, event) => "Anki/Vehicles/U/"@ + id + "/E/"@ + event,
            TopicView::Relay(wrapped) => "GroupG/Relay/"@ + wrapped,
            TopicView::SpeedE(id) => "Anki/Vehicles/U/"@ + id + "/E/speed"@,
            TopicView::Emergency => "GroupG/Emergency/I"@,
            TopicView::Zone => "GroupG/Zone/I"@,
        }
    }
}

impl<'a> View for Topic<'a> {
    type V = TopicView;

    open spec fn view(&self) -> TopicView {
        match *self {
            Topic::HostI => TopicView::HostI,
            Topic::HostS(name) => TopicView::HostS(name@),
            Topic::VehicleI(id) => TopicView::VehicleI(id@),
            Topic::VehicleS(id) => TopicView::VehicleS(id@),
            Topic::VehicleE(id, event) => TopicView::VehicleE(id@, event@),
            Topic::Relay(wrapped) => TopicView::Relay(wrapped@),
            Topic::SpeedE(id) => TopicView::SpeedE(id@),
            Topic::Emergency => TopicView::Emergency,
            Topic::Zone => TopicView::Zone,
        }
    }
}

impl Topic<'_> {
    /// The address as a string.
    pub fn get(self) -> (r: String)
        ensures
            r@ == self@.text(),
    {
        match self {
            Topic::HostI => String::from_str("Anki/Hosts/U/hyperdrive/I"),
            Topic::HostS(name) => String::from_str("Anki/Hosts/U/hyperdrive/S/").concat(name),
            Topic::VehicleI(id) => String::from_str("Anki/Vehicles/U/").concat(id).concat("/I"),
            Topic::VehicleS(id) => String::from_str("Anki/Vehicles/U/").concat(id).concat("/S"),
            Topic::VehicleE(id, event) => String::from_str("Anki/Vehicles/U/").concat(id).concat(
                "/E/",
            ).concat(event),
            Topic::Relay(wrapped) => String::from_str("GroupG/Relay/").concat(wrapped),
            Topic::SpeedE(id) => String::from_str("Anki/Vehicles/U/").concat(id).concat(
                "/E/speed",
            ),
            Topic::Emergency => String::from_str("GroupG/Emergency/I"),
            Topic::Zone => String::from_str("GroupG/Zone/I"),
        }
    }
}

/// Where the first segment of `s` ends: the place of its first slash, or its
/// length where it has none.
pub open spec fn first_slash(s: Seq<char>) -> int
    decreases s.len(),
{
    if s.len() == 0 || s[0] == '/' {
        0
    } else {
        1 + first_slash(s.drop_first())
    }
}

/// The `n`th slash-delimited segment of `s`, counted from 0; `None` where `s`
/// has `n` segments or fewer.
pub open spec fn segment(s: Seq<char>, n: nat) -> Option<Seq<char>>
    decreases n,
{
    let cut = first_slash(s);
    if n == 0 {
        Some(s.take(cut))
    } else if cut >= s.len() {
        None
    } else {
        segment(s.skip(cut + 1), (n - 1) as nat)
    }
}

/// The address that a relay-prefixed address wraps; `None` where the prefix
/// is missing.
pub open spec fn relayed(address: Seq<char>) -> Option<Seq<char>> {
    let prefix = "GroupG/Relay/"@;
    if prefix.is_prefix_of(address) {
        Some(address.skip(prefix.len() as int))
    } else {
        None
    }
}

/// A text without a slash, followed by a slash, is a first segment.
proof fn lemma_first_segment(head: Seq<char>, rest: Seq<char>)
    requires
        !head.contains('/'),
    ensures
        first_slash(head + seq!['/'] + rest) == head.len(),
    decreases head.len(),
{
    let s = head + seq!['/'] + rest;
    if head.len() == 0 {
        assert(s[0] == '/');
    } else {
        assert(s[0] == head[0]);
        assert(head.contains(head[0]));
        let shorter = head.drop_first();
        assert forall|i: int| 0 <= i < shorter.len() implies shorter[i] != '/' by {
            assert(head.contains(head[i + 1]));
        }
        assert(s.drop_first() =~= shorter + seq!['/'] + rest);
        lemma_first_segment(shorter, rest);
    }
}

/// The segments after the first are the segments of what follows the first
/// slash.
proof fn lemma_later_segment(head: Seq<char>, rest: Seq<char>, n: nat)
    requires
        !head.contains('/'),
    ensures
        segment(head + seq!['/'] + rest, (n + 1) as nat) == segment(rest, n),
{
    lemma_first_segment(head, rest);
    assert((head + seq!['/'] + rest).skip((head.len() + 1) as int) =~= rest);
}

/// Behind the head that every address of a vehicle begins with, the first
/// segment is the fourth of the address.
proof fn lemma_vehicle_head(vehicle: Seq<char>, rest: Seq<char>)
    requires
        !vehicle.contains('/'),
    ensures
        segment("Anki/Vehicles/U/"@ + vehicle + seq!['/'] + rest, 3) == Some(vehicle),
{
    reveal_strlit("Anki/Vehicles/U/");
    let anki = seq!['A', 'n', 'k', 'i'];
    let vehicles = seq!['V', 'e', 'h', 'i', 'c', 'l', 'e', 's'];
    let u = seq!['U'];
    let last = vehicle + seq!['/'] + rest;
    let third = u + seq!['/'] + last;
    let second = vehicles + seq!['/'] + third;
    let whole = anki + seq!['/'] + second;
    assert(whole =~= "Anki/Vehicles/U/"@ + vehicle + seq!['/'] + rest);
    assert(!anki.contains('/'));
    assert(!vehicles.contains('/'));
    assert(!u.contains('/'));
    lemma_later_segment(anki, second, 2);
    lemma_later_segment(vehicles, third, 1);
    lemma_later_segment(u, last, 0);
    lemma_first_segment(vehicle, rest);
    assert(last.take(vehicle.len() as int) =~= vehicle);
}

/// The fourth segment of every address of a vehicle is the vehicle's id, as
/// long as the id holds no slash.
pub proof fn lemma_vehicle_addresses_name_the_vehicle(vehicle: Seq<char>, event: Seq<char>)
    requires
        !vehicle.contains('/'),
    ensures
        segment(TopicView::VehicleI(vehicle).text(), 3) == Some(vehicle),
        segment(TopicView::VehicleS(vehicle).text(), 3) == Some(vehicle),
        segment(TopicView::VehicleE(vehicle, event).text(), 3) == Some(vehicle),
        segment(TopicView::SpeedE(vehicle).text(), 3) == Some(vehicle),
{
    reveal_strlit("/I");
    reveal_strlit("/S");
    reveal_strlit("/E/");
    reveal_strlit("/E/speed");
    let head = "Anki/Vehicles/U/"@ + vehicle + seq!['/'];
    assert(TopicView::VehicleI(vehicle).text() =~= head + seq!['I']);
    assert(TopicView::VehicleS(vehicle).text() =~= head + seq!['S']);
    assert(TopicView::VehicleE(vehicle, event).text() =~= head + (seq!['E', '/'] + event));
    assert(TopicView::SpeedE(vehicle).text() =~= head + seq!['E', '/', 's', 'p', 'e', 'e', 'd']);
    lemma_vehicle_head(vehicle, seq!['I']);
    lemma_vehicle_head(vehicle, seq!['S']);
    lemma_vehicle_head(vehicle, seq!['E', '/'] + event);
    lemma_vehicle_head(vehicle, seq!['E', '/', 's', 'p', 'e', 'e', 'd']);
}

/// Taking the relay prefix off a wrapped address gives the address back.
pub proof fn lemma_relay_prefix_comes_off(wrapped: Seq<char>)
    ensures
        relayed(TopicView::Relay(wrapped).text()) == Some(wrapped),
{
    let prefix = "GroupG/Relay/"@;
    let whole = prefix + wrapped;
    assert(whole.subrange(0, prefix.len() as int) =~= prefix);
    assert(whole.skip(prefix.len() as int) =~= wrapped);
}

/// Two vehicles with the same direct command address are the same vehicle.
pub proof fn lemma_vehicle_address_names_one_vehicle(a: Seq<char>, b: Seq<char>)
    requires
        TopicView::VehicleI(a).text() == TopicView::VehicleI(b).text(),
    ensures
        a == b,
{
    let head = "Anki/Vehicles/U/"@;
    let tail = "/I"@;
    let x = head + a + tail;
    let y = head + b + tail;
    assert(x.len() == head.len() + a.len() + tail.len());
    assert(y.len() == head.len() + b.len() + tail.len());
    assert(a =~= x.subrange(head.len() as int, (head.len() + a.len()) as int));
    assert(b =~= y.subrange(head.len() as int, (head.len() + b.len()) as int));
}

/// The emergency address and the zone address do not begin with the relay
/// prefix.
pub proof fn lemma_control_addresses_are_not_relayed()
    ensures
        relayed(TopicView::Emergency.text()) is None,
        relayed(TopicView::Zone.text()) is None,
        TopicView::Emergency.text() != TopicView::Zone.text(),
{
    reveal_strlit("GroupG/Relay/");
    reveal_strlit("GroupG/Emergency/I");
    reveal_strlit("GroupG/Zone/I");
    let prefix = "GroupG/Relay/"@;
    assert(prefix[7] == 'R');
    assert("GroupG/Emergency/I"@.subrange(0, prefix.len() as int)[7] == 'E');
    assert("GroupG/Zone/I"@.subrange(0, prefix.len() as int)[7] == 'Z');
    assert("GroupG/Emergency/I"@[7] == 'E');
    assert("GroupG/Zone/I"@[7] == 'Z');
}

/// The place of the first slash of `cs` at or after `start`, or its length.
fn next_slash(cs: &Vec<char>, start: usize) -> (end: usize)
    requires
        start <= cs.len(),
    ensures
        start <= end <= cs.len(),
        end - start == first_slash(cs@.skip(start as int)),
{
    let mut end = start;
    while end < cs.len() && cs[end] != '/'
        invariant
            start <= end <= cs.len(),
            first_slash(cs@.skip(start as int)) == (end - start) + first_slash(
                cs@.skip(end as int),
            ),
        decreases cs.len() - end,
    {
        assert(cs@.skip(end as int).drop_first() == cs@.skip(end + 1));
        end += 1;
    }
    end
}

/// The bounds of the `n`th segment of what follows `from` in `cs`.
fn segment_bounds(cs: &Vec<char>, from: usize, n: usize) -> (r: Option<(usize, usize)>)
    requires
        from <= cs.len(),
    ensures
        match r {
            Some((a, b)) => from <= a <= b <= cs.len() && segment(cs@.skip(from as int), n as nat)
                == Some(cs@.subrange(a as int, b as int)),
            None => segment(cs@.skip(from as int), n as nat) is None,
        },
{
    let mut start = from;
    let mut k: usize = 0;
    loop
        invariant
            from <= start <= cs.len(),
            k <= n,
            segment(cs@.skip(from as int), n as nat) == segment(
                cs@.skip(start as int),
                (n - k) as nat,
            ),
        decreases n - k,
    {
        let end = next_slash(cs, start);
        if k == n {
            assert(cs@.skip(start as int).take(end - start) == cs@.subrange(
                start as int,
                end as int,
            ));
            return Some((start, end));
        }
        if end == cs.len() {
            return None;
        }
        assert(cs@.skip(start as int).skip(end - start + 1) == cs@.skip(end + 1));
        start = end + 1;
        k += 1;
    }
}

/// The `n`th slash-delimited segment of `address`, counted from 0.
///
/// `None` where the address has `n` segments or fewer.
pub fn segment_of(address: &str, n: usize) -> (r: Option<String>)
    ensures
        r.deep_view() == segment(address@, n as nat),
{
    let cs = chars_of(address);
    assert(cs@.skip(0) == cs@);
    match segment_bounds(&cs, 0, n) {
        Some((a, b)) => Some(String::from_str(address.substring_char(a, b))),
        None => None,
    }
}

/// The address that a pending command is meant for: `address` without the
/// relay prefix.
///
/// `None` where `address` does not begin with the relay prefix.
pub fn relayed_address(address: &str) -> (r: Option<String>)
    ensures
        r.deep_view() == relayed(address@),
{
    let cs = chars_of(address);
    let prefix = chars_of("GroupG/Relay/");
    if cs.len() < prefix.len() {
        return None;
    }
    let mut i: usize = 0;
    while i < prefix.len()
        invariant
            i <= prefix.len() <= cs.len(),
            cs@.take(i as int) == prefix@.take(i as int),
            cs@ == address@,
            prefix@ == "GroupG/Relay/"@,
        decreases prefix.len() - i,
    {
        if cs[i] != prefix[i] {
            assert(cs@.subrange(0, prefix@.len() as int)[i as int] != prefix@[i as int]);
            return None;
        }
        assert(cs@.take(i + 1) == cs@.take(i as int).push(cs@[i as int]));
        assert(prefix@.take(i + 1) == prefix@.take(i as int).push(prefix@[i as int]));
        i += 1;
    }
    assert(prefix@.take(i as int) == prefix@);
    Some(String::from_str(address.substring_char(prefix.len(), cs.len())))
}

} // verus!

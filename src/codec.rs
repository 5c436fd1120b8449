//! The stored encoding of event batches and rule lists.
//!
//! An event batch is a version byte followed by one record per event, in
//! order. A record is three tagged fields:
//!
//! * `t`, then the timestamp as eight little-endian bytes (two's complement);
//! * `d`, then the duration in seconds as eight little-endian bytes;
//! * `c`, then the category's UTF-8 length as eight little-endian bytes,
//!   then its UTF-8 bytes.
//!
//! A rule list is a version byte followed by one record per rule: `r`, the
//! number of labels as eight little-endian bytes, each label as a length and
//! its UTF-8 bytes, then `p` and the pattern as a length and its UTF-8 bytes.
use vstd::bytes::*;
use vstd::prelude::*;
use vstd::slice::*;
use vstd::utf8::*;

use crate::model::{events_view, Event, EventView, Rule};

verus! {

/// Version byte that opens an encoded event batch.
pub const EVENTS_VERSION: u8 = 1;

/// Version byte that opens an encoded rule list.
pub const RULES_VERSION: u8 = 1;

/// Tag of an event's timestamp field.
pub const TAG_TIMESTAMP: u8 = 0x74;

/// Tag of an event's duration field.
pub const TAG_DURATION: u8 = 0x64;

/// Tag of an event's category field.
pub const TAG_CATEGORY: u8 = 0x63;

/// Tag that opens a rule record and its labels.
pub const TAG_RULE: u8 = 0x72;

/// Tag of a rule's pattern field.
pub const TAG_PATTERN: u8 = 0x70;

/// Bytes of an event record before the category's text.
pub const EVENT_HEADER_LEN: usize = 27;

/// A string as its UTF-8 length followed by its UTF-8 bytes.
pub open spec fn encode_text(s: Seq<char>) -> Seq<u8> {
    spec_u64_to_le_bytes(encode_utf8(s).len() as u64) + encode_utf8(s)
}

/// The record of one event.
pub open spec fn encode_event(e: EventView) -> Seq<u8> {
    seq![TAG_TIMESTAMP] + spec_u64_to_le_bytes(e.timestamp as u64) + seq![TAG_DURATION]
        + spec_u64_to_le_bytes(e.duration) + seq![TAG_CATEGORY] + encode_text(e.category)
}

/// The records of a list of events, in order.
pub open spec fn encode_event_list(es: Seq<EventView>) -> Seq<u8>
    decreases es.len(),
{
    if es.len() == 0 {
        seq![]
    } else {
        encode_event(es[0]) + encode_event_list(es.subrange(1, es.len() as int))
    }
}

/// The stored form of an event batch.
pub open spec fn encode_events_spec(es: Seq<EventView>) -> Seq<u8> {
    seq![EVENTS_VERSION] + encode_event_list(es)
}

/// Reads one event record at the start of `b`: the event and the number of
/// bytes it takes, or `None` when `b` does not start with a well-formed record.
pub open spec fn decode_event(b: Seq<u8>) -> Option<(EventView, int)> {
    if b.len() >= 27 && b[0] == TAG_TIMESTAMP && b[9] == TAG_DURATION && b[18] == TAG_CATEGORY {
        let n = spec_u64_from_le_bytes(b.subrange(19, 27)) as int;
        if 27 + n <= b.len() && valid_utf8(b.subrange(27, 27 + n)) {
            Some(
                (
                    EventView {
                        timestamp: spec_u64_from_le_bytes(b.subrange(1, 9)) as i64,
                        duration: spec_u64_from_le_bytes(b.subrange(10, 18)),
                        category: decode_utf8(b.subrange(27, 27 + n)),
                    },
                    27 + n,
                ),
            )
        } else {
            None
        }
    } else {
        None
    }
}

/// Reads a sequence of event records that fills `b` exactly.
pub open spec fn decode_event_list(b: Seq<u8>) -> Option<Seq<EventView>>
    decreases b.len(),
{
    if b.len() == 0 {
        Some(seq![])
    } else {
        match decode_event(b) {
            Some((e, k)) => if 0 < k <= b.len() {
                match decode_event_list(b.subrange(k, b.len() as int)) {
                    Some(rest) => Some(seq![e] + rest),
                    None => None,
                }
            } else {
                None
            },
            None => None,
        }
    }
}

/// Reads a stored event batch: `None` when the bytes are not one.
pub open spec fn decode_events_spec(b: Seq<u8>) -> Option<Seq<EventView>> {
    if b.len() >= 1 && b[0] == EVENTS_VERSION {
        decode_event_list(b.subrange(1, b.len() as int))
    } else {
        None
    }
}

/// Places `p` before the events that `o` holds, if any.
pub open spec fn prepend_events(p: Seq<EventView>, o: Option<Seq<EventView>>) -> Option<
    Seq<EventView>,
> {
    match o {
        Some(r) => Some(p + r),
        None => None,
    }
}

/// The labels of a rule, each as a length and its bytes.
pub open spec fn encode_labels(names: Seq<Seq<char>>) -> Seq<u8>
    decreases names.len(),
{
    if names.len() == 0 {
        seq![]
    } else {
        encode_text(names[0]) + encode_labels(names.subrange(1, names.len() as int))
    }
}

/// The record of one rule, given its labels and its pattern.
pub open spec fn encode_rule(names: Seq<Seq<char>>, regex: Seq<char>) -> Seq<u8> {
    seq![TAG_RULE] + spec_u64_to_le_bytes(names.len() as u64) + encode_labels(names) + seq![
        TAG_PATTERN,
    ] + encode_text(regex)
}

/// The labels of a rule, as strings of characters.
pub open spec fn rule_labels(r: Rule) -> Seq<Seq<char>> {
    r.name@.map_values(|s: String| s@)
}

/// The records of a list of rules, in order.
pub open spec fn encode_rule_list(rs: Seq<Rule>) -> Seq<u8>
    decreases rs.len(),
{
    if rs.len() == 0 {
        seq![]
    } else {
        encode_rule(rule_labels(rs[0]), rs[0].regex@) + encode_rule_list(
            rs.subrange(1, rs.len() as int),
        )
    }
}

/// The stored form of a rule list.
pub open spec fn encode_rules_spec(rs: Seq<Rule>) -> Seq<u8> {
    seq![RULES_VERSION] + encode_rule_list(rs)
}

/// Relies on `String::from_utf8`: it succeeds exactly on valid UTF-8, and the
/// string then holds the characters those bytes encode.
#[verifier::external_body]
fn string_from_utf8(bytes: Vec<u8>) -> (r: Option<String>)
    ensures
        r is Some <==> valid_utf8(bytes@),
        r matches Some(s) ==> s@ == decode_utf8(bytes@),
{
    String::from_utf8(bytes).ok()
}

/// Appends `x` as eight little-endian bytes.
fn push_u64(out: &mut Vec<u8>, x: u64)
    ensures
        final(out)@ == old(out)@ + spec_u64_to_le_bytes(x),
{
    let mut b = u64_to_le_bytes(x);
    out.append(&mut b);
}

/// Appends a string as its UTF-8 length and its UTF-8 bytes.
fn push_text(out: &mut Vec<u8>, s: &String)
    ensures
        final(out)@ == old(out)@ + encode_text(s@),
{
    let bytes = s.as_str().as_bytes();
    push_u64(out, bytes.len() as u64);
    let mut v = slice_to_vec(bytes);
    out.append(&mut v);
}

/// Appends the record of one event.
fn push_event(out: &mut Vec<u8>, e: &Event)
    ensures
        final(out)@ == old(out)@ + encode_event(e@),
{
    let ghost start = out@;
    out.push(TAG_TIMESTAMP);
    push_u64(out, e.timestamp as u64);
    out.push(TAG_DURATION);
    push_u64(out, e.duration);
    out.push(TAG_CATEGORY);
    push_text(out, &e.category);
    assert(out@ =~= start + encode_event(e@));
}

/// Encodes an event batch for storage.
pub fn encode_events(events: &Vec<Event>) -> (r: Vec<u8>)
    ensures
        r@ == encode_events_spec(events_view(events@)),
{
    let ghost es = events_view(events@);
    let mut out: Vec<u8> = Vec::new();
    out.push(EVENTS_VERSION);
    let mut i: usize = 0;
    while i < events.len()
        invariant
            i <= events@.len(),
            es == events_view(events@),
            out@ == seq![EVENTS_VERSION] + encode_event_list(es.subrange(0, i as int)),
        decreases events@.len() - i,
    {
        push_event(&mut out, &events[i]);
        proof {
            lemma_encode_event_list_push(es.subrange(0, i as int), es[i as int]);
            assert(es.subrange(0, i as int).push(es[i as int]) =~= es.subrange(0, i + 1));
        }
        i = i + 1;
    }
    assert(es.subrange(0, i as int) =~= es);
    out
}

/// Appends the labels of a rule.
fn push_labels(out: &mut Vec<u8>, names: &Vec<String>)
    ensures
        final(out)@ == old(out)@ + encode_labels(names@.map_values(|s: String| s@)),
{
    let ghost start = out@;
    let ghost ls = names@.map_values(|s: String| s@);
    let mut i: usize = 0;
    while i < names.len()
        invariant
            i <= names@.len(),
            ls == names@.map_values(|s: String| s@),
            out@ == start + encode_labels(ls.subrange(0, i as int)),
        decreases names@.len() - i,
    {
        push_text(out, &names[i]);
        proof {
            lemma_encode_labels_push(ls.subrange(0, i as int), ls[i as int]);
            assert(ls.subrange(0, i as int).push(ls[i as int]) =~= ls.subrange(0, i + 1));
            assert(out@ =~= start + encode_labels(ls.subrange(0, i + 1)));
        }
        i = i + 1;
    }
    assert(ls.subrange(0, i as int) =~= ls);
}

/// Encodes a rule list for storage.
pub fn encode_rules(rules: &Vec<Rule>) -> (r: Vec<u8>)
    ensures
        r@ == encode_rules_spec(rules@),
{
    let mut out: Vec<u8> = Vec::new();
    out.push(RULES_VERSION);
    let mut i: usize = 0;
    while i < rules.len()
        invariant
            i <= rules@.len(),
            out@ == seq![RULES_VERSION] + encode_rule_list(rules@.subrange(0, i as int)),
        decreases rules@.len() - i,
    {
        let rule = &rules[i];
        let ghost before = out@;
        out.push(TAG_RULE);
        push_u64(&mut out, rule.name.len() as u64);
        push_labels(&mut out, &rule.name);
        out.push(TAG_PATTERN);
        push_text(&mut out, &rule.regex);
        proof {
            assert(out@ =~= before + encode_rule(rule_labels(*rule), rule.regex@));
            lemma_encode_rule_list_push(rules@.subrange(0, i as int), rules@[i as int]);
            assert(rules@.subrange(0, i as int).push(rules@[i as int]) =~= rules@.subrange(
                0,
                i + 1,
            ));
        }
        i = i + 1;
    }
    assert(rules@.subrange(0, i as int) =~= rules@);
    out
}

/// Reads the event record that starts at `pos`, if it is well formed: the
/// event and the number of bytes it takes.
fn decode_event_at(b: &[u8], pos: usize) -> (r: Option<(Event, usize)>)
    requires
        pos <= b@.len(),
    ensures
        match r {
            Some((e, k)) => decode_event(b@.subrange(pos as int, b@.len() as int)) == Some(
                (e@, k as int),
            ),
            None => decode_event(b@.subrange(pos as int, b@.len() as int)) is None,
        },
{
    let ghost sub = b@.subrange(pos as int, b@.len() as int);
    let n = b.len();
    if n - pos < EVENT_HEADER_LEN {
        return None;
    }
    if b[pos] != TAG_TIMESTAMP || b[pos + 9] != TAG_DURATION || b[pos + 18] != TAG_CATEGORY {
        return None;
    }
    let ts = u64_from_le_bytes(slice_subrange(b, pos + 1, pos + 9));
    let duration = u64_from_le_bytes(slice_subrange(b, pos + 10, pos + 18));
    let len = u64_from_le_bytes(slice_subrange(b, pos + 19, pos + 27));
    assert(sub.subrange(1, 9) =~= b@.subrange(pos + 1, pos + 9));
    assert(sub.subrange(10, 18) =~= b@.subrange(pos + 10, pos + 18));
    assert(sub.subrange(19, 27) =~= b@.subrange(pos + 19, pos + 27));
    if len > (n - pos - EVENT_HEADER_LEN) as u64 {
        return None;
    }
    let len = len as usize;
    let start = pos + EVENT_HEADER_LEN;
    let text = slice_to_vec(slice_subrange(b, start, start + len));
    assert(sub.subrange(27, 27 + len) =~= text@);
    match string_from_utf8(text) {
        None => None,
        Some(category) => Some(
            (Event { timestamp: ts as i64, duration, category }, EVENT_HEADER_LEN + len),
        ),
    }
}

/// Decodes a stored event batch; `None` when the bytes are not one.
pub fn decode_events(b: &[u8]) -> (r: Option<Vec<Event>>)
    ensures
        match r {
            Some(v) => decode_events_spec(b@) == Some(events_view(v@)),
            None => decode_events_spec(b@) is None,
        },
{
    let n = b.len();
    if n == 0 || b[0] != EVENTS_VERSION {
        return None;
    }
    let ghost whole = b@.subrange(1, n as int);
    let mut out: Vec<Event> = Vec::new();
    let mut pos: usize = 1;
    assert(b@.subrange(pos as int, n as int) =~= whole);
    assert(events_view(out@) =~= Seq::<EventView>::empty());
    while pos < n
        invariant
            1 <= pos <= n,
            n == b@.len(),
            whole == b@.subrange(1, n as int),
            decode_event_list(whole) == prepend_events(
                events_view(out@),
                decode_event_list(b@.subrange(pos as int, n as int)),
            ),
        decreases n - pos,
    {
        let ghost sub = b@.subrange(pos as int, n as int);
        match decode_event_at(b, pos) {
            None => {
                return None;
            },
            Some((e, k)) => {
                proof {
                    assert(sub.subrange(k as int, sub.len() as int) =~= b@.subrange(
                        pos + k,
                        n as int,
                    ));
                }
                let ghost before = events_view(out@);
                out.push(e);
                proof {
                    assert(events_view(out@) =~= before + seq![e@]);
                    match decode_event_list(b@.subrange(pos + k, n as int)) {
                        Some(rest) => {
                            assert(before + (seq![e@] + rest) =~= (before + seq![e@]) + rest);
                        },
                        None => {},
                    }
                }
                pos = pos + k;
            },
        }
    }
    assert(b@.subrange(pos as int, n as int) =~= Seq::<u8>::empty());
    assert(events_view(out@) + Seq::<EventView>::empty() =~= events_view(out@));
    Some(out)
}

/// Encoding a list with one more event appends that event's record.
pub proof fn lemma_encode_event_list_push(es: Seq<EventView>, e: EventView)
    ensures
        encode_event_list(es.push(e)) == encode_event_list(es) + encode_event(e),
    decreases es.len(),
{
    if es.len() == 0 {
        assert(es.push(e).subrange(1, 1) =~= Seq::<EventView>::empty());
        assert(encode_event_list(Seq::<EventView>::empty()) == Seq::<u8>::empty());
        assert(encode_event_list(es.push(e)) =~= encode_event_list(es) + encode_event(e));
    } else {
        let tail = es.subrange(1, es.len() as int);
        assert(es.push(e).subrange(1, es.len() as int + 1) =~= tail.push(e));
        lemma_encode_event_list_push(tail, e);
        assert(encode_event_list(es.push(e)) =~= encode_event_list(es) + encode_event(e));
    }
}


/// An event whose category's UTF-8 length fits the eight-byte length field;
/// every event held in memory is one.
pub open spec fn encodable_event(e: EventView) -> bool {
    encode_utf8(e.category).len() <= u64::MAX
}

/// A record followed by anything reads back as the event it encodes.
proof fn lemma_decode_event_record(e: EventView, rest: Seq<u8>)
    requires
        encodable_event(e),
    ensures
        decode_event(encode_event(e) + rest) == Some((e, encode_event(e).len() as int)),
        encode_event(e).len() >= 27,
{
    lemma_auto_spec_u64_to_from_le_bytes();
    broadcast use encode_utf8_valid_utf8, encode_utf8_decode_utf8;

    let text = encode_utf8(e.category);
    let ts = spec_u64_to_le_bytes(e.timestamp as u64);
    let du = spec_u64_to_le_bytes(e.duration);
    let ln = spec_u64_to_le_bytes(text.len() as u64);
    let b = encode_event(e) + rest;
    assert(encode_event(e) =~= seq![TAG_TIMESTAMP] + ts + seq![TAG_DURATION] + du + seq![
        TAG_CATEGORY,
    ] + ln + text);
    assert(b.subrange(1, 9) =~= ts);
    assert(b.subrange(10, 18) =~= du);
    assert(b.subrange(19, 27) =~= ln);
    assert(b.subrange(27, 27 + text.len() as int) =~= text);
    let x = e.timestamp;
    assert(((x as u64) as i64) == x) by (bit_vector);
}

/// Decoding the records of a list of events gives the list back.
proof fn lemma_decode_event_list_round_trip(es: Seq<EventView>)
    requires
        forall|i: int| 0 <= i < es.len() ==> encodable_event(#[trigger] es[i]),
    ensures
        decode_event_list(encode_event_list(es)) == Some(es),
    decreases es.len(),
{
    if es.len() == 0 {
        assert(es =~= Seq::<EventView>::empty());
    } else {
        let tail = es.subrange(1, es.len() as int);
        let rest = encode_event_list(tail);
        let b = encode_event_list(es);
        lemma_decode_event_record(es[0], rest);
        let k = encode_event(es[0]).len() as int;
        assert(b.subrange(k, b.len() as int) =~= rest);
        assert forall|i: int| 0 <= i < tail.len() implies encodable_event(#[trigger] tail[i]) by {
            assert(tail[i] == es[i + 1]);
        }
        lemma_decode_event_list_round_trip(tail);
        assert(seq![es[0]] + tail =~= es);
    }
}

/// Round trip of the stored form: decoding an encoded batch gives back the
/// same events, in the same order.
pub proof fn lemma_events_round_trip(es: Seq<EventView>)
    requires
        forall|i: int| 0 <= i < es.len() ==> encodable_event(#[trigger] es[i]),
    ensures
        decode_events_spec(encode_events_spec(es)) == Some(es),
{
    let b = encode_events_spec(es);
    assert(b.subrange(1, b.len() as int) =~= encode_event_list(es));
    lemma_decode_event_list_round_trip(es);
}


/// Encoding one more label appends that label's text.
proof fn lemma_encode_labels_push(ls: Seq<Seq<char>>, l: Seq<char>)
    ensures
        encode_labels(ls.push(l)) == encode_labels(ls) + encode_text(l),
    decreases ls.len(),
{
    if ls.len() == 0 {
        assert(ls.push(l).subrange(1, 1) =~= Seq::<Seq<char>>::empty());
        assert(encode_labels(Seq::<Seq<char>>::empty()) == Seq::<u8>::empty());
    } else {
        let tail = ls.subrange(1, ls.len() as int);
        assert(ls.push(l).subrange(1, ls.len() as int + 1) =~= tail.push(l));
        lemma_encode_labels_push(tail, l);
    }
    assert(encode_labels(ls.push(l)) =~= encode_labels(ls) + encode_text(l));
}

/// Encoding one more rule appends that rule's record.
proof fn lemma_encode_rule_list_push(rs: Seq<Rule>, r: Rule)
    ensures
        encode_rule_list(rs.push(r)) == encode_rule_list(rs) + encode_rule(rule_labels(r), r.regex@),
    decreases rs.len(),
{
    if rs.len() == 0 {
        assert(rs.push(r).subrange(1, 1) =~= Seq::<Rule>::empty());
        assert(encode_rule_list(Seq::<Rule>::empty()) == Seq::<u8>::empty());
    } else {
        let tail = rs.subrange(1, rs.len() as int);
        assert(rs.push(r).subrange(1, rs.len() as int + 1) =~= tail.push(r));
        lemma_encode_rule_list_push(tail, r);
    }
    assert(encode_rule_list(rs.push(r)) =~= encode_rule_list(rs) + encode_rule(
        rule_labels(r),
        r.regex@,
    ));
}

} // verus!

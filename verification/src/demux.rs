//! A decompressed body as a run of sub-frames, and the text in each.
//!
//! Sub-frames lie back to back, each with the sixteen-byte header of a
//! top-level frame. Reading stops, without complaint, at the first place
//! where no whole sub-frame starts: fewer than sixteen bytes left, a header
//! that claims more than its frame or more than is left, or a frame of size
//! zero, which would never be passed.

use crate::codec::{encode_frame, header_at, lemma_header_round_trip};
use crate::event::EventView;
use crate::message::{MessageView, HEADER_SIZE};
use crate::wire::u32_at;
use vstd::prelude::*;
use vstd::utf8::{decode_utf8, valid_utf8};

verus! {

/// Whether a whole sub-frame starts at the front of `buf`.
pub open spec fn sub_frame_at_front(buf: Seq<u8>) -> bool {
    &&& buf.len() >= HEADER_SIZE
    &&& 0 < header_at(buf, 0).total_size <= buf.len()
    &&& header_at(buf, 0).header_size <= header_at(buf, 0).total_size
}

/// The payloads of the sub-frames of `buf`, in order.
pub open spec fn sub_payloads(buf: Seq<u8>) -> Seq<Seq<u8>>
    decreases buf.len(),
{
    if sub_frame_at_front(buf) {
        let h = header_at(buf, 0);
        seq![buf.subrange(h.header_size as int, h.total_size as int)] + sub_payloads(
            buf.skip(h.total_size as int),
        )
    } else {
        Seq::empty()
    }
}

/// The event for one payload: its text where it is valid UTF-8, else none.
pub open spec fn text_event(payload: Seq<u8>) -> Option<EventView> {
    if valid_utf8(payload) {
        Some(EventView::MessageReceived(decode_utf8(payload)))
    } else {
        None
    }
}

/// The events for a run of payloads: one per payload that is valid UTF-8,
/// in the order of the payloads.
pub open spec fn text_events(payloads: Seq<Seq<u8>>) -> Seq<EventView>
    decreases payloads.len(),
{
    if payloads.len() == 0 {
        Seq::empty()
    } else {
        let rest = text_events(payloads.skip(1));
        match text_event(payloads[0]) {
            Some(e) => seq![e] + rest,
            None => rest,
        }
    }
}

/// The encodings of `frames`, back to back.
pub open spec fn concat_frames(frames: Seq<MessageView>) -> Seq<u8>
    decreases frames.len(),
{
    if frames.len() == 0 {
        Seq::empty()
    } else {
        encode_frame(frames[0]) + concat_frames(frames.skip(1))
    }
}

/// The payloads of `frames`, in order.
pub open spec fn payloads_of(frames: Seq<MessageView>) -> Seq<Seq<u8>> {
    frames.map_values(|m: MessageView| m.payload)
}

/// Bytes that hold no whole sub-frame: too short for a header, or shorter
/// than the header at their front declares.
pub open spec fn truncated(tail: Seq<u8>) -> bool {
    tail.len() < HEADER_SIZE || u32_at(tail, 0) > tail.len()
}

/// What follows a payload at the front is the events of the rest.
pub proof fn lemma_text_events_front(first: Seq<u8>, rest: Seq<Seq<u8>>)
    ensures
        text_events(seq![first] + rest) == match text_event(first) {
            Some(e) => seq![e] + text_events(rest),
            None => text_events(rest),
        },
{
    let all = seq![first] + rest;
    assert(all[0] == first);
    assert(all.skip(1) =~= rest);
}

/// Payloads that are all valid UTF-8 give one event each.
pub proof fn lemma_text_events_all_valid(payloads: Seq<Seq<u8>>)
    requires
        forall|i: int| 0 <= i < payloads.len() ==> valid_utf8(#[trigger] payloads[i]),
    ensures
        text_events(payloads) == payloads.map_values(
            |p: Seq<u8>| EventView::MessageReceived(decode_utf8(p)),
        ),
    decreases payloads.len(),
{
    if payloads.len() > 0 {
        let rest = payloads.skip(1);
        assert forall|i: int| 0 <= i < rest.len() implies valid_utf8(#[trigger] rest[i]) by {
            assert(rest[i] == payloads[i + 1]);
        }
        lemma_text_events_all_valid(rest);
        assert(valid_utf8(payloads[0]));
        assert(text_events(payloads) =~= payloads.map_values(
            |p: Seq<u8>| EventView::MessageReceived(decode_utf8(p)),
        ));
    } else {
        assert(text_events(payloads) =~= payloads.map_values(
            |p: Seq<u8>| EventView::MessageReceived(decode_utf8(p)),
        ));
    }
}

/// A well-formed frame with the fixed header size at the front of a buffer
/// is split off as one sub-frame, and splitting goes on behind it.
pub proof fn lemma_sub_payloads_front(m: MessageView, rest: Seq<u8>)
    requires
        m.wf(),
        m.header.header_size == HEADER_SIZE,
    ensures
        sub_payloads(encode_frame(m) + rest) == seq![m.payload] + sub_payloads(rest),
{
    let buf = encode_frame(m) + rest;
    assert(header_at(buf, 0) == m.header) by {
        assert(buf =~= crate::codec::header_bytes(m.header) + (m.payload + rest));
        lemma_header_round_trip(m.header, m.payload + rest);
    }
    assert(buf.len() == m.header.total_size + rest.len());
    assert(buf.subrange(m.header.header_size as int, m.header.total_size as int) =~= m.payload);
    assert(buf.skip(m.header.total_size as int) =~= rest);
}

/// Every frame of the run is well formed and has the fixed header size.
pub open spec fn all_sub_frames(frames: Seq<MessageView>) -> bool {
    forall|i: int|
        0 <= i < frames.len() ==> (#[trigger] frames[i]).wf() && frames[i].header.header_size
            == HEADER_SIZE
}

/// Demultiplexing order: well-formed frames with the fixed header size, laid
/// back to back and followed by a truncated rest, split into exactly their
/// payloads, in order; the rest is ignored.
pub proof fn lemma_demux_order(frames: Seq<MessageView>, tail: Seq<u8>)
    requires
        all_sub_frames(frames),
        truncated(tail),
    ensures
        sub_payloads(concat_frames(frames) + tail) == payloads_of(frames),
    decreases frames.len(),
{
    if frames.len() == 0 {
        assert(concat_frames(frames) + tail =~= tail);
        assert(!sub_frame_at_front(tail));
        assert(payloads_of(frames) =~= Seq::<Seq<u8>>::empty());
    } else {
        let m = frames[0];
        let others = frames.skip(1);
        let rest = concat_frames(others) + tail;
        assert(all_sub_frames(others)) by {
            assert forall|i: int| 0 <= i < others.len() implies (#[trigger] others[i]).wf()
                && others[i].header.header_size == HEADER_SIZE by {
                assert(others[i] == frames[i + 1]);
            }
        }
        lemma_demux_order(others, tail);
        lemma_sub_payloads_front(m, rest);
        assert(concat_frames(frames) + tail =~= encode_frame(m) + rest);
        assert(payloads_of(frames) =~= seq![m.payload] + payloads_of(others));
    }
}

} // verus!

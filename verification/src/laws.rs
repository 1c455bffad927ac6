//! Session-wide laws of the protocol engine.
//!
//! These proof functions state, over the engine's transition function, the
//! properties the whole session guarantees: the chunk loop consumes every
//! byte of an image exactly once, the sequence counter advances by two per
//! completed block and is never reset, a zero-length image skips the loop,
//! and any failure silences the engine for good.

use vstd::prelude::*;

use crate::engine::ActionModel;
use crate::engine::EventModel;
use crate::engine::Model;
use crate::engine::SessionError;
use crate::engine::Step;
use crate::engine::action_spec;
use crate::engine::begin_or_finish;
use crate::engine::fail_model;
use crate::engine::init_model;
use crate::engine::lemma_next_spec_wf;
use crate::engine::next_spec;
use crate::engine::terminal;
use crate::engine::wf_model;
use crate::wire;

verus! {

/// Runs the engine over a sequence of events.
pub open spec fn run(m: Model, evs: Seq<EventModel>) -> Model
    decreases evs.len(),
{
    if evs.len() == 0 {
        m
    } else {
        run(next_spec(m, evs[0]), evs.drop_first())
    }
}

/// One complete block round: the block request is acknowledged, the device
/// grants `g` bytes, the data header goes out, `payload` is pulled from the
/// image, sent, and acknowledged.
pub open spec fn round(m: Model, g: int, payload: Seq<u8>) -> Model {
    let m1 = next_spec(m, EventModel::Completed);
    let m2 = next_spec(m1, EventModel::Received(wire::le32(g as u32)));
    let m3 = next_spec(m2, EventModel::Completed);
    let m4 = next_spec(m3, EventModel::Received(payload));
    next_spec(m4, EventModel::Completed)
}

/// Runs a sequence of block rounds, each a pair of a grant and a payload.
pub open spec fn run_rounds(m: Model, rounds: Seq<(int, Seq<u8>)>) -> Model
    decreases rounds.len(),
{
    if rounds.len() == 0 {
        m
    } else {
        run_rounds(round(m, rounds[0].0, rounds[0].1), rounds.drop_first())
    }
}

/// A well-formed course of the transfer loop: every round grants at least
/// one byte, never more than remain, each payload is as long as its grant,
/// and together the rounds consume exactly `remaining` bytes.
pub open spec fn valid_rounds(remaining: int, rounds: Seq<(int, Seq<u8>)>) -> bool
    decreases rounds.len(),
{
    if rounds.len() == 0 {
        remaining == 0
    } else {
        &&& 1 <= rounds[0].0 <= remaining
        &&& rounds[0].1.len() == rounds[0].0
        &&& valid_rounds(remaining - rounds[0].0, rounds.drop_first())
    }
}

/// The total number of bytes granted over a sequence of rounds.
pub open spec fn granted_total(rounds: Seq<(int, Seq<u8>)>) -> int
    decreases rounds.len(),
{
    if rounds.len() == 0 {
        0
    } else {
        rounds[0].0 + granted_total(rounds.drop_first())
    }
}

/// An action that puts bytes on the channel.
pub open spec fn emits_bytes(a: ActionModel) -> bool {
    a is Exchange || a is Send
}

/// The events of a successful session start, from the greeting through the
/// version exchange to the first image's type selection: `v`, `d` and `p`
/// are the raw bytes of the version, build-date and processor fields, `t`
/// the raw image-type code.
pub open spec fn start_events(v: Seq<u8>, d: Seq<u8>, p: Seq<u8>, t: Seq<u8>) -> Seq<EventModel> {
    seq![
        EventModel::Completed,
        EventModel::Completed,
        EventModel::Completed,
        EventModel::Completed,
        EventModel::Received(v),
        EventModel::Received(d),
        EventModel::Received(p),
        EventModel::Completed,
        EventModel::Completed,
        EventModel::Received(t),
        EventModel::Completed,
    ]
}

/// The events between two images: the resync preamble is echoed, the
/// session command is acknowledged, and the next image's type is queried
/// and selected.  The version exchange is skipped.
pub open spec fn between_events(t: Seq<u8>) -> Seq<EventModel> {
    seq![
        EventModel::Completed,
        EventModel::Completed,
        EventModel::Completed,
        EventModel::Received(t),
        EventModel::Completed,
    ]
}

/// Unfolds one step of `run`.
pub proof fn lemma_run_unfold(m: Model, evs: Seq<EventModel>)
    requires
        evs.len() > 0,
    ensures
        run(m, evs) == run(next_spec(m, evs[0]), evs.drop_first()),
{
}

/// Shifting an inner remainder out of an addition leaves the remainder of
/// the sum unchanged.
proof fn lemma_mod_shift(a: int, k: int)
    ensures
        ((a % 256) + k) % 256 == (a + k) % 256,
{
    vstd::arithmetic::div_mod::lemma_add_mod_noop(a, k, 256);
    vstd::arithmetic::div_mod::lemma_add_mod_noop_right(a % 256, k, 256);
}

/// One block round moves the cursor forward by exactly the grant, advances
/// the counter by two (wrapping at 256), touches no other image, and ends
/// either at the next block request (bytes remain) or at end-of-image.
pub proof fn lemma_block_round(m: Model, g: int, payload: Seq<u8>)
    requires
        wf_model(m),
        m.step is BlockRequest,
        1 <= g <= m.lengths[m.image] - m.cursor,
        payload.len() == g,
    ensures
        ({
            let r = round(m, g, payload);
            &&& r.cursor == m.cursor + g
            &&& r.counter == (m.counter + 2) % 256
            &&& r.step == (if m.cursor + g < m.lengths[m.image] {
                Step::BlockRequest
            } else {
                Step::EndOfImage
            })
            &&& r.image == m.image
            &&& r.lengths == m.lengths
            &&& r.versioned == m.versioned
            &&& r.version == m.version
            &&& r.build_date == m.build_date
            &&& r.processor == m.processor
            &&& r.image_type == m.image_type
            &&& wf_model(r)
        }),
{
    wire::lemma_le32_round_trip(g as u32);
    let m1 = next_spec(m, EventModel::Completed);
    assert(m1.step is GrantRead);
    let m2 = next_spec(m1, EventModel::Received(wire::le32(g as u32)));
    assert(wire::le32_val(wire::le32(g as u32)) == g);
    assert(m2.step is DataHeader);
    assert(m2.grant == g);
    assert(m2.counter == (m.counter + 1) % 256);
    let m3 = next_spec(m2, EventModel::Completed);
    assert(m3.step is ChunkFill);
    let m4 = next_spec(m3, EventModel::Received(payload));
    assert(m4.step is ChunkSend);
    let m5 = next_spec(m4, EventModel::Completed);
    assert(m5.cursor == m.cursor + g);
    lemma_mod_shift(m.counter + 1, 1);
    assert(m5.counter == (m.counter + 2) % 256);
    lemma_next_spec_wf(m, EventModel::Completed);
    lemma_next_spec_wf(m1, EventModel::Received(wire::le32(g as u32)));
    lemma_next_spec_wf(m2, EventModel::Completed);
    lemma_next_spec_wf(m3, EventModel::Received(payload));
    lemma_next_spec_wf(m4, EventModel::Completed);
}

/// A valid course of rounds grants, in total, exactly the bytes that
/// remained when it began.
pub proof fn lemma_granted_total(remaining: int, rounds: Seq<(int, Seq<u8>)>)
    requires
        valid_rounds(remaining, rounds),
    ensures
        granted_total(rounds) == remaining,
    decreases rounds.len(),
{
    if rounds.len() > 0 {
        lemma_granted_total(remaining - rounds[0].0, rounds.drop_first());
    }
}

/// The chunk-transfer loop, run over any device-driven sequence of grants
/// that consumes the image: the cursor ends exactly at the image's total
/// length, the bytes transferred equal the sum of the grants, the counter
/// advances by two per block without ever being reset, and the engine
/// proceeds to end-of-image.  Grants smaller than the remaining length
/// simply mean more rounds.
pub proof fn lemma_transfer_loop(m: Model, rounds: Seq<(int, Seq<u8>)>)
    requires
        wf_model(m),
        m.step is BlockRequest,
        valid_rounds(m.lengths[m.image] - m.cursor, rounds),
    ensures
        ({
            let r = run_rounds(m, rounds);
            &&& r.cursor == m.lengths[m.image]
            &&& r.cursor - m.cursor == granted_total(rounds)
            &&& r.step is EndOfImage
            &&& r.counter == (m.counter + 2 * rounds.len()) % 256
            &&& r.image == m.image
            &&& r.lengths == m.lengths
            &&& r.versioned == m.versioned
            &&& wf_model(r)
        }),
    decreases rounds.len(),
{
    let rem = m.lengths[m.image] - m.cursor;
    lemma_granted_total(rem, rounds);
    let g = rounds[0].0;
    let payload = rounds[0].1;
    lemma_block_round(m, g, payload);
    let m2 = round(m, g, payload);
    if rounds.len() == 1 {
        assert(valid_rounds(rem - g, rounds.drop_first()));
        assert(rem - g == 0);
        assert(m2.cursor == m.lengths[m.image]);
        assert(run_rounds(m2, rounds.drop_first()) == m2);
    } else {
        assert(valid_rounds(rem - g, rounds.drop_first()));
        assert(1 <= rounds.drop_first()[0].0 <= rem - g);
        assert(m2.step is BlockRequest);
        lemma_transfer_loop(m2, rounds.drop_first());
        lemma_mod_shift(m.counter + 2, 2 * (rounds.len() - 1));
        assert((m2.counter + 2 * (rounds.len() - 1)) % 256 == (m.counter + 2 * rounds.len())
            % 256);
    }
}

/// A zero-length image never enters the loop body: completing the image's
/// type selection with nothing to send goes straight to end-of-image, and
/// the counter is untouched.
pub proof fn lemma_zero_length_skips_loop(m: Model)
    requires
        wf_model(m),
        m.step is TypeSet,
        m.cursor == m.lengths[m.image],
    ensures
        next_spec(m, EventModel::Completed).step is EndOfImage,
        next_spec(m, EventModel::Completed).counter == m.counter,
        next_spec(m, EventModel::Completed).cursor == m.cursor,
{
}

/// A mismatching reply aborts the session at once: the engine fails with a
/// protocol mismatch and its next action puts no bytes on the channel.
pub proof fn lemma_mismatch_aborts(m: Model)
    requires
        !terminal(m.step),
    ensures
        next_spec(m, EventModel::Mismatched) == fail_model(m, SessionError::Mismatch),
        next_spec(m, EventModel::Mismatched).step == Step::Failed(SessionError::Mismatch),
        !emits_bytes(action_spec(next_spec(m, EventModel::Mismatched))),
{
}

/// A failed session is final: no event changes it, and its action never
/// puts bytes on the channel.
pub proof fn lemma_failure_is_final(m: Model, ev: EventModel)
    requires
        m.step is Failed,
    ensures
        next_spec(m, ev) == m,
        !emits_bytes(action_spec(m)),
{
}

/// A failed session stays failed through any further course of events:
/// once an expectation has failed, no bytes are ever sent again.
pub proof fn lemma_failure_absorbs_all(m: Model, evs: Seq<EventModel>)
    requires
        m.step is Failed,
    ensures
        run(m, evs) == m,
    decreases evs.len(),
{
    if evs.len() > 0 {
        lemma_failure_is_final(m, evs[0]);
        lemma_failure_absorbs_all(m, evs.drop_first());
    }
}

/// A fresh session, driven through the handshake, the version exchange and
/// the first image's negotiation, arrives at the transfer loop with the
/// counter at 1 and the cursor at 0; the device fields are recorded with
/// their bytes reversed, the build date read little-endian.
pub proof fn lemma_session_start(lengths: Seq<int>, v: Seq<u8>, d: Seq<u8>, p: Seq<u8>, t: Seq<u8>)
    requires
        lengths.len() >= 1,
        forall|i: int| 0 <= i < lengths.len() ==> 0 <= #[trigger] lengths[i] <= 0xffff_ffff,
        v.len() == 4,
        d.len() == 4,
        p.len() == 4,
        t.len() == 4,
    ensures
        ({
            let r = run(init_model(lengths), start_events(v, d, p, t));
            &&& r.counter == 1
            &&& r.cursor == 0
            &&& r.image == 0
            &&& r.versioned
            &&& r.step == (if lengths[0] > 0 {
                Step::BlockRequest
            } else {
                Step::EndOfImage
            })
            &&& r.lengths == lengths
            &&& r.version == wire::rev4(v)
            &&& r.build_date == wire::le32_val(d)
            &&& r.processor == wire::rev4(p)
            &&& r.image_type == wire::rev4(t)
            &&& wf_model(r)
        }),
{
    let e = start_events(v, d, p, t);
    let m0 = init_model(lengths);
    lemma_run_unfold(m0, e);
    let e1 = e.drop_first();
    let m1 = next_spec(m0, e[0]);
    assert(m1.step is Preamble);
    lemma_run_unfold(m1, e1);
    let e2 = e1.drop_first();
    let m2 = next_spec(m1, e1[0]);
    assert(e1[0] == e[1]);
    assert(m2.step is SessionAck);
    lemma_run_unfold(m2, e2);
    let e3 = e2.drop_first();
    let m3 = next_spec(m2, e2[0]);
    assert(e2[0] == e[2]);
    assert(m3.step is VersionQuery);
    lemma_run_unfold(m3, e3);
    let e4 = e3.drop_first();
    let m4 = next_spec(m3, e3[0]);
    assert(e3[0] == e[3]);
    assert(m4.step is VersionRead);
    lemma_run_unfold(m4, e4);
    let e5 = e4.drop_first();
    let m5 = next_spec(m4, e4[0]);
    assert(e4[0] == e[4]);
    assert(m5.step is DateRead);
    assert(m5.version == wire::rev4(v));
    lemma_run_unfold(m5, e5);
    let e6 = e5.drop_first();
    let m6 = next_spec(m5, e5[0]);
    assert(e5[0] == e[5]);
    assert(m6.step is ProcRead);
    assert(m6.build_date == wire::le32_val(d));
    lemma_run_unfold(m6, e6);
    let e7 = e6.drop_first();
    let m7 = next_spec(m6, e6[0]);
    assert(e6[0] == e[6]);
    assert(m7.step is VersionTrailer);
    assert(m7.processor == wire::rev4(p));
    lemma_run_unfold(m7, e7);
    let e8 = e7.drop_first();
    let m8 = next_spec(m7, e7[0]);
    assert(e7[0] == e[7]);
    assert(m8.step is TypeQuery);
    assert(m8.versioned);
    lemma_run_unfold(m8, e8);
    let e9 = e8.drop_first();
    let m9 = next_spec(m8, e8[0]);
    assert(e8[0] == e[8]);
    assert(m9.step is TypeRead);
    lemma_run_unfold(m9, e9);
    let e10 = e9.drop_first();
    let m10 = next_spec(m9, e9[0]);
    assert(e9[0] == e[9]);
    assert(m10.step is TypeSet);
    assert(m10.image_type == wire::rev4(t));
    lemma_run_unfold(m10, e10);
    let e11 = e10.drop_first();
    let m11 = next_spec(m10, e10[0]);
    assert(e10[0] == e[10]);
    assert(e11.len() == 0);
    assert(run(m11, e11) == m11);
    assert(m11.step == begin_or_finish(m10));
    assert(run(m0, e) == m11);
}

/// Between two images the counter is carried over unchanged: the engine
/// re-synchronizes, skips the version exchange, negotiates the next image,
/// and stands at its transfer loop with the same counter value.
pub proof fn lemma_between_images(m: Model, t: Seq<u8>)
    requires
        wf_model(m),
        m.step is Resync,
        m.versioned,
        m.image + 1 < m.lengths.len(),
        t.len() == 4,
    ensures
        ({
            let r = run(m, between_events(t));
            &&& r.counter == m.counter
            &&& r.image == m.image + 1
            &&& r.cursor == 0
            &&& r.versioned
            &&& r.step == (if m.lengths[m.image + 1] > 0 {
                Step::BlockRequest
            } else {
                Step::EndOfImage
            })
            &&& r.lengths == m.lengths
            &&& r.version == m.version
            &&& r.build_date == m.build_date
            &&& r.processor == m.processor
            &&& r.image_type == wire::rev4(t)
            &&& wf_model(r)
        }),
{
    let e = between_events(t);
    lemma_run_unfold(m, e);
    let e1 = e.drop_first();
    let m1 = next_spec(m, e[0]);
    assert(m1.step is SessionAck);
    assert(m1.image == m.image + 1);
    assert(m1.cursor == 0);
    lemma_run_unfold(m1, e1);
    let e2 = e1.drop_first();
    let m2 = next_spec(m1, e1[0]);
    assert(e1[0] == e[1]);
    assert(m2.step is TypeQuery);
    lemma_run_unfold(m2, e2);
    let e3 = e2.drop_first();
    let m3 = next_spec(m2, e2[0]);
    assert(e2[0] == e[2]);
    assert(m3.step is TypeRead);
    lemma_run_unfold(m3, e3);
    let e4 = e3.drop_first();
    let m4 = next_spec(m3, e3[0]);
    assert(e3[0] == e[3]);
    assert(m4.step is TypeSet);
    assert(m4.image_type == wire::rev4(t));
    lemma_run_unfold(m4, e4);
    let e5 = e4.drop_first();
    let m5 = next_spec(m4, e4[0]);
    assert(e4[0] == e[4]);
    assert(e5.len() == 0);
    assert(run(m5, e5) == m5);
    assert(run(m, e) == m5);
}

/// The sequence counter after a fresh session start and `N` completed
/// blocks of the boot image stands at `1 + 2N`, modulo 256.
pub proof fn lemma_counter_law(
    lengths: Seq<int>,
    v: Seq<u8>,
    d: Seq<u8>,
    p: Seq<u8>,
    t: Seq<u8>,
    rounds: Seq<(int, Seq<u8>)>,
)
    requires
        lengths.len() >= 1,
        forall|i: int| 0 <= i < lengths.len() ==> 0 <= #[trigger] lengths[i] <= 0xffff_ffff,
        v.len() == 4,
        d.len() == 4,
        p.len() == 4,
        t.len() == 4,
        lengths[0] > 0,
        valid_rounds(lengths[0], rounds),
    ensures
        run_rounds(run(init_model(lengths), start_events(v, d, p, t)), rounds).counter == (1 + 2
            * rounds.len()) % 256,
{
    lemma_session_start(lengths, v, d, p, t);
    let r = run(init_model(lengths), start_events(v, d, p, t));
    lemma_transfer_loop(r, rounds);
}

} // verus!


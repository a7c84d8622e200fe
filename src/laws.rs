//! What holds of every run of a probe.
use vstd::prelude::*;

use crate::exchange::run;
use crate::probe::{
    answer, decoded, pending_action, start_view, Action, Event, ProbeView, Stage, CHUNK_LIMIT,
};
use crate::report::{status_text, ProbeError};

verus! {

/// How often `a` occurs in `acts`.
pub open spec fn count(acts: Seq<Action>, a: Action) -> nat
    decreases acts.len(),
{
    if acts.len() == 0 {
        0
    } else {
        (if acts[0] == a {
            1nat
        } else {
            0nat
        }) + count(acts.drop_first(), a)
    }
}

/// The bytes that the chunk replies among `es` carry, in order.
pub open spec fn chunk_bytes(es: Seq<Event>) -> Seq<u8>
    decreases es.len(),
{
    if es.len() == 0 {
        Seq::empty()
    } else {
        match es[0] {
            Event::Chunk(c) => c@ + chunk_bytes(es.drop_first()),
            _ => chunk_bytes(es.drop_first()),
        }
    }
}

/// `k` reads of at most [`CHUNK_LIMIT`] bytes.
pub open spec fn reads(k: nat) -> Seq<Action> {
    Seq::new(k, |i: int| Action::Read(CHUNK_LIMIT))
}

/// A chunk that carries bytes.
pub open spec fn data_chunk(e: Event) -> bool {
    e matches Event::Chunk(c) && c@.len() > 0
}

/// The empty chunk that ends a stream.
pub open spec fn end_chunk(e: Event) -> bool {
    e matches Event::Chunk(c) && c@.len() == 0
}

/// The first `k` replies of `es` are non-empty chunks and the next one is an
/// empty chunk, the end of the stream.
pub open spec fn drains_at(es: Seq<Event>, k: int) -> bool {
    &&& 0 <= k < es.len()
    &&& forall|i: int| 0 <= i < k ==> data_chunk(#[trigger] es[i])
    &&& end_chunk(es[k])
}

proof fn lemma_count_cons(a: Action, rest: Seq<Action>, x: Action)
    ensures
        count(seq![a] + rest, x) == (if a == x {
            1nat
        } else {
            0nat
        }) + count(rest, x),
{
    assert((seq![a] + rest).drop_first() =~= rest);
}

/// A draining probe that is handed non-empty chunks and then an empty one
/// asks for one read of at most [`CHUNK_LIMIT`] bytes per chunk, the empty one
/// included, then finalizes the body, which holds the chunks' bytes in order;
/// the replies after the empty chunk find it finishing.
pub proof fn lemma_drain_until_empty(v: ProbeView, es: Seq<Event>, k: int)
    requires
        v.stage == Stage::Draining,
        drains_at(es, k),
    ensures
        ({
            let w = ProbeView {
                stage: Stage::Finishing,
                body: v.body + chunk_bytes(es.take(k)),
                ..v
            };
            let after = run(w, es.subrange(k + 1, es.len() as int));
            &&& run(v, es).0 == after.0
            &&& run(v, es).1 == reads(k as nat) + seq![Action::Finish] + after.1
        }),
    decreases k,
{
    let w = ProbeView { stage: Stage::Finishing, body: v.body + chunk_bytes(es.take(k)), ..v };
    let after = run(w, es.subrange(k + 1, es.len() as int));
    assert(es.drop_first() =~= es.subrange(1, es.len() as int));
    if k == 0 {
        assert(es.take(0) =~= Seq::<Event>::empty());
        assert(v.body + chunk_bytes(es.take(0)) =~= v.body);
        assert(answer(v, es[0]) == w);
        assert(reads(0) + seq![Action::Finish] + after.1 =~= seq![Action::Finish] + after.1);
    } else {
        let c = es[0]->Chunk_0;
        assert(data_chunk(es[0]));
        let v1 = ProbeView { body: v.body + c@, ..v };
        assert(answer(v, es[0]) == v1);
        let es1 = es.drop_first();
        assert forall|i: int| 0 <= i < k - 1 implies data_chunk(#[trigger] es1[i]) by {
            assert(es1[i] == es[i + 1]);
        }
        assert(es1[k - 1] == es[k]);
        lemma_drain_until_empty(v1, es1, k - 1);
        assert(es1.subrange(k, es1.len() as int) =~= es.subrange(k + 1, es.len() as int));
        assert(es.take(k).drop_first() =~= es1.take(k - 1));
        assert(chunk_bytes(es.take(k)) == c@ + chunk_bytes(es1.take(k - 1)));
        assert(v1.body + chunk_bytes(es1.take(k - 1)) =~= w.body);
        assert(seq![Action::Read(CHUNK_LIMIT)] + (reads((k - 1) as nat) + seq![Action::Finish]
            + after.1) =~= reads(k as nat) + seq![Action::Finish] + after.1);
    }
}

/// Every read a probe asks for is of at most [`CHUNK_LIMIT`] bytes.
pub proof fn lemma_reads_bounded(v: ProbeView, es: Seq<Event>)
    ensures
        forall|i: int|
            0 <= i < run(v, es).1.len() ==> (#[trigger] run(v, es).1[i] matches Action::Read(n)
                ==> n == CHUNK_LIMIT && n <= 4096),
    decreases es.len(),
{
    if es.len() > 0 && crate::probe::accepts(v.stage, es[0]) {
        let w = answer(v, es[0]);
        lemma_reads_bounded(w, es.drop_first());
        let rest = run(w, es.drop_first()).1;
        assert forall|i: int| 0 <= i < run(v, es).1.len() implies (#[trigger] run(v, es).1[i] matches Action::Read(n)
            ==> n == CHUNK_LIMIT && n <= 4096) by {
            if i > 0 {
                assert(run(v, es).1[i] == rest[i - 1]);
            }
        }
    }
}

/// Stages before the body's stream is open.
spec fn before_stream(s: Stage) -> bool {
    s is Setting || s is Submitting || s is Resolving || s is Waiting || s is TakingBody
        || s is OpeningStream
}

proof fn lemma_finish_count(v: ProbeView, es: Seq<Event>)
    ensures
        ({
            let (u, acts) = run(v, es);
            let finishes = count(acts, Action::Finish);
            let opened = count(acts, Action::Read(CHUNK_LIMIT)) > 0;
            &&& before_stream(v.stage) ==> {
                &&& finishes <= 1
                &&& !opened ==> finishes == 0
                &&& u.stage == Stage::Done && opened ==> finishes == 1
            }
            &&& v.stage == Stage::Draining ==> {
                &&& finishes <= 1
                &&& u.stage == Stage::Done ==> finishes == 1
            }
            &&& (v.stage == Stage::Finishing || v.stage == Stage::Done) ==> {
                &&& finishes == 0
                &&& !opened
            }
        }),
    decreases es.len(),
{
    if es.len() > 0 && crate::probe::accepts(v.stage, es[0]) {
        let w = answer(v, es[0]);
        let rest = run(w, es.drop_first());
        lemma_finish_count(w, es.drop_first());
        lemma_count_cons(pending_action(w.stage), rest.1, Action::Finish);
        lemma_count_cons(pending_action(w.stage), rest.1, Action::Read(CHUNK_LIMIT));
        if w.stage == Stage::Done {
            assert(es.drop_first().len() == 0 || !crate::probe::accepts(w.stage, es.drop_first()[0]));
        }
    }
}

/// A probe that reaches its outcome finalizes the body exactly once when it
/// got the body's stream, which it then read, and never when it did not; no
/// probe finalizes twice, however the host answers.
pub proof fn lemma_finish_once(es: Seq<Event>)
    ensures
        count(run(start_view(), es).1, Action::Finish) <= 1,
        run(start_view(), es).0.stage == Stage::Done ==> (count(
            run(start_view(), es).1,
            Action::Finish,
        ) == 1 <==> count(run(start_view(), es).1, Action::Read(CHUNK_LIMIT)) > 0),
{
    lemma_finish_count(start_view(), es);
}

/// The replies of a healthy proxy: every field accepted, the request sent, a
/// 200 response at the first query, the body and its stream handed over,
/// chunks of bytes closed by an empty one, and the body finalized.
pub open spec fn healthy(es: Seq<Event>) -> bool {
    &&& es.len() >= 10
    &&& es[0] == Event::FieldAccepted
    &&& es[1] == Event::FieldAccepted
    &&& es[2] == Event::FieldAccepted
    &&& es[3] == Event::FieldAccepted
    &&& es[4] == Event::Submitted
    &&& es[5] == Event::Response(200)
    &&& es[6] == Event::BodyTaken
    &&& es[7] == Event::StreamOpened
    &&& drains_at(es.subrange(8, es.len() as int), es.len() - 10)
    &&& es[es.len() - 1] == Event::Finished
}

/// The body bytes that the replies of a healthy proxy carry.
pub open spec fn healthy_body(es: Seq<Event>) -> Seq<u8> {
    chunk_bytes(es.subrange(8, es.len() - 2))
}

proof fn lemma_run_unfold(v: ProbeView, es: Seq<Event>, i: int, w: ProbeView)
    requires
        0 <= i < es.len(),
        crate::probe::accepts(v.stage, es[i]),
        w == answer(v, es[i]),
    ensures
        run(v, es.subrange(i, es.len() as int)).0 == run(w, es.subrange(i + 1, es.len() as int)).0,
{
    let t = es.subrange(i, es.len() as int);
    assert(t[0] == es[i]);
    assert(t.drop_first() =~= es.subrange(i + 1, es.len() as int));
}

/// Against a healthy proxy a probe ends with the text that the body's bytes
/// decode to, or with the failure that they are not UTF-8; the report then
/// holds exactly that text under the healthy line.
pub proof fn lemma_healthy_outcome(es: Seq<Event>)
    requires
        healthy(es),
    ensures
        run(start_view(), es).0.outcome == Some(decoded(healthy_body(es))),
        vstd::utf8::valid_utf8(healthy_body(es)) ==> status_text(run(start_view(), es).0.outcome->0)
            == "\u{2705} Morpheus proxy healthy\n"@ + vstd::utf8::decode_utf8(healthy_body(es)),
        !vstd::utf8::valid_utf8(healthy_body(es)) ==> run(start_view(), es).0.outcome == Some(
            Err::<Seq<char>, ProbeError>(ProbeError::NotUtf8),
        ),
{
    let n = es.len() as int;
    let v0 = start_view();
    assert(es.subrange(0, n) =~= es);
    let v1 = answer(v0, es[0]);
    lemma_run_unfold(v0, es, 0, v1);
    let v2 = answer(v1, es[1]);
    lemma_run_unfold(v1, es, 1, v2);
    let v3 = answer(v2, es[2]);
    lemma_run_unfold(v2, es, 2, v3);
    let v4 = answer(v3, es[3]);
    lemma_run_unfold(v3, es, 3, v4);
    let v5 = answer(v4, es[4]);
    lemma_run_unfold(v4, es, 4, v5);
    let v6 = answer(v5, es[5]);
    lemma_run_unfold(v5, es, 5, v6);
    let v7 = answer(v6, es[6]);
    lemma_run_unfold(v6, es, 6, v7);
    let v8 = answer(v7, es[7]);
    lemma_run_unfold(v7, es, 7, v8);
    assert(v8.stage == Stage::Draining);
    assert(v8.body == Seq::<u8>::empty());
    let t = es.subrange(8, n);
    let k = n - 10;
    lemma_drain_until_empty(v8, t, k);
    let w = ProbeView { stage: Stage::Finishing, body: v8.body + chunk_bytes(t.take(k)), ..v8 };
    assert(t.take(k) =~= es.subrange(8, n - 2));
    assert(w.body =~= healthy_body(es));
    let last = t.subrange(k + 1, t.len() as int);
    assert(last =~= seq![Event::Finished]);
    assert(last.drop_first() =~= Seq::<Event>::empty());
    assert(last[0] == Event::Finished);
    let done = answer(w, Event::Finished);
    assert(run(done, Seq::<Event>::empty()).0 == done);
    assert(run(w, last).0 == done);
}

/// Two checks of a healthy proxy that serves the same body bytes end alike
/// and report the same text, however the bytes were split into chunks: no
/// state carries over from one check to the next.
pub proof fn lemma_healthy_repeatable(es1: Seq<Event>, es2: Seq<Event>)
    requires
        healthy(es1),
        healthy(es2),
        healthy_body(es1) == healthy_body(es2),
    ensures
        run(start_view(), es1).0.outcome == run(start_view(), es2).0.outcome,
        status_text(run(start_view(), es1).0.outcome->0) == status_text(
            run(start_view(), es2).0.outcome->0,
        ),
{
    lemma_healthy_outcome(es1);
    lemma_healthy_outcome(es2);
}

} // verus!

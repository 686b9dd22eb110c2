//! The protocol's cross-cutting guarantees, proved from the shapes the
//! pipeline functions promise: one lifecycle pair per turn, single
//! content-part openings, and the commit's event pairing.
use vstd::prelude::*;
use crate::commit::{is_committed_event, is_transcription_completed};
use crate::events::ServerEvent;
use crate::handler::pushed_one;
use crate::session::{ChatMessage, RealtimeSession, Role};
use crate::turn::{
    begin_events_shape, finish_events_shape, is_response_created, is_response_done, TurnState,
};

verus! {

/// How many events of `trace` satisfy `p`.
pub open spec fn count_matching(trace: Seq<ServerEvent>, p: spec_fn(ServerEvent) -> bool) -> nat
    decreases trace.len(),
{
    if trace.len() == 0 {
        0
    } else {
        count_matching(trace.drop_last(), p) + (if p(trace.last()) {
            1nat
        } else {
            0nat
        })
    }
}

proof fn lemma_count_add(a: Seq<ServerEvent>, b: Seq<ServerEvent>, p: spec_fn(ServerEvent) -> bool)
    ensures
        count_matching(a + b, p) == count_matching(a, p) + count_matching(b, p),
    decreases b.len(),
{
    if b.len() == 0 {
        assert(a + b =~= a);
    } else {
        assert((a + b).drop_last() =~= a + b.drop_last());
        assert((a + b).last() == b.last());
        lemma_count_add(a, b.drop_last(), p);
    }
}

proof fn lemma_count_zero(s: Seq<ServerEvent>, p: spec_fn(ServerEvent) -> bool)
    requires
        forall|i: int| 0 <= i < s.len() ==> !p(#[trigger] s[i]),
    ensures
        count_matching(s, p) == 0,
    decreases s.len(),
{
    if s.len() > 0 {
        lemma_count_zero(s.drop_last(), p);
    }
}

proof fn lemma_count_single(s: Seq<ServerEvent>, p: spec_fn(ServerEvent) -> bool, j: int)
    requires
        0 <= j < s.len(),
        p(s[j]),
        forall|i: int| 0 <= i < s.len() && i != j ==> !p(#[trigger] s[i]),
    ensures
        count_matching(s, p) == 1,
    decreases s.len(),
{
    if j == s.len() - 1 {
        lemma_count_zero(s.drop_last(), p);
    } else {
        lemma_count_single(s.drop_last(), p, j);
    }
}

/// The events of the middle of a turn: text and audio deltas only.
pub open spec fn delta_only(events: Seq<ServerEvent>) -> bool {
    forall|i: int|
        0 <= i < events.len() ==> ((#[trigger] events[i]) is ResponseTextDelta || events[i]
            is ResponseAudioDelta)
}

/// All batches of `batches` concatenated in order.
pub open spec fn concat_all(batches: Seq<Seq<ServerEvent>>) -> Seq<ServerEvent>
    decreases batches.len(),
{
    if batches.len() == 0 {
        Seq::empty()
    } else {
        concat_all(batches.drop_last()) + batches.last()
    }
}

proof fn lemma_concat_delta_only(batches: Seq<Seq<ServerEvent>>)
    requires
        forall|i: int| 0 <= i < batches.len() ==> delta_only(#[trigger] batches[i]),
    ensures
        delta_only(concat_all(batches)),
    decreases batches.len(),
{
    if batches.len() > 0 {
        lemma_concat_delta_only(batches.drop_last());
        let whole = concat_all(batches);
        let init = concat_all(batches.drop_last());
        let last = batches.last();
        assert forall|i: int| 0 <= i < whole.len() implies ((#[trigger] whole[i])
            is ResponseTextDelta || whole[i] is ResponseAudioDelta) by {
            if i < init.len() {
                assert(whole[i] == init[i]);
            } else {
                assert(whole[i] == last[i - init.len()]);
            }
        }
    }
}

/// A `response.content_part.added` event of response `rid` at content
/// index `k`.
pub open spec fn is_content_part_added(e: ServerEvent, rid: Seq<char>, k: u32) -> bool {
    e matches ServerEvent::ResponseContentPartAdded {
        event_id: _,
        response_id,
        item_id: _,
        output_index: _,
        content_index,
        part: _,
    } && response_id@ == rid && content_index == k
}

/// A transcription-completed event for `item_id`, whatever transcript
/// it carries.
pub open spec fn is_transcription_for(e: ServerEvent, item_id: Seq<char>) -> bool {
    e matches ServerEvent::ConversationItemInputAudioTranscriptionCompleted {
        event_id: _,
        item_id: i,
        content_index: _,
        transcript: _,
    } && i@ == item_id
}

/// Law: one turn emits exactly one `response.created` and exactly one
/// `response.done`, both carrying the turn's response id, the created
/// standing first in the trace and the done standing last.  The
/// opening step is the only one that raises the generation flag and it
/// emits the created event; the closing step clears the flag and emits
/// the done event; the chunk steps in between emit deltas only.  So
/// the flag is never true outside the interval between the two, and
/// for every created event a matching done follows while the session
/// lives.
pub proof fn lemma_turn_response_lifecycle(
    begin: Seq<ServerEvent>,
    mids: Seq<Seq<ServerEvent>>,
    fin: Seq<ServerEvent>,
    ts: TurnState,
    text: Seq<char>,
)
    requires
        begin_events_shape(begin, ts),
        forall|i: int| 0 <= i < mids.len() ==> delta_only(#[trigger] mids[i]),
        finish_events_shape(fin, ts, text),
    ensures
        ({
            let trace = begin + concat_all(mids) + fin;
            &&& count_matching(trace, |e: ServerEvent| is_response_created(e, ts.response_id@))
                == 1
            &&& count_matching(trace, |e: ServerEvent| is_response_done(e, ts.response_id@)) == 1
            &&& is_response_created(trace[0], ts.response_id@)
            &&& is_response_done(trace[trace.len() - 1], ts.response_id@)
        }),
{
    let mid = concat_all(mids);
    let trace = begin + mid + fin;
    lemma_concat_delta_only(mids);
    let created = |e: ServerEvent| is_response_created(e, ts.response_id@);
    let done = |e: ServerEvent| is_response_done(e, ts.response_id@);
    lemma_count_add(begin + mid, fin, created);
    lemma_count_add(begin, mid, created);
    lemma_count_add(begin + mid, fin, done);
    lemma_count_add(begin, mid, done);
    lemma_count_single(begin, created, 0);
    lemma_count_zero(mid, created);
    lemma_count_zero(fin, created);
    lemma_count_zero(begin, done);
    lemma_count_zero(mid, done);
    lemma_count_single(fin, done, fin.len() - 1);
    assert(trace[0] == begin[0]);
    assert(trace.len() == begin.len() + mid.len() + fin.len());
    assert(trace[trace.len() - 1] == fin[fin.len() - 1]);
}

/// Law: between `response.content_part.added` at a content index and
/// the matching `response.content_part.done`, no second `added` with
/// that index recurs: one turn emits the `added` for content index 0
/// exactly once, and for content index 1 exactly once when audio is
/// active and never otherwise.
pub proof fn lemma_content_part_added_once(
    begin: Seq<ServerEvent>,
    mids: Seq<Seq<ServerEvent>>,
    fin: Seq<ServerEvent>,
    ts: TurnState,
    text: Seq<char>,
    k: u32,
)
    requires
        begin_events_shape(begin, ts),
        forall|i: int| 0 <= i < mids.len() ==> delta_only(#[trigger] mids[i]),
        finish_events_shape(fin, ts, text),
        k == 0 || k == 1,
    ensures
        ({
            let trace = begin + concat_all(mids) + fin;
            count_matching(trace, |e: ServerEvent| is_content_part_added(e, ts.response_id@, k))
                == (if k == 0 || ts.audio {
                1nat
            } else {
                0nat
            })
        }),
{
    let mid = concat_all(mids);
    lemma_concat_delta_only(mids);
    let added = |e: ServerEvent| is_content_part_added(e, ts.response_id@, k);
    lemma_count_add(begin + mid, fin, added);
    lemma_count_add(begin, mid, added);
    lemma_count_zero(mid, added);
    lemma_count_zero(fin, added);
    if k == 0 {
        lemma_count_single(begin, added, 2);
    } else if ts.audio {
        lemma_count_single(begin, added, 3);
    } else {
        lemma_count_zero(begin, added);
    }
}

/// Law: a non-empty commit emits exactly one `input_audio_buffer.committed`
/// and exactly one transcription-completed event, both for the same
/// minted item id, the committed standing first — whether the commit
/// was silenced by VAD or transcribed by ASR.
pub proof fn lemma_commit_pairing(
    tevents: Seq<ServerEvent>,
    cont: Seq<ServerEvent>,
    item_id: Seq<char>,
    transcript: Seq<char>,
    silence: bool,
)
    requires
        tevents.len() == 1,
        is_committed_event(tevents[0], item_id),
        silence ==> cont.len() == 1 && is_transcription_completed(
            cont[0],
            item_id,
            Seq::<char>::empty(),
        ),
        !silence ==> cont.len() == 2 && cont[0] is ConversationItemCreated
            && is_transcription_completed(cont[1], item_id, transcript),
    ensures
        ({
            let trace = tevents + cont;
            &&& count_matching(trace, |e: ServerEvent| is_committed_event(e, item_id)) == 1
            &&& count_matching(trace, |e: ServerEvent| is_transcription_for(e, item_id)) == 1
            &&& is_committed_event(trace[0], item_id)
        }),
{
    let trace = tevents + cont;
    let committed = |e: ServerEvent| is_committed_event(e, item_id);
    let transcribed = |e: ServerEvent| is_transcription_for(e, item_id);
    lemma_count_add(tevents, cont, committed);
    lemma_count_add(tevents, cont, transcribed);
    lemma_count_single(tevents, committed, 0);
    lemma_count_zero(cont, committed);
    lemma_count_zero(tevents, transcribed);
    if silence {
        lemma_count_single(cont, transcribed, 0);
    } else {
        lemma_count_single(cont, transcribed, 1);
    }
    assert(trace[0] == tevents[0]);
}

/// Law: the generation flag is never true outside the interval from
/// `response.created` to `response.done`.  The opening step is the
/// only one that raises the flag, it finds the flag down, and the
/// created event stands first among everything the turn emits; the
/// closing step lowers the flag and the done event stands last; the
/// chunk steps between the two leave the session untouched, and every
/// other handler either preserves the flag or lowers it.  So whenever
/// the flag is up, the created event is out and the matching done
/// event is not yet.
pub proof fn lemma_generating_interval(
    before: RealtimeSession,
    after_begin: RealtimeSession,
    before_finish: RealtimeSession,
    after: RealtimeSession,
    begin: Seq<ServerEvent>,
    mids: Seq<Seq<ServerEvent>>,
    fin: Seq<ServerEvent>,
    ts: TurnState,
    text: Seq<char>,
)
    requires
        !before.is_generating,
        after_begin.is_generating,
        before_finish.is_generating == after_begin.is_generating,
        !after.is_generating,
        begin_events_shape(begin, ts),
        forall|i: int| 0 <= i < mids.len() ==> delta_only(#[trigger] mids[i]),
        finish_events_shape(fin, ts, text),
    ensures
        ({
            let trace = begin + concat_all(mids) + fin;
            &&& is_response_created(trace[0], ts.response_id@)
            &&& is_response_done(trace[trace.len() - 1], ts.response_id@)
            &&& !before.is_generating
            &&& before_finish.is_generating
            &&& !after.is_generating
        }),
{
    lemma_turn_response_lifecycle(begin, mids, fin, ts, text);
}

/// Law: the chat history grows by exactly one user record per commit
/// that produced a transcript and exactly one assistant record per
/// completed response, in that order, with everything before them kept
/// as it was.
pub proof fn lemma_history_growth(
    m0: Seq<ChatMessage>,
    m1: Seq<ChatMessage>,
    m2: Seq<ChatMessage>,
    transcript: Seq<char>,
    reply: Seq<char>,
)
    requires
        pushed_one(m0, m1, Role::User, transcript),
        pushed_one(m1, m2, Role::Assistant, reply),
    ensures
        m2.len() == m0.len() + 2,
        forall|i: int| 0 <= i < m0.len() ==> m2[i] == m0[i],
        m2[m0.len() as int].role == Role::User,
        m2[m0.len() as int].message@ == transcript,
        m2[m0.len() as int + 1].role == Role::Assistant,
        m2[m0.len() as int + 1].message@ == reply,
{
    assert(forall|i: int| 0 <= i < m0.len() ==> m1[i] == m0[i]);
    assert(m2[m0.len() as int] == m1[m0.len() as int]);
}

} // verus!

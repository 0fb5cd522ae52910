use vstd::prelude::*;

use crate::code_blocks::{blocks_from, block_at, code_blocks, first_closer, tag_end};
use crate::context::joined;
use crate::keys::{input_after, moves_cursor_only, KeyInput};
use crate::openai::OpenAIError;
use crate::progress::ShaiRequestProgress;
use crate::session::{
    intent_of, item_transition, key_transition, rendered, wait_transition,
    MainAction, RequestExit, RequestStep, RequestType, ShaiState, ShaiUI, UiIntent,
};

verus! {

/// The text and cursor of the input line after the line editor requests
/// `reqs`, in order.
pub open spec fn edits_applied(text: Seq<char>, cursor: nat, reqs: Seq<tui_input::InputRequest>) -> (
    Seq<char>,
    nat,
)
    decreases reqs.len(),
{
    if reqs.len() == 0 {
        (text, cursor)
    } else {
        let prev = edits_applied(text, cursor, reqs.drop_last());
        input_after(prev.0, prev.1, reqs.last())
    }
}

/// The line editor requests that reach the input line along a run of key
/// presses: those of the keys that are text edits in the state in which they
/// are pressed, in order.
pub open spec fn routed_edits(
    trace: Seq<ShaiUI>,
    keys: Seq<KeyInput>,
    edits: Seq<Option<tui_input::InputRequest>>,
) -> Seq<tui_input::InputRequest>
    decreases keys.len(),
{
    if keys.len() == 0 {
        seq![]
    } else {
        let i = keys.len() - 1;
        let prev = routed_edits(trace, keys.drop_last(), edits.drop_last());
        if intent_of(trace[i].spec_state(), trace[i].layout, keys[i]) == Some(UiIntent::TextEdit)
            && edits[i] is Some {
            prev.push(edits[i]->Some_0)
        } else {
            prev
        }
    }
}

/// `trace` is the run of sessions that the main loop goes through for the
/// key presses `keys`, where `edits` are the line editor's requests for them
/// and `actions` the main loop's actions.
pub open spec fn is_key_run(
    trace: Seq<ShaiUI>,
    keys: Seq<KeyInput>,
    edits: Seq<Option<tui_input::InputRequest>>,
    actions: Seq<MainAction>,
) -> bool {
    &&& trace.len() == keys.len() + 1
    &&& edits.len() == keys.len()
    &&& actions.len() == keys.len()
    &&& forall|i: int|
        0 <= i < keys.len() ==> key_transition(
            #[trigger] trace[i],
            keys[i],
            edits[i],
            trace[i + 1],
            actions[i],
        )
}

proof fn lemma_routed_edits_prefix(
    t1: Seq<ShaiUI>,
    t2: Seq<ShaiUI>,
    keys: Seq<KeyInput>,
    edits: Seq<Option<tui_input::InputRequest>>,
)
    requires
        keys.len() <= t1.len(),
        keys.len() <= t2.len(),
        forall|i: int| 0 <= i < keys.len() ==> t1[i] == t2[i],
    ensures
        routed_edits(t1, keys, edits) == routed_edits(t2, keys, edits),
    decreases keys.len(),
{
    if keys.len() > 0 {
        lemma_routed_edits_prefix(t1, t2, keys.drop_last(), edits.drop_last());
    }
}

/// Along any run of key presses of the main loop, in particular one without
/// submit, accept or exit, the input line is what the line editor makes of
/// the text-edit keys alone, applied in order: scroll, resize, focus and the
/// other keys leave it untouched. When every one of those edits only moves
/// the cursor, the text is as it was.
pub proof fn lemma_input_follows_edits(
    trace: Seq<ShaiUI>,
    keys: Seq<KeyInput>,
    edits: Seq<Option<tui_input::InputRequest>>,
    actions: Seq<MainAction>,
)
    requires
        is_key_run(trace, keys, edits, actions),
    ensures
        (trace.last().input_text@, trace.last().input_cursor as nat) == edits_applied(
            trace[0].input_text@,
            trace[0].input_cursor as nat,
            routed_edits(trace, keys, edits),
        ),
        (forall|j: int|
            0 <= j < routed_edits(trace, keys, edits).len() ==> moves_cursor_only(
                #[trigger] routed_edits(trace, keys, edits)[j],
            )) ==> trace.last().input_text@ == trace[0].input_text@,
    decreases keys.len(),
{
    if keys.len() > 0 {
        let n = keys.len() - 1;
        let t0 = trace.drop_last();
        let k0 = keys.drop_last();
        let e0 = edits.drop_last();
        let a0 = actions.drop_last();
        assert forall|i: int| 0 <= i < k0.len() implies key_transition(
            #[trigger] t0[i],
            k0[i],
            e0[i],
            t0[i + 1],
            a0[i],
        ) by {
            assert(key_transition(trace[i], keys[i], edits[i], trace[i + 1], actions[i]));
        }
        lemma_input_follows_edits(t0, k0, e0, a0);
        lemma_routed_edits_prefix(t0, trace, k0, e0);
        assert(key_transition(trace[n], keys[n], edits[n], trace[n + 1], actions[n]));
        crate::session::lemma_key_transition_input(
            trace[n],
            keys[n],
            edits[n],
            trace[n + 1],
            actions[n],
        );
        let prev = routed_edits(trace, k0, e0);
        let all = routed_edits(trace, keys, edits);
        assert(t0.last() == trace[n]);
        assert(k0 =~= keys.drop_last());
        if all.len() > prev.len() {
            assert(all == prev.push(edits[n]->Some_0));
            assert(all.drop_last() =~= prev);
        } else {
            assert(all == prev);
        }
        if forall|j: int| 0 <= j < all.len() ==> moves_cursor_only(#[trigger] all[j]) {
            assert forall|j: int| 0 <= j < prev.len() implies moves_cursor_only(
                #[trigger] prev[j],
            ) by {
                assert(all[j] == prev[j]);
            }
            if all.len() > prev.len() {
                assert(all[all.len() - 1] == edits[n]->Some_0);
            }
        }
    }
}

/// The state a session shows: a request in flight for either pane means
/// processing, whatever the texts; otherwise, in command mode, no main answer
/// means started, a main answer without explanation means a command was
/// generated, and both mean an explained command.
pub proof fn lemma_state_derivation(s: ShaiUI)
    ensures
        s.main_response.request_state != ShaiRequestProgress::Idle
            || s.auxiliary_response.request_state != ShaiRequestProgress::Idle ==> s.spec_state()
            == ShaiState::Processing,
        s.main_response.request_state == ShaiRequestProgress::Idle
            && s.auxiliary_response.request_state == ShaiRequestProgress::Idle && s.spec_is_ask()
            ==> {
            &&& s.main_response.text@.len() == 0 ==> s.spec_state() == ShaiState::Started
            &&& s.main_response.text@.len() > 0 && s.auxiliary_response.text@.len() == 0
                ==> s.spec_state() == ShaiState::CommandGenerated
            &&& s.main_response.text@.len() > 0 && s.auxiliary_response.text@.len() > 0
                ==> s.spec_state() == ShaiState::AuxExplanationGenerated
        },
{
}

/// `trace` is the run of sessions while waiting for the answer to a request
/// for pane `rt`: ticks with neither an ending key nor a result of sending.
pub open spec fn is_idle_wait(trace: Seq<ShaiUI>, rt: RequestType) -> bool {
    &&& trace.len() >= 1
    &&& forall|i: int|
        0 <= i < trace.len() - 1 ==> wait_transition(
            #[trigger] trace[i],
            rt,
            None,
            None,
            trace[i + 1],
            RequestStep::Waiting,
        )
}

/// Cancelling while waiting, after any number of ticks, brings the session
/// back to an idle state with the request's pane empty: nothing of the
/// request reaches it, and no request is shown in flight.
pub proof fn lemma_cancel_while_waiting(
    trace: Seq<ShaiUI>,
    rt: RequestType,
    key: KeyInput,
    setup: Option<Result<(), OpenAIError>>,
    n: ShaiUI,
    r: RequestStep,
)
    requires
        is_idle_wait(trace, rt),
        trace[0].main_response.request_state == ShaiRequestProgress::Idle,
        trace[0].auxiliary_response.request_state == ShaiRequestProgress::Idle,
        crate::session::request_key(key) == Some(RequestExit::Cancel),
        wait_transition(trace.last(), rt, Some(key), setup, n, r),
    ensures
        r == RequestStep::Done(RequestExit::Cancel),
        n.slot(rt).text@.len() == 0,
        n.main_response.request_state == ShaiRequestProgress::Idle,
        n.auxiliary_response.request_state == ShaiRequestProgress::Idle,
        n.spec_state() != ShaiState::Processing,
{
    lemma_wait_keeps_other(trace, rt, (trace.len() - 1) as int);
}

proof fn lemma_wait_keeps_other(trace: Seq<ShaiUI>, rt: RequestType, k: int)
    requires
        is_idle_wait(trace, rt),
        0 <= k < trace.len(),
    ensures
        trace[k].other_slot(rt) == trace[0].other_slot(rt),
    decreases k,
{
    if k > 0 {
        lemma_wait_keeps_other(trace, rt, k - 1);
        assert(wait_transition(trace[k - 1], rt, None, None, trace[k], RequestStep::Waiting));
    }
}

/// The concatenation of `fs`.
pub open spec fn concat(fs: Seq<Seq<char>>) -> Seq<char>
    decreases fs.len(),
{
    if fs.len() == 0 {
        seq![]
    } else {
        concat(fs.drop_last()) + fs.last()
    }
}

/// `trace` is the run of sessions while the fragments `fs` of an answer for
/// pane `rt` arrive, one item each.
pub open spec fn is_fragment_run(
    trace: Seq<ShaiUI>,
    rt: RequestType,
    fs: Seq<String>,
) -> bool {
    &&& trace.len() == fs.len() + 1
    &&& forall|i: int|
        0 <= i < fs.len() ==> item_transition(
            #[trigger] trace[i],
            rt,
            Some(Ok(fs[i])),
            trace[i + 1],
            RequestStep::Streaming,
        )
}

proof fn lemma_fragments_accumulate(trace: Seq<ShaiUI>, rt: RequestType, fs: Seq<String>)
    requires
        is_fragment_run(trace, rt, fs),
    ensures
        trace.last().slot(rt).text@ == trace[0].slot(rt).text@ + concat(
            fs.map_values(|f: String| f@),
        ),
        trace.last().other_slot(rt) == trace[0].other_slot(rt),
    decreases fs.len(),
{
    let vs = fs.map_values(|f: String| f@);
    if fs.len() == 0 {
        assert(trace[0].slot(rt).text@ + concat(vs) =~= trace[0].slot(rt).text@);
    } else {
        let n = fs.len() - 1;
        let t0 = trace.drop_last();
        let f0 = fs.drop_last();
        assert forall|i: int| 0 <= i < f0.len() implies item_transition(
            #[trigger] t0[i],
            rt,
            Some(Ok(f0[i])),
            t0[i + 1],
            RequestStep::Streaming,
        ) by {
            assert(item_transition(
                trace[i],
                rt,
                Some(Ok(fs[i])),
                trace[i + 1],
                RequestStep::Streaming,
            ));
        }
        lemma_fragments_accumulate(t0, rt, f0);
        assert(item_transition(
            trace[n],
            rt,
            Some(Ok(fs[n])),
            trace[n + 1],
            RequestStep::Streaming,
        ));
        assert(vs.drop_last() =~= f0.map_values(|f: String| f@));
        assert(trace.last().slot(rt).text@ =~= trace[0].slot(rt).text@ + concat(vs));
    }
}

/// Draining a stream of fragments into pane `rt` leaves the text it had
/// followed by the fragments in order. When the stream then ends, the
/// request is finished and the spinner idle; when an error comes instead,
/// the request failed and the text received so far stays, spinner idle.
pub proof fn lemma_stream_drain(
    trace: Seq<ShaiUI>,
    rt: RequestType,
    fs: Seq<String>,
    last: Option<Result<String, OpenAIError>>,
    n: ShaiUI,
    r: RequestStep,
)
    requires
        is_fragment_run(trace, rt, fs),
        last is None || last matches Some(Err(_)),
        item_transition(trace.last(), rt, last, n, r),
    ensures
        n.slot(rt).text@ == trace[0].slot(rt).text@ + concat(fs.map_values(|f: String| f@)),
        n.slot(rt).request_state == ShaiRequestProgress::Idle,
        n.other_slot(rt) == trace[0].other_slot(rt),
        last is None ==> r == RequestStep::Done(RequestExit::Finished),
        last is Some ==> r == RequestStep::Done(RequestExit::Failed),
{
    lemma_fragments_accumulate(trace, rt, fs);
    assert(n.slot(rt).text@ =~= trace.last().slot(rt).text@ + seq![]);
}

proof fn lemma_blocks_shorter(t: Seq<char>, p: int)
    requires
        p >= 0,
    ensures
        forall|j: int|
            0 <= j < blocks_from(t, p).len() ==> (#[trigger] blocks_from(t, p)[j]).len() < t.len(),
    decreases t.len() - p,
{
    if 0 <= p < t.len() {
        if block_at(t, p) {
            let k = first_closer(t, tag_end(t, p) + 1)->0;
            crate::code_blocks::lemma_first_closer(t, tag_end(t, p) + 1);
            lemma_blocks_shorter(t, k + 4);
            let head = seq![t.subrange(tag_end(t, p) + 1, k)];
            assert(blocks_from(t, p) == head + blocks_from(t, k + 4));
            assert forall|j: int|
                0 <= j < blocks_from(t, p).len() implies (#[trigger] blocks_from(t, p)[j]).len()
                < t.len() by {
                if j > 0 {
                    assert(blocks_from(t, p)[j] == blocks_from(t, k + 4)[j - 1]);
                } else {
                    assert(blocks_from(t, p)[j] == head[0]);
                }
            }
        } else {
            assert(blocks_from(t, p) == blocks_from(t, p + 1));
            lemma_blocks_shorter(t, p + 1);
        }
    }
}

/// For an answer with exactly one code block, accepting writes the block's
/// body alone and accepting raw writes the whole answer, and the two differ.
pub proof fn lemma_accept_differs_from_raw(t: Seq<char>)
    requires
        code_blocks(t).len() == 1,
    ensures
        rendered(t) == code_blocks(t)[0],
        rendered(t) != t,
{
    lemma_blocks_shorter(t, 0);
    assert(joined(code_blocks(t), "\n"@) == code_blocks(t)[0]);
}

} // verus!

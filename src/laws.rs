//! What holds of every run of the watch loop, over any sequence of inputs.
use vstd::prelude::*;
use vstd::set_lib::{lemma_int_range, lemma_len_subset, lemma_map_size, set_int_range};
use vstd::relations::injective_on;
use crate::detector::{newer_than, significant, Notification};
use crate::render::html_of;
use crate::supervisor::{accepts, step_allowed, Action, Input, Phase, Termination, WatchSupervisor};

verus! {

/// `states`, `inputs` and `actions` are a run of the loop: each input was
/// accepted by the state before it and led to the next state and action.
pub open spec fn is_run(states: Seq<WatchSupervisor>, inputs: Seq<Input>, actions: Seq<Action>) -> bool {
    &&& states.len() == inputs.len() + 1
    &&& actions.len() == inputs.len()
    &&& forall|i: int|
        0 <= i < inputs.len() ==> accepts(states[i].phase, inputs[i]) && #[trigger] step_allowed(
            states[i],
            inputs[i],
            states[i + 1],
            actions[i],
        )
}

proof fn lemma_step(states: Seq<WatchSupervisor>, inputs: Seq<Input>, actions: Seq<Action>, i: int)
    requires
        is_run(states, inputs, actions),
        0 <= i < inputs.len(),
    ensures
        accepts(states[i].phase, inputs[i]),
        step_allowed(states[i], inputs[i], states[i + 1], actions[i]),
{
}

/// The modification time whose content step `i` sent.
pub open spec fn sent_stamp(states: Seq<WatchSupervisor>, i: int) -> u128 {
    states[i + 1].phase->Sending_stamp
}

/// The steps of a run that sent a payload.
pub open spec fn send_steps(actions: Seq<Action>) -> Set<int> {
    Set::new(|i: int| 0 <= i < actions.len() && actions[i] is Send)
}

/// The steps at which the loop saw the file modified later than `watermark`.
pub open spec fn newer_reports(inputs: Seq<Input>, watermark: Option<u128>) -> Set<int> {
    Set::new(
        |i: int|
            0 <= i < inputs.len() && (inputs[i] matches Input::Metadata(Some(m)) && newer_than(
                m,
                watermark,
            )),
    )
}

/// The distinct modification times, later than `watermark`, that the loop saw.
pub open spec fn newer_stamps(inputs: Seq<Input>, watermark: Option<u128>) -> Set<u128> {
    newer_reports(inputs, watermark).map(|i: int| inputs[i]->Metadata_0->Some_0)
}

pub open spec fn watermark_le(a: Option<u128>, b: Option<u128>) -> bool {
    match (a, b) {
        (None, _) => true,
        (Some(x), Some(y)) => x <= y,
        (Some(_), None) => false,
    }
}

/// What the first `k` steps of a run establish about state `k`.
pub open spec fn run_invariant(states: Seq<WatchSupervisor>, inputs: Seq<Input>, actions: Seq<Action>, k: int) -> bool {
    let s = states[k];
    &&& watermark_le(states[0].watermark, s.watermark)
    &&& s.phase matches Phase::Reading { stamp } ==> (newer_than(stamp, s.watermark) && exists|i: int|
        0 <= i < k && #[trigger] inputs[i] == Input::Metadata(Some(stamp)))
    &&& s.phase matches Phase::Sending { stamp } ==> (newer_than(stamp, s.watermark) && exists|i: int|
        0 <= i < k && #[trigger] inputs[i] == Input::Metadata(Some(stamp)))
    &&& forall|j: int|
        0 <= j < k && #[trigger] actions[j] is Send ==> {
            ||| s.phase is Terminated
            ||| s.phase == (Phase::Sending { stamp: sent_stamp(states, j) })
            ||| (s.watermark matches Some(w) && sent_stamp(states, j) <= w)
        }
    &&& forall|j: int|
        0 <= j < k && #[trigger] actions[j] is Send ==> states[j + 1].phase is Sending
}

proof fn lemma_run_invariant(states: Seq<WatchSupervisor>, inputs: Seq<Input>, actions: Seq<Action>, k: int)
    requires
        is_run(states, inputs, actions),
        states[0].phase is Waiting,
        0 <= k <= inputs.len(),
    ensures
        run_invariant(states, inputs, actions, k),
    decreases k,
{
    if k > 0 {
        let p = k - 1;
        lemma_run_invariant(states, inputs, actions, p);
        assert(step_allowed(states[p], inputs[p], states[p + 1], actions[p]));
        let pre = states[p];
        let post = states[k];
        if let Phase::Reading { stamp } = post.phase {
            assert(inputs[p] == Input::Metadata(Some(stamp)));
        }
        if let Phase::Sending { stamp } = post.phase {
            if let Phase::Reading { stamp: s0 } = pre.phase {
                assert(s0 == stamp);
                let i = choose|i: int| 0 <= i < p && #[trigger] inputs[i] == Input::Metadata(Some(stamp));
                assert(0 <= i < k && inputs[i] == Input::Metadata(Some(stamp)));
            }
        }
        assert forall|j: int| 0 <= j < k && #[trigger] actions[j] is Send implies {
            ||| post.phase is Terminated
            ||| post.phase == (Phase::Sending { stamp: sent_stamp(states, j) })
            ||| (post.watermark matches Some(w) && sent_stamp(states, j) <= w)
        } by {
            if j < p {
                assert(actions[j] is Send);
            }
        }
    }
}

/// Every payload of a run carries a modification time that the loop saw
/// reported, later than the watermark it started from, and each one is
/// strictly later than the payload before it: the client never receives
/// content older than what it already has.
pub proof fn lemma_sends_are_fresh_and_ordered(
    states: Seq<WatchSupervisor>,
    inputs: Seq<Input>,
    actions: Seq<Action>,
    j: int,
    k: int,
)
    requires
        is_run(states, inputs, actions),
        states[0].phase is Waiting,
        0 <= j < k < inputs.len(),
        actions[j] is Send,
        actions[k] is Send,
    ensures
        newer_than(sent_stamp(states, j), states[0].watermark),
        exists|i: int| 0 <= i < j && #[trigger] inputs[i] == Input::Metadata(Some(sent_stamp(states, j))),
        sent_stamp(states, j) < sent_stamp(states, k),
{
    lemma_send_is_reported(states, inputs, actions, j);
    lemma_run_invariant(states, inputs, actions, k);
    assert(step_allowed(states[k], inputs[k], states[k + 1], actions[k]));
    assert(states[k].phase is Reading);
}

proof fn lemma_send_is_reported(states: Seq<WatchSupervisor>, inputs: Seq<Input>, actions: Seq<Action>, j: int)
    requires
        is_run(states, inputs, actions),
        states[0].phase is Waiting,
        0 <= j < inputs.len(),
        actions[j] is Send,
    ensures
        newer_than(sent_stamp(states, j), states[0].watermark),
        exists|i: int| 0 <= i < j && #[trigger] inputs[i] == Input::Metadata(Some(sent_stamp(states, j))),
{
    lemma_run_invariant(states, inputs, actions, j);
    assert(step_allowed(states[j], inputs[j], states[j + 1], actions[j]));
}

/// While the watched file's modification time does not advance past the
/// watermark, no payload is sent, however many notifications arrive.
pub proof fn lemma_no_advance_no_payload(states: Seq<WatchSupervisor>, inputs: Seq<Input>, actions: Seq<Action>)
    requires
        is_run(states, inputs, actions),
        states[0].phase is Waiting,
        forall|i: int|
            0 <= i < inputs.len() ==> !(#[trigger] inputs[i] matches Input::Metadata(m) && significant(
                m,
                states[0].watermark,
            )),
    ensures
        forall|i: int| 0 <= i < actions.len() ==> !(#[trigger] actions[i] is Send),
{
    assert forall|j: int| 0 <= j < actions.len() implies !(#[trigger] actions[j] is Send) by {
        if actions[j] is Send {
            lemma_send_is_reported(states, inputs, actions, j);
            let i = choose|i: int| 0 <= i < j && #[trigger] inputs[i] == Input::Metadata(Some(sent_stamp(states, j)));
            assert(inputs[i] matches Input::Metadata(m) && significant(m, states[0].watermark));
        }
    }
}

/// However many notifications arrive while the loop is behind, it sends at
/// most one payload per distinct modification time that it saw, later than
/// the watermark it started from: a file modified N times yields at most N
/// payloads.
pub proof fn lemma_at_most_one_payload_per_modification(
    states: Seq<WatchSupervisor>,
    inputs: Seq<Input>,
    actions: Seq<Action>,
)
    requires
        is_run(states, inputs, actions),
        states[0].phase is Waiting,
    ensures
        send_steps(actions).finite(),
        newer_stamps(inputs, states[0].watermark).finite(),
        send_steps(actions).len() <= newer_stamps(inputs, states[0].watermark).len(),
{
    let w0 = states[0].watermark;
    let sends = send_steps(actions);
    let reports = newer_reports(inputs, w0);
    let stamps = newer_stamps(inputs, w0);
    let f = |i: int| sent_stamp(states, i);
    lemma_int_range(0, inputs.len() as int);
    lemma_len_subset(sends, set_int_range(0, inputs.len() as int));
    lemma_len_subset(reports, set_int_range(0, inputs.len() as int));
    reports.lemma_map_finite(|i: int| inputs[i]->Metadata_0->Some_0);
    assert forall|a: int, b: int| sends.contains(a) && sends.contains(b) && #[trigger] f(a) == #[trigger] f(b) implies a == b by {
        if a < b {
            lemma_sends_are_fresh_and_ordered(states, inputs, actions, a, b);
        } else if b < a {
            lemma_sends_are_fresh_and_ordered(states, inputs, actions, b, a);
        }
    }
    assert(injective_on(f, sends));
    assert forall|m: u128| sends.map(f).contains(m) implies stamps.contains(m) by {
        let j = choose|j: int| sends.contains(j) && f(j) == m;
        lemma_send_is_reported(states, inputs, actions, j);
        let i = choose|i: int| 0 <= i < j && #[trigger] inputs[i] == Input::Metadata(Some(sent_stamp(states, j)));
        assert(reports.contains(i));
    }
    lemma_map_size(sends, sends.map(f), f);
    lemma_len_subset(sends.map(f), stamps);
}

/// Every payload is the rendering of non-empty content, read at the step
/// that sends it: empty content and failed reads never reach the client.
pub proof fn lemma_payloads_render_nonempty_reads(
    states: Seq<WatchSupervisor>,
    inputs: Seq<Input>,
    actions: Seq<Action>,
)
    requires
        is_run(states, inputs, actions),
    ensures
        forall|i: int|
            0 <= i < actions.len() && #[trigger] actions[i] is Send ==> (inputs[i] matches Input::Content(Some(text))
                && text@.len() > 0 && actions[i]->Send_payload@ == html_of(text@)),
{
    assert forall|i: int|
        0 <= i < actions.len() && #[trigger] actions[i] is Send implies (inputs[i] matches Input::Content(Some(text))
            && text@.len() > 0 && actions[i]->Send_payload@ == html_of(text@)) by {
        assert(step_allowed(states[i], inputs[i], states[i + 1], actions[i]));
    }
}

proof fn lemma_stays_terminated(
    states: Seq<WatchSupervisor>,
    inputs: Seq<Input>,
    actions: Seq<Action>,
    k: int,
    i: int,
)
    requires
        is_run(states, inputs, actions),
        0 <= k <= i <= inputs.len(),
        states[k].phase is Terminated,
    ensures
        states[i] == states[k],
    decreases i - k,
{
    if i > k {
        lemma_stays_terminated(states, inputs, actions, k, i - 1);
        assert(step_allowed(states[i - 1], inputs[i - 1], states[i - 1 + 1], actions[i - 1]));
    }
}

/// Once a send finds the client gone, the loop stops at that very step and
/// stays stopped: every later input is answered with the same stop, so the
/// watch is released and nothing more is read or sent.
pub proof fn lemma_disconnect_stops_loop(
    states: Seq<WatchSupervisor>,
    inputs: Seq<Input>,
    actions: Seq<Action>,
    k: int,
)
    requires
        is_run(states, inputs, actions),
        0 <= k < inputs.len(),
        states[k].phase is Sending,
        inputs[k] == Input::PeerClosed,
    ensures
        forall|i: int| k < i <= inputs.len() ==> #[trigger] states[i].phase == (Phase::Terminated { reason: Termination::PeerClosed }),
        forall|i: int| k <= i < inputs.len() ==> #[trigger] actions[i] == (Action::Stop { reason: Termination::PeerClosed }),
{
    assert(step_allowed(states[k], inputs[k], states[k + 1], actions[k]));
    assert forall|i: int| k < i <= inputs.len() implies #[trigger] states[i].phase == (Phase::Terminated { reason: Termination::PeerClosed }) by {
        lemma_stays_terminated(states, inputs, actions, k + 1, i);
    }
    assert forall|i: int| k <= i < inputs.len() implies #[trigger] actions[i] == (Action::Stop { reason: Termination::PeerClosed }) by {
        if i > k {
            lemma_stays_terminated(states, inputs, actions, k + 1, i);
            assert(step_allowed(states[i], inputs[i], states[i + 1], actions[i]));
        }
    }
}

/// A change is never lost: from a waiting loop, a notification, a
/// modification time later than the watermark and a successful non-empty
/// read send exactly the rendering of what was read.
pub proof fn lemma_change_reaches_client(
    states: Seq<WatchSupervisor>,
    inputs: Seq<Input>,
    actions: Seq<Action>,
    modified: u128,
    text: String,
)
    requires
        is_run(states, inputs, actions),
        states[0].phase is Waiting,
        inputs == seq![
            Input::Notified(Notification::Changed),
            Input::Metadata(Some(modified)),
            Input::Content(Some(text)),
        ],
        newer_than(modified, states[0].watermark),
        text@.len() > 0,
    ensures
        actions[2] matches Action::Send { payload } && payload@ == html_of(text@),
        states[3].phase == (Phase::Sending { stamp: modified }),
{
    lemma_step(states, inputs, actions, 0);
    lemma_step(states, inputs, actions, 1);
    lemma_step(states, inputs, actions, 2);
}

} // verus!

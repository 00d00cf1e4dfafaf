use vstd::prelude::*;

use crate::dispatch::{next, Action, Event, Outcome, Phase};
use crate::key::WireHeader;
use crate::registry::{Mode, Registry};
use crate::wire::{varint, WireError};

verus! {

/// The actions that the dispatch path is asked to perform, one per event,
/// when the events `evs` arrive in order from phase `p`.
pub open spec fn actions(reg: Registry, p: Phase, evs: Seq<Event>) -> Seq<Action>
    decreases evs.len(),
{
    if evs.len() == 0 {
        Seq::empty()
    } else {
        let (p1, a) = next(reg, p, evs[0]);
        seq![a] + actions(reg, p1, evs.subrange(1, evs.len() as int))
    }
}

/// A request whose key is registered and whose payload decodes runs the
/// handler bound to that key, and no other one.
pub proof fn lemma_request_runs_its_handler(reg: Registry, h: WireHeader, i: usize)
    requires
        reg.wf(),
        i < reg@.len(),
        reg@[i as int].req_key@ == h.key@,
    ensures
        next(reg, Phase::Idle, Event::Frame(h)) == (Phase::Decoding { header: h, index: i }, Action::Decode { index: i }),
        next(reg, Phase::Decoding { header: h, index: i }, Event::Decoded(true)) == (
            Phase::Running { header: h, index: i },
            Action::Run { index: i, mode: reg@[i as int].mode, header: h },
        ),
        forall|j: int| 0 <= j < reg@.len() && j != i ==> #[trigger] reg@[j].req_key@ != h.key@,
{
    assert(reg.has_key(h.key@));
    let c = choose|c: usize| c < reg@.len() && #[trigger] reg@[c as int].req_key@ == h.key@;
    assert(c == i) by {
        if c != i {
            assert(reg@[c as int].req_key@ != reg@[i as int].req_key@);
        }
    }
    assert forall|j: int| 0 <= j < reg@.len() && j != i implies #[trigger] reg@[j].req_key@ != h.key@ by {
        assert(reg@[j].req_key@ != reg@[i as int].req_key@);
    }
}

/// A frame whose key is not registered gets exactly one error frame,
/// `UnknownKey` with the key's bytes and the request's correlation number,
/// and no handler runs: the path is ready for the next frame.
pub proof fn lemma_unknown_key(reg: Registry, h: WireHeader)
    requires
        !reg.has_key(h.key@),
    ensures
        next(reg, Phase::Idle, Event::Frame(h)) == (
            Phase::Idle,
            Action::Error { seq_no: h.seq_no, error: WireError::UnknownKey(h.key.bytes) },
        ),
        WireError::UnknownKey(h.key.bytes).encoding() == varint(2) + h.key@,
{
}

/// A payload that does not decode gets exactly one `DeserFailed` error frame
/// with the request's correlation number, and the handler is not run.
pub proof fn lemma_malformed_payload(reg: Registry, h: WireHeader, i: usize)
    requires
        reg.wf(),
        i < reg@.len(),
        reg@[i as int].req_key@ == h.key@,
    ensures
        actions(reg, Phase::Idle, seq![Event::Frame(h), Event::Decoded(false)]) == seq![
            Action::Decode { index: i },
            Action::Error { seq_no: h.seq_no, error: WireError::DeserFailed },
        ],
        next(reg, Phase::Decoding { header: h, index: i }, Event::Decoded(false)).0 == Phase::Idle,
{
    lemma_request_runs_its_handler(reg, h, i);
    let evs = seq![Event::Frame(h), Event::Decoded(false)];
    let rest = evs.subrange(1, 2);
    assert(rest =~= seq![Event::Decoded(false)]);
    assert(rest.subrange(1, 1) =~= Seq::<Event>::empty());
    let p1 = Phase::Decoding { header: h, index: i };
    assert(actions(reg, Phase::Idle, evs) == seq![Action::Decode { index: i }] + actions(reg, p1, rest));
    assert(actions(reg, p1, rest) == seq![Action::Error { seq_no: h.seq_no, error: WireError::DeserFailed }]
        + actions(reg, Phase::Idle, rest.subrange(1, 1)));
    assert(actions(reg, Phase::Idle, evs) =~= seq![
        Action::Decode { index: i },
        Action::Error { seq_no: h.seq_no, error: WireError::DeserFailed },
    ]);
}

/// A response that does not encode gets exactly one `SerFailed` error frame
/// with the request's correlation number, and no reply frame.
pub proof fn lemma_encode_failure(reg: Registry, h: WireHeader, i: usize)
    ensures
        next(reg, Phase::Running { header: h, index: i }, Event::Finished(Outcome::Reply(false))) == (
            Phase::Idle,
            Action::Error { seq_no: h.seq_no, error: WireError::SerFailed },
        ),
{
}

/// A spawned handler hands the path back as soon as it is submitted: success
/// of the submission asks for nothing more, and its failure for exactly one
/// `FailedToSpawn` error frame.
pub proof fn lemma_spawn(reg: Registry, h: WireHeader, i: usize)
    requires
        i < reg@.len(),
        reg@[i as int].mode == Mode::Spawn,
    ensures
        next(reg, Phase::Running { header: h, index: i }, Event::Finished(Outcome::SpawnSuccess)) == (
            Phase::Idle,
            Action::Nothing,
        ),
        next(reg, Phase::Running { header: h, index: i }, Event::Finished(Outcome::SpawnFailure)) == (
            Phase::Idle,
            Action::Error { seq_no: h.seq_no, error: WireError::FailedToSpawn },
        ),
{
}

proof fn lemma_actions_len(reg: Registry, p: Phase, evs: Seq<Event>)
    ensures
        actions(reg, p, evs).len() == evs.len(),
    decreases evs.len(),
{
    if evs.len() > 0 {
        let (p1, a) = next(reg, p, evs[0]);
        lemma_actions_len(reg, p1, evs.subrange(1, evs.len() as int));
    }
}

proof fn lemma_running_waits(reg: Registry, p: Phase, evs: Seq<Event>, j: int)
    requires
        p is Running,
        0 <= j < evs.len(),
        0 <= j < actions(reg, p, evs).len(),
        actions(reg, p, evs)[j] is Run,
    ensures
        exists|k: int| 0 <= k < j && #[trigger] evs[k] is Finished,
    decreases evs.len(),
{
    let (p1, a) = next(reg, p, evs[0]);
    let rest = evs.subrange(1, evs.len() as int);
    lemma_actions_len(reg, p1, rest);
    assert(actions(reg, p, evs) == seq![a] + actions(reg, p1, rest));
    if evs[0] is Finished {
        assert(j != 0);
        assert(evs[0] is Finished);
    } else {
        assert(p1 == p);
        assert(j != 0);
        assert(actions(reg, p, evs)[j] == actions(reg, p1, rest)[j - 1]);
        lemma_running_waits(reg, p1, rest, j - 1);
        let k = choose|k: int| 0 <= k < j - 1 && #[trigger] rest[k] is Finished;
        assert(evs[k + 1] == rest[k]);
    }
}

/// On the dispatch path one handler runs at a time: between the start of
/// one handler and the start of the next, the first one's outcome has come in.
pub proof fn lemma_one_handler_at_a_time(reg: Registry, p: Phase, evs: Seq<Event>, i: int, j: int)
    requires
        0 <= i < j < evs.len(),
        actions(reg, p, evs)[i] is Run,
        actions(reg, p, evs)[j] is Run,
    ensures
        exists|k: int| i < k < j && #[trigger] evs[k] is Finished,
    decreases evs.len(),
{
    let (p1, a) = next(reg, p, evs[0]);
    let rest = evs.subrange(1, evs.len() as int);
    lemma_actions_len(reg, p1, rest);
    assert(actions(reg, p, evs) == seq![a] + actions(reg, p1, rest));
    assert(actions(reg, p, evs)[j] == actions(reg, p1, rest)[j - 1]);
    if i == 0 {
        assert(a is Run);
        assert(p1 is Running);
        lemma_running_waits(reg, p1, rest, j - 1);
        let k = choose|k: int| 0 <= k < j - 1 && #[trigger] rest[k] is Finished;
        assert(evs[k + 1] == rest[k]);
    } else {
        assert(actions(reg, p, evs)[i] == actions(reg, p1, rest)[i - 1]);
        lemma_one_handler_at_a_time(reg, p1, rest, i - 1, j - 1);
        let k = choose|k: int| i - 1 < k < j - 1 && #[trigger] rest[k] is Finished;
        assert(evs[k + 1] == rest[k]);
    }
}

} // verus!

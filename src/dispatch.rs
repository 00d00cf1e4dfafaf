use vstd::prelude::*;

use crate::key::{Key, WireHeader};
use crate::registry::{Mode, Registry};
use crate::wire::WireError;

verus! {

/// What running a handler produced: a reply value, or whether a spawned
/// handler could be submitted to the scheduler.
#[derive(Clone, Copy, Debug, PartialEq, Eq)]
pub enum Outcome<T> {
    Reply(T),
    SpawnSuccess,
    SpawnFailure,
}

/// Where the dispatch path stands on the frame it is serving.
#[derive(Clone, Copy, Debug, PartialEq, Eq)]
pub enum Phase {
    /// Ready for the next inbound frame.
    Idle,
    /// Waiting for the payload to be decoded as endpoint `index`'s request.
    Decoding { header: WireHeader, index: usize },
    /// Waiting for endpoint `index`'s handler to produce its outcome.
    Running { header: WireHeader, index: usize },
}

/// What the dispatch path reports to the dispatcher.
#[derive(Clone, Copy, Debug, PartialEq, Eq)]
pub enum Event {
    /// An inbound frame with this header arrived; its payload is held by the caller.
    Frame(WireHeader),
    /// Whether the payload decoded as the endpoint's request type.
    Decoded(bool),
    /// The handler's outcome; for a reply, whether the response value encoded.
    Finished(Outcome<bool>),
}

/// What the dispatch path must do next.
#[derive(Clone, Copy, Debug, PartialEq, Eq)]
pub enum Action {
    /// Decode the payload as the request type of endpoint `index`.
    Decode { index: usize },
    /// Run the handler of endpoint `index` on the decoded request, in `mode`.
    Run { index: usize, mode: Mode, header: WireHeader },
    /// Send the encoded response under `key`, answering request `seq_no`.
    Reply { seq_no: u32, key: Key },
    /// Send the error frame for `error`, answering request `seq_no`.
    Error { seq_no: u32, error: WireError },
    /// Nothing to send.
    Nothing,
}

/// Whether a phase names an endpoint of `reg` whose key is the header's.
pub open spec fn phase_ok(reg: Registry, p: Phase) -> bool {
    match p {
        Phase::Idle => true,
        Phase::Decoding { header, index } => index < reg@.len() && reg@[index as int].req_key@
            == header.key@,
        Phase::Running { header, index } => index < reg@.len() && reg@[index as int].req_key@
            == header.key@,
    }
}

/// One step of dispatch: the phase that follows `p` on event `e`, and the
/// action that the dispatch path must perform. An event that does not fit the
/// phase is ignored.
pub open spec fn next(reg: Registry, p: Phase, e: Event) -> (Phase, Action) {
    match (p, e) {
        (Phase::Idle, Event::Frame(h)) => match reg.index_of(h.key@) {
            None => (Phase::Idle, Action::Error { seq_no: h.seq_no, error: WireError::UnknownKey(h.key.bytes) }),
            Some(i) => (Phase::Decoding { header: h, index: i }, Action::Decode { index: i }),
        },
        (Phase::Decoding { header, index }, Event::Decoded(ok)) => if ok {
            (
                Phase::Running { header, index },
                Action::Run { index, mode: reg@[index as int].mode, header },
            )
        } else {
            (Phase::Idle, Action::Error { seq_no: header.seq_no, error: WireError::DeserFailed })
        },
        (Phase::Running { header, index }, Event::Finished(o)) => match o {
            Outcome::Reply(encoded) => if encoded {
                (Phase::Idle, Action::Reply { seq_no: header.seq_no, key: reg@[index as int].resp_key })
            } else {
                (Phase::Idle, Action::Error { seq_no: header.seq_no, error: WireError::SerFailed })
            },
            Outcome::SpawnSuccess => (Phase::Idle, Action::Nothing),
            Outcome::SpawnFailure => (
                Phase::Idle,
                Action::Error { seq_no: header.seq_no, error: WireError::FailedToSpawn },
            ),
        },
        _ => (p, Action::Nothing),
    }
}

/// The dispatcher: the endpoint registry and the phase of the single
/// dispatch path. Frames are served one at a time.
pub struct Dispatcher {
    registry: Registry,
    phase: Phase,
}

impl Dispatcher {
    pub closed spec fn spec_registry(&self) -> Registry {
        self.registry
    }

    pub closed spec fn spec_phase(&self) -> Phase {
        self.phase
    }

    pub open spec fn wf(&self) -> bool {
        self.spec_registry().wf() && phase_ok(self.spec_registry(), self.spec_phase())
    }

    /// A dispatcher over `registry`, ready for the first frame.
    pub fn new(registry: Registry) -> (r: Dispatcher)
        requires
            registry.wf(),
        ensures
            r.wf(),
            r.spec_registry() == registry,
            r.spec_phase() == Phase::Idle,
    {
        Dispatcher { registry, phase: Phase::Idle }
    }

    /// The registry that the dispatcher serves.
    pub fn registry(&self) -> (r: &Registry)
        ensures
            *r == self.spec_registry(),
    {
        &self.registry
    }

    /// The current phase of the dispatch path.
    pub fn phase(&self) -> (r: Phase)
        ensures
            r == self.spec_phase(),
    {
        self.phase
    }

    /// Takes in one event and says what to do next.
    pub fn step(&mut self, event: Event) -> (r: Action)
        requires
            old(self).wf(),
        ensures
            final(self).wf(),
            final(self).spec_registry() == old(self).spec_registry(),
            (final(self).spec_phase(), r) == next(old(self).spec_registry(), old(self).spec_phase(), event),
    {
        match (self.phase, event) {
            (Phase::Idle, Event::Frame(h)) => match self.registry.lookup(&h.key) {
                None => Action::Error { seq_no: h.seq_no, error: WireError::UnknownKey(h.key.to_bytes()) },
                Some(i) => {
                    self.phase = Phase::Decoding { header: h, index: i };
                    Action::Decode { index: i }
                },
            },
            (Phase::Decoding { header, index }, Event::Decoded(ok)) => {
                if ok {
                    self.phase = Phase::Running { header, index };
                    Action::Run { index, mode: self.registry.endpoint(index).mode, header }
                } else {
                    self.phase = Phase::Idle;
                    Action::Error { seq_no: header.seq_no, error: WireError::DeserFailed }
                }
            },
            (Phase::Running { header, index }, Event::Finished(o)) => {
                self.phase = Phase::Idle;
                match o {
                    Outcome::Reply(encoded) => {
                        if encoded {
                            Action::Reply { seq_no: header.seq_no, key: self.registry.endpoint(index).resp_key }
                        } else {
                            Action::Error { seq_no: header.seq_no, error: WireError::SerFailed }
                        }
                    },
                    Outcome::SpawnSuccess => Action::Nothing,
                    Outcome::SpawnFailure => Action::Error {
                        seq_no: header.seq_no,
                        error: WireError::FailedToSpawn,
                    },
                }
            },
            _ => Action::Nothing,
        }
    }
}

} // verus!

use vstd::prelude::*;

use crate::key::Key;

verus! {

/// How an endpoint's handler is run.
#[derive(Clone, Copy, Debug, PartialEq, Eq, Structural)]
pub enum Mode {
    /// Called inline; the dispatch path waits for it to return.
    Blocking,
    /// Awaited inline; the dispatch path is suspended until it completes.
    Async,
    /// Submitted to a task scheduler; the dispatch path does not wait for it.
    Spawn,
}

/// One registered endpoint. Its handler is the one stored at the same index
/// as the endpoint in the registry.
#[derive(Clone, Copy, Debug, PartialEq, Eq)]
pub struct Endpoint {
    /// The key that selects this endpoint for an inbound request.
    pub req_key: Key,
    /// The key under which its replies are sent.
    pub resp_key: Key,
    pub mode: Mode,
}

/// Two endpoints, at the given indices, share a request key.
#[derive(Clone, Copy, Debug, PartialEq, Eq, Structural)]
pub struct DuplicateKey {
    pub first: usize,
    pub second: usize,
}

/// Whether no two endpoints share a request key.
pub open spec fn unique_keys(s: Seq<Endpoint>) -> bool {
    forall|i: int, j: int|
        0 <= i < s.len() && 0 <= j < s.len() && i != j ==> #[trigger] s[i].req_key@
            != #[trigger] s[j].req_key@
}

/// The immutable table of endpoints, built once before the first dispatch.
pub struct Registry {
    endpoints: Vec<Endpoint>,
}

impl View for Registry {
    type V = Seq<Endpoint>;

    closed spec fn view(&self) -> Seq<Endpoint> {
        self.endpoints@
    }
}

impl Registry {
    /// A registry is well formed when its request keys are unique.
    pub open spec fn wf(&self) -> bool {
        unique_keys(self@)
    }

    /// Whether some endpoint is registered under `k`.
    pub open spec fn has_key(&self, k: Seq<u8>) -> bool {
        exists|i: int| 0 <= i < self@.len() && #[trigger] self@[i].req_key@ == k
    }

    /// The index of the endpoint registered under `k`, if any.
    pub open spec fn index_of(&self, k: Seq<u8>) -> Option<usize> {
        if self.has_key(k) {
            Some(choose|i: usize| i < self@.len() && #[trigger] self@[i as int].req_key@ == k)
        } else {
            None
        }
    }

    /// Builds the registry, refusing any two endpoints that share a request
    /// key: such a table is a configuration defect and must not serve.
    pub fn new(endpoints: Vec<Endpoint>) -> (r: Result<Registry, DuplicateKey>)
        ensures
            r is Ok <==> unique_keys(endpoints@),
            r matches Ok(reg) ==> reg@ == endpoints@ && reg.wf(),
            r matches Err(d) ==> d.first < d.second < endpoints@.len()
                && endpoints@[d.first as int].req_key@ == endpoints@[d.second as int].req_key@,
    {
        let n = endpoints.len();
        let mut i: usize = 0;
        while i < n
            invariant
                n == endpoints@.len(),
                i <= n,
                forall|a: int, b: int|
                    0 <= a < i && 0 <= b < n && a != b ==> #[trigger] endpoints@[a].req_key@
                        != #[trigger] endpoints@[b].req_key@,
            decreases n - i,
        {
            let mut j: usize = i + 1;
            while j < n
                invariant
                    n == endpoints@.len(),
                    i < n,
                    i < j <= n,
                    forall|a: int, b: int|
                        0 <= a < i && 0 <= b < n && a != b ==> #[trigger] endpoints@[a].req_key@
                            != #[trigger] endpoints@[b].req_key@,
                    forall|b: int| i < b < j ==> endpoints@[i as int].req_key@ != #[trigger] endpoints@[b].req_key@,
                decreases n - j,
            {
                if endpoints[i].req_key.same_as(&endpoints[j].req_key) {
                    return Err(DuplicateKey { first: i, second: j });
                }
                j = j + 1;
            }
            assert forall|a: int, b: int|
                0 <= a < i + 1 && 0 <= b < n && a != b implies #[trigger] endpoints@[a].req_key@
                    != #[trigger] endpoints@[b].req_key@ by {
                if a == i && b < i {
                    assert(endpoints@[b].req_key@ != endpoints@[a].req_key@);
                }
            }
            i = i + 1;
        }
        Ok(Registry { endpoints })
    }

    /// The number of endpoints.
    pub fn len(&self) -> (r: usize)
        ensures
            r == self@.len(),
    {
        self.endpoints.len()
    }

    /// The endpoint at index `i`.
    pub fn endpoint(&self, i: usize) -> (r: Endpoint)
        requires
            i < self@.len(),
        ensures
            r == self@[i as int],
    {
        self.endpoints[i]
    }

    /// Finds the endpoint registered under `key`.
    pub fn lookup(&self, key: &Key) -> (r: Option<usize>)
        requires
            self.wf(),
        ensures
            r == self.index_of(key@),
            r matches Some(i) ==> i < self@.len() && self@[i as int].req_key@ == key@,
            r is None <==> !self.has_key(key@),
    {
        let n = self.endpoints.len();
        let mut i: usize = 0;
        while i < n
            invariant
                self.wf(),
                n == self@.len(),
                i <= n,
                forall|a: int| 0 <= a < i ==> #[trigger] self@[a].req_key@ != key@,
            decreases n - i,
        {
            if self.endpoints[i].req_key.same_as(key) {
                proof {
                    assert(self.has_key(key@));
                    let c = choose|c: usize| c < self@.len() && #[trigger] self@[c as int].req_key@ == key@;
                    assert(c == i) by {
                        if c != i {
                            assert(self@[c as int].req_key@ != self@[i as int].req_key@);
                        }
                    }
                }
                return Some(i);
            }
            i = i + 1;
        }
        None
    }
}

} // verus!

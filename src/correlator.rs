//! Matching streaming responses to the requests that wait for them.
use vstd::prelude::*;

verus! {

/// A caller-chosen token that a streaming response echoes back.
#[derive(Debug, Hash)]
pub struct RequestId(pub String);

impl Clone for RequestId {
    fn clone(&self) -> (r: RequestId)
        ensures
            r == *self,
    {
        RequestId(self.0.clone())
    }
}

impl View for RequestId {
    type V = Seq<char>;

    open spec fn view(&self) -> Seq<char> {
        self.0@
    }
}

impl RequestId {
    /// A request id from its text.
    pub fn from(s: String) -> (r: RequestId)
        ensures
            r@ == s@,
    {
        RequestId(s)
    }

    pub fn as_str(&self) -> (r: &str)
        ensures
            r@ == self@,
    {
        self.0.as_str()
    }
}

/// `k` is the first pending entry registered under `id`.
pub open spec fn is_first_entry<W>(pending: Seq<(RequestId, W)>, id: Seq<char>, k: int) -> bool {
    0 <= k < pending.len() && pending[k].0@ == id && forall|j: int|
        0 <= j < k ==> (#[trigger] pending[j]).0@ != id
}

/// The requests that await a response, each with what waits for it, in registration order.
/// Uniqueness of ids is the callers' business; a response goes to the earliest waiter
/// registered under its id, and to no other.
#[derive(Debug)]
pub struct RequestCorrelator<W> {
    pending: Vec<(RequestId, W)>,
}

impl<W> RequestCorrelator<W> {
    pub closed spec fn entries(&self) -> Seq<(RequestId, W)> {
        self.pending@
    }

    /// No request pending.
    pub fn new() -> (r: RequestCorrelator<W>)
        ensures
            r.entries().len() == 0,
    {
        RequestCorrelator { pending: Vec::new() }
    }

    /// Number of requests pending.
    pub fn pending_count(&self) -> (r: usize)
        ensures
            r == self.entries().len(),
    {
        self.pending.len()
    }

    /// Registers a request and its waiter.
    pub fn register(&mut self, id: RequestId, waiter: W)
        ensures
            final(self).entries() == old(self).entries().push((id, waiter)),
    {
        self.pending.push((id, waiter));
    }

    /// Hands a response with this id to its waiter: the earliest entry registered under the
    /// id leaves the table and its waiter is returned; with no such entry nothing changes.
    pub fn resolve(&mut self, id: &RequestId) -> (r: Option<W>)
        ensures
            r is None ==> final(self).entries() == old(self).entries() && forall|k: int|
                0 <= k < old(self).entries().len() ==> (#[trigger] old(self).entries()[k]).0@ != id@,
            r matches Some(w) ==> exists|k: int|
                is_first_entry(old(self).entries(), id@, k) && w == old(self).entries()[k].1
                    && final(self).entries() == old(self).entries().remove(k),
    {
        let mut k: usize = 0;
        while k < self.pending.len()
            invariant
                k <= self.pending@.len(),
                self.pending@ == old(self).pending@,
                forall|j: int| 0 <= j < k ==> (#[trigger] self.pending@[j]).0@ != id@,
            decreases self.pending@.len() - k,
        {
            if self.pending[k].0.0 == id.0 {
                let entry = self.pending.remove(k);
                assert(is_first_entry(old(self).entries(), id@, k as int));
                return Some(entry.1);
            }
            k = k + 1;
        }
        None
    }

    /// Fails every pending request, as when the connection closes: all waiters are handed
    /// back in registration order and the table is left empty.
    pub fn fail_all(&mut self) -> (r: Vec<(RequestId, W)>)
        ensures
            r@ == old(self).entries(),
            final(self).entries().len() == 0,
    {
        let mut taken: Vec<(RequestId, W)> = Vec::new();
        std::mem::swap(&mut taken, &mut self.pending);
        taken
    }
}

} // verus!

//! Multiplexing packets of one socket to endpoints (RFC 7983): the table of
//! registered endpoints and what a dispatch does with a packet.
use vstd::prelude::*;

verus! {

/// Bytes an endpoint may buffer before writes to it fail.
pub const MAX_BUFFER_SIZE: usize = 1000 * 1000;

/// The endpoints of a mux, each under the id it was registered with, in
/// the order of registration.
pub struct EndpointTable<T> {
    next_id: usize,
    entries: Vec<(usize, T)>,
}

impl<T> EndpointTable<T> {
    /// The registered endpoints with their ids, in order of registration.
    pub closed spec fn spec_entries(&self) -> Seq<(usize, T)> {
        self.entries@
    }

    /// The id the next endpoint gets.
    pub closed spec fn spec_next_id(&self) -> usize {
        self.next_id
    }

    /// Ids grow with registration order and stay below the next id, so
    /// no two endpoints share one.
    pub closed spec fn wf(&self) -> bool {
        &&& forall|i: int, j: int|
            0 <= i < j < self.entries@.len() ==> (#[trigger] self.entries@[i]).0
                < (#[trigger] self.entries@[j]).0
        &&& forall|i: int| 0 <= i < self.entries@.len() ==> (#[trigger] self.entries@[i]).0 < self.next_id
    }

    /// An empty table whose first endpoint gets id 0.
    pub fn new() -> (r: Self)
        ensures
            r.wf(),
            r.spec_entries().len() == 0,
            r.spec_next_id() == 0,
    {
        EndpointTable { next_id: 0, entries: Vec::new() }
    }

    /// Number of registered endpoints.
    pub fn len(&self) -> (r: usize)
        ensures
            r == self.spec_entries().len(),
    {
        self.entries.len()
    }

    /// Registers `endpoint` under the next id and returns that id; `None`
    /// (and no change) once every id has been handed out.
    pub fn new_endpoint(&mut self, endpoint: T) -> (r: Option<usize>)
        requires
            old(self).wf(),
        ensures
            final(self).wf(),
            r is None <==> old(self).spec_next_id() == usize::MAX,
            r is None ==> final(self).spec_entries() == old(self).spec_entries(),
            r matches Some(id) ==> {
                &&& id == old(self).spec_next_id()
                &&& final(self).spec_entries() == old(self).spec_entries().push((id, endpoint))
                &&& final(self).spec_next_id() == id + 1
            },
    {
        if self.next_id == usize::MAX {
            return None;
        }
        let id = self.next_id;
        self.entries.push((id, endpoint));
        self.next_id = id + 1;
        Some(id)
    }

    /// Removes the endpoint registered under `id`, if any, and returns it;
    /// the others keep their order.
    pub fn remove_endpoint(&mut self, id: usize) -> (r: Option<T>)
        requires
            old(self).wf(),
        ensures
            final(self).wf(),
            final(self).spec_next_id() == old(self).spec_next_id(),
            r is None <==> forall|i: int|
                0 <= i < old(self).spec_entries().len() ==> (#[trigger] old(
                    self,
                ).spec_entries()[i]).0 != id,
            r is None ==> final(self).spec_entries() == old(self).spec_entries(),
            r matches Some(e) ==> exists|i: int|
                0 <= i < old(self).spec_entries().len() && old(self).spec_entries()[i] == (id, e)
                    && final(self).spec_entries() == old(self).spec_entries().remove(i),
    {
        let mut i: usize = 0;
        while i < self.entries.len()
            invariant
                self.wf(),
                i <= self.entries@.len(),
                self.entries@ == old(self).entries@,
                self.next_id == old(self).next_id,
                forall|k: int| 0 <= k < i ==> (#[trigger] self.entries@[k]).0 != id,
            decreases self.entries@.len() - i,
        {
            if self.entries[i].0 == id {
                let ghost before = self.entries@;
                let (_, e) = self.entries.remove(i);
                assert forall|a: int, b: int|
                    0 <= a < b < self.entries@.len() implies (#[trigger] self.entries@[a]).0
                    < (#[trigger] self.entries@[b]).0 by {
                    let a0 = if a < i { a } else { a + 1 };
                    let b0 = if b < i { b } else { b + 1 };
                    assert(self.entries@[a] == before[a0]);
                    assert(self.entries@[b] == before[b0]);
                    assert(before[a0].0 < before[b0].0);
                }
                assert forall|a: int| 0 <= a < self.entries@.len() implies (
                #[trigger] self.entries@[a]).0 < self.next_id by {
                    let a0 = if a < i { a } else { a + 1 };
                    assert(self.entries@[a] == before[a0]);
                }
                assert(before[i as int] == (id, e));
                assert(self.entries@ == before.remove(i as int));
                assert(old(self).spec_entries()[i as int].0 == id);
                return Some(e);
            }
            i = i + 1;
        }
        None
    }

    /// Removes every endpoint; ids are not handed out again.
    pub fn close(&mut self)
        requires
            old(self).wf(),
        ensures
            final(self).wf(),
            final(self).spec_entries().len() == 0,
            final(self).spec_next_id() == old(self).spec_next_id(),
    {
        self.entries.clear();
    }

    /// The id of the first endpoint, in registration order, whose match
    /// function accepted the packet; `matches[i]` is the answer of the i-th
    /// endpoint.
    pub fn first_match(&self, matches: &Vec<bool>) -> (r: Option<usize>)
        requires
            matches@.len() == self.spec_entries().len(),
        ensures
            r is None <==> forall|i: int| 0 <= i < matches@.len() ==> !#[trigger] matches@[i],
            r matches Some(id) ==> exists|i: int|
                0 <= i < matches@.len() && matches@[i] && self.spec_entries()[i].0 == id
                    && forall|k: int| 0 <= k < i ==> !#[trigger] matches@[k],
    {
        let mut i: usize = 0;
        while i < matches.len()
            invariant
                i <= matches@.len(),
                matches@.len() == self.entries@.len(),
                forall|k: int| 0 <= k < i ==> !#[trigger] matches@[k],
            decreases matches@.len() - i,
        {
            if matches[i] {
                return Some(self.entries[i].0);
            }
            i = i + 1;
        }
        None
    }
}

/// No two endpoints of a well-formed table share an id.
pub proof fn lemma_endpoint_ids_unique<T>(table: EndpointTable<T>)
    requires
        table.wf(),
    ensures
        forall|i: int, j: int|
            0 <= i < j < table.spec_entries().len() ==> (#[trigger] table.spec_entries()[i]).0
                != (#[trigger] table.spec_entries()[j]).0,
{
}

/// What writing a packet into an endpoint's buffer gave.
#[derive(Clone, Copy, Debug, PartialEq, Eq, Structural)]
pub enum BufferWrite {
    /// This many bytes were buffered.
    Written(usize),
    /// The buffer was full.
    Full,
    /// Any other failure of the buffer.
    Failed,
}

/// What the read loop does after dispatching one packet.
#[derive(Clone, Copy, Debug, PartialEq, Eq, Structural)]
pub enum DispatchOutcome {
    /// Keep reading; the packet was buffered or dropped.
    Continue,
    /// The endpoint's buffer failed: the read loop ends.
    Stop,
}

/// The outcome of dispatching a packet, given the result of writing it to
/// the matching endpoint (`None`: no endpoint matched, so the packet is
/// dropped). A full buffer drops the packet too; only another buffer
/// failure ends the loop.
pub fn dispatch_outcome(write: Option<BufferWrite>) -> (r: DispatchOutcome)
    ensures
        r == DispatchOutcome::Stop <==> write == Some(BufferWrite::Failed),
{
    match write {
        Some(BufferWrite::Failed) => DispatchOutcome::Stop,
        _ => DispatchOutcome::Continue,
    }
}

} // verus!

//! The table of channels: one for each kind of request. Answers arrive on
//! the channel of their kind in the order in which the fetches completed.

use vstd::prelude::*;
use crate::response::DataResponse;
use crate::types::{DataKind, KIND_COUNT};

verus! {

/// One channel for each kind of request.
#[derive(Debug)]
pub struct Channels {
    queues: Vec<Vec<Result<DataResponse, String>>>,
}

impl Channels {
    /// What waits on each channel, oldest first, by the place of the kind.
    pub closed spec fn view(&self) -> Seq<Seq<Result<DataResponse, String>>> {
        Seq::new(self.queues@.len(), |i: int| self.queues@[i]@)
    }

    /// The table has a channel for each kind.
    pub open spec fn wf(&self) -> bool {
        self@.len() == KIND_COUNT
    }

    /// What waits on the channel of a kind, oldest first.
    pub open spec fn waiting(&self, kind: DataKind) -> Seq<Result<DataResponse, String>> {
        self@[kind.index_spec() as int]
    }

    /// Whether the table has a channel for each kind.
    pub fn is_wf(&self) -> (r: bool)
        ensures
            r == self.wf(),
    {
        self.queues.len() == KIND_COUNT
    }

    /// A table of empty channels.
    pub fn new() -> (r: Self)
        ensures
            r.wf(),
            forall|i: int| 0 <= i < KIND_COUNT ==> (#[trigger] r@[i]).len() == 0,
    {
        let mut queues: Vec<Vec<Result<DataResponse, String>>> = Vec::new();
        let mut i: usize = 0;
        while i < KIND_COUNT
            invariant
                i <= KIND_COUNT,
                queues@.len() == i,
                forall|j: int| 0 <= j < i ==> (#[trigger] queues@[j])@.len() == 0,
            decreases KIND_COUNT - i,
        {
            queues.push(Vec::new());
            i = i + 1;
        }
        Channels { queues }
    }

    /// Puts the outcome of a completed fetch on the channel of its kind,
    /// behind what waits there.
    pub fn send(&mut self, kind: DataKind, outcome: Result<DataResponse, String>)
        requires
            old(self).wf(),
        ensures
            final(self).wf(),
            final(self)@ == old(self)@.update(
                kind.index_spec() as int,
                old(self).waiting(kind).push(outcome),
            ),
    {
        let index = kind.index();
        let ghost before = self@;
        let queue = &mut self.queues[index];
        queue.push(outcome);
        assert(self@ =~= before.update(index as int, before[index as int].push(outcome)));
    }

    /// The number of outcomes that wait on the channel of a kind.
    pub fn pending(&self, kind: DataKind) -> (r: usize)
        requires
            self.wf(),
        ensures
            r == self.waiting(kind).len(),
    {
        self.queues[kind.index()].len()
    }

    /// Takes the oldest outcome from the channel of a kind, if one waits
    /// there. Nothing is waited for.
    pub fn try_recv(&mut self, kind: DataKind) -> (r: Option<Result<DataResponse, String>>)
        requires
            old(self).wf(),
        ensures
            final(self).wf(),
            r.is_some() == (old(self).waiting(kind).len() > 0),
            r.is_some() ==> r.unwrap() == old(self).waiting(kind).first(),
            r.is_some() ==> final(self)@ == old(self)@.update(
                kind.index_spec() as int,
                old(self).waiting(kind).drop_first(),
            ),
            r.is_none() ==> final(self)@ == old(self)@,
    {
        let index = kind.index();
        let ghost before = self@;
        let queue = &mut self.queues[index];
        if queue.len() == 0 {
            assert(self@ =~= before);
            None
        } else {
            let outcome = queue.remove(0);
            assert(self@ =~= before.update(index as int, before[index as int].drop_first()));
            Some(outcome)
        }
    }
}

} // verus!

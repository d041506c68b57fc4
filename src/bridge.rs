use std::collections::HashMap;
use vstd::prelude::*;

use crate::error::CoreError;

verus! {

/// The operation an in-flight bridge belongs to, with the context that its
/// errors carry.
#[derive(Debug, Clone, Copy, PartialEq, Eq)]
pub enum IoOp {
    Write { offset: u64, len: usize },
    Read { offset: u64, len: usize },
    Reset,
    Admin { opcode: u8 },
}

/// The state of one completion bridge.
#[derive(Debug, Clone, Copy, PartialEq, Eq)]
pub enum Slot {
    /// Handed to the driver; no completion has arrived yet.
    InFlight(IoOp),
    /// The driver reported completion with the given success flag.
    Done(IoOp, bool),
    /// Its waiter went away; the completion is discarded when it arrives.
    Abandoned(IoOp),
}

/// The opaque context handed to the driver with a submission. Each one is
/// unique for the life of its table.
#[derive(Debug, Clone, Copy, PartialEq, Eq)]
pub struct Token {
    pub id: u64,
}

/// The error an operation reports when the driver refuses its submission.
pub open spec fn dispatch_error_of(op: IoOp, errno: i32) -> CoreError {
    match op {
        IoOp::Write { offset, len } => CoreError::WriteDispatch { errno, offset, len },
        IoOp::Read { offset, len } => CoreError::ReadDispatch { errno, offset, len },
        IoOp::Reset => CoreError::ResetDispatch { errno },
        IoOp::Admin { opcode } => CoreError::NvmeAdminDispatch { errno, opcode },
    }
}

/// What an operation returns once the driver reported its completion.
pub open spec fn completion_of(op: IoOp, success: bool) -> Result<usize, CoreError> {
    match op {
        IoOp::Write { offset, len } => if success {
            Ok(len)
        } else {
            Err(CoreError::WriteFailed { offset, len })
        },
        IoOp::Read { offset, len } => if success {
            Ok(len)
        } else {
            Err(CoreError::ReadFailed { offset, len })
        },
        IoOp::Reset => if success {
            Ok(0)
        } else {
            Err(CoreError::ResetFailed)
        },
        IoOp::Admin { opcode } => if success {
            Ok(0)
        } else {
            Err(CoreError::NvmeAdminFailed { opcode })
        },
    }
}

/// Builds the dispatch error of `op` for the submission status `errno`.
pub fn dispatch_error(op: IoOp, errno: i32) -> (e: CoreError)
    ensures
        e == dispatch_error_of(op, errno),
{
    match op {
        IoOp::Write { offset, len } => CoreError::WriteDispatch { errno, offset, len },
        IoOp::Read { offset, len } => CoreError::ReadDispatch { errno, offset, len },
        IoOp::Reset => CoreError::ResetDispatch { errno },
        IoOp::Admin { opcode } => CoreError::NvmeAdminDispatch { errno, opcode },
    }
}

/// Maps the success flag of a completed `op` to its result.
pub fn completion(op: IoOp, success: bool) -> (r: Result<usize, CoreError>)
    ensures
        r == completion_of(op, success),
{
    match op {
        IoOp::Write { offset, len } => if success {
            Ok(len)
        } else {
            Err(CoreError::WriteFailed { offset, len })
        },
        IoOp::Read { offset, len } => if success {
            Ok(len)
        } else {
            Err(CoreError::ReadFailed { offset, len })
        },
        IoOp::Reset => if success {
            Ok(0)
        } else {
            Err(CoreError::ResetFailed)
        },
        IoOp::Admin { opcode } => if success {
            Ok(0)
        } else {
            Err(CoreError::NvmeAdminFailed { opcode })
        },
    }
}

/// The whole outcome of `op`: the dispatch error when the driver refused
/// the submission with `status`, else the result its completion gives.
pub fn outcome(op: IoOp, status: i32, success: bool) -> (r: Result<usize, CoreError>)
    ensures
        status != 0 ==> r == Err::<usize, CoreError>(dispatch_error_of(op, status)),
        status == 0 ==> r == completion_of(op, success),
{
    if status != 0 {
        Err(dispatch_error(op, status))
    } else {
        completion(op, success)
    }
}

/// The table of completion bridges: one entry per operation that was handed
/// to the driver and whose result nobody has taken yet.
pub struct BridgeTable {
    slots: HashMap<u64, Slot>,
    next_id: u64,
}

/// The effect of a driver completion on the bridges `m`: the pending bridge
/// `id` is resolved, an abandoned one is dropped, anything else is left alone.
pub open spec fn complete_map(m: Map<u64, Slot>, id: u64, success: bool) -> Map<u64, Slot> {
    if m.contains_key(id) {
        match m[id] {
            Slot::InFlight(op) => m.insert(id, Slot::Done(op, success)),
            Slot::Abandoned(_) => m.remove(id),
            Slot::Done(_, _) => m,
        }
    } else {
        m
    }
}

/// Whether a driver completion for `id` resolves a waiting bridge of `m`.
pub open spec fn resolves(m: Map<u64, Slot>, id: u64) -> bool {
    m.contains_key(id) && m[id] is InFlight
}

impl BridgeTable {
    pub closed spec fn view(&self) -> Map<u64, Slot> {
        self.slots@
    }

    /// The identity the next bridge gets.
    pub closed spec fn next(&self) -> u64 {
        self.next_id
    }

    /// Every live bridge has an identity below the next one handed out.
    pub closed spec fn wf(&self) -> bool {
        forall|id: u64| #[trigger] self.slots@.contains_key(id) ==> id < self.next_id
    }

    pub fn new() -> (t: Self)
        ensures
            t.wf(),
            t@ == Map::<u64, Slot>::empty(),
            t.next() == 0,
    {
        BridgeTable { slots: HashMap::new(), next_id: 0 }
    }

    /// The state of the bridge of `t`, if it is live.
    pub fn slot(&self, t: Token) -> (r: Option<Slot>)
        requires
            self.wf(),
        ensures
            self@.contains_key(t.id) ==> r == Some(self@[t.id]),
            !self@.contains_key(t.id) ==> r is None,
    {
        match self.slots.get(&t.id) {
            Some(s) => Some(*s),
            None => None,
        }
    }

    /// Creates the bridge of a new operation. Returns `None` only when every
    /// identity of the table has been used.
    pub fn arm(&mut self, op: IoOp) -> (r: Option<Token>)
        requires
            old(self).wf(),
        ensures
            final(self).wf(),
            old(self).next() < u64::MAX ==> r == Some(Token { id: old(self).next() }),
            match r {
                Some(t) => {
                    &&& !old(self)@.contains_key(t.id)
                    &&& final(self)@ == old(self)@.insert(t.id, Slot::InFlight(op))
                    &&& final(self).next() == t.id + 1
                },
                None => {
                    &&& old(self).next() == u64::MAX
                    &&& final(self)@ == old(self)@
                    &&& final(self).next() == old(self).next()
                },
            },
    {
        if self.next_id == u64::MAX {
            return None;
        }
        let id = self.next_id;
        self.slots.insert(id, Slot::InFlight(op));
        self.next_id = id + 1;
        Some(Token { id })
    }

    /// Records the status the driver returned when `t` was submitted. A
    /// non-zero status means no completion will come: the bridge is discarded
    /// at once and the operation's dispatch error is returned.
    pub fn dispatched(&mut self, t: Token, status: i32) -> (r: Result<(), CoreError>)
        requires
            old(self).wf(),
        ensures
            final(self).wf(),
            final(self).next() == old(self).next(),
            status == 0 ==> r is Ok && final(self)@ == old(self)@,
            status != 0 && old(self)@.contains_key(t.id) && old(self)@[t.id] is InFlight
                ==> r == Err::<(), CoreError>(
                dispatch_error_of(old(self)@[t.id]->InFlight_0, status),
            ) && final(self)@ == old(self)@.remove(t.id),
            status != 0 && !(old(self)@.contains_key(t.id) && old(self)@[t.id] is InFlight)
                ==> r is Ok && final(self)@ == old(self)@,
    {
        if status == 0 {
            return Ok(());
        }
        match self.slots.get(&t.id) {
            Some(Slot::InFlight(op)) => {
                let op = *op;
                self.slots.remove(&t.id);
                Err(dispatch_error(op, status))
            },
            _ => Ok(()),
        }
    }

    /// The driver's completion callback for `t`. Returns whether it resolved
    /// a waiting bridge; a second completion of the same bridge changes
    /// nothing.
    pub fn complete(&mut self, t: Token, success: bool) -> (r: bool)
        requires
            old(self).wf(),
        ensures
            final(self).wf(),
            final(self).next() == old(self).next(),
            r == resolves(old(self)@, t.id),
            final(self)@ == complete_map(old(self)@, t.id, success),
    {
        match self.slots.get(&t.id) {
            Some(Slot::InFlight(op)) => {
                let op = *op;
                self.slots.insert(t.id, Slot::Done(op, success));
                true
            },
            Some(Slot::Abandoned(_)) => {
                self.slots.remove(&t.id);
                false
            },
            _ => false,
        }
    }

    /// Takes the result of `t` once its completion has arrived, releasing
    /// the bridge; `None` while it is still in flight.
    pub fn collect(&mut self, t: Token) -> (r: Option<Result<usize, CoreError>>)
        requires
            old(self).wf(),
        ensures
            final(self).wf(),
            final(self).next() == old(self).next(),
            old(self)@.contains_key(t.id) && old(self)@[t.id] is Done ==> {
                &&& r == Some(completion_of(old(self)@[t.id]->Done_0, old(self)@[t.id]->Done_1))
                &&& final(self)@ == old(self)@.remove(t.id)
            },
            !(old(self)@.contains_key(t.id) && old(self)@[t.id] is Done) ==> {
                &&& r is None
                &&& final(self)@ == old(self)@
            },
    {
        match self.slots.get(&t.id) {
            Some(Slot::Done(op, success)) => {
                let op = *op;
                let success = *success;
                self.slots.remove(&t.id);
                Some(completion(op, success))
            },
            _ => None,
        }
    }

    /// The waiter of `t` gives up: a result already there is dropped, and a
    /// completion still to come will be discarded when it arrives.
    pub fn abandon(&mut self, t: Token)
        requires
            old(self).wf(),
        ensures
            final(self).wf(),
            final(self).next() == old(self).next(),
            final(self)@ == (if old(self)@.contains_key(t.id) {
                match old(self)@[t.id] {
                    Slot::InFlight(op) => old(self)@.insert(t.id, Slot::Abandoned(op)),
                    Slot::Done(_, _) => old(self)@.remove(t.id),
                    Slot::Abandoned(_) => old(self)@,
                }
            } else {
                old(self)@
            }),
    {
        match self.slots.get(&t.id) {
            Some(Slot::InFlight(op)) => {
                let op = *op;
                self.slots.insert(t.id, Slot::Abandoned(op));
            },
            Some(Slot::Done(_, _)) => {
                self.slots.remove(&t.id);
            },
            _ => {},
        }
    }
}

/// A write that completes successfully yields exactly the length of the
/// buffer it was started with.
pub proof fn lemma_write_success_len(offset: u64, len: usize)
    ensures
        completion_of(IoOp::Write { offset, len }, true) == Ok::<usize, CoreError>(len),
        completion_of(IoOp::Read { offset, len }, true) == Ok::<usize, CoreError>(len),
{
}

/// A write armed on a fresh bridge, accepted by the driver and completed
/// with success, leaves a result that collects as the buffer's length.
pub proof fn lemma_write_round_trip(m: Map<u64, Slot>, id: u64, offset: u64, len: usize)
    requires
        !m.contains_key(id),
    ensures
        ({
            let done = complete_map(m.insert(id, Slot::InFlight(IoOp::Write { offset, len })), id, true);
            &&& done.contains_key(id)
            &&& done[id] is Done
            &&& completion_of(done[id]->Done_0, done[id]->Done_1) == Ok::<usize, CoreError>(len)
        }),
{
}

/// A submission that the driver refuses with a non-zero status gives the
/// dispatch error with that status and the operation's own offset and
/// length (or opcode), and its bridge is gone: no completion for it can
/// resolve anything or change the table.
pub proof fn lemma_refused_never_waits(m: Map<u64, Slot>, id: u64, errno: i32, success: bool)
    requires
        m.contains_key(id),
        m[id] is InFlight,
        errno != 0,
    ensures
        !resolves(m.remove(id), id),
        complete_map(m.remove(id), id, success) == m.remove(id),
        match m[id]->InFlight_0 {
            IoOp::Write { offset, len } => dispatch_error_of(m[id]->InFlight_0, errno)
                == CoreError::WriteDispatch { errno, offset, len },
            IoOp::Read { offset, len } => dispatch_error_of(m[id]->InFlight_0, errno)
                == CoreError::ReadDispatch { errno, offset, len },
            IoOp::Reset => dispatch_error_of(m[id]->InFlight_0, errno)
                == CoreError::ResetDispatch { errno },
            IoOp::Admin { opcode } => dispatch_error_of(m[id]->InFlight_0, errno)
                == CoreError::NvmeAdminDispatch { errno, opcode },
        },
{
}

/// A completion of a waiting bridge resolves that bridge and no other, and
/// leaves it resolved: a second completion of it resolves nothing and
/// changes nothing.
pub proof fn lemma_completion_resolves_once(m: Map<u64, Slot>, id: u64, success: bool, again: bool)
    requires
        resolves(m, id),
    ensures
        complete_map(m, id, success)[id] == Slot::Done(m[id]->InFlight_0, success),
        forall|other: u64|
            other != id ==> (#[trigger] complete_map(m, id, success).contains_key(other)
                == m.contains_key(other)) && (m.contains_key(other) ==> complete_map(
                m,
                id,
                success,
            )[other] == m[other]),
        !resolves(complete_map(m, id, success), id),
        complete_map(complete_map(m, id, success), id, again) == complete_map(m, id, success),
{
}

/// Two operations in flight at once are resolved independently: the
/// completion of one leaves the other's bridge as it was, and each, once
/// complete, yields its own result.
pub proof fn lemma_concurrent_independent(
    m: Map<u64, Slot>,
    a: u64,
    b: u64,
    success_a: bool,
    success_b: bool,
)
    requires
        a != b,
        resolves(m, a),
        resolves(m, b),
    ensures
        ({
            let m2 = complete_map(complete_map(m, a, success_a), b, success_b);
            &&& m2[a] == Slot::Done(m[a]->InFlight_0, success_a)
            &&& m2[b] == Slot::Done(m[b]->InFlight_0, success_b)
            &&& m2 == complete_map(complete_map(m, b, success_b), a, success_a)
        }),
{
    let x = complete_map(complete_map(m, a, success_a), b, success_b);
    let y = complete_map(complete_map(m, b, success_b), a, success_a);
    assert(x =~= y);
}

} // verus!

//! Persistent handler state: storage declared inside a handler body that
//! must survive across invocations.
//!
//! Each declared item becomes a statically allocated cell owned by the
//! handler's trampoline.  On every invocation the trampoline prepares the
//! cell — initializing it from the declared initializer on the first
//! entry, and on every later entry leaving it exactly as the previous
//! invocation left it — and then hands the handler exclusive access for
//! the duration of that invocation.

use vstd::prelude::*;

verus! {

/// One persistent-state cell: a fixed slot that is either still
/// uninitialized or holds the value the last access left in it.
pub struct StateCell<T> {
    state: Option<T>,
}

impl<T> StateCell<T> {
    /// The cell's contents, if it has been initialized.
    pub closed spec fn spec_state(self) -> Option<T> {
        self.state
    }

    /// Whether the one-shot initialization has happened.
    pub open spec fn initialized(self) -> bool {
        self.spec_state() is Some
    }

    /// A fresh, never-initialized cell, as static storage starts out.
    pub fn new() -> (c: Self)
        ensures
            !c.initialized(),
    {
        StateCell { state: None }
    }

    /// The one-shot initialization step the trampoline runs on every
    /// invocation: the first call stores the declared initializer, every
    /// later call changes nothing.
    pub fn prepare(&mut self, init: T)
        ensures
            final(self).initialized(),
            !old(self).initialized() ==> final(self).spec_state() == Some(init),
            old(self).initialized() ==> final(self).spec_state() == old(self).spec_state(),
    {
        if self.state.is_none() {
            self.state = Some(init);
        }
    }

    /// Read the cell during an invocation.
    pub fn read(&self) -> (v: &T)
        requires
            self.initialized(),
        ensures
            self.spec_state() == Some(*v),
    {
        self.state.as_ref().unwrap()
    }

    /// Write the cell during an invocation.
    pub fn write(&mut self, v: T)
        requires
            old(self).initialized(),
        ensures
            final(self).spec_state() == Some(v),
    {
        self.state = Some(v);
    }
}

/// A single-initialization storage slot handed out exactly once.
///
/// The claim happens inside a critical section on the device, so the
/// used flag is tested and set without an interrupt in between; the
/// claimed value is returned by move, so exclusive ownership of the
/// storage is enforced by the type system from then on.
pub struct Singleton {
    claimed: bool,
}

impl Singleton {
    /// Whether the storage has already been handed out.
    pub closed spec fn spec_claimed(self) -> bool {
        self.claimed
    }

    /// A fresh, unclaimed slot.
    pub fn new() -> (s: Singleton)
        ensures
            !s.spec_claimed(),
    {
        Singleton { claimed: false }
    }

    /// Hand the storage out: the first claim receives the value, every
    /// later claim receives nothing, and the slot stays claimed forever.
    pub fn claim<T>(&mut self, value: T) -> (r: Option<T>)
        ensures
            final(self).spec_claimed(),
            !old(self).spec_claimed() ==> r == Some(value),
            old(self).spec_claimed() ==> r is None,
    {
        if self.claimed {
            None
        } else {
            self.claimed = true;
            Some(value)
        }
    }
}

/// The trampoline's entry work for a handler with several declared
/// persistent items: prepare each cell with its own initializer, in
/// declaration order.  Cells already initialized by an earlier invocation
/// are left untouched.
pub fn prepare_all(cells: &mut Vec<StateCell<u32>>, inits: &Vec<u32>)
    requires
        old(cells).len() == inits.len(),
    ensures
        final(cells).len() == old(cells).len(),
        forall|i: int|
            0 <= i < old(cells).len() ==> {
                &&& (#[trigger] final(cells)[i]).initialized()
                &&& !old(cells)[i].initialized() ==> final(cells)[i].spec_state() == Some(
                    inits[i],
                )
                &&& old(cells)[i].initialized() ==> final(cells)[i].spec_state() == old(
                    cells,
                )[i].spec_state()
            },
{
    let n = cells.len();
    let mut i: usize = 0;
    while i < n
        invariant
            n == old(cells).len() == inits.len(),
            i <= n,
            cells.len() == n,
            forall|k: int| i <= k < n ==> #[trigger] cells[k] == old(cells)[k],
            forall|k: int|
                0 <= k < i ==> {
                    &&& (#[trigger] cells[k]).initialized()
                    &&& !old(cells)[k].initialized() ==> cells[k].spec_state() == Some(inits[k])
                    &&& old(cells)[k].initialized() ==> cells[k].spec_state() == old(
                        cells,
                    )[k].spec_state()
                },
        decreases n - i,
    {
        cells[i].prepare(inits[i]);
        i = i + 1;
    }
}

/// The round trip a persistent counter makes across repeated invocations.
///
/// Starting from an uninitialized cell, each invocation runs the one-shot
/// preparation, observes the cell, and writes its own value.  The value
/// observed by the first invocation is the declared initializer, and the
/// value observed by every later invocation is exactly what the previous
/// invocation wrote; the returned sequence records those observations.
pub fn run_invocations(cell: &mut StateCell<u32>, init: u32, writes: &Vec<u32>) -> (observed: Vec<
    u32,
>)
    requires
        !old(cell).initialized(),
    ensures
        observed.len() == writes.len(),
        forall|k: int|
            0 <= k < writes.len() ==> #[trigger] observed[k] == if k == 0 {
                init
            } else {
                writes[k - 1]
            },
        writes.len() > 0 ==> final(cell).spec_state() == Some(writes[writes.len() - 1]),
        writes.len() == 0 ==> !final(cell).initialized(),
{
    let mut observed: Vec<u32> = Vec::new();
    let n = writes.len();
    let mut k: usize = 0;
    while k < n
        invariant
            n == writes.len(),
            k <= n,
            observed.len() == k,
            forall|j: int|
                0 <= j < k ==> #[trigger] observed[j] == if j == 0 {
                    init
                } else {
                    writes[j - 1]
                },
            k == 0 ==> !cell.initialized(),
            k > 0 ==> cell.spec_state() == Some(writes[k - 1]),
        decreases n - k,
    {
        cell.prepare(init);
        let seen = *cell.read();
        cell.write(writes[k]);
        observed.push(seen);
        k = k + 1;
    }
    observed
}

} // verus!

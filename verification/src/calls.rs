//! The function table and the call stack.
//!
//! The table maps a 16-bit function id to the address at which the function's
//! body starts. It is filled while the program runs, by each `FNC` that is
//! executed; registering an id again replaces its entry. The call stack holds
//! the addresses of the call instructions that have not returned yet.

use vstd::prelude::*;
use std::collections::HashMap;
use crate::fault::Fault;

verus! {

broadcast use vstd::std_specs::hash::group_hash_axioms;

/// The entry address of each registered function id.
#[derive(Debug)]
pub struct FunctionTable {
    entries: HashMap<u16, usize>,
}

impl View for FunctionTable {
    type V = Map<u16, usize>;

    closed spec fn view(&self) -> Map<u16, usize> {
        self.entries@
    }
}

impl FunctionTable {
    /// A table with no function registered.
    pub fn new() -> (t: FunctionTable)
        ensures
            t@ == Map::<u16, usize>::empty(),
    {
        FunctionTable { entries: HashMap::new() }
    }

    /// Registers `entry` for `id`, replacing an earlier entry for the same id.
    pub fn register(&mut self, id: u16, entry: usize)
        ensures
            final(self)@ == old(self)@.insert(id, entry),
    {
        self.entries.insert(id, entry);
    }

    /// The entry registered for `id`, or `UnresolvedFunctionReference` if no
    /// function was registered under it.
    pub fn lookup(&self, id: u16) -> (r: Result<usize, Fault>)
        ensures
            self@.dom().contains(id) ==> r == Ok::<usize, Fault>(self@[id]),
            !self@.dom().contains(id) ==> r == Err::<usize, Fault>(
                Fault::UnresolvedFunctionReference,
            ),
    {
        match self.entries.get(&id) {
            Some(entry) => Ok(*entry),
            None => Err(Fault::UnresolvedFunctionReference),
        }
    }

    /// The number of registered ids.
    pub fn len(&self) -> (n: usize)
        ensures
            n == self@.len(),
    {
        self.entries.len()
    }
}

/// The addresses of the calls that are in progress, the latest last.
#[derive(Debug)]
pub struct CallStack {
    frames: Vec<usize>,
}

impl View for CallStack {
    type V = Seq<usize>;

    closed spec fn view(&self) -> Seq<usize> {
        self.frames@
    }
}

impl CallStack {
    /// A stack with no call in progress.
    pub fn new() -> (s: CallStack)
        ensures
            s@ == Seq::<usize>::empty(),
    {
        CallStack { frames: Vec::new() }
    }

    /// The number of calls in progress.
    pub fn depth(&self) -> (n: usize)
        ensures
            n == self@.len(),
    {
        self.frames.len()
    }

    /// Records the address of a call instruction.
    pub fn push(&mut self, address: usize)
        ensures
            final(self)@ == old(self)@.push(address),
    {
        self.frames.push(address);
    }

    /// The address of the latest call, without removing it, or
    /// `EmptyCallStack` if no call is in progress.
    pub fn top(&self) -> (r: Result<usize, Fault>)
        ensures
            self@.len() > 0 ==> r == Ok::<usize, Fault>(self@.last()),
            self@.len() == 0 ==> r == Err::<usize, Fault>(Fault::EmptyCallStack),
    {
        let n: usize = self.frames.len();
        if n == 0 {
            Err(Fault::EmptyCallStack)
        } else {
            Ok(self.frames[n - 1])
        }
    }

    /// Removes and returns the address of the latest call, or reports
    /// `EmptyCallStack` if no call is in progress.
    pub fn pop(&mut self) -> (r: Result<usize, Fault>)
        ensures
            old(self)@.len() > 0 ==> r == Ok::<usize, Fault>(old(self)@.last()) && final(self)@
                == old(self)@.drop_last(),
            old(self)@.len() == 0 ==> r == Err::<usize, Fault>(Fault::EmptyCallStack)
                && final(self)@ == old(self)@,
    {
        match self.frames.pop() {
            Some(address) => Ok(address),
            None => Err(Fault::EmptyCallStack),
        }
    }
}

} // verus!

//! Walking over the tunings of a synthesizer, and the length of a retuning.
use crate::types::{Bank, Prog};
use std::marker::PhantomData;
use vstd::prelude::*;

verus! {

/// The number of notes that a retuning with `keys` keys and `pitches`
/// pitches changes: a key without a pitch, or a pitch without a key, is left
/// out.
pub fn tune_len(keys: usize, pitches: usize) -> (len: usize)
    ensures
        len <= keys,
        len <= pitches,
        len == keys || len == pitches,
{
    if keys <= pitches {
        keys
    } else {
        pitches
    }
}

/// What the walk over the tunings does next.
#[derive(Debug, Clone, Copy, PartialEq, Eq, Hash)]
pub enum TuningStep {
    /// Ask the synthesizer for its next tuning, after telling it to start
    /// over where `restart` is set.
    Fetch { restart: bool },
    /// The walk is over: there is nothing to ask.
    Finished,
}

/// How far a walk over the tunings has come.
#[derive(Debug, Clone, Copy, PartialEq, Eq, Hash)]
pub enum TuningPhase {
    /// Nothing was asked yet.
    Fresh,
    /// Every fetch so far found a tuning.
    Running,
    /// A fetch found no tuning: the walk is over.
    Exhausted,
}

/// The iterator over tunings
pub struct TuningIter<'a> {
    handle: usize,
    phantom: PhantomData<&'a ()>,
    init: bool,
    next: bool,
}

impl<'a> TuningIter<'a> {
    #[verifier::type_invariant]
    spec fn well_formed(self) -> bool {
        self.handle != 0 && (self.init ==> self.next)
    }

    /// The address of the synthesizer whose tunings are walked over.
    pub closed spec fn addr(&self) -> usize {
        self.handle
    }

    /// How far the walk has come.
    pub closed spec fn phase(&self) -> TuningPhase {
        if !self.next {
            TuningPhase::Exhausted
        } else if self.init {
            TuningPhase::Fresh
        } else {
            TuningPhase::Running
        }
    }

    /// Starts a walk over the tunings of the synthesizer at `handle`.
    pub fn from_ptr(handle: usize) -> (iter: Self)
        requires
            handle != 0,
        ensures
            iter.addr() == handle,
            iter.phase() == TuningPhase::Fresh,
    {
        Self { handle, phantom: PhantomData, init: true, next: true }
    }

    /// Says what the walk does next.  A fresh walk tells the synthesizer to
    /// start over before it asks for the first tuning; a walk that is
    /// exhausted stays so.
    pub fn poll(&mut self) -> (step: TuningStep)
        ensures
            final(self).addr() == old(self).addr(),
            step == (match old(self).phase() {
                TuningPhase::Fresh => TuningStep::Fetch { restart: true },
                TuningPhase::Running => TuningStep::Fetch { restart: false },
                TuningPhase::Exhausted => TuningStep::Finished,
            }),
            final(self).phase() == (match old(self).phase() {
                TuningPhase::Exhausted => TuningPhase::Exhausted,
                _ => TuningPhase::Running,
            }),
    {
        proof {
            use_type_invariant(&*self);
        }
        let restart = self.init;
        self.init = false;
        if self.next {
            TuningStep::Fetch { restart }
        } else {
            TuningStep::Finished
        }
    }

    /// Takes the answer to a fetch.  `found` is the synthesizer's word on
    /// whether it had a next tuning: it is zero where it had none, and then
    /// it stored nothing.  Otherwise `bank` and `prog` are what it stored.
    /// Hands out the tuning where there was one; where there was none, the
    /// walk is over.
    pub fn next(&mut self, bank: i32, prog: i32, found: i32) -> (item: Option<(Bank, Prog)>)
        requires
            old(self).phase() == TuningPhase::Running,
        ensures
            item == (if found != 0 {
                Some((bank as u32, prog as u32))
            } else {
                None
            }),
            final(self).addr() == old(self).addr(),
            final(self).phase() == (if found != 0 {
                TuningPhase::Running
            } else {
                TuningPhase::Exhausted
            }),
    {
        proof {
            use_type_invariant(&*self);
        }
        self.next = 0 != found;
        if self.next {
            Some((bank as u32, prog as u32))
        } else {
            None
        }
    }
}

} // verus!

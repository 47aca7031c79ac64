//! A verified hardware-abstraction layer for the Renesas RA6M5.
//!
//! The library keeps a plain-value model of each peripheral's registers and
//! states, for every operation, which register fields it reads and which it
//! changes. The memory-mapped reads and writes themselves belong to the caller.
use vstd::prelude::*;

pub mod clock;
pub mod delay;
pub mod fcache;
pub mod flad;
pub mod gpio;
pub mod icu;
pub mod mstp;
pub mod sysc;
pub mod usb;
pub mod rtc;
pub mod dbg;
pub mod ofs1;
pub mod register_protection;

verus! {

/// A singleton resource was requested a second time.
#[derive(Debug)]
pub struct AlreadyTaken;

/// A peripheral was initialized a second time.
#[derive(Debug, PartialEq, Eq, Structural)]
pub enum InitError {
    AlreadyInit,
}

/// Why a register operation was refused.
#[derive(Debug)]
pub enum RegisterError {
    NotReadyToWrite(&'static str),
    InvalidValue(&'static str),
    ProhibitedOperation(&'static str),
}

/// One take of a one-time resource on its flag: whether it succeeds (the flag was
/// clear) and the flag afterwards (set either way).
pub open spec fn spec_claim(taken: bool) -> (bool, bool) {
    (!taken, true)
}

/// The outcomes of `n` takes in a row on one flag that starts as `taken`.
pub open spec fn spec_claims(taken: bool, n: nat) -> Seq<bool>
    decreases n,
{
    if n == 0 {
        Seq::empty()
    } else {
        seq![spec_claim(taken).0] + spec_claims(spec_claim(taken).1, (n - 1) as nat)
    }
}

/// Once a flag is set, every later take fails.
pub proof fn lemma_claims_after_taken(n: nat)
    ensures
        spec_claims(true, n).len() == n,
        forall|i: int| 0 <= i < n ==> !#[trigger] spec_claims(true, n)[i],
    decreases n,
{
    if n > 0 {
        lemma_claims_after_taken((n - 1) as nat);
    }
}

/// Over a run, a one-time resource whose flag starts clear (a port, the ICU, the
/// system controller, a USB controller, ...) is handed out by the first take only:
/// every later take fails. Each resource has a flag of its own, so takes of one
/// never change the outcome for another.
pub proof fn lemma_taken_once(n: nat)
    ensures
        spec_claims(false, n).len() == n,
        forall|i: int| 0 <= i < n ==> #[trigger] spec_claims(false, n)[i] == (i == 0),
{
    if n > 0 {
        lemma_claims_after_taken((n - 1) as nat);
        assert forall|i: int| 0 <= i < n implies #[trigger] spec_claims(false, n)[i] == (i == 0) by {
            if i > 0 {
                assert(spec_claims(false, n)[i] == spec_claims(true, (n - 1) as nat)[i - 1]);
            }
        }
    }
}

/// The value that a run of calls leaves, starting from `start`: each entry is
/// one call, which stores its value (`.1`) when it is accepted (`.0`) and leaves
/// the stored value as it was otherwise.
pub open spec fn spec_last_accepted<T>(start: T, calls: Seq<(bool, T)>) -> T
    decreases calls.len(),
{
    if calls.len() == 0 {
        start
    } else if calls.last().0 {
        calls.last().1
    } else {
        spec_last_accepted(start, calls.drop_last())
    }
}

/// One call stores its value when accepted and leaves the stored value otherwise.
pub proof fn lemma_last_accepted_step<T>(start: T, accepted: bool, value: T)
    ensures
        spec_last_accepted(start, seq![(accepted, value)]) == (if accepted { value } else { start }),
{
    let s = seq![(accepted, value)];
    assert(s.len() == 1);
    assert(s.last() == (accepted, value));
    assert(s.drop_last() =~= Seq::<(bool, T)>::empty());
    assert(spec_last_accepted(start, s.drop_last()) == start);
}

/// Running the calls of `a` and then those of `b` leaves what running `a + b`
/// leaves: the calls of a run may be taken one at a time.
pub proof fn lemma_last_accepted_concat<T>(start: T, a: Seq<(bool, T)>, b: Seq<(bool, T)>)
    ensures
        spec_last_accepted(spec_last_accepted(start, a), b) == spec_last_accepted(start, a + b),
    decreases b.len(),
{
    if b.len() == 0 {
        assert(a + b =~= a);
    } else {
        assert((a + b).drop_last() =~= a + b.drop_last());
        assert((a + b).last() == b.last());
        lemma_last_accepted_concat(start, a, b.drop_last());
    }
}

/// The stored value is that of the last accepted call, or the start value when
/// no call was accepted.
pub proof fn lemma_last_accepted<T>(start: T, calls: Seq<(bool, T)>)
    ensures
        (forall|i: int| 0 <= i < calls.len() ==> !(#[trigger] calls[i]).0) ==> spec_last_accepted(start, calls) == start,
        forall|k: int|
            0 <= k < calls.len() && (#[trigger] calls[k]).0 && (forall|j: int| k < j < calls.len() ==> !(#[trigger] calls[j]).0)
                ==> spec_last_accepted(start, calls) == calls[k].1,
    decreases calls.len(),
{
    if calls.len() > 0 {
        let n = calls.len() - 1;
        let d = calls.drop_last();
        lemma_last_accepted(start, d);
        assert forall|i: int| 0 <= i < d.len() implies d[i] == calls[i] by {}
        if forall|i: int| 0 <= i < calls.len() ==> !(#[trigger] calls[i]).0 {
            assert(!calls[n].0);
        }
        assert forall|k: int|
            0 <= k < calls.len() && (#[trigger] calls[k]).0 && (forall|j: int| k < j < calls.len() ==> !(#[trigger] calls[j]).0)
            implies spec_last_accepted(start, calls) == calls[k].1 by {
            if k < n {
                assert(!calls[n].0);
                assert(d[k] == calls[k]);
                assert forall|j: int| k < j < d.len() implies !(#[trigger] d[j]).0 by {
                    assert(d[j] == calls[j]);
                }
            }
        }
    }
}

/// A run of takes on one flag that starts clear, each as its contract states
/// (`spec_claim`): the first succeeds and every later one fails.
pub proof fn lemma_take_run(flags: Seq<bool>, oks: Seq<bool>)
    requires
        flags.len() == oks.len() + 1,
        !flags[0],
        forall|i: int| 0 <= i < oks.len() ==> (#[trigger] oks[i], flags[i + 1]) == spec_claim(flags[i]),
    ensures
        forall|i: int| 0 <= i < oks.len() ==> #[trigger] oks[i] == (i == 0),
{
    assert forall|i: int| 0 <= i < oks.len() implies #[trigger] oks[i] == (i == 0) by {
        if i > 0 {
            assert((oks[i - 1], flags[i]) == spec_claim(flags[i - 1]));
        }
    }
}

/// A run of values, each step as a call's contract states (the accepted value,
/// or the value unchanged), ends at the value of the last accepted call, or at
/// the first value when none was accepted.
pub proof fn lemma_run_ends_at_last_accepted<T>(values: Seq<T>, calls: Seq<(bool, T)>)
    requires
        values.len() == calls.len() + 1,
        forall|i: int| 0 <= i < calls.len() ==> values[i + 1] == (if (#[trigger] calls[i]).0 { calls[i].1 } else { values[i] }),
    ensures
        values.last() == spec_last_accepted(values[0], calls),
    decreases calls.len(),
{
    if calls.len() > 0 {
        let v = values.drop_last();
        let c = calls.drop_last();
        assert forall|i: int| 0 <= i < c.len() implies v[i + 1] == (if (#[trigger] c[i]).0 { c[i].1 } else { v[i] }) by {
            assert(c[i] == calls[i]);
        }
        lemma_run_ends_at_last_accepted(v, c);
        let n = calls.len() - 1;
        assert(values[n + 1] == (if calls[n].0 { calls[n].1 } else { values[n] }));
    }
}

/// Marks a one-time resource as taken; fails when it already was.
pub fn claim_once(initialized: &mut bool) -> (r: Result<(), InitError>)
    ensures
        *final(initialized),
        r is Err <==> *old(initialized),
        (r is Ok, *final(initialized)) == crate::spec_claim(*old(initialized)),
{
    if *initialized {
        Err(InitError::AlreadyInit)
    } else {
        *initialized = true;
        Ok(())
    }
}

} // verus!

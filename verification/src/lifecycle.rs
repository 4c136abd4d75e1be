//! Owning an opaque engine resource and releasing it exactly once.
//!
//! A create call hands back an address; null means construction failed and
//! nothing was retained.  A non-null address becomes a [`NativeHandle`],
//! which is not copyable: the one matching destroy call is made with the
//! address that [`NativeHandle::release`] gives up, and the handle is gone
//! afterwards.  A [`LifecycleLedger`] counts the create and destroy calls
//! that the unverified shell actually makes, so that the balance of the two
//! is a stated, testable fact and not a hope.

use vstd::prelude::*;

use crate::error::Error;
use crate::marshal::TransientStrings;

verus! {

/// Counts of the foreign create and destroy calls made so far.
pub struct LifecycleLedger {
    creates: u64,
    destroys: u64,
}

impl LifecycleLedger {
    /// How many create calls returned a resource.
    pub closed spec fn spec_creates(&self) -> u64 {
        self.creates
    }

    /// How many matching destroy calls were made.
    pub closed spec fn spec_destroys(&self) -> u64 {
        self.destroys
    }

    /// No resource is destroyed that was never created.
    pub open spec fn balanced(&self) -> bool {
        self.spec_destroys() <= self.spec_creates()
    }

    /// A ledger with nothing created and nothing destroyed.
    pub fn new() -> (l: LifecycleLedger)
        ensures
            l.spec_creates() == 0,
            l.spec_destroys() == 0,
            l.balanced(),
    {
        LifecycleLedger { creates: 0, destroys: 0 }
    }

    pub fn creates(&self) -> (n: u64)
        ensures
            n == self.spec_creates(),
    {
        self.creates
    }

    pub fn destroys(&self) -> (n: u64)
        ensures
            n == self.spec_destroys(),
    {
        self.destroys
    }
}

/// Exclusive ownership of one opaque engine resource.
///
/// The address is non-null for the handle's whole lifetime, any number of
/// compute calls may read it, and the resource is destroyed exactly once:
/// the type cannot be copied, so the address leaves through `release` at
/// most once.
pub struct NativeHandle {
    addr: usize,
}

impl NativeHandle {
    /// The address the engine's create call returned.
    pub closed spec fn spec_addr(&self) -> usize {
        self.addr
    }

    /// A held handle is never null.
    pub open spec fn wf(&self) -> bool {
        self.spec_addr() != 0
    }

    /// The address, for one compute call.  The handle stays owned here.
    pub fn addr(&self) -> (a: usize)
        ensures
            a == self.spec_addr(),
    {
        self.addr
    }

    /// Give the address up for the one matching destroy call, and count that
    /// call in the ledger.  The handle is consumed: no second release, and
    /// no use after it, is possible.
    pub fn release(self, ledger: &mut LifecycleLedger) -> (a: usize)
        requires
            old(ledger).spec_destroys() < old(ledger).spec_creates(),
        ensures
            a == self.spec_addr(),
            final(ledger).spec_creates() == old(ledger).spec_creates(),
            final(ledger).spec_destroys() == old(ledger).spec_destroys() + 1,
            final(ledger).balanced(),
    {
        ledger.destroys = ledger.destroys + 1;
        self.addr
    }
}

/// Judge the outcome of a create call and close the configuration's
/// transient strings.
///
/// `raw` is what the foreign create call returned.  Null is a construction
/// failure: no handle is retained and no create is counted.  Either way the
/// transient strings of the build step are released here — strictly after
/// the create call returned, and before this function hands anything back,
/// so a failed attempt leaks nothing.
pub fn complete_create(
    raw: usize,
    strings: &mut TransientStrings,
    ledger: &mut LifecycleLedger,
) -> (r: Result<NativeHandle, Error>)
    requires
        old(ledger).spec_creates() < u64::MAX,
    ensures
        final(strings).is_released(),
        final(strings).entries().len() == 0,
        raw == 0 ==> (r matches Err(e) && e == Error::ConstructionFailure),
        raw == 0 ==> final(ledger).spec_creates() == old(ledger).spec_creates()
            && final(ledger).spec_destroys() == old(ledger).spec_destroys(),
        raw != 0 ==> (r matches Ok(h) && h.spec_addr() == raw && h.wf()),
        raw != 0 ==> final(ledger).spec_creates() == old(ledger).spec_creates() + 1
            && final(ledger).spec_destroys() == old(ledger).spec_destroys(),
        old(ledger).balanced() ==> final(ledger).balanced(),
{
    strings.release();
    if raw == 0 {
        Err(Error::ConstructionFailure)
    } else {
        ledger.creates = ledger.creates + 1;
        Ok(NativeHandle { addr: raw })
    }
}

/// One record in the history of foreign lifecycle calls.
pub enum LifecycleEvent {
    /// A create call that handed a resource out.
    Create,
    /// A destroy call that took one back.
    Destroy,
}

/// How many create calls a history holds.
pub open spec fn creates_in(t: Seq<LifecycleEvent>) -> nat
    decreases t.len(),
{
    if t.len() == 0 {
        0
    } else {
        creates_in(t.drop_last()) + if t.last() is Create {
            1nat
        } else {
            0nat
        }
    }
}

/// How many destroy calls a history holds.
pub open spec fn destroys_in(t: Seq<LifecycleEvent>) -> nat
    decreases t.len(),
{
    if t.len() == 0 {
        0
    } else {
        destroys_in(t.drop_last()) + if t.last() is Destroy {
            1nat
        } else {
            0nat
        }
    }
}

/// At no point of the history was a resource destroyed that was not
/// outstanding: every prefix holds at least as many creates as destroys.
/// In particular no resource is ever destroyed twice.
pub open spec fn never_over_destroyed(t: Seq<LifecycleEvent>) -> bool {
    forall|i: int|
        0 <= i <= t.len() ==> destroys_in(#[trigger] t.take(i)) <= creates_in(t.take(i))
}

/// The history of `n` construct-then-immediately-drop cycles.
pub open spec fn cycle_trace(n: nat) -> Seq<LifecycleEvent>
    decreases n,
{
    if n == 0 {
        Seq::empty()
    } else {
        cycle_trace((n - 1) as nat) + seq![LifecycleEvent::Create, LifecycleEvent::Destroy]
    }
}

proof fn lemma_counts_in_concat(a: Seq<LifecycleEvent>, b: Seq<LifecycleEvent>)
    ensures
        creates_in(a + b) == creates_in(a) + creates_in(b),
        destroys_in(a + b) == destroys_in(a) + destroys_in(b),
    decreases b.len(),
{
    if b.len() == 0 {
        assert(a + b =~= a);
    } else {
        lemma_counts_in_concat(a, b.drop_last());
        assert((a + b).drop_last() =~= a + b.drop_last());
        assert((a + b).last() == b.last());
    }
}

/// For any number `n` of construct-then-immediately-drop cycles, exactly
/// `n` create calls and `n` matching destroy calls occur, and at no point
/// is a resource destroyed that is not outstanding — so none is destroyed
/// more than once.
pub proof fn lemma_cycles_balanced(n: nat)
    ensures
        cycle_trace(n).len() == 2 * n,
        creates_in(cycle_trace(n)) == n,
        destroys_in(cycle_trace(n)) == n,
        never_over_destroyed(cycle_trace(n)),
    decreases n,
{
    let single = seq![LifecycleEvent::Create];
    let pair = seq![LifecycleEvent::Create, LifecycleEvent::Destroy];
    assert(creates_in(Seq::<LifecycleEvent>::empty()) == 0);
    assert(destroys_in(Seq::<LifecycleEvent>::empty()) == 0);
    assert(single.drop_last() =~= Seq::<LifecycleEvent>::empty());
    assert(single.last() is Create);
    assert(creates_in(single) == 1 && destroys_in(single) == 0);
    assert(pair.drop_last() =~= single);
    assert(creates_in(pair) == 1 && destroys_in(pair) == 1);
    if n == 0 {
        assert forall|i: int| 0 <= i <= cycle_trace(n).len() implies destroys_in(
            #[trigger] cycle_trace(n).take(i),
        ) <= creates_in(cycle_trace(n).take(i)) by {
            assert(cycle_trace(n).take(i) =~= Seq::<LifecycleEvent>::empty());
        }
    } else {
        let prev = cycle_trace((n - 1) as nat);
        lemma_cycles_balanced((n - 1) as nat);
        lemma_counts_in_concat(prev, pair);
        assert forall|i: int| 0 <= i <= cycle_trace(n).len() implies destroys_in(
            #[trigger] cycle_trace(n).take(i),
        ) <= creates_in(cycle_trace(n).take(i)) by {
            let t = cycle_trace(n);
            if i <= prev.len() {
                assert(t.take(i) =~= prev.take(i));
            } else if i == prev.len() + 1 {
                assert(t.take(i) =~= prev + single);
                lemma_counts_in_concat(prev, single);
            } else {
                assert(t.take(i) =~= t);
            }
        }
    }
}

} // verus!

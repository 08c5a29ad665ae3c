//! One reconciliation of a class against a snapshot of the runtime's running containers:
//! count the containers of the class, record the count, and work out the drift.
use vstd::prelude::*;
use crate::classifier::{classify, image_matches};
use crate::manager::ContainerManager;

verus! {

/// The largest count a class can record.
pub const MAX_COUNT: u16 = 65535;

/// Why a reconciliation did not take place.
#[derive(Debug)]
pub enum ReconcileError {
    /// The runtime could not list its containers; carries the runtime's message.
    ListingFailed(String),
}

/// The corrective action that closes the drift of a class.
#[derive(PartialEq, Eq, Structural, Debug, Clone, Copy)]
pub enum Correction {
    /// Start this many more containers.
    Start(u16),
    /// Stop this many containers.
    Stop(u16),
    /// The class is at its target.
    Hold,
}

/// Whether one listed container (by its image identifier, if the runtime gave one)
/// belongs to the class of `prefix`.
pub open spec fn listed_match(prefix: Seq<char>, image_id: Option<String>) -> bool {
    match image_id {
        Some(id) => image_matches(prefix, id@),
        None => false,
    }
}

/// The number of listed containers that belong to the class of `prefix`.
pub open spec fn count_matches(prefix: Seq<char>, listing: Seq<Option<String>>) -> nat
    decreases listing.len(),
{
    if listing.len() == 0 {
        0
    } else {
        count_matches(prefix, listing.drop_last()) + if listed_match(prefix, listing.last()) {
            1nat
        } else {
            0nat
        }
    }
}

/// A count as a class records it: counts beyond `MAX_COUNT` are recorded as `MAX_COUNT`.
pub open spec fn recorded(n: nat) -> nat {
    if n > MAX_COUNT {
        MAX_COUNT as nat
    } else {
        n
    }
}

/// The drift of a class: how many containers it lacks (positive) or has in excess
/// (negative).
pub open spec fn drift(target: nat, current: nat) -> int {
    target - current
}

/// What one reconciliation of `before` against `listing` leaves behind: on a listing
/// the class records its count of matching containers and the drift is returned; on a
/// failed listing the class is untouched and the failure is passed on.
pub open spec fn reconciled(
    before: ContainerManager,
    listing: Result<Vec<Option<String>>, String>,
    after: ContainerManager,
    r: Result<i32, ReconcileError>,
) -> bool {
    &&& after.hash_prefix() == before.hash_prefix()
    &&& after.target() == before.target()
    &&& match listing {
        Ok(ids) => {
            &&& after.current() == recorded(count_matches(before.hash_prefix(), ids@))
            &&& r matches Ok(d) && d as int == drift(after.target(), after.current())
        },
        Err(e) => {
            &&& after == before
            &&& r matches Err(ReconcileError::ListingFailed(m)) && m@ == e@
        },
    }
}

/// The number of containers in `listing` that belong to the class of `prefix`.
pub fn count_matching(prefix: &str, listing: &Vec<Option<String>>) -> (r: usize)
    ensures
        r as nat == count_matches(prefix@, listing@),
{
    let mut n: usize = 0;
    let mut i: usize = 0;
    while i < listing.len()
        invariant
            i <= listing@.len(),
            n <= i,
            n as nat == count_matches(prefix@, listing@.subrange(0, i as int)),
        decreases listing.len() - i,
    {
        let hit = match &listing[i] {
            Some(id) => classify(prefix, id.as_str()),
            None => false,
        };
        proof {
            let s = listing@.subrange(0, i as int + 1);
            assert(s.drop_last() =~= listing@.subrange(0, i as int));
            assert(s.last() == listing@[i as int]);
        }
        if hit {
            n = n + 1;
        }
        i = i + 1;
    }
    assert(listing@.subrange(0, i as int) =~= listing@);
    n
}

/// Reconciles one class against a snapshot of the running containers (or the failure to
/// take one), recording the observed count and returning the drift.
pub fn check_instances(
    container_manager: &mut ContainerManager,
    listing: &Result<Vec<Option<String>>, String>,
) -> (r: Result<i32, ReconcileError>)
    ensures
        reconciled(*old(container_manager), *listing, *final(container_manager), r),
{
    match listing {
        Ok(ids) => {
            let n = count_matching(container_manager.get_image_hash(), ids);
            let observed: u16 = if n > MAX_COUNT as usize {
                MAX_COUNT
            } else {
                n as u16
            };
            container_manager.set_current(observed);
            let d = container_manager.get_target() as i32 - observed as i32;
            Ok(d)
        },
        Err(e) => Err(ReconcileError::ListingFailed(e.clone())),
    }
}

/// The corrective action for a class, from its target and its observed count.
pub fn correction_for(container_manager: &ContainerManager) -> (r: Correction)
    ensures
        drift(container_manager.target(), container_manager.current()) > 0 ==> r == Correction::Start(
            drift(container_manager.target(), container_manager.current()) as u16,
        ),
        drift(container_manager.target(), container_manager.current()) < 0 ==> r == Correction::Stop(
            (-drift(container_manager.target(), container_manager.current())) as u16,
        ),
        drift(container_manager.target(), container_manager.current()) == 0 ==> r
            == Correction::Hold,
{
    let t = container_manager.get_target();
    let c = container_manager.get_current();
    if t > c {
        Correction::Start(t - c)
    } else if t < c {
        Correction::Stop(c - t)
    } else {
        Correction::Hold
    }
}

/// Reconciling twice in a row against the same listing records the same count and
/// returns the same drift the second time as the first.
pub proof fn lemma_reconcile_idempotent(
    c0: ContainerManager,
    c1: ContainerManager,
    c2: ContainerManager,
    listing: Result<Vec<Option<String>>, String>,
    r1: Result<i32, ReconcileError>,
    r2: Result<i32, ReconcileError>,
)
    requires
        reconciled(c0, listing, c1, r1),
        reconciled(c1, listing, c2, r2),
    ensures
        c2.current() == c1.current(),
        r1 matches Ok(d1) ==> (r2 matches Ok(d2) && d1 == d2),
{
}

/// When the second of two reconciliations against an unchanged listing finds the class
/// at its target, its drift is zero.
pub proof fn lemma_reconcile_settles(
    c0: ContainerManager,
    c1: ContainerManager,
    c2: ContainerManager,
    ids: Vec<Option<String>>,
    r1: Result<i32, ReconcileError>,
    r2: Result<i32, ReconcileError>,
)
    requires
        reconciled(c0, Ok(ids), c1, r1),
        reconciled(c1, Ok(ids), c2, r2),
        recorded(count_matches(c0.hash_prefix(), ids@)) == c0.target(),
    ensures
        c2.current() == c1.current(),
        r2 matches Ok(d) && d == 0,
{
}

/// A failed listing leaves the observed count as the previous reconciliation left it,
/// and the next reconciliation on a listing records that listing's count as usual.
pub proof fn lemma_failed_listing_keeps_count(
    c0: ContainerManager,
    c1: ContainerManager,
    c2: ContainerManager,
    error: String,
    ids: Vec<Option<String>>,
    r1: Result<i32, ReconcileError>,
    r2: Result<i32, ReconcileError>,
)
    requires
        reconciled(c0, Err(error), c1, r1),
        reconciled(c1, Ok(ids), c2, r2),
    ensures
        c1.current() == c0.current(),
        c2.current() == recorded(count_matches(c0.hash_prefix(), ids@)),
        r2 is Ok,
{
}

/// An empty listing makes every class
/// record zero and report its whole target as drift.
pub proof fn lemma_empty_listing(
    c0: ContainerManager,
    c1: ContainerManager,
    ids: Vec<Option<String>>,
    r: Result<i32, ReconcileError>,
)
    requires
        ids@.len() == 0,
        reconciled(c0, Ok(ids), c1, r),
    ensures
        c1.current() == 0,
        r matches Ok(d) && d == c0.target(),
{
}

} // verus!

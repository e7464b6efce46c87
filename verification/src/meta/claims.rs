//! How the claims on updates fall out over a pass.
//!
//! Before a pass every update is marked stale. A claim on an update is
//! granted exactly if the update is stale at that moment, and takes it out
//! of the stale state. The store carries the claims out one at a time, so a
//! pass sees them in some order, whichever tasks they come from.

use crate::api::models::RepoUpdateVersionView;
use crate::db::models::CachedPluginView;
use crate::meta::sync::{all_binding_steps, binding_steps, SyncActionView};
use vstd::prelude::*;

verus! {

/// How many of a run of claims, taken in order, are granted for one
/// update, starting from a set of stale updates.
pub open spec fn grants(stale: Set<u64>, claims: Seq<u64>, update_id: u64) -> nat
    decreases claims.len(),
{
    if claims.len() == 0 {
        0
    } else {
        let first = claims.first();
        let granted: nat = if first == update_id && stale.contains(update_id) {
            1
        } else {
            0
        };
        granted + grants(stale.remove(first), claims.drop_first(), update_id)
    }
}

/// An update that is not stale is granted to nobody.
pub proof fn lemma_no_grant_unless_stale(stale: Set<u64>, claims: Seq<u64>, update_id: u64)
    requires
        !stale.contains(update_id),
    ensures
        grants(stale, claims, update_id) == 0,
    decreases claims.len(),
{
    if claims.len() > 0 {
        lemma_no_grant_unless_stale(stale.remove(claims.first()), claims.drop_first(), update_id);
    }
}

/// Of all the claims of a pass on an update that was stale when the pass
/// began, exactly one is granted; an update that nobody claims is granted
/// to nobody.
pub proof fn lemma_exactly_one_grant(stale: Set<u64>, claims: Seq<u64>, update_id: u64)
    requires
        stale.contains(update_id),
    ensures
        grants(stale, claims, update_id) == if claims.contains(update_id) {
            1nat
        } else {
            0nat
        },
    decreases claims.len(),
{
    if claims.len() > 0 {
        let first = claims.first();
        let rest = claims.drop_first();
        if first == update_id {
            lemma_no_grant_unless_stale(stale.remove(first), rest, update_id);
            assert(claims[0] == update_id);
        } else {
            lemma_exactly_one_grant(stale.remove(first), rest, update_id);
            if rest.contains(update_id) {
                let i = choose|i: int| 0 <= i < rest.len() && rest[i] == update_id;
                assert(claims[i + 1] == update_id);
            }
            if claims.contains(update_id) {
                let i = choose|i: int| 0 <= i < claims.len() && claims[i] == update_id;
                assert(rest[i - 1] == update_id);
            }
        }
    }
}

/// The updates that a run of steps claims, in order.
pub open spec fn claims_in(actions: Seq<SyncActionView>) -> Seq<u64>
    decreases actions.len(),
{
    if actions.len() == 0 {
        Seq::empty()
    } else {
        let before = claims_in(actions.drop_last());
        match actions.last() {
            SyncActionView::ClaimUpdate(id) => before.push(id),
            _ => before,
        }
    }
}

proof fn lemma_claims_in_both(first: Seq<SyncActionView>, second: Seq<SyncActionView>)
    ensures
        claims_in(first + second) == claims_in(first) + claims_in(second),
    decreases second.len(),
{
    if second.len() == 0 {
        assert(first + second =~= first);
        assert(claims_in(first) + claims_in(second) =~= claims_in(first));
    } else {
        lemma_claims_in_both(first, second.drop_last());
        assert((first + second).drop_last() =~= first + second.drop_last());
        assert((first + second).last() == second.last());
        match second.last() {
            SyncActionView::ClaimUpdate(id) => {
                assert(claims_in(first + second) =~= claims_in(first) + claims_in(second));
            },
            _ => {},
        }
    }
}

/// The steps that bind the reported versions of a plugin claim the update
/// of each reported version once, in the order of the reports.
pub proof fn lemma_each_report_claims_once(
    plugin: CachedPluginView,
    reported: Seq<RepoUpdateVersionView>,
)
    ensures
        claims_in(all_binding_steps(plugin, reported)) == Seq::new(
            reported.len(),
            |i: int| reported[i].id,
        ),
    decreases reported.len(),
{
    let ids = Seq::new(reported.len(), |i: int| reported[i].id);
    if reported.len() == 0 {
        assert(claims_in(all_binding_steps(plugin, reported)) =~= ids);
    } else {
        let front = reported.drop_last();
        lemma_each_report_claims_once(plugin, front);
        let steps = binding_steps(plugin, reported.last());
        lemma_claims_in_both(all_binding_steps(plugin, front), steps);
        let three = steps.drop_last();
        let two = three.drop_last();
        let one = two.drop_last();
        assert(one.drop_last() =~= Seq::<SyncActionView>::empty());
        assert(claims_in(one.drop_last()) =~= Seq::<u64>::empty());
        assert(claims_in(one) =~= Seq::<u64>::empty());
        assert(claims_in(two) =~= Seq::<u64>::empty());
        assert(claims_in(three) =~= Seq::<u64>::empty());
        assert(claims_in(steps) =~= seq![reported.last().id]);
        assert(claims_in(all_binding_steps(plugin, reported)) =~= ids);
    }
}

} // verus!

use vstd::prelude::*;

verus! {

/// Whether a character is to carry the grounded marker after this frame.
#[derive(Clone, Copy, Debug, PartialEq, Eq, Structural)]
pub enum GroundedChange {
    Insert,
    Remove,
}

/// The character stands on ground: its ground caster hit something, and,
/// when the character has a maximum slope angle, at least one hit surface is
/// no steeper than that angle.
///
/// `hits_within_slope[k]` says whether the normal of the `k`-th hit makes an
/// angle with the gravity direction no larger than the maximum slope angle;
/// it is not read when there is no maximum slope angle.
pub open spec fn is_grounded(has_max_slope: bool, hits_within_slope: Seq<bool>) -> bool {
    exists|k: int| #[trigger] hit_grounds(has_max_slope, hits_within_slope, k)
}

/// The `k`-th hit of the ground caster counts as ground.
pub open spec fn hit_grounds(has_max_slope: bool, hits_within_slope: Seq<bool>, k: int) -> bool {
    0 <= k < hits_within_slope.len() && (!has_max_slope || hits_within_slope[k])
}

/// Decides whether the grounded marker is inserted or removed.
pub fn grounded_change(has_max_slope: bool, hits_within_slope: &Vec<bool>) -> (change: GroundedChange)
    ensures
        change == GroundedChange::Insert <==> is_grounded(has_max_slope, hits_within_slope@),
{
    let n = hits_within_slope.len();
    let mut k: usize = 0;
    while k < n
        invariant
            n == hits_within_slope@.len(),
            k <= n,
            forall|j: int| 0 <= j < k ==> !#[trigger] hit_grounds(has_max_slope, hits_within_slope@, j),
        decreases n - k,
    {
        if !has_max_slope || hits_within_slope[k] {
            assert(hit_grounds(has_max_slope, hits_within_slope@, k as int));
            return GroundedChange::Insert;
        }
        k = k + 1;
    }
    GroundedChange::Remove
}

/// Without a maximum slope angle, any hit of the ground caster grounds the
/// character, whatever the slope.
pub proof fn lemma_any_hit_grounds_without_max_slope(hits_within_slope: Seq<bool>)
    requires
        hits_within_slope.len() > 0,
    ensures
        is_grounded(false, hits_within_slope),
{
    assert(hit_grounds(false, hits_within_slope, 0));
}

/// A character whose ground caster hit nothing is never grounded.
pub proof fn lemma_no_hit_not_grounded(has_max_slope: bool)
    ensures
        !is_grounded(has_max_slope, Seq::<bool>::empty()),
{
}

/// Grounded exactly when the caster hit something and, if there is a
/// maximum slope angle, one of the hits is within it.
pub proof fn lemma_grounded_iff(has_max_slope: bool, hits_within_slope: Seq<bool>)
    ensures
        !has_max_slope ==> (is_grounded(has_max_slope, hits_within_slope) <==> hits_within_slope.len()
            > 0),
        has_max_slope ==> (is_grounded(has_max_slope, hits_within_slope) <==> hits_within_slope.contains(
            true,
        )),
{
    if !has_max_slope && hits_within_slope.len() > 0 {
        assert(hit_grounds(has_max_slope, hits_within_slope, 0));
    }
    if has_max_slope && hits_within_slope.contains(true) {
        let k = choose|k: int| 0 <= k < hits_within_slope.len() && hits_within_slope[k] == true;
        assert(hit_grounds(has_max_slope, hits_within_slope, k));
    }
}

} // verus!

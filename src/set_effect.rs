use crate::fetch::{accept_payload, check_status, is_success_status, FetchError};
use vstd::prelude::*;

verus! {

/// One tier of a set bonus: the piece count that activates it and its text.
pub struct SetEffectInfoFull {
    pub set_count: i8,
    pub set_option: String,
}

/// A set bonus: the set's name, how many of its pieces the character wears,
/// and its tiers in upstream order.
pub struct SetEffectInfo {
    pub set_name: String,
    pub total_set_count: i8,
    pub set_option_full: Vec<SetEffectInfoFull>,
}

/// The set bonuses of a character.
pub struct SetEffect {
    pub set_effect: Vec<SetEffectInfo>,
}

/// The tiers that the worn piece count activates, in order.
pub open spec fn active_tiers(worn: i8, tiers: Seq<SetEffectInfoFull>) -> Seq<SetEffectInfoFull> {
    tiers.filter(|o: SetEffectInfoFull| o.set_count <= worn)
}

/// A set is shown only when at least one of its tiers is active.
pub open spec fn has_active_tier(s: SetEffectInfo) -> bool {
    active_tiers(s.total_set_count, s.set_option_full@).len() > 0
}

/// The sets that survive normalisation, in their order.
pub open spec fn surviving_sets(s: Seq<SetEffectInfo>) -> Seq<SetEffectInfo> {
    s.filter(|x: SetEffectInfo| has_active_tier(x))
}

/// `out` is `inp` with only its active tiers left.
pub open spec fn trimmed_from(out: SetEffectInfo, inp: SetEffectInfo) -> bool {
    &&& out.set_name == inp.set_name
    &&& out.total_set_count == inp.total_set_count
    &&& out.set_option_full@ == active_tiers(inp.total_set_count, inp.set_option_full@)
}

/// `out` is the normalised form of `inp`: the surviving sets, in order, each
/// trimmed to its active tiers.
pub open spec fn normalized_from(out: Seq<SetEffectInfo>, inp: Seq<SetEffectInfo>) -> bool {
    &&& out.len() == surviving_sets(inp).len()
    &&& forall|k: int| 0 <= k < out.len() ==> trimmed_from(#[trigger] out[k], surviving_sets(inp)[k])
}

/// Keeps the tiers whose threshold is at most the worn piece count, in order.
pub fn filter_active(worn: i8, tiers: Vec<SetEffectInfoFull>) -> (r: Vec<SetEffectInfoFull>)
    ensures
        r@ == active_tiers(worn, tiers@),
{
    let ghost orig = tiers@;
    let mut rest = tiers;
    let mut kept: Vec<SetEffectInfoFull> = Vec::new();
    let ghost mut i: int = 0;
    while rest.len() > 0
        invariant
            0 <= i <= orig.len(),
            rest@ == orig.subrange(i, orig.len() as int),
            kept@ == active_tiers(worn, orig.subrange(0, i)),
        decreases rest.len(),
    {
        let o = rest.remove(0);
        proof {
            assert(orig.subrange(0, i + 1).drop_last() =~= orig.subrange(0, i));
            reveal(Seq::filter);
        }
        if o.set_count <= worn {
            kept.push(o);
        }
        proof {
            i = i + 1;
            assert(rest@ =~= orig.subrange(i, orig.len() as int));
        }
    }
    assert(orig.subrange(0, i) =~= orig);
    kept
}

impl SetEffect {
    /// Trims every set to its active tiers and drops the sets left with
    /// none, keeping the order of sets and of tiers.
    pub fn normalized(self) -> (r: SetEffect)
        ensures
            normalized_from(r.set_effect@, self.set_effect@),
    {
        let ghost orig = self.set_effect@;
        let mut rest = self.set_effect;
        let mut kept: Vec<SetEffectInfo> = Vec::new();
        let ghost mut i: int = 0;
        while rest.len() > 0
            invariant
                0 <= i <= orig.len(),
                rest@ == orig.subrange(i, orig.len() as int),
                normalized_from(kept@, orig.subrange(0, i)),
            decreases rest.len(),
        {
            let s = rest.remove(0);
            let ghost prev = surviving_sets(orig.subrange(0, i));
            proof {
                assert(orig.subrange(0, i + 1).drop_last() =~= orig.subrange(0, i));
                reveal(Seq::filter);
            }
            let SetEffectInfo { set_name, total_set_count, set_option_full } = s;
            let matched = filter_active(total_set_count, set_option_full);
            if matched.len() > 0 {
                kept.push(SetEffectInfo { set_name, total_set_count, set_option_full: matched });
                assert(surviving_sets(orig.subrange(0, i + 1)) == prev.push(s));
            } else {
                assert(surviving_sets(orig.subrange(0, i + 1)) == prev);
            }
            proof {
                i = i + 1;
                assert(rest@ =~= orig.subrange(i, orig.len() as int));
            }
        }
        assert(orig.subrange(0, i) =~= orig);
        SetEffect { set_effect: kept }
    }
}

/// In a normalised list of set bonuses every set keeps at least one tier,
/// no kept tier has a threshold above the set's worn piece count, and no
/// input set without an active tier appears.
pub proof fn lemma_normalized_sets_are_active(out: Seq<SetEffectInfo>, inp: Seq<SetEffectInfo>)
    requires
        normalized_from(out, inp),
    ensures
        forall|k: int| 0 <= k < out.len() ==> (#[trigger] out[k]).set_option_full@.len() > 0,
        forall|k: int, j: int|
            0 <= k < out.len() && 0 <= j < out[k].set_option_full@.len() ==> #[trigger] out[k].set_option_full@[j].set_count
                <= out[k].total_set_count,
        forall|x: SetEffectInfo| #[trigger] surviving_sets(inp).contains(x) ==> has_active_tier(x),
{
    let p = |x: SetEffectInfo| has_active_tier(x);
    assert forall|k: int| 0 <= k < out.len() implies (#[trigger] out[k]).set_option_full@.len() > 0 by {
        inp.lemma_filter_pred(p, k);
    }
    assert forall|k: int, j: int|
        0 <= k < out.len() && 0 <= j < out[k].set_option_full@.len() implies #[trigger] out[k].set_option_full@[j].set_count
            <= out[k].total_set_count by {
        let src = surviving_sets(inp)[k];
        src.set_option_full@.lemma_filter_pred(|o: SetEffectInfoFull| o.set_count <= src.total_set_count, j);
    }
    assert forall|x: SetEffectInfo| #[trigger] surviving_sets(inp).contains(x) implies has_active_tier(x) by {
        let k = choose|k: int| 0 <= k < surviving_sets(inp).len() && surviving_sets(inp)[k] == x;
        inp.lemma_filter_pred(p, k);
    }
}

proof fn lemma_active_tiers_idempotent(worn: i8, t: Seq<SetEffectInfoFull>)
    ensures
        active_tiers(worn, active_tiers(worn, t)) == active_tiers(worn, t),
    decreases t.len(),
{
    reveal(Seq::filter);
    if t.len() > 0 {
        lemma_active_tiers_idempotent(worn, t.drop_last());
        let rest = active_tiers(worn, t.drop_last());
        if t.last().set_count <= worn {
            assert(rest.push(t.last()).drop_last() =~= rest);
        }
    }
}

proof fn lemma_all_survive(s: Seq<SetEffectInfo>)
    requires
        forall|k: int| 0 <= k < s.len() ==> has_active_tier(#[trigger] s[k]),
    ensures
        surviving_sets(s) == s,
    decreases s.len(),
{
    reveal(Seq::filter);
    if s.len() > 0 {
        lemma_all_survive(s.drop_last());
        assert(s.drop_last().push(s.last()) =~= s);
    }
}

/// Normalising a normalised list of set bonuses again gives it back
/// unchanged: every set survives and keeps all its tiers, so a repeated
/// fetch of the same upstream data yields the same response.
pub proof fn lemma_set_normalization_idempotent(out: Seq<SetEffectInfo>, inp: Seq<SetEffectInfo>)
    requires
        normalized_from(out, inp),
    ensures
        surviving_sets(out) == out,
        forall|k: int| 0 <= k < out.len() ==> trimmed_from(#[trigger] out[k], out[k]),
{
    lemma_normalized_sets_are_active(out, inp);
    assert forall|k: int| 0 <= k < out.len() implies trimmed_from(#[trigger] out[k], out[k]) && has_active_tier(out[k]) by {
        let src = surviving_sets(inp)[k];
        lemma_active_tiers_idempotent(src.total_set_count, src.set_option_full@);
    }
    lemma_all_survive(out);
}

/// The response to a set-bonus request: the upstream status decides
/// between a report and the decoded payload, which is then normalised.
/// `status` is `None` when the upstream could not be reached, `decoded` is
/// `None` when its payload could not be decoded.
pub fn set_effect_response(status: Option<u16>, decoded: Option<SetEffect>) -> (r: Result<SetEffect, FetchError>)
    ensures
            match (status, decoded) {
                (Some(c), Some(d)) if is_success_status(c) => r is Ok && normalized_from(
                    r->Ok_0.set_effect@,
                    d.set_effect@,
                ),
                (Some(c), None) if is_success_status(c) => r == Err::<SetEffect, FetchError>(
                    FetchError::Malformed,
                ),
                (Some(c), _) => r == Err::<SetEffect, FetchError>(FetchError::Rejected(c)),
                (None, _) => r == Err::<SetEffect, FetchError>(FetchError::Unreachable),
            },
{
    match check_status(status) {
        Ok(()) => {},
        Err(e) => return Err(e),
    }
    match accept_payload(decoded) {
        Ok(d) => Ok(d.normalized()),
        Err(e) => Err(e),
    }
}

} // verus!

use crate::fetch::{accept_payload, check_status, is_success_status, FetchError};
use vstd::prelude::*;

verus! {

/// One hyper-stat allocation entry of a preset, as the upstream sends it.
pub struct HyperStat {
    pub stat_type: String,
    pub stat_point: Option<u32>,
    pub stat_level: u32,
    pub stat_increase: Option<String>,
}

/// The three hyper-stat presets of a character with their unspent points.
pub struct UserHyperStatData {
    pub hyper_stat_preset_1: Vec<HyperStat>,
    pub hyper_stat_preset_1_remain_point: i32,
    pub hyper_stat_preset_2: Vec<HyperStat>,
    pub hyper_stat_preset_2_remain_point: i32,
    pub hyper_stat_preset_3: Vec<HyperStat>,
    pub hyper_stat_preset_3_remain_point: i32,
}

/// An entry is shown to the client only when both its point count and its
/// increase text are present.
pub open spec fn is_allocated(s: HyperStat) -> bool {
    s.stat_point.is_some() && s.stat_increase.is_some()
}

/// The entries of a preset that survive normalisation, in their order.
pub open spec fn allocated_entries(s: Seq<HyperStat>) -> Seq<HyperStat> {
    s.filter(|e: HyperStat| is_allocated(e))
}

/// Keeps the allocated entries of one preset, in order, unchanged.
pub fn filter_allocated(preset: Vec<HyperStat>) -> (r: Vec<HyperStat>)
    ensures
        r@ == allocated_entries(preset@),
{
    let ghost orig = preset@;
    let mut rest = preset;
    let mut kept: Vec<HyperStat> = Vec::new();
    let ghost mut i: int = 0;
    while rest.len() > 0
        invariant
            0 <= i <= orig.len(),
            rest@ == orig.subrange(i, orig.len() as int),
            kept@ == allocated_entries(orig.subrange(0, i)),
        decreases rest.len(),
    {
        let e = rest.remove(0);
        proof {
            assert(orig.subrange(0, i + 1).drop_last() =~= orig.subrange(0, i));
            reveal(Seq::filter);
        }
        if e.stat_point.is_some() && e.stat_increase.is_some() {
            kept.push(e);
        }
        proof {
            i = i + 1;
            assert(rest@ =~= orig.subrange(i, orig.len() as int));
        }
    }
    assert(orig.subrange(0, i) =~= orig);
    kept
}

impl UserHyperStatData {
    /// Drops the unallocated entries of each preset independently; the
    /// remaining-point counters pass through unchanged.
    pub fn normalized(self) -> (r: UserHyperStatData)
        ensures
            r.hyper_stat_preset_1@ == allocated_entries(self.hyper_stat_preset_1@),
            r.hyper_stat_preset_2@ == allocated_entries(self.hyper_stat_preset_2@),
            r.hyper_stat_preset_3@ == allocated_entries(self.hyper_stat_preset_3@),
            r.hyper_stat_preset_1_remain_point == self.hyper_stat_preset_1_remain_point,
            r.hyper_stat_preset_2_remain_point == self.hyper_stat_preset_2_remain_point,
            r.hyper_stat_preset_3_remain_point == self.hyper_stat_preset_3_remain_point,
    {
        UserHyperStatData {
            hyper_stat_preset_1: filter_allocated(self.hyper_stat_preset_1),
            hyper_stat_preset_1_remain_point: self.hyper_stat_preset_1_remain_point,
            hyper_stat_preset_2: filter_allocated(self.hyper_stat_preset_2),
            hyper_stat_preset_2_remain_point: self.hyper_stat_preset_2_remain_point,
            hyper_stat_preset_3: filter_allocated(self.hyper_stat_preset_3),
            hyper_stat_preset_3_remain_point: self.hyper_stat_preset_3_remain_point,
        }
    }
}

/// Every entry of a filtered preset is allocated, and every allocated entry
/// of the input is still there: unallocated entries are absent and
/// allocated ones are retained verbatim.
pub proof fn lemma_filter_keeps_exactly_allocated(s: Seq<HyperStat>)
    ensures
        forall|k: int|
            0 <= k < allocated_entries(s).len() ==> is_allocated(#[trigger] allocated_entries(s)[k]),
        forall|e: HyperStat| #[trigger] allocated_entries(s).contains(e) <==> (s.contains(e) && is_allocated(e)),
{
    let p = |e: HyperStat| is_allocated(e);
    assert forall|k: int| 0 <= k < allocated_entries(s).len() implies is_allocated(
        #[trigger] allocated_entries(s)[k],
    ) by {
        s.lemma_filter_pred(p, k);
    }
    assert forall|e: HyperStat| #[trigger] allocated_entries(s).contains(e) <==> (s.contains(e)
        && is_allocated(e)) by {
        if allocated_entries(s).contains(e) {
            s.lemma_filter_contains_rev(p, e);
            let k = choose|k: int| 0 <= k < allocated_entries(s).len() && allocated_entries(s)[k] == e;
            s.lemma_filter_pred(p, k);
        }
        if s.contains(e) && is_allocated(e) {
            let k = choose|k: int| 0 <= k < s.len() && s[k] == e;
            s.lemma_filter_contains(p, k);
        }
    }
}

/// A filtered preset is a subsequence of its input: the returned positions
/// are strictly increasing, and the entry at each of them in the input is
/// the filtered entry of the same rank.
pub proof fn lemma_filter_is_subsequence(s: Seq<HyperStat>) -> (idx: Seq<int>)
    ensures
        idx.len() == allocated_entries(s).len(),
        forall|k: int|
            0 <= k < idx.len() ==> 0 <= #[trigger] idx[k] < s.len() && s[idx[k]]
                == allocated_entries(s)[k],
        forall|j: int, k: int| 0 <= j < k < idx.len() ==> #[trigger] idx[j] < #[trigger] idx[k],
    decreases s.len(),
{
    reveal(Seq::filter);
    if s.len() == 0 {
        Seq::empty()
    } else {
        let rest = s.drop_last();
        let prev = lemma_filter_is_subsequence(rest);
        if is_allocated(s.last()) {
            let idx = prev.push(s.len() - 1);
            assert(allocated_entries(s) == allocated_entries(rest).push(s.last()));
            assert forall|k: int| 0 <= k < idx.len() implies 0 <= #[trigger] idx[k] < s.len() && s[idx[k]]
                == allocated_entries(s)[k] by {
                if k < prev.len() {
                    assert(idx[k] == prev[k]);
                }
            }
            assert forall|j: int, k: int| 0 <= j < k < idx.len() implies #[trigger] idx[j] < #[trigger] idx[k] by {
                if k < prev.len() {
                    assert(idx[j] == prev[j] && idx[k] == prev[k]);
                } else {
                    assert(idx[j] == prev[j]);
                }
            }
            idx
        } else {
            assert(allocated_entries(s) == allocated_entries(rest));
            prev
        }
    }
}

/// Normalising an already normalised preset changes nothing, so a repeated
/// fetch of the same upstream data yields the same response.
pub proof fn lemma_filter_idempotent(s: Seq<HyperStat>)
    ensures
        allocated_entries(allocated_entries(s)) == allocated_entries(s),
    decreases s.len(),
{
    reveal(Seq::filter);
    if s.len() > 0 {
        lemma_filter_idempotent(s.drop_last());
        let rest = allocated_entries(s.drop_last());
        if is_allocated(s.last()) {
            assert(rest.push(s.last()).drop_last() =~= rest);
        }
    }
}

/// The response to a hyper-stat request: the upstream status decides
/// between a report and the decoded payload, which is then normalised.
/// `status` is `None` when the upstream could not be reached, `decoded` is
/// `None` when its payload could not be decoded.
pub fn hyper_stat_response(status: Option<u16>, decoded: Option<UserHyperStatData>) -> (r: Result<UserHyperStatData, FetchError>)
    ensures
            match (status, decoded) {
                (Some(c), Some(d)) if is_success_status(c) => r is Ok && ({
                    let n = r->Ok_0;
                    &&& n.hyper_stat_preset_1@ == allocated_entries(d.hyper_stat_preset_1@)
                    &&& n.hyper_stat_preset_2@ == allocated_entries(d.hyper_stat_preset_2@)
                    &&& n.hyper_stat_preset_3@ == allocated_entries(d.hyper_stat_preset_3@)
                    &&& n.hyper_stat_preset_1_remain_point == d.hyper_stat_preset_1_remain_point
                    &&& n.hyper_stat_preset_2_remain_point == d.hyper_stat_preset_2_remain_point
                    &&& n.hyper_stat_preset_3_remain_point == d.hyper_stat_preset_3_remain_point
                }),
                (Some(c), None) if is_success_status(c) => r == Err::<UserHyperStatData, FetchError>(
                    FetchError::Malformed,
                ),
                (Some(c), _) => r == Err::<UserHyperStatData, FetchError>(FetchError::Rejected(c)),
                (None, _) => r == Err::<UserHyperStatData, FetchError>(FetchError::Unreachable),
            },
{
    match check_status(status) {
        Ok(()) => {},
        Err(e) => return Err(e),
    }
    match accept_payload(decoded) {
        Ok(d) => Ok(d.normalized()),
        Err(e) => Err(e),
    }
}

} // verus!

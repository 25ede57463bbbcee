//! Ordering the alarm list by trigger time, as the window shows it.
use crate::model::Alarm;
use crate::time::Instant;
use vstd::prelude::*;

verus! {

/// `a` comes strictly before `b` by trigger time: an alarm with no trigger
/// time comes before one with a trigger time, and trigger times compare as
/// instants.
pub open spec fn key_before(a: Option<Instant>, b: Option<Instant>) -> bool {
    match (a, b) {
        (None, Some(_)) => true,
        (Some(x), Some(y)) => x.before(y),
        _ => false,
    }
}

pub open spec fn alarm_before(a: Alarm, b: Alarm) -> bool {
    key_before(a.next_trigger_at, b.next_trigger_at)
}

/// No alarm comes before an alarm to its left.
pub open spec fn sorted_by_next(s: Seq<Alarm>) -> bool {
    forall|i: int, j: int| 0 <= i < j < s.len() ==> !alarm_before(#[trigger] s[j], #[trigger] s[i])
}

/// `p` is a permutation of `0..n`.
pub open spec fn is_permutation(p: Seq<int>, n: int) -> bool {
    &&& p.len() == n
    &&& forall|i: int| 0 <= i < n ==> 0 <= #[trigger] p[i] < n
    &&& forall|i: int, j: int| 0 <= i < j < n ==> #[trigger] p[i] != #[trigger] p[j]
}

/// `out` is `orig` rearranged by `p`, sorted by trigger time, with alarms of
/// equal trigger time in their original order.
pub open spec fn stable_sort_of(orig: Seq<Alarm>, out: Seq<Alarm>, p: Seq<int>) -> bool {
    &&& out.len() == orig.len()
    &&& is_permutation(p, orig.len() as int)
    &&& forall|i: int| 0 <= i < out.len() ==> #[trigger] out[i] == orig[p[i]]
    &&& sorted_by_next(out)
    &&& forall|i: int, j: int|
        0 <= i < j < out.len() && !alarm_before(#[trigger] out[i], #[trigger] out[j]) ==> p[i] < p[j]
}

proof fn lemma_key_asym(a: Option<Instant>, b: Option<Instant>)
    ensures
        key_before(a, b) ==> !key_before(b, a),
{
}

proof fn lemma_key_mixed(a: Option<Instant>, b: Option<Instant>, c: Option<Instant>)
    ensures
        key_before(a, b) && !key_before(c, b) ==> key_before(a, c),
{
}

/// Whether `a` comes strictly before `b` by trigger time.
fn next_before(a: &Alarm, b: &Alarm) -> (r: bool)
    ensures
        r == alarm_before(*a, *b),
{
    match (&a.next_trigger_at, &b.next_trigger_at) {
        (None, Some(_)) => true,
        (Some(x), Some(y)) => x.is_before(y),
        _ => false,
    }
}

/// Orders the alarms by trigger time (no trigger time first), keeping alarms
/// with equal trigger times in their original order.
pub fn sort_by_next_trigger(alarms: &mut Vec<Alarm>)
    ensures
        exists|p: Seq<int>| stable_sort_of(old(alarms)@, final(alarms)@, p),
{
    let mut input: Vec<Alarm> = Vec::new();
    std::mem::swap(&mut input, alarms);
    let ghost orig = input@;
    let ghost n = orig.len() as int;
    let mut out: Vec<Alarm> = Vec::new();
    let ghost mut p: Seq<int> = Seq::empty();
    let ghost mut m: int = 0;
    while input.len() > 0
        invariant
            0 <= m <= n,
            n == orig.len(),
            input@ == orig.subrange(m, n),
            out@.len() == m,
            p.len() == m,
            forall|i: int| 0 <= i < m ==> 0 <= #[trigger] p[i] < m,
            forall|i: int, j: int| 0 <= i < j < m ==> #[trigger] p[i] != #[trigger] p[j],
            forall|i: int| 0 <= i < m ==> #[trigger] out@[i] == orig[p[i]],
            sorted_by_next(out@),
            forall|i: int, j: int|
                0 <= i < j < m && !alarm_before(#[trigger] out@[i], #[trigger] out@[j]) ==> p[i] < p[j],
        decreases input.len(),
    {
        let x = input.remove(0);
        assert(x == orig[m]);
        let mut k: usize = 0;
        while k < out.len() && !next_before(&x, &out[k])
            invariant
                k <= out@.len(),
                forall|t: int| 0 <= t < k ==> !alarm_before(x, #[trigger] out@[t]),
            decreases out.len() - k,
        {
            k = k + 1;
        }
        let ghost old_out = out@;
        let ghost old_p = p;
        out.insert(k, x);
        proof {
            p = old_p.insert(k as int, m);
            let ki = k as int;
            assert(out@ == old_out.insert(ki, x));
            assert forall|t: int| ki < t < old_out.len() implies alarm_before(x, #[trigger] old_out[t]) by {
                assert(alarm_before(x, old_out[ki]));
                assert(!alarm_before(old_out[t], old_out[ki]));
                lemma_key_mixed(x.next_trigger_at, old_out[ki].next_trigger_at, old_out[t].next_trigger_at);
            }
            assert forall|i: int, j: int| 0 <= i < j < m + 1 implies !alarm_before(
                #[trigger] out@[j],
                #[trigger] out@[i],
            ) by {
                if j < ki {
                    assert(out@[i] == old_out[i] && out@[j] == old_out[j]);
                } else if j == ki {
                    assert(out@[i] == old_out[i]);
                } else if i == ki {
                    assert(out@[j] == old_out[j - 1]);
                    lemma_key_asym(x.next_trigger_at, old_out[j - 1].next_trigger_at);
                } else if i < ki {
                    assert(out@[i] == old_out[i] && out@[j] == old_out[j - 1]);
                } else {
                    assert(out@[i] == old_out[i - 1] && out@[j] == old_out[j - 1]);
                }
            }
            assert forall|i: int| 0 <= i < m + 1 implies 0 <= #[trigger] p[i] < m + 1 && out@[i]
                == orig[p[i]] by {
                if i < ki {
                    assert(p[i] == old_p[i] && out@[i] == old_out[i]);
                } else if i > ki {
                    assert(p[i] == old_p[i - 1] && out@[i] == old_out[i - 1]);
                }
            }
            assert forall|i: int, j: int| 0 <= i < j < m + 1 implies #[trigger] p[i] != #[trigger] p[j] by {
                if i < ki && j < ki {
                    assert(p[i] == old_p[i] && p[j] == old_p[j]);
                } else if i < ki && j == ki {
                    assert(p[i] == old_p[i]);
                } else if i < ki {
                    assert(p[i] == old_p[i] && p[j] == old_p[j - 1]);
                } else if i == ki {
                    assert(p[j] == old_p[j - 1]);
                } else {
                    assert(p[i] == old_p[i - 1] && p[j] == old_p[j - 1]);
                }
            }
            assert forall|i: int, j: int|
                0 <= i < j < m + 1 && !alarm_before(#[trigger] out@[i], #[trigger] out@[j]) implies p[i]
                < p[j] by {
                if j < ki {
                    assert(p[i] == old_p[i] && p[j] == old_p[j]);
                    assert(out@[i] == old_out[i] && out@[j] == old_out[j]);
                } else if j == ki {
                    assert(p[i] == old_p[i]);
                } else if i < ki {
                    assert(p[i] == old_p[i] && p[j] == old_p[j - 1]);
                    assert(out@[i] == old_out[i] && out@[j] == old_out[j - 1]);
                } else if i == ki {
                    assert(out@[j] == old_out[j - 1]);
                    assert(alarm_before(x, old_out[j - 1]));
                } else {
                    assert(p[i] == old_p[i - 1] && p[j] == old_p[j - 1]);
                    assert(out@[i] == old_out[i - 1] && out@[j] == old_out[j - 1]);
                }
            }
            m = m + 1;
            assert(input@ == orig.subrange(m, n));
        }
    }
    *alarms = out;
    assert(stable_sort_of(orig, alarms@, p));
}

} // verus!

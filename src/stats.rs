use crate::model::{ConversionError, Stat};
use vstd::prelude::*;

verus! {

/// The number of stat categories, and so the length of a well-formed raw stat
/// vector.
pub const STAT_COUNT: usize = 5;

/// The stat category at position `i` of a raw stat vector.
pub open spec fn stat_at(i: int) -> Stat
    recommends
        0 <= i < STAT_COUNT,
{
    if i == 0 {
        Stat::Strength
    } else if i == 1 {
        Stat::Magic
    } else if i == 2 {
        Stat::Endurance
    } else if i == 3 {
        Stat::Agility
    } else {
        Stat::Luck
    }
}

/// The largest of the first `n` values of `s` (for `n >= 1`).
pub open spec fn max_prefix(s: Seq<i32>, n: int) -> int
    decreases n,
{
    if n <= 1 {
        s[0] as int
    } else {
        let m = max_prefix(s, n - 1);
        if s[n - 1] > m {
            s[n - 1] as int
        } else {
            m
        }
    }
}

/// The largest value of a non-empty stat vector.
pub open spec fn max_stat(s: Seq<i32>) -> int {
    max_prefix(s, s.len() as int)
}

/// The categories, in index order, of the first `n` positions of `s` whose
/// value is `m`.
pub open spec fn stats_equal_to(s: Seq<i32>, m: int, n: int) -> Seq<Stat>
    decreases n,
{
    if n <= 0 {
        Seq::empty()
    } else {
        let earlier = stats_equal_to(s, m, n - 1);
        if s[n - 1] as int == m {
            earlier.push(stat_at(n - 1))
        } else {
            earlier
        }
    }
}

/// The categories, in index order, at which the stat vector `s` attains its
/// largest value (empty for an empty vector).
pub open spec fn highest_stats_of(s: Seq<i32>) -> Seq<Stat> {
    stats_equal_to(s, max_stat(s), s.len() as int)
}

impl Stat {
    /// The category at position `index` of a raw stat vector, or `None` past
    /// the last category.
    pub fn from_index(index: usize) -> (r: Option<Stat>)
        ensures
            index < STAT_COUNT ==> r == Some(stat_at(index as int)),
            index >= STAT_COUNT ==> r is None,
    {
        match index {
            0 => Some(Stat::Strength),
            1 => Some(Stat::Magic),
            2 => Some(Stat::Endurance),
            3 => Some(Stat::Agility),
            4 => Some(Stat::Luck),
            _ => None,
        }
    }
}

/// Every one of the first `n` values is at most their maximum, and one of them
/// equals it.
pub proof fn lemma_max_prefix_bounds(s: Seq<i32>, n: int)
    requires
        1 <= n <= s.len(),
    ensures
        forall|j: int| 0 <= j < n ==> s[j] <= max_prefix(s, n),
        exists|j: int| 0 <= j < n && s[j] == max_prefix(s, n),
    decreases n,
{
    if n > 1 {
        lemma_max_prefix_bounds(s, n - 1);
        let m = max_prefix(s, n - 1);
        if s[n - 1] <= m {
            let j = choose|j: int| 0 <= j < n - 1 && s[j] == m;
            assert(0 <= j < n && s[j] == max_prefix(s, n));
        }
    } else {
        assert(s[0] == max_prefix(s, n));
    }
}

/// Where no one of the first `n` values equals `m`, no category is listed.
pub proof fn lemma_stats_equal_to_none(s: Seq<i32>, m: int, n: int)
    requires
        0 <= n <= s.len(),
        forall|j: int| 0 <= j < n ==> s[j] != m,
    ensures
        stats_equal_to(s, m, n) == Seq::<Stat>::empty(),
    decreases n,
{
    if n > 0 {
        lemma_stats_equal_to_none(s, m, n - 1);
    }
}

/// Distinct positions name distinct categories.
pub proof fn lemma_stat_at_injective(i: int, j: int)
    requires
        0 <= i < STAT_COUNT,
        0 <= j < STAT_COUNT,
        stat_at(i) == stat_at(j),
    ensures
        i == j,
{
}

/// The category of position `i` is listed among the first `n` positions
/// valued `m` exactly when `i` is one of them and its value is `m`.
pub proof fn lemma_stats_equal_to_contains(s: Seq<i32>, m: int, n: int, i: int)
    requires
        0 <= n <= s.len(),
        n <= STAT_COUNT,
        0 <= i < STAT_COUNT,
    ensures
        stats_equal_to(s, m, n).contains(stat_at(i)) <==> (i < n && s[i] == m),
    decreases n,
{
    if n > 0 {
        lemma_stats_equal_to_contains(s, m, n - 1, i);
        let earlier = stats_equal_to(s, m, n - 1);
        if s[n - 1] == m {
            let all = earlier.push(stat_at(n - 1));
            assert(all[earlier.len() as int] == stat_at(n - 1));
            if all.contains(stat_at(i)) && !earlier.contains(stat_at(i)) {
                let k = choose|k: int| 0 <= k < all.len() && all[k] == stat_at(i);
                if k < earlier.len() {
                    assert(earlier[k] == stat_at(i));
                }
                lemma_stat_at_injective(i, n - 1);
            }
            if earlier.contains(stat_at(i)) {
                let k = choose|k: int| 0 <= k < earlier.len() && earlier[k] == stat_at(i);
                assert(all[k] == stat_at(i));
            }
        } else if i == n - 1 {
            if earlier.contains(stat_at(i)) {
                assert(i < n - 1);
            }
        }
    }
}

/// For a stat vector with one value per category, the highest stats are not
/// empty, every category in them has the largest value, and every other
/// category has a strictly smaller one.
pub proof fn lemma_highest_stats_are_maximal(s: Seq<i32>)
    requires
        s.len() == STAT_COUNT,
    ensures
        highest_stats_of(s).len() > 0,
        forall|i: int|
            0 <= i < STAT_COUNT ==> (#[trigger] highest_stats_of(s).contains(stat_at(i))
                <==> s[i] == max_stat(s)),
        forall|i: int|
            0 <= i < STAT_COUNT && !(#[trigger] highest_stats_of(s).contains(stat_at(i)))
                ==> s[i] < max_stat(s),
{
    let m = max_stat(s);
    let r = highest_stats_of(s);
    lemma_max_prefix_bounds(s, STAT_COUNT as int);
    assert forall|i: int| 0 <= i < STAT_COUNT implies (r.contains(stat_at(i)) <==> s[i] == m) by {
        lemma_stats_equal_to_contains(s, m, STAT_COUNT as int, i);
    }
    let j = choose|j: int| 0 <= j < STAT_COUNT && s[j] == m;
    assert(r.contains(stat_at(j)));
}

/// The categories at which `stats` attains its largest value, in index order,
/// ties all kept. Fails with the first position past the last category where
/// the vector is longer than the number of categories.
pub fn highest_stats(stats: &Vec<i32>) -> (r: Result<Vec<Stat>, ConversionError>)
    ensures
        stats@.len() > STAT_COUNT ==> r == Err::<Vec<Stat>, ConversionError>(
            ConversionError::InvalidStatIndex(STAT_COUNT),
        ),
        stats@.len() <= STAT_COUNT ==> (r matches Ok(v) && v@ == highest_stats_of(stats@)),
{
    let ghost s = stats@;
    let mut result: Vec<Stat> = Vec::new();
    let mut best: i32 = 0;
    let mut i: usize = 0;
    while i < stats.len()
        invariant
            s == stats@,
            i <= stats@.len(),
            i <= STAT_COUNT,
            i == 0 ==> result@ == Seq::<Stat>::empty(),
            i > 0 ==> best as int == max_prefix(s, i as int),
            i > 0 ==> result@ == stats_equal_to(s, best as int, i as int),
        decreases stats@.len() - i,
    {
        let stat = match Stat::from_index(i) {
            Some(stat) => stat,
            None => {
                return Err(ConversionError::InvalidStatIndex(i));
            },
        };
        let value = stats[i];
        if i == 0 || value > best {
            proof {
                if i > 0 {
                    lemma_max_prefix_bounds(s, i as int);
                }
                lemma_stats_equal_to_none(s, value as int, i as int);
            }
            result = Vec::new();
            result.push(stat);
            best = value;
            assert(result@ =~= stats_equal_to(s, best as int, i + 1));
        } else if value == best {
            result.push(stat);
        }
        i = i + 1;
    }
    Ok(result)
}

} // verus!

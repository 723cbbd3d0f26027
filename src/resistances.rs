use crate::model::{DamageType, ResistanceLevel};
use vstd::prelude::*;

verus! {

/// A decoded resistance mapping is a mapping: no damage type has two entries.
pub open spec fn keys_distinct(m: Seq<(DamageType, ResistanceLevel)>) -> bool {
    forall|i: int, j: int| 0 <= i < j < m.len() ==> m[i].0 != m[j].0
}

/// The damage types, in entry order, among the first `n` entries of `m` that
/// have the level `level`.
pub open spec fn damage_types_at(
    m: Seq<(DamageType, ResistanceLevel)>,
    level: ResistanceLevel,
    n: int,
) -> Seq<DamageType>
    decreases n,
{
    if n <= 0 {
        Seq::empty()
    } else {
        let earlier = damage_types_at(m, level, n - 1);
        if m[n - 1].1 == level {
            earlier.push(m[n - 1].0)
        } else {
            earlier
        }
    }
}

/// The damage types, in entry order, that `m` gives the level `level`.
pub open spec fn damage_types_with(
    m: Seq<(DamageType, ResistanceLevel)>,
    level: ResistanceLevel,
) -> Seq<DamageType> {
    damage_types_at(m, level, m.len() as int)
}

/// A damage type is listed among the first `n` entries with a level exactly
/// when one of those entries gives it that level.
pub proof fn lemma_damage_types_at_contains(
    m: Seq<(DamageType, ResistanceLevel)>,
    level: ResistanceLevel,
    n: int,
    d: DamageType,
)
    requires
        0 <= n <= m.len(),
    ensures
        damage_types_at(m, level, n).contains(d) <==> exists|i: int|
            0 <= i < n && (#[trigger] m[i]).0 == d && m[i].1 == level,
    decreases n,
{
    if n > 0 {
        lemma_damage_types_at_contains(m, level, n - 1, d);
        let earlier = damage_types_at(m, level, n - 1);
        if m[n - 1].1 == level {
            let all = earlier.push(m[n - 1].0);
            assert(all[earlier.len() as int] == m[n - 1].0);
            if all.contains(d) && !earlier.contains(d) {
                let k = choose|k: int| 0 <= k < all.len() && all[k] == d;
                if k < earlier.len() {
                    assert(earlier[k] == d);
                }
                assert(m[n - 1].0 == d);
            }
            if earlier.contains(d) {
                let k = choose|k: int| 0 <= k < earlier.len() && earlier[k] == d;
                assert(all[k] == d);
            }
        }
    }
}

/// The damage types, in entry order, that `decoded` gives the level `level`.
pub fn damage_types_with_level(
    decoded: &Vec<(DamageType, ResistanceLevel)>,
    level: ResistanceLevel,
) -> (r: Vec<DamageType>)
    ensures
        r@ == damage_types_with(decoded@, level),
{
    let mut result: Vec<DamageType> = Vec::new();
    let mut i: usize = 0;
    while i < decoded.len()
        invariant
            i <= decoded@.len(),
            result@ == damage_types_at(decoded@, level, i as int),
        decreases decoded@.len() - i,
    {
        let (damage_type, entry_level) = decoded[i];
        if entry_level == level {
            result.push(damage_type);
        }
        i = i + 1;
    }
    result
}

/// Splits a decoded resistance mapping into the damage types resisted and the
/// damage types the persona is weak to, each in entry order. Every other level
/// is left out of both.
pub fn partition_resistances(decoded: &Vec<(DamageType, ResistanceLevel)>) -> (r: (
    Vec<DamageType>,
    Vec<DamageType>,
))
    ensures
        r.0@ == damage_types_with(decoded@, ResistanceLevel::Resist),
        r.1@ == damage_types_with(decoded@, ResistanceLevel::Weak),
{
    let resistances = damage_types_with_level(decoded, ResistanceLevel::Resist);
    let weaknesses = damage_types_with_level(decoded, ResistanceLevel::Weak);
    (resistances, weaknesses)
}

/// In a decoded resistance mapping, no damage type is both resisted and a
/// weakness, and a damage type with any other level is neither.
pub proof fn lemma_partition_disjoint(m: Seq<(DamageType, ResistanceLevel)>)
    requires
        keys_distinct(m),
    ensures
        forall|d: DamageType|
            !(#[trigger] damage_types_with(m, ResistanceLevel::Resist).contains(d)
                && #[trigger] damage_types_with(m, ResistanceLevel::Weak).contains(d)),
        forall|i: int|
            0 <= i < m.len() && (#[trigger] m[i]).1 != ResistanceLevel::Resist && m[i].1
                != ResistanceLevel::Weak ==> !damage_types_with(m, ResistanceLevel::Resist).contains(
                m[i].0,
            ) && !damage_types_with(m, ResistanceLevel::Weak).contains(m[i].0),
{
    let n = m.len() as int;
    assert forall|d: DamageType|
        !(#[trigger] damage_types_with(m, ResistanceLevel::Resist).contains(d)
            && #[trigger] damage_types_with(m, ResistanceLevel::Weak).contains(d)) by {
        lemma_damage_types_at_contains(m, ResistanceLevel::Resist, n, d);
        lemma_damage_types_at_contains(m, ResistanceLevel::Weak, n, d);
        if damage_types_with(m, ResistanceLevel::Resist).contains(d)
            && damage_types_with(m, ResistanceLevel::Weak).contains(d) {
            let i = choose|i: int| 0 <= i < n && (#[trigger] m[i]).0 == d && m[i].1 == ResistanceLevel::Resist;
            let j = choose|j: int| 0 <= j < n && (#[trigger] m[j]).0 == d && m[j].1 == ResistanceLevel::Weak;
            assert(i != j);
            if i < j {
                assert(m[i].0 != m[j].0);
            } else {
                assert(m[j].0 != m[i].0);
            }
        }
    }
    assert forall|i: int|
        0 <= i < m.len() && (#[trigger] m[i]).1 != ResistanceLevel::Resist && m[i].1
            != ResistanceLevel::Weak implies !damage_types_with(m, ResistanceLevel::Resist).contains(
        m[i].0,
    ) && !damage_types_with(m, ResistanceLevel::Weak).contains(m[i].0) by {
        let d = m[i].0;
        lemma_damage_types_at_contains(m, ResistanceLevel::Resist, n, d);
        lemma_damage_types_at_contains(m, ResistanceLevel::Weak, n, d);
        if damage_types_with(m, ResistanceLevel::Resist).contains(d)
            || damage_types_with(m, ResistanceLevel::Weak).contains(d) {
            let j = choose|j: int| 0 <= j < n && (#[trigger] m[j]).0 == d && (m[j].1 == ResistanceLevel::Resist || m[j].1 == ResistanceLevel::Weak);
            assert(i != j);
            if i < j {
                assert(m[i].0 != m[j].0);
            } else {
                assert(m[j].0 != m[i].0);
            }
        }
    }
}

} // verus!

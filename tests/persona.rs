use persona_data::model::{Arcana, ConversionError, DamageType, PersonaData, ResistanceLevel, Stat};
use persona_data::resistances::{damage_types_with_level, partition_resistances};
use persona_data::stats::{highest_stats, STAT_COUNT};

fn jack_frost_resistances() -> Vec<(DamageType, ResistanceLevel)> {
    vec![
        (DamageType::Phys, ResistanceLevel::Normal),
        (DamageType::Gun, ResistanceLevel::Normal),
        (DamageType::Fire, ResistanceLevel::Weak),
        (DamageType::Ice, ResistanceLevel::Resist),
        (DamageType::Electric, ResistanceLevel::Normal),
        (DamageType::Wind, ResistanceLevel::Normal),
        (DamageType::Psychokinesis, ResistanceLevel::Normal),
        (DamageType::Nuclear, ResistanceLevel::Normal),
        (DamageType::Bless, ResistanceLevel::Normal),
        (DamageType::Curse, ResistanceLevel::Normal),
        (DamageType::Almighty, ResistanceLevel::Normal),
    ]
}

#[test]
fn ties_keep_index_order() {
    let r = highest_stats(&vec![10, 10, 5, 10, 0]).unwrap();
    assert_eq!(r, vec![Stat::Strength, Stat::Magic, Stat::Agility]);
}

#[test]
fn single_maximum() {
    let r = highest_stats(&vec![3, 7, 2, 1, 0]).unwrap();
    assert_eq!(r, vec![Stat::Magic]);
}

#[test]
fn all_equal_stats() {
    let r = highest_stats(&vec![4, 4, 4, 4, 4]).unwrap();
    assert_eq!(
        r,
        vec![Stat::Strength, Stat::Magic, Stat::Endurance, Stat::Agility, Stat::Luck]
    );
}

#[test]
fn maximum_is_last() {
    let r = highest_stats(&vec![1, 2, 3, 4, 9]).unwrap();
    assert_eq!(r, vec![Stat::Luck]);
}

#[test]
fn greater_value_resets_ties() {
    let r = highest_stats(&vec![5, 5, 6, 2, 6]).unwrap();
    assert_eq!(r, vec![Stat::Endurance, Stat::Luck]);
}

#[test]
fn negative_stats_still_have_a_maximum() {
    let r = highest_stats(&vec![-3, -1, -5, -1, -2]).unwrap();
    assert_eq!(r, vec![Stat::Magic, Stat::Agility]);
}

#[test]
fn extreme_stat_values() {
    let r = highest_stats(&vec![i32::MIN, i32::MAX, 0, i32::MAX, i32::MIN]).unwrap();
    assert_eq!(r, vec![Stat::Magic, Stat::Agility]);
    let r = highest_stats(&vec![i32::MIN; 5]).unwrap();
    assert_eq!(r.len(), STAT_COUNT);
}

#[test]
fn every_unlisted_stat_is_smaller() {
    let stats = vec![8, 2, 8, 7, 1];
    let r = highest_stats(&stats).unwrap();
    assert!(!r.is_empty());
    for i in 0..STAT_COUNT {
        let stat = Stat::from_index(i).unwrap();
        if r.contains(&stat) {
            assert_eq!(stats[i], 8);
        } else {
            assert!(stats[i] < 8);
        }
    }
}

#[test]
fn empty_stat_vector_gives_no_stats() {
    let r = highest_stats(&vec![]).unwrap();
    assert!(r.is_empty());
}

#[test]
fn short_stat_vector_uses_the_first_categories() {
    let r = highest_stats(&vec![1, 3, 3]).unwrap();
    assert_eq!(r, vec![Stat::Magic, Stat::Endurance]);
}

#[test]
fn six_stats_are_an_invalid_index() {
    let r = highest_stats(&vec![1, 2, 3, 4, 5, 6]);
    assert_eq!(r, Err(ConversionError::InvalidStatIndex(5)));
    // A smaller sixth value fails as well.
    let r = highest_stats(&vec![9, 2, 3, 4, 5, 0]);
    assert_eq!(r, Err(ConversionError::InvalidStatIndex(5)));
}

#[test]
fn stat_lookup_table() {
    assert_eq!(Stat::from_index(0), Some(Stat::Strength));
    assert_eq!(Stat::from_index(1), Some(Stat::Magic));
    assert_eq!(Stat::from_index(2), Some(Stat::Endurance));
    assert_eq!(Stat::from_index(3), Some(Stat::Agility));
    assert_eq!(Stat::from_index(4), Some(Stat::Luck));
    assert_eq!(Stat::from_index(5), None);
    assert_eq!(Stat::from_index(usize::MAX), None);
}

#[test]
fn partition_keeps_only_resist_and_weak() {
    let decoded = vec![
        (DamageType::Phys, ResistanceLevel::Null),
        (DamageType::Gun, ResistanceLevel::Resist),
        (DamageType::Fire, ResistanceLevel::Drain),
        (DamageType::Ice, ResistanceLevel::Weak),
        (DamageType::Electric, ResistanceLevel::Repel),
        (DamageType::Wind, ResistanceLevel::Resist),
        (DamageType::Psychokinesis, ResistanceLevel::Normal),
        (DamageType::Nuclear, ResistanceLevel::Weak),
        (DamageType::Bless, ResistanceLevel::Null),
        (DamageType::Curse, ResistanceLevel::Resist),
        (DamageType::Almighty, ResistanceLevel::Normal),
    ];
    let (resistances, weaknesses) = partition_resistances(&decoded);
    assert_eq!(resistances, vec![DamageType::Gun, DamageType::Wind, DamageType::Curse]);
    assert_eq!(weaknesses, vec![DamageType::Ice, DamageType::Nuclear]);
    for d in &resistances {
        assert!(!weaknesses.contains(d));
    }
}

#[test]
fn partition_follows_entry_order() {
    let decoded = vec![
        (DamageType::Curse, ResistanceLevel::Weak),
        (DamageType::Phys, ResistanceLevel::Weak),
        (DamageType::Almighty, ResistanceLevel::Resist),
        (DamageType::Gun, ResistanceLevel::Resist),
    ];
    let (resistances, weaknesses) = partition_resistances(&decoded);
    assert_eq!(resistances, vec![DamageType::Almighty, DamageType::Gun]);
    assert_eq!(weaknesses, vec![DamageType::Curse, DamageType::Phys]);
}

#[test]
fn partition_of_empty_mapping() {
    let (resistances, weaknesses) = partition_resistances(&vec![]);
    assert!(resistances.is_empty());
    assert!(weaknesses.is_empty());
}

#[test]
fn damage_types_for_another_level() {
    let decoded = vec![
        (DamageType::Fire, ResistanceLevel::Drain),
        (DamageType::Ice, ResistanceLevel::Weak),
        (DamageType::Bless, ResistanceLevel::Drain),
    ];
    let r = damage_types_with_level(&decoded, ResistanceLevel::Drain);
    assert_eq!(r, vec![DamageType::Fire, DamageType::Bless]);
}

#[test]
fn jack_frost_converts() {
    let p = PersonaData::try_from_fusion_tool_record(
        "Jack Frost".to_string(),
        5,
        Arcana::Fool,
        &vec![2, 3, 2, 5, 4],
        Ok(jack_frost_resistances()),
    )
    .unwrap();
    assert_eq!(p.name, "Jack Frost");
    assert_eq!(p.level, 5);
    assert_eq!(p.arcana, Arcana::Fool);
    assert_eq!(p.highest_stats, vec![Stat::Agility]);
    assert_eq!(p.resistances, vec![DamageType::Ice]);
    assert_eq!(p.weaknesses, vec![DamageType::Fire]);
}

#[test]
fn conversion_fails_on_six_stats() {
    let r = PersonaData::try_from_fusion_tool_record(
        "Jack Frost".to_string(),
        5,
        Arcana::Fool,
        &vec![2, 3, 2, 5, 4, 1],
        Ok(jack_frost_resistances()),
    );
    assert!(matches!(r, Err(ConversionError::InvalidStatIndex(5))));
}

#[test]
fn decoder_failure_is_handed_on() {
    let r = PersonaData::try_from_fusion_tool_record(
        "Pixie".to_string(),
        2,
        Arcana::Lovers,
        &vec![1, 3, 2, 3, 2],
        Err("unknown symbol".to_string()),
    );
    match r {
        Err(ConversionError::ResistanceDecode(message)) => assert_eq!(message, "unknown symbol"),
        _ => panic!("the decoder's failure was not handed on"),
    }
}

#[test]
fn stat_failure_comes_before_decoder_failure() {
    let r = PersonaData::try_from_fusion_tool_record(
        "Pixie".to_string(),
        2,
        Arcana::Lovers,
        &vec![1, 3, 2, 3, 2, 7],
        Err("unknown symbol".to_string()),
    );
    assert!(matches!(r, Err(ConversionError::InvalidStatIndex(5))));
}

#[test]
fn new_keeps_every_field() {
    let p = PersonaData::new(
        "Orpheus".to_string(),
        1,
        Arcana::Fool,
        vec![Stat::Magic],
        vec![DamageType::Electric],
        vec![DamageType::Ice, DamageType::Curse],
    );
    assert_eq!(p.name, "Orpheus");
    assert_eq!(p.level, 1);
    assert_eq!(p.arcana, Arcana::Fool);
    assert_eq!(p.highest_stats, vec![Stat::Magic]);
    assert_eq!(p.resistances, vec![DamageType::Electric]);
    assert_eq!(p.weaknesses, vec![DamageType::Ice, DamageType::Curse]);
}

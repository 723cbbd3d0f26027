use crate::model::{Arcana, ConversionError, DamageType, PersonaData, ResistanceLevel};
use crate::resistances::{damage_types_with, partition_resistances};
use crate::stats::{highest_stats, highest_stats_of, STAT_COUNT};
use vstd::prelude::*;

verus! {

impl PersonaData {
    /// Builds the canonical record of the persona `name` from the fields of its
    /// raw record: its level, its arcana, its stat vector, and what the
    /// resistance decoder made of its resistance string.
    ///
    /// A stat vector longer than the number of categories fails first; a
    /// decoder failure is handed on unchanged. Nothing else fails.
    pub fn try_from_fusion_tool_record(
        name: String,
        level: i32,
        arcana: Arcana,
        stats: &Vec<i32>,
        decoded: Result<Vec<(DamageType, ResistanceLevel)>, String>,
    ) -> (r: Result<PersonaData, ConversionError>)
        ensures
            stats@.len() > STAT_COUNT ==> r == Err::<PersonaData, ConversionError>(
                ConversionError::InvalidStatIndex(STAT_COUNT),
            ),
            stats@.len() <= STAT_COUNT && decoded is Err ==> r == Err::<
                PersonaData,
                ConversionError,
            >(ConversionError::ResistanceDecode(decoded->Err_0)),
            stats@.len() <= STAT_COUNT && decoded is Ok ==> (r matches Ok(p) && p.name@ == name@
                && p.level == level && p.arcana == arcana && p.highest_stats@ == highest_stats_of(
                stats@,
            ) && p.resistances@ == damage_types_with(decoded->Ok_0@, ResistanceLevel::Resist)
                && p.weaknesses@ == damage_types_with(decoded->Ok_0@, ResistanceLevel::Weak)),
    {
        let highest = match highest_stats(stats) {
            Ok(highest) => highest,
            Err(e) => {
                return Err(e);
            },
        };
        let decoded = match decoded {
            Ok(decoded) => decoded,
            Err(message) => {
                return Err(ConversionError::ResistanceDecode(message));
            },
        };
        let (resistances, weaknesses) = partition_resistances(&decoded);
        Ok(PersonaData::new(name, level, arcana, highest, resistances, weaknesses))
    }
}

} // verus!

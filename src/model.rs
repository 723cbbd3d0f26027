use vstd::prelude::*;

verus! {

/// The thematic family of a persona.
#[derive(Clone, Copy, Debug, PartialEq, Eq, Hash, Structural)]
pub enum Arcana {
    Fool,
    Magician,
    Priestess,
    Empress,
    Emperor,
    Hierophant,
    Lovers,
    Chariot,
    Justice,
    Hermit,
    Fortune,
    Strength,
    Hanged,
    Death,
    Temperance,
    Devil,
    Tower,
    Star,
    Moon,
    Sun,
    Judgement,
    Faith,
    Councillor,
}

/// A stat category. The order of the variants is the order of the values in a
/// raw stat vector.
#[derive(Clone, Copy, Debug, PartialEq, Eq, Hash, Structural)]
pub enum Stat {
    Strength,
    Magic,
    Endurance,
    Agility,
    Luck,
}

#[derive(Clone, Copy, Debug, PartialEq, Eq, Hash, Structural)]
pub enum DamageType {
    Phys,
    Gun,
    Fire,
    Ice,
    Electric,
    Wind,
    Psychokinesis,
    Nuclear,
    Bless,
    Curse,
    Almighty,
}

/// How a persona reacts to one damage type, as a resistance decoder reports it.
#[derive(Clone, Copy, Debug, PartialEq, Eq, Hash, Structural)]
pub enum ResistanceLevel {
    Weak,
    Normal,
    Resist,
    Null,
    Repel,
    Drain,
}

/// Why a raw record could not be converted.
#[derive(Clone, Debug, PartialEq, Eq)]
pub enum ConversionError {
    /// The stat vector has a value at this position, past the last stat
    /// category.
    InvalidStatIndex(usize),
    /// The resistance decoder failed, with this message.
    ResistanceDecode(String),
}

/// The canonical record of a persona.
#[derive(Clone, Debug)]
pub struct PersonaData {
    pub name: String,
    pub level: i32,
    pub arcana: Arcana,
    pub highest_stats: Vec<Stat>,
    pub resistances: Vec<DamageType>,
    pub weaknesses: Vec<DamageType>,
}

impl PersonaData {
    pub fn new(
        name: String,
        level: i32,
        arcana: Arcana,
        highest_stats: Vec<Stat>,
        resistances: Vec<DamageType>,
        weaknesses: Vec<DamageType>,
    ) -> (r: PersonaData)
        ensures
            r.name@ == name@,
            r.level == level,
            r.arcana == arcana,
            r.highest_stats@ == highest_stats@,
            r.resistances@ == resistances@,
            r.weaknesses@ == weaknesses@,
    {
        PersonaData { name, level, arcana, highest_stats, resistances, weaknesses }
    }
}

} // verus!

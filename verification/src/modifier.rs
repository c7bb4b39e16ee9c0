use vstd::prelude::*;
use crate::defs::SkillKind;

verus! {

/// Represents one modifier for a character.
#[derive(Clone, Copy, PartialEq, Eq, Structural, Debug)]
pub enum CharaModifier {
    Str(i16),
    Vit(i16),
    Dex(i16),
    Int(i16),
    Wil(i16),
    Cha(i16),
    Spd(i16),
}

/// Summed effect of modifiers a character received by properties,
/// status, and other factors. The speed factor is carried in
/// per-mille steps; the skill bonus per kind is a per-mille factor
/// and a flat addend.
#[derive(Clone, PartialEq, Eq, Debug)]
pub struct CharaTotalModifier {
    pub base_hp: i32,
    pub max_hp: i32,
    pub strength: i16,
    pub vitality: i16,
    pub dexterity: i16,
    pub intelligence: i16,
    pub will: i16,
    pub charisma: i16,
    pub speed: i16,
    pub spd_factor_permil: u32,
    pub skill_level: Vec<(SkillKind, (i32, i32))>,
}

impl Default for CharaTotalModifier {
    /// All summed modifiers start at zero; the speed factor starts
    /// neutral.
    fn default() -> (r: CharaTotalModifier)
        ensures
            r.base_hp == 0,
            r.max_hp == 0,
            r.strength == 0,
            r.vitality == 0,
            r.dexterity == 0,
            r.intelligence == 0,
            r.will == 0,
            r.charisma == 0,
            r.speed == 0,
            r.spd_factor_permil == 1000,
            r.skill_level@ == Seq::<(SkillKind, (i32, i32))>::empty(),
    {
        CharaTotalModifier {
            base_hp: 0,
            max_hp: 0,
            strength: 0,
            vitality: 0,
            dexterity: 0,
            intelligence: 0,
            will: 0,
            charisma: 0,
            speed: 0,
            spd_factor_permil: 1000,
            skill_level: Vec::new(),
        }
    }
}

} // verus!

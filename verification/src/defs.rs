use vstd::prelude::*;

verus! {

/// Kinds of terrain a map tile can have.
#[derive(Clone, Copy, PartialEq, Eq, Structural, Debug)]
pub enum TileKind {
    Ground,
    Water,
}

/// Skills a character can have a level in.
#[derive(Clone, Copy, PartialEq, Eq, Structural, Debug)]
pub enum SkillKind {
    Animals,
    Plants,
    Construction,
    Mining,
    MagicDevice,
}

/// Elements of damage/attack.
#[derive(Clone, Copy, PartialEq, Eq, Structural, Debug)]
pub enum Element {
    NoElement,
    Physical,
    Fire,
    Cold,
    Shock,
    Poison,
    Spirit,
}

/// Index of a concrete element inside an `ElementArray`.
pub open spec fn spec_element_index(e: Element) -> int {
    match e {
        Element::NoElement => 6,
        Element::Physical => 0,
        Element::Fire => 1,
        Element::Cold => 2,
        Element::Shock => 3,
        Element::Poison => 4,
        Element::Spirit => 5,
    }
}

/// This array has one slot for each concrete element.
#[derive(Clone, Copy, PartialEq, Eq, Debug)]
pub struct ElementArray<T>(pub [T; 6]);

impl<T> ElementArray<T> {
    /// Read the slot of a concrete element.
    pub fn get(&self, e: Element) -> (r: &T)
        requires
            !(e is NoElement),
        ensures
            *r == self.0@[spec_element_index(e)],
    {
        let i: usize = match e {
            Element::NoElement => 6,
            Element::Physical => 0,
            Element::Fire => 1,
            Element::Cold => 2,
            Element::Shock => 3,
            Element::Poison => 4,
            Element::Spirit => 5,
        };
        &self.0[i]
    }

    /// Replace the slot of a concrete element.
    pub fn set(&mut self, e: Element, v: T)
        requires
            !(e is NoElement),
        ensures
            final(self).0@ == old(self).0@.update(spec_element_index(e), v),
    {
        let i: usize = match e {
            Element::NoElement => 6,
            Element::Physical => 0,
            Element::Fire => 1,
            Element::Cold => 2,
            Element::Shock => 3,
            Element::Poison => 4,
            Element::Spirit => 5,
        };
        self.0[i] = v;
    }
}

/// Protection value against one element.
#[derive(Clone, Copy, PartialEq, Eq, Structural, Debug)]
pub struct ElementProtection(pub i8);

/// A recipe for creation.
#[derive(Clone, PartialEq, Eq, Debug)]
pub struct Recipe {
    pub product: String,
    pub ingredients: Vec<(String, u32)>,
    pub facility: Option<String>,
    pub difficulty: u32,
    pub required_time: CreationRequiredTime,
    pub put_on_ground: bool,
}

#[derive(Clone, Copy, PartialEq, Eq, Structural, Hash, Debug)]
pub enum CreationRequiredTime {
    VeryShort,
    Short,
    Medium,
    Long,
    VeryLong,
}

#[derive(Clone, Copy, PartialEq, Eq, Structural, Debug)]
pub enum ToolEffect {
    Build,
    Chop,
    Mine,
}

/// A content-defined effect, referenced by its identifier.
#[derive(Clone, Copy, PartialEq, Eq, Structural, Debug)]
pub struct Effect(pub u32);

#[derive(Clone, PartialEq, Eq, Debug)]
pub enum UseEffect {
    Effect(Effect),
    Deed,
    Seed { plant: String },
    SelectBuilding,
}

/// Index of an item template in the content tables.
#[derive(Clone, Copy, PartialEq, Eq, Structural, Hash, Debug)]
pub struct ItemIdx(pub u32);

/// Reward for quests or events.
#[derive(Clone, PartialEq, Eq, Debug)]
pub struct Reward {
    pub money: i64,
    pub item: Vec<ItemIdx>,
}

#[derive(Clone, PartialEq, Eq, Debug)]
pub struct Harvest {
    pub kind: HarvestKind,
    /// item id and yield
    pub item: Vec<(String, u32, u32)>,
    pub difficulty: u32,
}

#[derive(Clone, Copy, PartialEq, Eq, Structural, Debug)]
pub enum HarvestKind {
    Animal,
    Chop,
    Deconstruct,
    Plant,
    Mine,
}

impl HarvestKind {
    /// The skill that governs this kind of harvesting.
    pub fn related_skill(self) -> (r: SkillKind)
        ensures
            r == self.spec_related_skill(),
    {
        match self {
            HarvestKind::Animal => SkillKind::Animals,
            HarvestKind::Chop => SkillKind::Plants,
            HarvestKind::Deconstruct => SkillKind::Construction,
            HarvestKind::Plant => SkillKind::Plants,
            HarvestKind::Mine => SkillKind::Mining,
        }
    }

    pub open spec fn spec_related_skill(self) -> SkillKind {
        match self {
            HarvestKind::Animal => SkillKind::Animals,
            HarvestKind::Chop => SkillKind::Plants,
            HarvestKind::Deconstruct => SkillKind::Construction,
            HarvestKind::Plant => SkillKind::Plants,
            HarvestKind::Mine => SkillKind::Mining,
        }
    }
}

/// Active skill id.
#[derive(PartialEq, Eq, Hash, Debug)]
pub struct ActiveSkillId(pub String);

impl Clone for ActiveSkillId {
    fn clone(&self) -> (r: ActiveSkillId)
        ensures
            r == *self,
    {
        ActiveSkillId(self.0.clone())
    }
}

impl ActiveSkillId {
    /// Textual form of the id.
    pub fn to_text(&self) -> (r: String)
        ensures
            r@ == self.0@,
    {
        self.0.clone()
    }
}

/// Definition of an active skill, read from the content tables.
#[derive(Clone, Debug)]
pub struct ActiveSkill {
    pub group: ActiveSkillGroup,
    pub icon: String,
    pub effect: Effect,
    /// Flat multiplier applied to the calculated power.
    pub power: u32,
    pub hit_power: u32,
    pub power_calc: PowerCalcMethod,
    pub cost_sp: u32,
    pub cost_mp: u32,
}

#[derive(Clone, PartialEq, Eq, Debug)]
pub enum PowerCalcMethod {
    Num(u32),
    Magic,
    Custom(String),
}

/// An ordered pair (base, variance) describing a randomized power range.
#[derive(Clone, Copy, PartialEq, Eq, Structural, PartialOrd, Ord, Debug)]
pub struct BasePower(pub u16, pub u16);

#[derive(Clone, Copy, PartialEq, Eq, Structural, Debug)]
pub enum ActiveSkillGroup {
    Special,
    Magic,
}

#[derive(Clone, Copy, PartialEq, Eq, Structural, Debug)]
pub enum ActiveSkillOrigin {
    Inherent,
    Learned,
    Race,
    Class,
}

#[derive(Clone, Copy, PartialEq, Eq, Structural, Debug)]
pub enum PassiveEffect {
    AttrStr(i16),
    AttrVit(i16),
    AttrDex(i16),
    AttrInt(i16),
    AttrWil(i16),
    AttrCha(i16),
    AttrSpd(i16),
}

/// Unique id used in game.
pub type UniqueId = u64;

/// Unique id generator.
pub trait UniqueIdGenerator {
    fn generate(&mut self) -> UniqueId;
}

} // verus!

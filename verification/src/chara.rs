use vstd::prelude::*;
use crate::defs::{ActiveSkill, ItemIdx, SkillKind};

verus! {

/// A timed condition attached to a character.
#[derive(Clone, Copy, PartialEq, Eq, Structural, Debug)]
pub enum CharaStatus {
    Poisoned,
    Asleep { turn_left: u16 },
}

/// One turn of decay applied to a status.
pub open spec fn spec_advance_status(s: CharaStatus) -> CharaStatus {
    match s {
        CharaStatus::Poisoned => CharaStatus::Poisoned,
        CharaStatus::Asleep { turn_left } => CharaStatus::Asleep {
            turn_left: if turn_left == 0 {
                0
            } else {
                (turn_left - 1) as u16
            },
        },
    }
}

/// Whether a status has run out and must be removed.
pub open spec fn spec_is_expired(s: CharaStatus) -> bool {
    match s {
        CharaStatus::Poisoned => false,
        CharaStatus::Asleep { turn_left } => turn_left == 0,
    }
}

/// Whether a status makes a character unable to act.
pub open spec fn spec_is_incapacitating(s: CharaStatus) -> bool {
    s is Asleep
}

/// The remaining duration a status carries; an untimed status carries
/// none.
pub open spec fn spec_status_remaining(s: CharaStatus) -> nat {
    match s {
        CharaStatus::Poisoned => 0,
        CharaStatus::Asleep { turn_left } => turn_left as nat,
    }
}

/// One whole ledger step: every status decays by one turn, then the
/// expired ones are removed, keeping the relative order of the rest.
pub open spec fn spec_advance_statuses(ss: Seq<CharaStatus>) -> Seq<CharaStatus>
    decreases ss.len(),
{
    if ss.len() == 0 {
        Seq::empty()
    } else {
        let a = spec_advance_status(ss[0]);
        (if spec_is_expired(a) {
            Seq::<CharaStatus>::empty()
        } else {
            seq![a]
        }) + spec_advance_statuses(ss.drop_first())
    }
}

/// A character can act when no incapacitating status is present.
pub open spec fn spec_can_act_statuses(ss: Seq<CharaStatus>) -> bool {
    forall|i: int| 0 <= i < ss.len() ==> !spec_is_incapacitating(#[trigger] ss[i])
}

impl CharaStatus {
    /// Decay this status by one turn.
    pub fn advance_turn(&mut self)
        ensures
            *final(self) == spec_advance_status(*old(self)),
    {
        match self {
            CharaStatus::Poisoned => {},
            CharaStatus::Asleep { turn_left } => {
                if *turn_left > 0 {
                    *turn_left = *turn_left - 1;
                }
            },
        }
    }

    pub fn is_expired(&self) -> (r: bool)
        ensures
            r == spec_is_expired(*self),
    {
        match self {
            CharaStatus::Poisoned => false,
            CharaStatus::Asleep { turn_left } => *turn_left == 0,
        }
    }
}

/// A character's attribute set.
#[derive(Clone, Copy, PartialEq, Eq, Structural, Debug)]
pub struct CharaAttrs {
    pub strength: u16,
    pub vitality: u16,
    pub dexterity: u16,
    pub intelligence: u16,
    pub will: u16,
    pub charisma: u16,
    pub speed: u16,
}

/// A character's resource pools.
#[derive(Clone, Copy, PartialEq, Eq, Structural, Debug)]
pub struct CharaParams {
    pub hp: i32,
    pub max_hp: i32,
    pub sp: i32,
    pub mp: i32,
}

/// What an item list records for an item index.
pub open spec fn spec_items_count(t: Seq<(ItemIdx, u32)>, idx: ItemIdx) -> u32
    decreases t.len(),
{
    if t.len() == 0 {
        0
    } else if t[0].0 == idx {
        t[0].1
    } else {
        spec_items_count(t.drop_first(), idx)
    }
}

/// An inventory: how many of each item a character holds.
#[derive(Clone, PartialEq, Eq, Debug)]
pub struct ItemList {
    items: Vec<(ItemIdx, u32)>,
}

impl ItemList {
    /// Item indices are recorded at most once.
    pub closed spec fn wf(self) -> bool {
        forall|i: int, j: int|
            #![trigger self.items@[i], self.items@[j]]
            0 <= i < j < self.items@.len() ==> self.items@[i].0 != self.items@[j].0
    }

    pub closed spec fn spec_count(self, idx: ItemIdx) -> u32 {
        spec_items_count(self.items@, idx)
    }

    pub fn new() -> (r: ItemList)
        ensures
            r.wf(),
            forall|idx: ItemIdx| r.spec_count(idx) == 0,
    {
        ItemList { items: Vec::new() }
    }

    /// How many of the item the list holds.
    pub fn count(&self, idx: ItemIdx) -> (r: u32)
        ensures
            r == self.spec_count(idx),
    {
        let n: usize = self.items.len();
        let mut i: usize = 0;
        proof {
            assert(self.items@.skip(0) =~= self.items@);
        }
        while i < n
            invariant
                n == self.items@.len(),
                0 <= i <= n,
                spec_items_count(self.items@, idx) == spec_items_count(
                    self.items@.skip(i as int),
                    idx,
                ),
            decreases n - i,
        {
            proof {
                assert(self.items@.skip(i as int)[0] == self.items@[i as int]);
                assert(self.items@.skip(i as int).drop_first() =~= self.items@.skip(i as int + 1));
            }
            if self.items[i].0.0 == idx.0 {
                return self.items[i].1;
            }
            i = i + 1;
        }
        proof {
            assert(self.items@.skip(n as int) =~= Seq::<(ItemIdx, u32)>::empty());
        }
        0
    }

    /// Put items into the list.
    pub fn put(&mut self, idx: ItemIdx, n: u32)
        requires
            old(self).wf(),
            old(self).spec_count(idx) + n <= u32::MAX,
        ensures
            final(self).wf(),
            forall|x: ItemIdx| #![auto]
                final(self).spec_count(x) == if x == idx {
                    (old(self).spec_count(idx) + n) as u32
                } else {
                    old(self).spec_count(x)
                },
    {
        let c = self.count(idx);
        self.update_entry(idx, c + n);
    }

    /// Remove items from the list; the list must hold enough of them.
    pub fn consume(&mut self, idx: ItemIdx, n: u32)
        requires
            old(self).wf(),
            old(self).spec_count(idx) >= n,
        ensures
            final(self).wf(),
            forall|x: ItemIdx| #![auto]
                final(self).spec_count(x) == if x == idx {
                    (old(self).spec_count(idx) - n) as u32
                } else {
                    old(self).spec_count(x)
                },
    {
        let c = self.count(idx);
        self.update_entry(idx, c - n);
    }

    /// Record a new quantity for an item.
    fn update_entry(&mut self, idx: ItemIdx, v: u32)
        requires
            old(self).wf(),
        ensures
            final(self).wf(),
            forall|x: ItemIdx| #![auto]
                final(self).spec_count(x) == if x == idx {
                    v
                } else {
                    old(self).spec_count(x)
                },
    {
        let n: usize = self.items.len();
        let mut i: usize = 0;
        while i < n
            invariant
                old(self).wf(),
                n == self.items@.len(),
                0 <= i <= n,
                self.items@ == old(self).items@,
                forall|j: int| 0 <= j < i ==> self.items@[j].0 != idx,
            decreases n - i,
        {
            if self.items[i].0.0 == idx.0 {
                proof {
                    lemma_items_count_descend(self.items@, i as int, idx);
                }
                let ghost t0 = self.items@;
                self.items[i] = (idx, v);
                proof {
                    assert forall|x: ItemIdx| #![auto]
                        spec_items_count(self.items@, x) == if x == idx {
                            v
                        } else {
                            spec_items_count(t0, x)
                        } by {
                        lemma_items_count_update(t0, i as int, (idx, v), x);
                    }
                    assert forall|a: int, b: int|
                        0 <= a < b < self.items@.len() implies self.items@[a].0
                        != self.items@[b].0 by {
                        assert(old(self).items@[a].0 != old(self).items@[b].0);
                        assert(self.items@[a].0 == t0[a].0);
                        assert(self.items@[b].0 == t0[b].0);
                    }
                }
                return ;
            }
            i = i + 1;
        }
        let ghost t0 = self.items@;
        self.items.insert(0, (idx, v));
        proof {
            assert(self.items@ =~= seq![(idx, v)] + t0);
            assert(self.items@.drop_first() =~= t0);
            assert forall|a: int, b: int|
                0 <= a < b < self.items@.len() implies self.items@[a].0 != self.items@[b].0 by {
                if a == 0 {
                    assert(self.items@[b].0 == t0[b - 1].0);
                } else {
                    assert(old(self).items@[a - 1].0 != old(self).items@[b - 1].0);
                    assert(self.items@[a].0 == t0[a - 1].0);
                    assert(self.items@[b].0 == t0[b - 1].0);
                }
            }
        }
    }
}

/// Where a key's first occurrence is at `i`, the count reads exactly
/// that entry.
proof fn lemma_items_count_descend(t: Seq<(ItemIdx, u32)>, i: int, idx: ItemIdx)
    requires
        0 <= i < t.len(),
        t[i].0 == idx,
        forall|j: int| 0 <= j < i ==> t[j].0 != idx,
    ensures
        spec_items_count(t, idx) == t[i].1,
    decreases i,
{
    if i > 0 {
        assert(t.drop_first()[i - 1] == t[i]);
        lemma_items_count_descend(t.drop_first(), i - 1, idx);
    }
}

/// Replacing the entry of a key changes only that key's count.
proof fn lemma_items_count_update(t: Seq<(ItemIdx, u32)>, i: int, p: (ItemIdx, u32), x: ItemIdx)
    requires
        0 <= i < t.len(),
        p.0 == t[i].0,
        forall|j: int| 0 <= j < i ==> t[j].0 != t[i].0,
    ensures
        spec_items_count(t.update(i, p), x) == if x == p.0 {
            p.1
        } else {
            spec_items_count(t, x)
        },
    decreases i,
{
    let u = t.update(i, p);
    if i == 0 {
        assert(u.drop_first() =~= t.drop_first());
    } else {
        assert(u[0] == t[0]);
        assert(u.drop_first() =~= t.drop_first().update(i - 1, p));
        assert(forall|j: int| 0 <= j < i - 1 ==> t.drop_first()[j] == t[j + 1]);
        lemma_items_count_update(t.drop_first(), i - 1, p, x);
    }
}

/// The level a skill list records for a skill.
pub open spec fn spec_skills_level(t: Seq<(SkillKind, u16)>, kind: SkillKind) -> u16
    decreases t.len(),
{
    if t.len() == 0 {
        0
    } else if t[0].0 == kind {
        t[0].1
    } else {
        spec_skills_level(t.drop_first(), kind)
    }
}

/// A character: attributes, skills, resource pools, active statuses
/// and an inventory.
#[derive(Clone, PartialEq, Eq, Debug)]
pub struct Chara {
    pub attr: CharaAttrs,
    pub skills: Vec<(SkillKind, u16)>,
    pub params: CharaParams,
    pub status: Vec<CharaStatus>,
    pub item_list: ItemList,
}

impl Chara {
    /// Resource pools never go negative.
    pub open spec fn wf(self) -> bool {
        &&& self.params.hp >= 0
        &&& self.params.max_hp >= 0
        &&& self.params.sp >= 0
        &&& self.params.mp >= 0
        &&& self.item_list.wf()
    }

    pub open spec fn spec_skill_level(self, kind: SkillKind) -> u16 {
        spec_skills_level(self.skills@, kind)
    }

    /// The character's level in a skill; zero when unlearned.
    pub fn skill_level(&self, kind: SkillKind) -> (r: u16)
        ensures
            r == self.spec_skill_level(kind),
    {
        let n: usize = self.skills.len();
        let mut i: usize = 0;
        proof {
            assert(self.skills@.skip(0) =~= self.skills@);
        }
        while i < n
            invariant
                n == self.skills@.len(),
                0 <= i <= n,
                spec_skills_level(self.skills@, kind) == spec_skills_level(
                    self.skills@.skip(i as int),
                    kind,
                ),
            decreases n - i,
        {
            proof {
                assert(self.skills@.skip(i as int)[0] == self.skills@[i as int]);
                assert(self.skills@.skip(i as int).drop_first() =~= self.skills@.skip(
                    i as int + 1));
            }
            if kinds_eq(self.skills[i].0, kind) {
                return self.skills[i].1;
            }
            i = i + 1;
        }
        proof {
            assert(self.skills@.skip(n as int) =~= Seq::<(SkillKind, u16)>::empty());
        }
        0
    }

    /// Add to (or, negative, drain from) the stamina pool, which never
    /// leaves `[0, i32::MAX]`.
    pub fn add_sp(&mut self, v: i32)
        ensures
            final(self).params.sp == spec_clamp_pool(old(self).params.sp + v),
            final(self).params.hp == old(self).params.hp,
            final(self).params.max_hp == old(self).params.max_hp,
            final(self).params.mp == old(self).params.mp,
            final(self).attr == old(self).attr,
            final(self).skills == old(self).skills,
            final(self).status == old(self).status,
            final(self).item_list == old(self).item_list,
    {
        let s: i64 = self.params.sp as i64 + v as i64;
        let c: i64 = if s < 0 {
            0
        } else if s > i32::MAX as i64 {
            i32::MAX as i64
        } else {
            s
        };
        self.params.sp = c as i32;
    }

    /// Whether the character's statuses and resources let it use the
    /// skill: it must be able to act and afford the costs.
    pub open spec fn spec_active_skill_available(self, s: ActiveSkill) -> bool {
        &&& spec_can_act_statuses(self.status@)
        &&& self.params.sp >= s.cost_sp
        &&& self.params.mp >= s.cost_mp
    }

    pub fn active_skill_available(&self, s: &ActiveSkill) -> (r: bool)
        ensures
            r == self.spec_active_skill_available(*s),
    {
        let n: usize = self.status.len();
        let mut i: usize = 0;
        while i < n
            invariant
                n == self.status@.len(),
                0 <= i <= n,
                forall|j: int| 0 <= j < i ==> !spec_is_incapacitating(#[trigger] self.status@[j]),
            decreases n - i,
        {
            let inc = match self.status[i] {
                CharaStatus::Asleep { .. } => true,
                _ => false,
            };
            if inc {
                return false;
            }
            i = i + 1;
        }
        (self.params.sp as i64 >= s.cost_sp as i64) && (self.params.mp as i64 >= s.cost_mp as i64)
    }
}

/// A pool value clamped into `[0, i32::MAX]`.
pub open spec fn spec_clamp_pool(v: int) -> int {
    if v < 0 {
        0
    } else if v > i32::MAX as int {
        i32::MAX as int
    } else {
        v
    }
}

/// Compare two skill kinds.
fn kinds_eq(a: SkillKind, b: SkillKind) -> (r: bool)
    ensures
        r == (a == b),
{
    a == b
}

} // verus!

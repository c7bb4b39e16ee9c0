use vstd::prelude::*;
use vstd::slice::slice_to_vec;
use vstd::string::StringSliceAdditionalSpecFns;
use vstd::string::is_ascii;
use vstd::string::is_ascii_spec_bytes;

verus! {

/// Greatest length, in bytes, of a faction id name.
pub const FACTION_ID_LEN: usize = 16;

/// Identifier of a faction: a short name of at most `FACTION_ID_LEN`
/// bytes, compared by content.
#[derive(Clone, PartialEq, Eq, Hash, Debug)]
pub struct FactionId {
    bytes: Vec<u8>,
}

impl View for FactionId {
    type V = Seq<u8>;

    closed spec fn view(&self) -> Seq<u8> {
        self.bytes@
    }
}

impl FactionId {
    pub open spec fn wf(self) -> bool {
        self@.len() <= FACTION_ID_LEN
    }

    /// Make an id from a name; fails when the name does not fit.
    pub fn new(name: &str) -> (r: Option<FactionId>)
        ensures
            r is Some <==> name.spec_bytes().len() <= FACTION_ID_LEN,
            r is Some ==> r->Some_0@ == name.spec_bytes() && r->Some_0.wf(),
    {
        let b: &[u8] = name.as_bytes();
        if b.len() <= FACTION_ID_LEN {
            Some(FactionId { bytes: slice_to_vec(b) })
        } else {
            None
        }
    }

    /// The id that stands for an unknown faction.
    pub fn unknown() -> (r: FactionId)
        ensures
            r.wf(),
            r@ == "!unknown".spec_bytes(),
    {
        proof {
            reveal_strlit("!unknown");
            assert(is_ascii("!unknown"));
            is_ascii_spec_bytes("!unknown");
        }
        let b: &[u8] = "!unknown".as_bytes();
        FactionId { bytes: slice_to_vec(b) }
    }

    /// The id of the player's own faction.
    pub fn player() -> (r: FactionId)
        ensures
            r.wf(),
            r@ == "!player".spec_bytes(),
    {
        proof {
            reveal_strlit("!player");
            assert(is_ascii("!player"));
            is_ascii_spec_bytes("!player");
        }
        let b: &[u8] = "!player".as_bytes();
        FactionId { bytes: slice_to_vec(b) }
    }
}

impl Default for FactionId {
    /// The default faction id is the unknown faction.
    fn default() -> (r: FactionId)
        ensures
            r.wf(),
            r@ == "!unknown".spec_bytes(),
    {
        FactionId::unknown()
    }
}

/// Relation of a faction to the player. Its arithmetic works on
/// wrapping 16-bit values: raising is capped at
/// `FACTION_RELATION_MAX`, lowering at `FACTION_RELATION_MIN`.
#[derive(Clone, Copy, PartialEq, Eq, Structural, PartialOrd, Ord, Hash, Debug)]
pub struct FactionRelation(pub i16);

pub const FACTION_RELATION_MAX: i16 = 10000;
pub const FACTION_RELATION_MIN: i16 = -10000;

/// A sum or difference of two 16-bit values brought back into 16-bit
/// range; such a value wraps at most once.
pub open spec fn spec_wrap_i16(v: int) -> int {
    if v > i16::MAX as int {
        v - 0x10000
    } else if v < i16::MIN as int {
        v + 0x10000
    } else {
        v
    }
}

impl FactionRelation {
    /// Raise the relation: the wrapping 16-bit sum, capped at the
    /// upper bound of the band.
    pub fn add(self, other: i16) -> (r: FactionRelation)
        ensures
            r.0 == if spec_wrap_i16(self.0 + other) > FACTION_RELATION_MAX as int {
                FACTION_RELATION_MAX as int
            } else {
                spec_wrap_i16(self.0 + other)
            },
    {
        let s: i32 = self.0 as i32 + other as i32;
        let w: i32 = if s > i16::MAX as i32 {
            s - 0x10000
        } else if s < i16::MIN as i32 {
            s + 0x10000
        } else {
            s
        };
        let c: i32 = if w > FACTION_RELATION_MAX as i32 {
            FACTION_RELATION_MAX as i32
        } else {
            w
        };
        FactionRelation(c as i16)
    }

    /// Lower the relation: the wrapping 16-bit difference, capped at
    /// the lower bound of the band.
    pub fn sub(self, other: i16) -> (r: FactionRelation)
        ensures
            r.0 == if spec_wrap_i16(self.0 - other) < FACTION_RELATION_MIN as int {
                FACTION_RELATION_MIN as int
            } else {
                spec_wrap_i16(self.0 - other)
            },
    {
        let s: i32 = self.0 as i32 - other as i32;
        let w: i32 = if s > i16::MAX as i32 {
            s - 0x10000
        } else if s < i16::MIN as i32 {
            s + 0x10000
        } else {
            s
        };
        let c: i32 = if w < FACTION_RELATION_MIN as i32 {
            FACTION_RELATION_MIN as i32
        } else {
            w
        };
        FactionRelation(c as i16)
    }
}

/// The relation recorded for a key in a relation table; an absent key
/// means a neutral relation.
pub open spec fn spec_table_get(t: Seq<(FactionId, FactionRelation)>, k: Seq<u8>) -> FactionRelation
    decreases t.len(),
{
    if t.len() == 0 {
        FactionRelation(0)
    } else if t[0].0@ == k {
        t[0].1
    } else {
        spec_table_get(t.drop_first(), k)
    }
}

/// Faction information: each known faction's relation to the player.
#[derive(Clone, PartialEq, Eq, Debug)]
pub struct Faction {
    relation_table: Vec<(FactionId, FactionRelation)>,
}

impl Faction {
    /// Keys are stored at most once.
    pub closed spec fn wf(self) -> bool {
        forall|i: int, j: int|
            #![trigger self.relation_table@[i], self.relation_table@[j]]
            0 <= i < j < self.relation_table@.len() ==> self.relation_table@[i].0@
                != self.relation_table@[j].0@
    }

    pub closed spec fn spec_get(self, k: Seq<u8>) -> FactionRelation {
        spec_table_get(self.relation_table@, k)
    }

    pub fn new() -> (r: Faction)
        ensures
            r.wf(),
            forall|k: Seq<u8>| r.spec_get(k) == FactionRelation(0),
    {
        Faction { relation_table: Vec::new() }
    }

    /// The relation to the given faction; neutral when unrecorded.
    pub fn get(&self, faction: &FactionId) -> (r: FactionRelation)
        ensures
            r == self.spec_get(faction@),
    {
        let n: usize = self.relation_table.len();
        let mut i: usize = 0;
        proof {
            assert(self.relation_table@.skip(0) =~= self.relation_table@);
        }
        while i < n
            invariant
                n == self.relation_table@.len(),
                0 <= i <= n,
                spec_table_get(self.relation_table@, faction@) == spec_table_get(
                    self.relation_table@.skip(i as int),
                    faction@,
                ),
            decreases n - i,
        {
            let hit = bytes_eq(&self.relation_table[i].0.bytes, &faction.bytes);
            proof {
                assert(self.relation_table@.skip(i as int)[0] == self.relation_table@[i as int]);
                assert(self.relation_table@.skip(i as int).drop_first() =~= self.relation_table@.skip(
                    i as int + 1));
            }
            if hit {
                return self.relation_table[i].1;
            }
            i = i + 1;
        }
        proof {
            assert(self.relation_table@.skip(n as int) =~= Seq::<(FactionId,
            FactionRelation)>::empty());
        }
        FactionRelation(0)
    }

    /// Record the relation to the given faction, replacing any earlier
    /// record for it.
    pub fn set(&mut self, faction: FactionId, relation: FactionRelation)
        requires
            old(self).wf(),
        ensures
            final(self).wf(),
            forall|k: Seq<u8>| #![auto]
                final(self).spec_get(k) == if k == faction@ {
                    relation
                } else {
                    old(self).spec_get(k)
                },
    {
        let n: usize = self.relation_table.len();
        let mut i: usize = 0;
        while i < n
            invariant
                old(self).wf(),
                n == self.relation_table@.len(),
                0 <= i <= n,
                self.relation_table@ == old(self).relation_table@,
                forall|j: int| 0 <= j < i ==> self.relation_table@[j].0@ != faction@,
            decreases n - i,
        {
            let hit = bytes_eq(&self.relation_table[i].0.bytes, &faction.bytes);
            if hit {
                proof {
                    lemma_table_get_descend(self.relation_table@, i as int, faction@);
                }
                let ghost t0 = self.relation_table@;
                self.relation_table[i] = (faction, relation);
                proof {
                    assert forall|k: Seq<u8>| #![auto]
                        spec_table_get(self.relation_table@, k) == if k == faction@ {
                            relation
                        } else {
                            spec_table_get(t0, k)
                        } by {
                        lemma_table_get_update(t0, i as int, (faction, relation), k);
                    }
                    assert(self.relation_table@[i as int].0@ == t0[i as int].0@);
                    assert forall|a: int, b: int|
                        0 <= a < b < self.relation_table@.len() implies self.relation_table@[a].0@
                        != self.relation_table@[b].0@ by {
                        assert(old(self).relation_table@[a].0@ != old(self).relation_table@[b].0@);
                        assert(self.relation_table@[a].0@ == t0[a].0@);
                        assert(self.relation_table@[b].0@ == t0[b].0@);
                    }
                }
                return ;
            }
            i = i + 1;
        }
        let ghost t0 = self.relation_table@;
        let ghost fid = faction@;
        self.relation_table.insert(0, (faction, relation));
        proof {
            assert(self.relation_table@ =~= seq![(faction, relation)] + t0);
            assert(self.relation_table@[0].0@ == fid);
            assert(self.relation_table@[0].1 == relation);
            assert(self.relation_table@.drop_first() =~= t0);
            assert forall|a: int, b: int|
                0 <= a < b < self.relation_table@.len() implies self.relation_table@[a].0@
                != self.relation_table@[b].0@ by {
                if a == 0 {
                    assert(self.relation_table@[b].0@ == t0[b - 1].0@);
                    assert(t0[b - 1].0@ != fid);
                } else {
                    assert(old(self).relation_table@[a - 1].0@ != old(self).relation_table@[b
                        - 1].0@);
                    assert(self.relation_table@[a].0@ == t0[a - 1].0@);
                    assert(self.relation_table@[b].0@ == t0[b - 1].0@);
                }
            }
        }
    }
}

/// Compare two byte vectors by content.
fn bytes_eq(a: &Vec<u8>, b: &Vec<u8>) -> (r: bool)
    ensures
        r == (a@ == b@),
{
    let r = a == b;
    proof {
        if r {
            assert(a@ =~= b@);
        }
    }
    r
}

/// Where a key's first occurrence is at `i`, the lookup reads exactly
/// that entry.
proof fn lemma_table_get_descend(t: Seq<(FactionId, FactionRelation)>, i: int, k: Seq<u8>)
    requires
        0 <= i < t.len(),
        t[i].0@ == k,
        forall|j: int| 0 <= j < i ==> t[j].0@ != k,
    ensures
        spec_table_get(t, k) == t[i].1,
    decreases i,
{
    if i > 0 {
        assert(t.drop_first()[i - 1] == t[i]);
        lemma_table_get_descend(t.drop_first(), i - 1, k);
    }
}

/// Replacing the entry of a key changes only that key's lookup.
proof fn lemma_table_get_update(
    t: Seq<(FactionId, FactionRelation)>,
    i: int,
    p: (FactionId, FactionRelation),
    k: Seq<u8>,
)
    requires
        0 <= i < t.len(),
        p.0@ == t[i].0@,
        forall|j: int| 0 <= j < i ==> t[j].0@ != t[i].0@,
    ensures
        spec_table_get(t.update(i, p), k) == if k == p.0@ {
            p.1
        } else {
            spec_table_get(t, k)
        },
    decreases i,
{
    let u = t.update(i, p);
    if i == 0 {
        assert(u.drop_first() =~= t.drop_first());
    } else {
        assert(u[0] == t[0]);
        assert(u.drop_first() =~= t.drop_first().update(i - 1, p));
        assert(forall|j: int| 0 <= j < i - 1 ==> t.drop_first()[j] == t[j + 1]);
        lemma_table_get_update(t.drop_first(), i - 1, p, k);
    }
}

} // verus!

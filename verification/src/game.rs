use vstd::prelude::*;
use crate::defs::{ActiveSkill, ActiveSkillId, Effect, ItemIdx};
use crate::chara::Chara;

verus! {

/// A position on the current map.
#[derive(Clone, Copy, PartialEq, Eq, Structural, Debug)]
pub struct Vec2d(pub i32, pub i32);

/// Index of a tile template in the content tables.
#[derive(Clone, Copy, PartialEq, Eq, Structural, Debug)]
pub struct TileIdx(pub u32);

/// Index of a wall template in the content tables.
#[derive(Clone, Copy, PartialEq, Eq, Structural, Debug)]
pub struct WallIdx(pub u32);

/// One map tile: its terrain template and, possibly, a wall.
#[derive(Clone, Copy, PartialEq, Eq, Debug)]
pub struct Tile {
    pub main_tile: TileIdx,
    pub wall: Option<WallIdx>,
}

/// The current map: a rectangle of tiles, row by row.
#[derive(Clone, PartialEq, Eq, Debug)]
pub struct GameMap {
    pub w: u32,
    pub h: u32,
    pub tile: Vec<Tile>,
}

impl GameMap {
    pub open spec fn wf(self) -> bool {
        &&& self.w <= 65535
        &&& self.h <= 65535
        &&& self.tile@.len() == self.w * self.h
    }

    pub open spec fn spec_inside_xy(self, x: int, y: int) -> bool {
        0 <= x < self.w && 0 <= y < self.h
    }

    pub open spec fn spec_is_inside(self, pos: Vec2d) -> bool {
        self.spec_inside_xy(pos.0 as int, pos.1 as int)
    }

    pub open spec fn spec_index_xy(self, x: int, y: int) -> int {
        y * self.w + x
    }

    pub open spec fn spec_tile_at(self, pos: Vec2d) -> Tile {
        self.tile@[self.spec_index_xy(pos.0 as int, pos.1 as int)]
    }

    pub fn is_inside(&self, pos: Vec2d) -> (r: bool)
        ensures
            r == self.spec_is_inside(pos),
    {
        pos.0 >= 0 && pos.1 >= 0 && (pos.0 as i64) < (self.w as i64) && (pos.1 as i64) < (
        self.h as i64)
    }

    /// Row-major index of a position inside the map.
    fn pos_index(&self, pos: Vec2d) -> (r: usize)
        requires
            self.wf(),
            self.spec_is_inside(pos),
        ensures
            r == self.spec_index_xy(pos.0 as int, pos.1 as int),
            r < self.tile@.len(),
    {
        proof {
            lemma_row_major_bound(pos.0 as int, pos.1 as int, self.w as int, self.h as int);
        }
        (pos.1 as usize) * (self.w as usize) + (pos.0 as usize)
    }

    pub fn tile_at(&self, pos: Vec2d) -> (r: &Tile)
        requires
            self.wf(),
            self.spec_is_inside(pos),
        ensures
            *r == self.spec_tile_at(pos),
    {
        let i = self.pos_index(pos);
        &self.tile[i]
    }

    /// Write a wall into the map at a position, keeping the terrain.
    pub fn set_wall(&mut self, pos: Vec2d, wall: WallIdx)
        requires
            old(self).wf(),
            old(self).spec_is_inside(pos),
        ensures
            final(self).wf(),
            final(self).w == old(self).w,
            final(self).h == old(self).h,
            final(self).tile@ == old(self).tile@.update(
                old(self).spec_index_xy(pos.0 as int, pos.1 as int),
                (Tile {
                    main_tile: old(self).spec_tile_at(pos).main_tile,
                    wall: Some(wall),
                }),
            ),
    {
        let i = self.pos_index(pos);
        let mt = self.tile[i].main_tile;
        self.tile[i] = Tile { main_tile: mt, wall: Some(wall) };
    }
}

/// Inside a map, the row-major index of a position is within the tile
/// count.
pub proof fn lemma_row_major_bound(x: int, y: int, w: int, h: int)
    requires
        0 <= x < w,
        0 <= y < h,
        w <= 65535,
        h <= 65535,
    ensures
        0 <= y * w + x < w * h,
        w * h <= 65535 * 65535,
{
    assert(0 <= y * w + x < w * h && w * h <= 65535 * 65535) by (nonlinear_arith)
        requires
            0 <= x < w,
            0 <= y < h,
            w <= 65535,
            h <= 65535,
    ;
}

/// A tile template: its terrain kind and, when it can be built, the
/// needed construction skill level.
#[derive(Clone, Copy, PartialEq, Eq, Debug)]
pub struct TileObj {
    pub kind: crate::defs::TileKind,
    pub build_skill: Option<u32>,
}

/// A wall template: its build gate and its bill of materials.
#[derive(Clone, PartialEq, Eq, Debug)]
pub struct WallObj {
    pub build_skill: Option<u32>,
    pub materials: Vec<(ItemIdx, u32)>,
}

impl WallObj {
    /// Each item occurs at most once in the bill of materials.
    pub open spec fn wf(self) -> bool {
        forall|i: int, j: int|
            #![trigger self.materials@[i], self.materials@[j]]
            0 <= i < j < self.materials@.len() ==> self.materials@[i].0 != self.materials@[j].0
    }
}

/// The read-only content repository the resolvers consult.
#[derive(Clone, PartialEq, Eq, Debug)]
pub struct ObjHolder {
    pub tiles: Vec<TileObj>,
    pub walls: Vec<WallObj>,
}

impl ObjHolder {
    pub open spec fn wf(self) -> bool {
        forall|i: int| 0 <= i < self.walls@.len() ==> (#[trigger] self.walls@[i]).wf()
    }
}

/// A constructible entity: a tile or wall template.
#[derive(Clone, Copy, PartialEq, Eq, Debug)]
pub enum BuildObj {
    Tile(TileIdx),
    Wall(WallIdx),
}

/// The skill definition a table records for an id.
pub open spec fn spec_skill_table_get(t: Seq<(ActiveSkillId, ActiveSkill)>, k: Seq<char>) -> Option<
    ActiveSkill,
>
    decreases t.len(),
{
    if t.len() == 0 {
        None
    } else if t[0].0.0@ == k {
        Some(t[0].1)
    } else {
        spec_skill_table_get(t.drop_first(), k)
    }
}

/// The read-only table of active skill definitions.
#[derive(Clone, Debug)]
pub struct ActiveSkillTable {
    pub entries: Vec<(ActiveSkillId, ActiveSkill)>,
}

impl ActiveSkillTable {
    pub open spec fn spec_get(self, k: Seq<char>) -> Option<ActiveSkill> {
        spec_skill_table_get(self.entries@, k)
    }

    /// Look up a skill definition by its id.
    pub fn get(&self, id: &ActiveSkillId) -> (r: Option<&ActiveSkill>)
        ensures
            match r {
                Some(s) => self.spec_get(id.0@) == Some(*s),
                None => self.spec_get(id.0@) is None,
            },
    {
        let n: usize = self.entries.len();
        let mut i: usize = 0;
        proof {
            assert(self.entries@.skip(0) =~= self.entries@);
        }
        while i < n
            invariant
                n == self.entries@.len(),
                0 <= i <= n,
                spec_skill_table_get(self.entries@, id.0@) == spec_skill_table_get(
                    self.entries@.skip(i as int),
                    id.0@,
                ),
            decreases n - i,
        {
            proof {
                assert(self.entries@.skip(i as int)[0] == self.entries@[i as int]);
                assert(self.entries@.skip(i as int).drop_first() =~= self.entries@.skip(
                    i as int + 1));
            }
            if self.entries[i].0.0 == id.0 {
                return Some(&self.entries[i].1);
            }
            i = i + 1;
        }
        proof {
            assert(self.entries@.skip(n as int) =~= Seq::<(ActiveSkillId, ActiveSkill)>::empty());
        }
        None
    }
}

/// The rule constants and content tables injected into the core.
#[derive(Clone, Debug)]
pub struct GameRules {
    /// Stamina drained from a character at the start of each of its
    /// turns.
    pub sp_consumption: i32,
    pub active_skills: ActiveSkillTable,
}

/// Phase of the turn clock.
#[derive(Clone, Copy, PartialEq, Eq, Structural, Debug)]
pub enum GameState {
    PlayerTurn,
    WaitingForNextTurn,
}

/// Identifies a character: its index in the world's character list.
pub type CharaId = usize;

/// A structured, user-visible log entry, keyed by message kind.
#[derive(Clone, PartialEq, Eq, Debug)]
pub enum LogEntry {
    UseActiveSkillMagic { chara: CharaId, active_skill: ActiveSkillId },
    UseActiveSkillSpecial { chara: CharaId, active_skill: ActiveSkillId },
    UnknownActiveSkill { active_skill: ActiveSkillId },
    BuildingShortageMaterial { item: ItemIdx, n: u32 },
    UnknownBuildObj { wall: WallIdx },
    PoisonDamage { chara: CharaId, damage: i32 },
    Asleep { chara: CharaId },
}

/// One recorded invocation of the external effect-application hook.
#[derive(Clone, PartialEq, Eq, Debug)]
pub struct EffectCall {
    pub effect: Effect,
    pub source: Option<CharaId>,
    pub target: CharaId,
    pub power: u64,
    pub hit_power: u32,
}

/// A queued, frame-counted presentation effect.
#[derive(Clone, Copy, PartialEq, Eq, Structural, Debug)]
pub struct Animation {
    pub n_frames: u32,
}

impl Animation {
    pub fn get_n_frame(&self) -> (r: u32)
        ensures
            r == self.n_frames,
    {
        self.n_frames
    }
}

/// A fire-and-forget presentation cue.
#[derive(Clone, Copy, PartialEq, Eq, Structural, Debug)]
pub enum SoundCue {
    FinishBuild,
}

/// The whole simulation state the core works on.
#[derive(Clone, Debug)]
pub struct Game {
    pub charas: Vec<Chara>,
    pub map: GameMap,
    pub holder: ObjHolder,
    pub rules: GameRules,
    pub state: GameState,
    pub player_pos: Vec2d,
    pub player_on_entrance: bool,
    pub floor: u32,
    pub log: Vec<LogEntry>,
    pub effect_queue: Vec<EffectCall>,
    pub anim_queue: Vec<Animation>,
    pub sound_queue: Vec<SoundCue>,
}

/// The simulation part of two game values agrees (everything except
/// the turn phase and the log and queues).
pub open spec fn same_world(g1: Game, g2: Game) -> bool {
    &&& g1.charas == g2.charas
    &&& g1.map == g2.map
    &&& g1.holder == g2.holder
    &&& g1.rules == g2.rules
    &&& g1.player_pos == g2.player_pos
    &&& g1.player_on_entrance == g2.player_on_entrance
    &&& g1.floor == g2.floor
}

/// The log and all queues of two game values agree.
pub open spec fn same_queues(g1: Game, g2: Game) -> bool {
    &&& g1.log == g2.log
    &&& g1.effect_queue == g2.effect_queue
    &&& g1.anim_queue == g2.anim_queue
    &&& g1.sound_queue == g2.sound_queue
}

impl Game {
    pub open spec fn wf(self) -> bool {
        &&& self.map.wf()
        &&& self.holder.wf()
        &&& self.rules.sp_consumption >= 0
        &&& forall|i: int| 0 <= i < self.charas@.len() ==> (#[trigger] self.charas@[i]).wf()
        &&& forall|i: int|
            0 <= i < self.map.tile@.len() ==> (#[trigger] self.map.tile@[i]).main_tile.0
                < self.holder.tiles@.len()
    }

    pub fn get_state(&self) -> (r: GameState)
        ensures
            r == self.state,
    {
        self.state
    }

    /// Pull the next queued animation, in first-in first-out order.
    pub fn pop_animation(&mut self) -> (r: Option<Animation>)
        ensures
            same_world(*final(self), *old(self)),
            final(self).state == old(self).state,
            final(self).log == old(self).log,
            final(self).effect_queue == old(self).effect_queue,
            final(self).sound_queue == old(self).sound_queue,
            old(self).anim_queue@.len() == 0 ==> r is None && final(self).anim_queue
                == old(self).anim_queue,
            old(self).anim_queue@.len() > 0 ==> r == Some(old(self).anim_queue@[0]) && final(self).anim_queue@ == old(self).anim_queue@.drop_first(),
    {
        if self.anim_queue.len() == 0 {
            None
        } else {
            let a = self.anim_queue.remove(0);
            proof {
                assert(self.anim_queue@ =~= old(self).anim_queue@.drop_first());
            }
            Some(a)
        }
    }

    /// Queue an animation for the sequencer.
    pub fn push_animation(&mut self, a: Animation)
        ensures
            same_world(*final(self), *old(self)),
            final(self).state == old(self).state,
            final(self).log == old(self).log,
            final(self).effect_queue == old(self).effect_queue,
            final(self).sound_queue == old(self).sound_queue,
            final(self).anim_queue@ == old(self).anim_queue@.push(a),
    {
        self.anim_queue.push(a);
    }

    /// Try to move the player one step. The step is taken when the
    /// destination lies on the map and has no wall, and then ends the
    /// turn; otherwise nothing changes.
    pub fn try_move(&mut self, dir: Vec2d)
        requires
            old(self).wf(),
        ensures
            final(self).wf(),
            ({
                let nx = old(self).player_pos.0 + dir.0;
                let ny = old(self).player_pos.1 + dir.1;
                let m = old(self).map;
                if m.spec_inside_xy(nx, ny) && m.tile@[m.spec_index_xy(nx, ny)].wall is None {
                    final(self).player_pos == (Vec2d(nx as i32, ny as i32)) && final(self).state
                        == GameState::WaitingForNextTurn
                } else {
                    final(self).player_pos == old(self).player_pos && final(self).state == old(self).state
                }
            }),
            final(self).charas == old(self).charas,
            final(self).map == old(self).map,
            final(self).holder == old(self).holder,
            final(self).rules == old(self).rules,
            final(self).player_on_entrance == old(self).player_on_entrance,
            final(self).floor == old(self).floor,
            same_queues(*final(self), *old(self)),
    {
        let nx: i64 = self.player_pos.0 as i64 + dir.0 as i64;
        let ny: i64 = self.player_pos.1 as i64 + dir.1 as i64;
        if nx >= 0 && ny >= 0 && nx < self.map.w as i64 && ny < self.map.h as i64 {
            let np = Vec2d(nx as i32, ny as i32);
            let blocked = match self.map.tile_at(np).wall {
                Some(_) => true,
                None => false,
            };
            if !blocked {
                self.player_pos = np;
                self.state = GameState::WaitingForNextTurn;
            }
        }
    }

    /// Step onto the next floor; this ends the turn.
    pub fn move_next_floor(&mut self)
        ensures
            final(self).floor == if old(self).floor < u32::MAX {
                old(self).floor + 1
            } else {
                old(self).floor as int
            },
            final(self).state == GameState::WaitingForNextTurn,
            final(self).charas == old(self).charas,
            final(self).map == old(self).map,
            final(self).holder == old(self).holder,
            final(self).rules == old(self).rules,
            final(self).player_pos == old(self).player_pos,
            final(self).player_on_entrance == old(self).player_on_entrance,
            same_queues(*final(self), *old(self)),
    {
        if self.floor < u32::MAX {
            self.floor = self.floor + 1;
        }
        self.state = GameState::WaitingForNextTurn;
    }
}

} // verus!

use vstd::prelude::*;
use crate::chara::ItemList;
use crate::defs::ItemIdx;
use crate::game::{BuildObj, CharaId, Game, LogEntry, SoundCue, Tile, TileIdx, WallIdx};

verus! {

/// Whether a position can be built on: it lies on the map, carries no
/// wall, and its terrain is a ground kind.
pub open spec fn spec_is_buildable(g: Game, pos: crate::game::Vec2d) -> bool {
    &&& g.map.spec_is_inside(pos)
    &&& g.map.spec_tile_at(pos).wall is None
    &&& g.holder.tiles@[g.map.spec_tile_at(pos).main_tile.0 as int].kind is Ground
}

pub fn is_buildable(gd: &Game, pos: crate::game::Vec2d) -> (r: bool)
    requires
        gd.wf(),
    ensures
        r == spec_is_buildable(*gd, pos),
{
    if !gd.map.is_inside(pos) {
        return false;
    }
    let t = gd.map.tile_at(pos);
    proof {
        crate::game::lemma_row_major_bound(
            pos.0 as int,
            pos.1 as int,
            gd.map.w as int,
            gd.map.h as int,
        );
        assert(gd.map.tile@[gd.map.spec_index_xy(pos.0 as int, pos.1 as int)].main_tile.0
            < gd.holder.tiles@.len());
    }
    match t.wall {
        Some(_) => false,
        None => {
            let idx = t.main_tile.0 as usize;
            match gd.holder.tiles[idx].kind {
                crate::defs::TileKind::Ground => true,
                crate::defs::TileKind::Water => false,
            }
        },
    }
}

/// The index of the first material whose required quantity the
/// inventory cannot cover, scanning from position `i` on.
pub open spec fn spec_first_shortage(items: ItemList, mats: Seq<(ItemIdx, u32)>, i: int) -> Option<
    int,
>
    decreases mats.len() - i,
{
    if i < 0 || i >= mats.len() {
        None
    } else if items.spec_count(mats[i].0) < mats[i].1 {
        Some(i)
    } else {
        spec_first_shortage(items, mats, i + 1)
    }
}

/// How much of an item the first `upto` materials require together.
pub open spec fn spec_need_upto(mats: Seq<(ItemIdx, u32)>, x: ItemIdx, upto: int) -> int
    decreases upto,
{
    if upto <= 0 {
        0
    } else {
        spec_need_upto(mats, x, upto - 1) + (if 0 <= upto - 1 < mats.len() && mats[upto - 1].0
            == x {
            mats[upto - 1].1 as int
        } else {
            0
        })
    }
}

/// An item that none of the first `upto` materials name is not needed
/// by them.
proof fn lemma_need_upto_zero(mats: Seq<(ItemIdx, u32)>, x: ItemIdx, upto: int)
    requires
        forall|j: int| 0 <= j < upto && j < mats.len() ==> (#[trigger] mats[j]).0 != x,
    ensures
        spec_need_upto(mats, x, upto) == 0,
    decreases upto,
{
    if upto > 0 {
        lemma_need_upto_zero(mats, x, upto - 1);
    }
}

/// An inventory with no shortage from `i` on covers every later
/// material.
proof fn lemma_no_shortage(items: ItemList, mats: Seq<(ItemIdx, u32)>, i: int)
    requires
        0 <= i,
        spec_first_shortage(items, mats, i) is None,
    ensures
        forall|j: int|
            i <= j < mats.len() ==> items.spec_count((#[trigger] mats[j]).0) >= mats[j].1,
    decreases mats.len() - i,
{
    if i < mats.len() {
        lemma_no_shortage(items, mats, i + 1);
    }
}

/// Write the built entity into the world and trigger the completion
/// cue.
pub fn finish_build(game: &mut Game, pos: crate::game::Vec2d, wall_idx: WallIdx)
    requires
        old(game).wf(),
        old(game).map.spec_is_inside(pos),
    ensures
        final(game).wf(),
        final(game).map.w == old(game).map.w,
        final(game).map.h == old(game).map.h,
        final(game).map.tile@ == old(game).map.tile@.update(
            old(game).map.spec_index_xy(pos.0 as int, pos.1 as int),
            (Tile { main_tile: old(game).map.spec_tile_at(pos).main_tile, wall: Some(wall_idx) }),
        ),
        final(game).sound_queue@ == old(game).sound_queue@.push(SoundCue::FinishBuild),
        final(game).charas == old(game).charas,
        final(game).holder == old(game).holder,
        final(game).rules == old(game).rules,
        final(game).state == old(game).state,
        final(game).player_pos == old(game).player_pos,
        final(game).player_on_entrance == old(game).player_on_entrance,
        final(game).floor == old(game).floor,
        final(game).log == old(game).log,
        final(game).effect_queue == old(game).effect_queue,
        final(game).anim_queue == old(game).anim_queue,
{
    proof {
        crate::game::lemma_row_major_bound(
            pos.0 as int,
            pos.1 as int,
            game.map.w as int,
            game.map.h as int,
        );
    }
    game.map.set_wall(pos, wall_idx);
    game.sound_queue.push(SoundCue::FinishBuild);
    proof {
        let gi = old(game).map.spec_index_xy(pos.0 as int, pos.1 as int);
        assert forall|i: int|
            0 <= i < game.map.tile@.len() implies (#[trigger] game.map.tile@[i]).main_tile.0
            < game.holder.tiles@.len() by {
            if i != gi {
                assert(game.map.tile@[i] == old(game).map.tile@[i]);
            } else {
                assert(game.map.tile@[i].main_tile == old(game).map.tile@[gi].main_tile);
            }
        }
    }
}

/// Start a construction: resolve the wall template, check that the
/// position is buildable and that the builder holds every required
/// material; then consume the materials and finish the build. An
/// unknown template leaves a warning in the log; a shortage leaves a
/// log entry naming the first missing material, in declaration order,
/// and the missing amount; no failure mutates anything else.
pub fn start_build(game: &mut Game, pos: crate::game::Vec2d, builder: CharaId, build_obj: BuildObj)
    requires
        old(game).wf(),
        builder < old(game).charas@.len(),
        build_obj is Wall,
    ensures
        final(game).wf(),
        final(game).holder == old(game).holder,
        final(game).rules == old(game).rules,
        final(game).state == old(game).state,
        final(game).player_pos == old(game).player_pos,
        final(game).player_on_entrance == old(game).player_on_entrance,
        final(game).floor == old(game).floor,
        final(game).effect_queue == old(game).effect_queue,
        final(game).anim_queue == old(game).anim_queue,
        ({
            let w = build_obj->Wall_0;
            if w.0 >= old(game).holder.walls@.len() {
                &&& final(game).log@ == old(game).log@.push(
                    LogEntry::UnknownBuildObj { wall: w },
                )
                &&& final(game).map == old(game).map
                &&& final(game).charas == old(game).charas
                &&& final(game).sound_queue == old(game).sound_queue
            } else if !spec_is_buildable(*old(game), pos) {
                &&& final(game).log == old(game).log
                &&& final(game).map == old(game).map
                &&& final(game).charas == old(game).charas
                &&& final(game).sound_queue == old(game).sound_queue
            } else {
                let mats = old(game).holder.walls@[w.0 as int].materials@;
                let inv = old(game).charas@[builder as int].item_list;
                match spec_first_shortage(inv, mats, 0) {
                    Some(j) => {
                        &&& final(game).log@ == old(game).log@.push(
                            LogEntry::BuildingShortageMaterial {
                                item: mats[j].0,
                                n: (mats[j].1 - inv.spec_count(mats[j].0)) as u32,
                            },
                        )
                        &&& final(game).map == old(game).map
                        &&& final(game).charas == old(game).charas
                        &&& final(game).sound_queue == old(game).sound_queue
                    },
                    None => {
                        &&& final(game).log == old(game).log
                        &&& final(game).map.tile@ == old(game).map.tile@.update(
                            old(game).map.spec_index_xy(pos.0 as int, pos.1 as int),
                            (Tile {
                                main_tile: old(game).map.spec_tile_at(pos).main_tile,
                                wall: Some(w),
                            }),
                        )
                        &&& final(game).map.w == old(game).map.w
                        &&& final(game).map.h == old(game).map.h
                        &&& final(game).sound_queue@ == old(game).sound_queue@.push(
                            SoundCue::FinishBuild,
                        )
                        &&& final(game).charas@.len() == old(game).charas@.len()
                        &&& forall|j: int|
                            0 <= j < old(game).charas@.len() && j != builder ==> final(game).charas@[j] == old(game).charas@[j]
                        &&& ({
                            let c0 = old(game).charas@[builder as int];
                            let c1 = final(game).charas@[builder as int];
                            &&& c1.attr == c0.attr
                            &&& c1.skills == c0.skills
                            &&& c1.params == c0.params
                            &&& c1.status == c0.status
                            &&& c1.item_list.wf()
                            &&& forall|x: ItemIdx| #![auto]
                                c1.item_list.spec_count(x) == c0.item_list.spec_count(x)
                                    - spec_need_upto(mats, x, mats.len() as int)
                        })
                    },
                }
            }
        }),
{
    let wall_idx = match build_obj {
        BuildObj::Wall(w) => w,
        BuildObj::Tile(_) => {
            proof {
                assert(false);
            }
            WallIdx(0)
        },
    };

    if wall_idx.0 as usize >= game.holder.walls.len() {
        game.log.push(LogEntry::UnknownBuildObj { wall: wall_idx });
        return ;
    }

    if !is_buildable(game, pos) {
        return ;
    }

    let wi = wall_idx.0 as usize;
    let nm: usize = game.holder.walls[wi].materials.len();
    let ghost mats = game.holder.walls@[wi as int].materials@;
    let ghost inv = game.charas@[builder as int].item_list;

    // Check that the builder holds every needed material.
    let mut k: usize = 0;
    while k < nm
        invariant
            old(game).wf(),
            spec_is_buildable(*old(game), pos),
            build_obj is Wall,
            wall_idx == build_obj->Wall_0,
            wi == wall_idx.0 as usize,
            game == old(game),
            wi < game.holder.walls@.len(),
            builder < game.charas@.len(),
            nm == mats.len(),
            mats == game.holder.walls@[wi as int].materials@,
            inv == game.charas@[builder as int].item_list,
            0 <= k <= nm,
            spec_first_shortage(inv, mats, 0) == spec_first_shortage(inv, mats, k as int),
        decreases nm - k,
    {
        let mat = game.holder.walls[wi].materials[k];
        let has = game.charas[builder].item_list.count(mat.0);
        if has < mat.1 {
            let needed = mat.1 - has;
            proof {
                assert(spec_first_shortage(inv, mats, k as int) == Some(k as int));
            }
            game.log.push(LogEntry::BuildingShortageMaterial { item: mat.0, n: needed });
            return ;
        }
        k = k + 1;
    }
    proof {
        assert(spec_first_shortage(inv, mats, nm as int) is None);
        lemma_no_shortage(inv, mats, 0);
    }

    // Consume every needed material from the builder's inventory.
    let mut c = game.charas.remove(builder);
    let mut k2: usize = 0;
    while k2 < nm
        invariant
            old(game).wf(),
            spec_is_buildable(*old(game), pos),
            build_obj is Wall,
            wall_idx == build_obj->Wall_0,
            wi == wall_idx.0 as usize,
            builder < old(game).charas@.len(),
            wi < old(game).holder.walls@.len(),
            game.holder == old(game).holder,
            game.map == old(game).map,
            game.rules == old(game).rules,
            game.state == old(game).state,
            game.player_pos == old(game).player_pos,
            game.player_on_entrance == old(game).player_on_entrance,
            game.floor == old(game).floor,
            game.log == old(game).log,
            game.effect_queue == old(game).effect_queue,
            game.anim_queue == old(game).anim_queue,
            game.sound_queue == old(game).sound_queue,
            game.charas@ == old(game).charas@.remove(builder as int),
            spec_first_shortage(inv, mats, 0) is None,
            nm == mats.len(),
            mats == old(game).holder.walls@[wi as int].materials@,
            0 <= k2 <= nm,
            c.attr == old(game).charas@[builder as int].attr,
            c.skills == old(game).charas@[builder as int].skills,
            c.params == old(game).charas@[builder as int].params,
            c.status == old(game).charas@[builder as int].status,
            c.item_list.wf(),
            inv == old(game).charas@[builder as int].item_list,
            forall|j: int| 0 <= j < nm ==> inv.spec_count((#[trigger] mats[j]).0) >= mats[j].1,
            forall|x: ItemIdx| #![auto]
                c.item_list.spec_count(x) == inv.spec_count(x) - spec_need_upto(
                    mats,
                    x,
                    k2 as int,
                ),
        decreases nm - k2,
    {
        let mat = game.holder.walls[wi].materials[k2];
        proof {
            let wobj = old(game).holder.walls@[wi as int];
            assert(wobj.wf());
            assert forall|j: int| 0 <= j < k2 implies (#[trigger] mats[j]).0 != mat.0 by {
                assert(wobj.materials@[j] == mats[j]);
                assert(wobj.materials@[k2 as int] == mats[k2 as int]);
            }
            lemma_need_upto_zero(mats, mat.0, k2 as int);
            assert(c.item_list.spec_count(mat.0) == inv.spec_count(mat.0));
            assert(inv.spec_count(mats[k2 as int].0) >= mats[k2 as int].1);
        }
        c.item_list.consume(mat.0, mat.1);
        k2 = k2 + 1;
    }
    game.charas.insert(builder, c);
    proof {
        assert(game.charas@ =~= old(game).charas@.update(
            builder as int,
            game.charas@[builder as int],
        ));
    }

    finish_build(game, pos, wall_idx);
}

/// Returns the buildable templates and the skill level each needs:
/// first the tiles, then the walls, in table order.
pub open spec fn spec_tile_build_list(tiles: Seq<crate::game::TileObj>, i: int) -> Seq<
    (BuildObj, u32),
>
    decreases tiles.len() - i,
{
    if i < 0 || i >= tiles.len() {
        Seq::empty()
    } else {
        (match tiles[i].build_skill {
            Some(l) => seq![(BuildObj::Tile(TileIdx(i as u32)), l)],
            None => Seq::<(BuildObj, u32)>::empty(),
        }) + spec_tile_build_list(tiles, i + 1)
    }
}

pub open spec fn spec_wall_build_list(walls: Seq<crate::game::WallObj>, i: int) -> Seq<
    (BuildObj, u32),
>
    decreases walls.len() - i,
{
    if i < 0 || i >= walls.len() {
        Seq::empty()
    } else {
        (match walls[i].build_skill {
            Some(l) => seq![(BuildObj::Wall(WallIdx(i as u32)), l)],
            None => Seq::<(BuildObj, u32)>::empty(),
        }) + spec_wall_build_list(walls, i + 1)
    }
}

/// Returns the buildable objects and their needed skill levels.
pub fn build_obj_list(holder: &crate::game::ObjHolder) -> (r: Vec<(BuildObj, u32)>)
    requires
        holder.tiles@.len() <= u32::MAX,
        holder.walls@.len() <= u32::MAX,
    ensures
        r@ == spec_tile_build_list(holder.tiles@, 0) + spec_wall_build_list(holder.walls@, 0),
{
    let mut list: Vec<(BuildObj, u32)> = Vec::new();

    let nt: usize = holder.tiles.len();
    let mut i: usize = 0;
    proof {
        assert(list@ + spec_tile_build_list(holder.tiles@, 0) =~= spec_tile_build_list(
            holder.tiles@,
            0,
        ));
    }
    while i < nt
        invariant
            nt == holder.tiles@.len(),
            nt <= u32::MAX,
            0 <= i <= nt,
            list@ + spec_tile_build_list(holder.tiles@, i as int) == spec_tile_build_list(
                holder.tiles@,
                0,
            ),
        decreases nt - i,
    {
        let ghost prev = list@;
        match holder.tiles[i].build_skill {
            Some(l) => {
                list.push((BuildObj::Tile(TileIdx(i as u32)), l));
                proof {
                    assert(list@ =~= prev + seq![(BuildObj::Tile(TileIdx(i as u32)), l)]);
                    assert((prev + seq![(BuildObj::Tile(TileIdx(i as u32)), l)])
                        + spec_tile_build_list(holder.tiles@, i as int + 1) =~= prev + (seq![
                        (BuildObj::Tile(TileIdx(i as u32)), l),
                    ] + spec_tile_build_list(holder.tiles@, i as int + 1)));
                }
            },
            None => {
                proof {
                    assert(Seq::<(BuildObj, u32)>::empty() + spec_tile_build_list(
                        holder.tiles@,
                        i as int + 1,
                    ) =~= spec_tile_build_list(holder.tiles@, i as int + 1));
                }
            },
        }
        i = i + 1;
    }
    proof {
        assert(list@ + Seq::<(BuildObj, u32)>::empty() =~= list@);
    }

    let ghost tile_part = list@;
    let nw: usize = holder.walls.len();
    let mut j: usize = 0;
    proof {
        assert(tile_part + (Seq::<(BuildObj, u32)>::empty() + spec_wall_build_list(
            holder.walls@,
            0,
        )) =~= tile_part + spec_wall_build_list(holder.walls@, 0));
    }
    while j < nw
        invariant
            nw == holder.walls@.len(),
            nw <= u32::MAX,
            0 <= j <= nw,
            tile_part == spec_tile_build_list(holder.tiles@, 0),
            list@ + spec_wall_build_list(holder.walls@, j as int) == tile_part
                + spec_wall_build_list(holder.walls@, 0),
        decreases nw - j,
    {
        let ghost prev = list@;
        match holder.walls[j].build_skill {
            Some(l) => {
                list.push((BuildObj::Wall(WallIdx(j as u32)), l));
                proof {
                    assert(list@ =~= prev + seq![(BuildObj::Wall(WallIdx(j as u32)), l)]);
                    assert((prev + seq![(BuildObj::Wall(WallIdx(j as u32)), l)])
                        + spec_wall_build_list(holder.walls@, j as int + 1) =~= prev + (seq![
                        (BuildObj::Wall(WallIdx(j as u32)), l),
                    ] + spec_wall_build_list(holder.walls@, j as int + 1)));
                }
            },
            None => {
                proof {
                    assert(Seq::<(BuildObj, u32)>::empty() + spec_wall_build_list(
                        holder.walls@,
                        j as int + 1,
                    ) =~= spec_wall_build_list(holder.walls@, j as int + 1));
                }
            },
        }
        j = j + 1;
    }
    proof {
        assert(list@ + Seq::<(BuildObj, u32)>::empty() =~= list@);
    }
    list
}

} // verus!

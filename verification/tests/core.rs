use rusted_ruins::active_skill::{calc_power, use_active_skill};
use rusted_ruins::chara::{Chara, CharaAttrs, CharaParams, CharaStatus, ItemList};
use rusted_ruins::defs::{
    ActiveSkill, ActiveSkillGroup, ActiveSkillId, BasePower, Effect, Element, ElementArray,
    HarvestKind, ItemIdx, PowerCalcMethod, SkillKind,
};
use rusted_ruins::faction::{Faction, FactionId, FactionRelation};
use rusted_ruins::game::{
    ActiveSkillTable, Game, GameMap, GameRules, GameState, LogEntry, ObjHolder, Tile, TileIdx,
    TileObj, Vec2d, WallObj,
};
use rusted_ruins::modifier::CharaTotalModifier;
use rusted_ruins::preturn::{can_act, preturn};

fn plain_chara() -> Chara {
    Chara {
        attr: CharaAttrs {
            strength: 10,
            vitality: 10,
            dexterity: 10,
            intelligence: 10,
            will: 10,
            charisma: 10,
            speed: 10,
        },
        skills: Vec::new(),
        params: CharaParams { hp: 100, max_hp: 100, sp: 50, mp: 30 },
        status: Vec::new(),
        item_list: ItemList::new(),
    }
}

fn ground_map(w: u32, h: u32) -> GameMap {
    let mut tile = Vec::new();
    for _ in 0..(w * h) {
        tile.push(Tile { main_tile: TileIdx(0), wall: None });
    }
    GameMap { w, h, tile }
}

fn plain_holder() -> ObjHolder {
    ObjHolder {
        tiles: vec![
            TileObj { kind: rusted_ruins::defs::TileKind::Ground, build_skill: None },
            TileObj { kind: rusted_ruins::defs::TileKind::Water, build_skill: None },
        ],
        walls: vec![WallObj {
            build_skill: Some(1),
            materials: vec![(ItemIdx(1), 3), (ItemIdx(2), 2)],
        }],
    }
}

fn plain_game() -> Game {
    Game {
        charas: vec![plain_chara()],
        map: ground_map(3, 3),
        holder: plain_holder(),
        rules: GameRules { sp_consumption: 1, active_skills: ActiveSkillTable { entries: Vec::new() } },
        state: GameState::WaitingForNextTurn,
        player_pos: Vec2d(1, 1),
        player_on_entrance: false,
        floor: 0,
        log: Vec::new(),
        effect_queue: Vec::new(),
        anim_queue: Vec::new(),
        sound_queue: Vec::new(),
    }
}

fn magic_skill() -> ActiveSkill {
    ActiveSkill {
        group: ActiveSkillGroup::Magic,
        icon: String::from("icon"),
        effect: Effect(7),
        power: 2,
        hit_power: 4,
        power_calc: PowerCalcMethod::Magic,
        cost_sp: 5,
        cost_mp: 5,
    }
}

#[test]
fn status_advance_decrements_asleep() {
    let mut s = CharaStatus::Asleep { turn_left: 3 };
    s.advance_turn();
    assert_eq!(s, CharaStatus::Asleep { turn_left: 2 });
    s.advance_turn();
    assert_eq!(s, CharaStatus::Asleep { turn_left: 1 });
    assert!(!s.is_expired());
    s.advance_turn();
    assert!(s.is_expired());
}

#[test]
fn one_turn_status_gone_after_one_advance() {
    let mut g = plain_game();
    g.charas[0].status.push(CharaStatus::Asleep { turn_left: 1 });
    preturn(&mut g, 0);
    assert!(g.charas[0].status.is_empty());
}

#[test]
fn advance_never_increases_duration() {
    let mut g = plain_game();
    g.charas[0].status.push(CharaStatus::Asleep { turn_left: 5 });
    g.charas[0].status.push(CharaStatus::Poisoned);
    preturn(&mut g, 0);
    assert_eq!(g.charas[0].status[0], CharaStatus::Asleep { turn_left: 4 });
    preturn(&mut g, 0);
    assert_eq!(g.charas[0].status[0], CharaStatus::Asleep { turn_left: 3 });
}

#[test]
fn can_act_false_iff_incapacitated() {
    let mut log = Vec::new();
    let mut c = plain_chara();
    assert!(can_act(&c, 0, &mut log));
    assert!(log.is_empty());
    c.status.push(CharaStatus::Poisoned);
    assert!(can_act(&c, 0, &mut log));
    assert!(log.is_empty());
    c.status.push(CharaStatus::Asleep { turn_left: 2 });
    assert!(!can_act(&c, 0, &mut log));
    assert_eq!(log, vec![LogEntry::Asleep { chara: 0 }]);
}

#[test]
fn base_power_degenerate_range_is_deterministic() {
    let p = BasePower(10, 0);
    for _ in 0..20 {
        assert_eq!(p.calc(1), 10);
    }
}

#[test]
fn base_power_samples_within_range() {
    let p = BasePower(10, 5);
    for _ in 0..100 {
        let v = p.calc(1);
        assert!((5..15).contains(&v));
    }
}

#[test]
fn base_power_clamps_at_zero() {
    let p = BasePower(3, 10);
    for _ in 0..100 {
        let v = p.calc(1);
        assert!(v < 13);
    }
}

#[test]
fn base_power_without_var() {
    assert_eq!(BasePower(10, 5).calc_without_var(3), 30);
}

#[test]
fn poison_damage_on_preturn() {
    let mut g = plain_game();
    g.charas[0].status.push(CharaStatus::Poisoned);
    preturn(&mut g, 0);
    assert_eq!(g.charas[0].params.hp, 95);
    assert_eq!(g.charas[0].params.sp, 49);
    assert_eq!(g.log, vec![LogEntry::PoisonDamage { chara: 0, damage: 5 }]);
}

#[test]
fn game_advance_turn_enters_player_turn() {
    let mut g = plain_game();
    g.charas[0].status.push(CharaStatus::Asleep { turn_left: 2 });
    g.advance_turn();
    assert_eq!(g.state, GameState::PlayerTurn);
    assert_eq!(g.charas[0].status, vec![CharaStatus::Asleep { turn_left: 1 }]);
    assert_eq!(g.log, vec![LogEntry::Asleep { chara: 0 }]);
}

#[test]
fn calc_power_methods() {
    let g = {
        let mut g = plain_game();
        g.charas[0].skills.push((SkillKind::MagicDevice, 6));
        g.charas[0].attr.intelligence = 9;
        g
    };
    let mut s = magic_skill();
    assert_eq!(calc_power(&g, &s, 0), 54);
    s.power_calc = PowerCalcMethod::Num(12);
    assert_eq!(calc_power(&g, &s, 0), 12);
}

#[test]
fn skill_use_invisible_target_is_silent() {
    let mut g = plain_game();
    g.rules.active_skills.entries.push((ActiveSkillId(String::from("bolt")), magic_skill()));
    let performed = use_active_skill(&mut g, &ActiveSkillId(String::from("bolt")), 0, 0, false);
    assert!(!performed);
    assert!(g.log.is_empty());
    assert!(g.effect_queue.is_empty());
}

#[test]
fn skill_use_unknown_id_warns() {
    let mut g = plain_game();
    let performed = use_active_skill(&mut g, &ActiveSkillId(String::from("nope")), 0, 0, true);
    assert!(!performed);
    assert_eq!(
        g.log,
        vec![LogEntry::UnknownActiveSkill { active_skill: ActiveSkillId(String::from("nope")) }]
    );
    assert!(g.effect_queue.is_empty());
}

#[test]
fn skill_use_invisible_custom_method_is_silent() {
    let mut g = plain_game();
    let mut s = magic_skill();
    s.power_calc = PowerCalcMethod::Custom(String::from("hook"));
    g.rules.active_skills.entries.push((ActiveSkillId(String::from("bolt")), s));
    let performed = use_active_skill(&mut g, &ActiveSkillId(String::from("bolt")), 0, 0, false);
    assert!(!performed);
    assert!(g.log.is_empty());
    assert!(g.effect_queue.is_empty());
}

#[test]
fn skill_use_insufficient_resources_is_silent() {
    let mut g = plain_game();
    g.rules.active_skills.entries.push((ActiveSkillId(String::from("bolt")), magic_skill()));
    g.charas[0].params.mp = 1;
    let performed = use_active_skill(&mut g, &ActiveSkillId(String::from("bolt")), 0, 0, true);
    assert!(!performed);
    assert!(g.log.is_empty());
    assert!(g.effect_queue.is_empty());
}

#[test]
fn skill_use_success_logs_and_queues_effect() {
    let mut g = plain_game();
    g.rules.active_skills.entries.push((ActiveSkillId(String::from("bolt")), magic_skill()));
    g.charas[0].skills.push((SkillKind::MagicDevice, 6));
    let performed = use_active_skill(&mut g, &ActiveSkillId(String::from("bolt")), 0, 0, true);
    assert!(performed);
    assert_eq!(
        g.log,
        vec![LogEntry::UseActiveSkillMagic {
            chara: 0,
            active_skill: ActiveSkillId(String::from("bolt")),
        }]
    );
    assert_eq!(g.effect_queue.len(), 1);
    let call = &g.effect_queue[0];
    assert_eq!(call.effect, Effect(7));
    assert_eq!(call.source, Some(0));
    assert_eq!(call.power, 6 * 10 * 2);
    assert_eq!(call.hit_power, 4);
}

#[test]
fn faction_relations_round_trip() {
    let mut f = Faction::new();
    let orcs = FactionId::new("orcs").unwrap();
    assert_eq!(f.get(&orcs), FactionRelation(0));
    f.set(orcs.clone(), FactionRelation(25));
    assert_eq!(f.get(&orcs), FactionRelation(25));
    f.set(orcs.clone(), FactionRelation(-3));
    assert_eq!(f.get(&orcs), FactionRelation(-3));
    assert_eq!(f.get(&FactionId::player()), FactionRelation(0));
}

#[test]
fn faction_relation_arithmetic_clamps() {
    assert_eq!(FactionRelation(9999).add(500), FactionRelation(10000));
    assert_eq!(FactionRelation(5).add(7), FactionRelation(12));
    assert_eq!(FactionRelation(-9999).sub(500), FactionRelation(-10000));
    assert_eq!(FactionRelation(5).sub(7), FactionRelation(-2));
}

#[test]
fn faction_relation_arithmetic_caps_one_side_only() {
    // Raising caps only at the top; lowering only at the bottom.
    assert_eq!(FactionRelation(0).add(-20000), FactionRelation(-20000));
    assert_eq!(FactionRelation(0).sub(-20000), FactionRelation(20000));
    // Sums and differences wrap as 16-bit values before the cap.
    assert_eq!(FactionRelation(30000).add(10000), FactionRelation(-25536));
    assert_eq!(FactionRelation(-30000).sub(10000), FactionRelation(25536));
}

#[test]
fn faction_id_length_gate() {
    assert!(FactionId::new("0123456789abcdef").is_some());
    assert!(FactionId::new("0123456789abcdefg").is_none());
    assert_eq!(FactionId::default(), FactionId::unknown());
    assert_ne!(FactionId::unknown(), FactionId::player());
}

#[test]
fn harvest_related_skills() {
    assert_eq!(HarvestKind::Animal.related_skill(), SkillKind::Animals);
    assert_eq!(HarvestKind::Chop.related_skill(), SkillKind::Plants);
    assert_eq!(HarvestKind::Deconstruct.related_skill(), SkillKind::Construction);
    assert_eq!(HarvestKind::Plant.related_skill(), SkillKind::Plants);
    assert_eq!(HarvestKind::Mine.related_skill(), SkillKind::Mining);
}

#[test]
fn element_array_get_set() {
    let mut a = ElementArray([0u32, 1, 2, 3, 4, 5]);
    assert_eq!(*a.get(Element::Physical), 0);
    assert_eq!(*a.get(Element::Spirit), 5);
    a.set(Element::Fire, 99);
    assert_eq!(*a.get(Element::Fire), 99);
    assert_eq!(*a.get(Element::Cold), 2);
}

#[test]
fn total_modifier_default_is_neutral() {
    let m = CharaTotalModifier::default();
    assert_eq!(m.max_hp, 0);
    assert_eq!(m.spd_factor_permil, 1000);
    assert!(m.skill_level.is_empty());
}

#[test]
fn item_list_counts() {
    let mut l = ItemList::new();
    assert_eq!(l.count(ItemIdx(1)), 0);
    l.put(ItemIdx(1), 5);
    l.put(ItemIdx(2), 2);
    assert_eq!(l.count(ItemIdx(1)), 5);
    l.consume(ItemIdx(1), 3);
    assert_eq!(l.count(ItemIdx(1)), 2);
    assert_eq!(l.count(ItemIdx(2)), 2);
}

#[test]
fn chara_skill_level_lookup() {
    let mut c = plain_chara();
    assert_eq!(c.skill_level(SkillKind::Mining), 0);
    c.skills.push((SkillKind::Mining, 7));
    assert_eq!(c.skill_level(SkillKind::Mining), 7);
    assert_eq!(c.skill_level(SkillKind::Plants), 0);
}

use rusted_ruins::building::{build_obj_list, finish_build, is_buildable, start_build};
use rusted_ruins::chara::{Chara, CharaAttrs, CharaParams, ItemList};
use rusted_ruins::defs::{ItemIdx, TileKind};
use rusted_ruins::game::{
    ActiveSkillTable, Animation, BuildObj, Game, GameMap, GameRules, GameState, LogEntry,
    ObjHolder, SoundCue, Tile, TileIdx, TileObj, Vec2d, WallIdx, WallObj,
};
use rusted_ruins::text_input;
use rusted_ruins::text_input::{TextInputState, ToggleAction};
use rusted_ruins::window::{Command, DialogKind, InputMode, WindowManager, YesNoAction};

fn builder_chara(items: &[(u32, u32)]) -> Chara {
    let mut list = ItemList::new();
    for &(idx, n) in items {
        list.put(ItemIdx(idx), n);
    }
    Chara {
        attr: CharaAttrs {
            strength: 10,
            vitality: 10,
            dexterity: 10,
            intelligence: 10,
            will: 10,
            charisma: 10,
            speed: 10,
        },
        skills: Vec::new(),
        params: CharaParams { hp: 100, max_hp: 100, sp: 50, mp: 30 },
        status: Vec::new(),
        item_list: list,
    }
}

fn holder() -> ObjHolder {
    ObjHolder {
        tiles: vec![
            TileObj { kind: TileKind::Ground, build_skill: None },
            TileObj { kind: TileKind::Water, build_skill: Some(4) },
        ],
        walls: vec![WallObj {
            build_skill: Some(1),
            materials: vec![(ItemIdx(1), 3), (ItemIdx(2), 2)],
        }],
    }
}

fn build_game(items: &[(u32, u32)]) -> Game {
    let mut tile = Vec::new();
    for i in 0..9 {
        let main_tile = if i == 4 { TileIdx(1) } else { TileIdx(0) };
        let wall = if i == 2 { Some(WallIdx(0)) } else { None };
        tile.push(Tile { main_tile, wall });
    }
    Game {
        charas: vec![builder_chara(items)],
        map: GameMap { w: 3, h: 3, tile },
        holder: holder(),
        rules: GameRules { sp_consumption: 1, active_skills: ActiveSkillTable { entries: Vec::new() } },
        state: GameState::PlayerTurn,
        player_pos: Vec2d(0, 0),
        player_on_entrance: false,
        floor: 0,
        log: Vec::new(),
        effect_queue: Vec::new(),
        anim_queue: Vec::new(),
        sound_queue: Vec::new(),
    }
}

fn wall_at(g: &Game, x: i32, y: i32) -> Option<WallIdx> {
    g.map.tile[(y * 3 + x) as usize].wall
}

#[test]
fn buildable_predicate() {
    let g = build_game(&[]);
    assert!(!is_buildable(&g, Vec2d(-1, 0)));
    assert!(!is_buildable(&g, Vec2d(3, 1)));
    assert!(!is_buildable(&g, Vec2d(2, 0)));
    assert!(!is_buildable(&g, Vec2d(1, 1)));
    assert!(is_buildable(&g, Vec2d(0, 1)));
}

#[test]
fn build_with_exact_materials_succeeds() {
    let mut g = build_game(&[(1, 3), (2, 2)]);
    start_build(&mut g, Vec2d(0, 1), 0, BuildObj::Wall(WallIdx(0)));
    assert_eq!(wall_at(&g, 0, 1), Some(WallIdx(0)));
    assert_eq!(g.charas[0].item_list.count(ItemIdx(1)), 0);
    assert_eq!(g.charas[0].item_list.count(ItemIdx(2)), 0);
    assert!(g.log.is_empty());
    assert_eq!(g.sound_queue, vec![SoundCue::FinishBuild]);
}

#[test]
fn build_with_missing_materials_fails_unchanged() {
    let mut g = build_game(&[(1, 3), (2, 1)]);
    start_build(&mut g, Vec2d(0, 1), 0, BuildObj::Wall(WallIdx(0)));
    assert_eq!(wall_at(&g, 0, 1), None);
    assert_eq!(g.charas[0].item_list.count(ItemIdx(1)), 3);
    assert_eq!(g.charas[0].item_list.count(ItemIdx(2)), 1);
    assert_eq!(
        g.log,
        vec![LogEntry::BuildingShortageMaterial { item: ItemIdx(2), n: 1 }]
    );
    assert!(g.sound_queue.is_empty());
}

#[test]
fn build_reports_first_shortage_in_order() {
    let mut g = build_game(&[(1, 1), (2, 0)]);
    start_build(&mut g, Vec2d(0, 1), 0, BuildObj::Wall(WallIdx(0)));
    assert_eq!(
        g.log,
        vec![LogEntry::BuildingShortageMaterial { item: ItemIdx(1), n: 2 }]
    );
}

#[test]
fn build_on_unbuildable_tile_is_silent() {
    let mut g = build_game(&[(1, 3), (2, 2)]);
    start_build(&mut g, Vec2d(1, 1), 0, BuildObj::Wall(WallIdx(0)));
    assert!(g.log.is_empty());
    assert_eq!(g.charas[0].item_list.count(ItemIdx(1)), 3);
    assert_eq!(wall_at(&g, 1, 1), None);
}

#[test]
fn build_unknown_template_warns() {
    let mut g = build_game(&[(1, 3), (2, 2)]);
    start_build(&mut g, Vec2d(0, 1), 0, BuildObj::Wall(WallIdx(9)));
    assert_eq!(g.log, vec![LogEntry::UnknownBuildObj { wall: WallIdx(9) }]);
    assert_eq!(wall_at(&g, 0, 1), None);
}

#[test]
fn finish_build_sets_wall_and_cue() {
    let mut g = build_game(&[]);
    finish_build(&mut g, Vec2d(0, 2), WallIdx(0));
    assert_eq!(wall_at(&g, 0, 2), Some(WallIdx(0)));
    assert_eq!(g.sound_queue, vec![SoundCue::FinishBuild]);
}

#[test]
fn build_obj_list_collects_buildables() {
    let h = holder();
    let list = build_obj_list(&h);
    assert_eq!(
        list,
        vec![
            (BuildObj::Tile(TileIdx(1)), 4),
            (BuildObj::Wall(WallIdx(0)), 1),
        ]
    );
}

#[test]
fn router_close_returns_to_default_handling() {
    let mut wm = WindowManager::new(build_game(&[]));
    assert!(wm.process_command(Some(Command::OpenExitWin)));
    assert_eq!(wm.window_stack, vec![DialogKind::Exit]);
    assert!(wm.process_command(Some(Command::Cancel)));
    assert!(wm.window_stack.is_empty());
    let before = wm.game.player_pos;
    assert!(wm.process_command(Some(Command::Move { dir: Vec2d(1, 0) })));
    assert_ne!(wm.game.player_pos, before);
}

#[test]
fn router_exit_confirm_quits() {
    let mut wm = WindowManager::new(build_game(&[]));
    assert!(wm.process_command(Some(Command::OpenExitWin)));
    assert!(!wm.process_command(Some(Command::Enter)));
    assert_eq!(wm.window_stack, vec![DialogKind::Exit]);
}

#[test]
fn router_enter_on_entrance_opens_dialog_and_confirm_moves_floor() {
    let mut game = build_game(&[]);
    game.player_on_entrance = true;
    let mut wm = WindowManager::new(game);
    assert!(wm.process_command(Some(Command::Enter)));
    assert_eq!(
        wm.window_stack,
        vec![DialogKind::YesNo { action: YesNoAction::MoveNextFloor }]
    );
    assert!(wm.process_command(Some(Command::Enter)));
    assert!(wm.window_stack.is_empty());
    assert_eq!(wm.game.floor, 1);
    assert_eq!(wm.game.state, GameState::WaitingForNextTurn);
}

#[test]
fn router_consumes_command_in_one_context_only() {
    let mut wm = WindowManager::new(build_game(&[]));
    assert!(wm.process_command(Some(Command::OpenItemMenu)));
    assert_eq!(wm.window_stack, vec![DialogKind::TextEntry]);
    assert_eq!(wm.input_mode(), InputMode::TextInput);
    let before = wm.game.player_pos;
    assert!(wm.process_command(Some(Command::Move { dir: Vec2d(1, 0) })));
    assert_eq!(wm.game.player_pos, before);
    assert_eq!(wm.window_stack, vec![DialogKind::TextEntry]);
}

#[test]
fn manager_advance_turn_runs_clock_and_pops_animation() {
    let mut game = build_game(&[]);
    game.state = GameState::WaitingForNextTurn;
    game.anim_queue.push(Animation { n_frames: 2 });
    let mut wm = WindowManager::new(game);
    assert!(wm.advance_turn(None));
    assert_eq!(wm.game.state, GameState::PlayerTurn);
    assert_eq!(wm.anim, Some(Animation { n_frames: 2 }));
    assert!(wm.animation_now());
}

#[test]
fn sequencer_counts_frames_and_pulls_next() {
    let mut game = build_game(&[]);
    game.anim_queue.push(Animation { n_frames: 2 });
    game.anim_queue.push(Animation { n_frames: 1 });
    let mut wm = WindowManager::new(game);
    assert!(wm.advance_turn(None));
    assert_eq!(wm.anim, Some(Animation { n_frames: 2 }));
    wm.redraw();
    assert_eq!(wm.passed_frame, 1);
    wm.redraw();
    assert_eq!(wm.passed_frame, 2);
    wm.redraw();
    assert_eq!(wm.anim, Some(Animation { n_frames: 1 }));
    assert_eq!(wm.passed_frame, 1);
    wm.redraw();
    assert_eq!(wm.anim, None);
    assert_eq!(wm.passed_frame, 0);
    assert!(!wm.animation_now());
}

#[test]
fn text_input_toggle_is_level_triggered() {
    let mut s = TextInputState::new();
    assert!(!text_input::get(&s));
    assert_eq!(text_input::check_mode(&mut s), None);
    text_input::start(&mut s);
    assert!(text_input::get(&s));
    assert_eq!(text_input::check_mode(&mut s), Some(ToggleAction::Start));
    assert_eq!(text_input::check_mode(&mut s), None);
    text_input::end(&mut s);
    assert_eq!(text_input::check_mode(&mut s), Some(ToggleAction::Stop));
    assert_eq!(text_input::check_mode(&mut s), None);
}

use vstd::prelude::*;
use crate::game::{Animation, Game, GameState, Vec2d, same_queues};
use crate::text_input::{TextInputState, ToggleAction, check_mode};

verus! {

/// What a modal context answers after taking a command.
#[derive(Clone, Copy, PartialEq, Eq, Structural, Debug)]
pub enum DialogResult {
    Continue,
    Close,
    CloseAll,
    Quit,
}

/// Input mode a context asks the command decoder for.
#[derive(Clone, Copy, PartialEq, Eq, Structural, Debug)]
pub enum InputMode {
    Normal,
    TextInput,
}

/// A decoded player command.
#[derive(Clone, PartialEq, Eq, Debug)]
pub enum Command {
    Move { dir: Vec2d },
    Enter,
    Cancel,
    OpenExitWin,
    OpenItemMenu,
    TextInput { text: String },
}

/// The world-mutating action a confirmed yes/no dialog performs.
#[derive(Clone, Copy, PartialEq, Eq, Structural, Debug)]
pub enum YesNoAction {
    MoveNextFloor,
}

/// The closed set of modal interaction contexts.
#[derive(Clone, Copy, PartialEq, Eq, Structural, Debug)]
pub enum DialogKind {
    YesNo { action: YesNoAction },
    Exit,
    TextEntry,
}

impl DialogKind {
    pub open spec fn spec_mode(self) -> InputMode {
        match self {
            DialogKind::TextEntry => InputMode::TextInput,
            _ => InputMode::Normal,
        }
    }

    pub fn mode(&self) -> (r: InputMode)
        ensures
            r == self.spec_mode(),
    {
        match self {
            DialogKind::TextEntry => InputMode::TextInput,
            _ => InputMode::Normal,
        }
    }

    /// What this context answers to a command: confirming or leaving
    /// a dialog closes it, confirming the exit window quits, and
    /// anything else is consumed without effect.
    pub open spec fn spec_result(self, command: Command) -> DialogResult {
        match self {
            DialogKind::YesNo { .. } => match command {
                Command::Enter => DialogResult::Close,
                Command::Cancel => DialogResult::Close,
                _ => DialogResult::Continue,
            },
            DialogKind::Exit => match command {
                Command::Enter => DialogResult::Quit,
                Command::Cancel => DialogResult::Close,
                _ => DialogResult::Continue,
            },
            DialogKind::TextEntry => match command {
                Command::Enter => DialogResult::Close,
                Command::Cancel => DialogResult::Close,
                _ => DialogResult::Continue,
            },
        }
    }
}

/// The game value after stepping onto the next floor.
pub open spec fn spec_moved_next_floor(g0: Game, g1: Game) -> bool {
    &&& g1.floor == if g0.floor < u32::MAX {
        g0.floor + 1
    } else {
        g0.floor as int
    }
    &&& g1.state == GameState::WaitingForNextTurn
    &&& g1.charas == g0.charas
    &&& g1.map == g0.map
    &&& g1.holder == g0.holder
    &&& g1.rules == g0.rules
    &&& g1.player_pos == g0.player_pos
    &&& g1.player_on_entrance == g0.player_on_entrance
    &&& same_queues(g1, g0)
}

/// The game value after a player move attempt: a step onto a free
/// in-map tile is taken and ends the turn, anything else changes
/// nothing.
pub open spec fn spec_try_moved(g0: Game, g1: Game, dir: Vec2d) -> bool {
    let nx = g0.player_pos.0 + dir.0;
    let ny = g0.player_pos.1 + dir.1;
    &&& (if g0.map.spec_inside_xy(nx, ny) && g0.map.tile@[g0.map.spec_index_xy(nx, ny)].wall
        is None {
        g1.player_pos == (Vec2d(nx as i32, ny as i32)) && g1.state
            == GameState::WaitingForNextTurn
    } else {
        g1.player_pos == g0.player_pos && g1.state == g0.state
    })
    &&& g1.charas == g0.charas
    &&& g1.map == g0.map
    &&& g1.holder == g0.holder
    &&& g1.rules == g0.rules
    &&& g1.player_on_entrance == g0.player_on_entrance
    &&& g1.floor == g0.floor
    &&& same_queues(g1, g0)
}

/// The stack after the router applies a context's answer.
pub open spec fn spec_apply_dialog_result(stack: Seq<DialogKind>, res: DialogResult) -> Seq<
    DialogKind,
> {
    match res {
        DialogResult::Continue => stack,
        DialogResult::Close => stack.drop_last(),
        DialogResult::CloseAll => Seq::empty(),
        DialogResult::Quit => stack,
    }
}

/// Closing a just-pushed context leaves the stack as it was, so
/// subsequent commands route to whatever was below (default handling
/// when nothing was); a CloseAll answer empties any stack.
pub proof fn lemma_router_close(stack: Seq<DialogKind>, k: DialogKind)
    ensures
        spec_apply_dialog_result(stack.push(k), DialogResult::Close) == stack,
        spec_apply_dialog_result(stack.push(k), DialogResult::CloseAll) == Seq::<
            DialogKind,
        >::empty(),
{
    assert(stack.push(k).drop_last() =~= stack);
}

/// Deliver a command to a modal context; a confirmed yes/no dialog
/// performs its action on the game.
pub fn dialog_process(kind: &DialogKind, command: &Command, game: &mut Game) -> (r: DialogResult)
    ensures
        r == kind.spec_result(*command),
        (kind is YesNo && command is Enter) ==> spec_moved_next_floor(*old(game), *final(game)),
        !(kind is YesNo && command is Enter) ==> *final(game) == *old(game),
{
    match kind {
        DialogKind::YesNo { action } => match command {
            Command::Enter => {
                match action {
                    YesNoAction::MoveNextFloor => game.move_next_floor(),
                }
                DialogResult::Close
            },
            Command::Cancel => DialogResult::Close,
            _ => DialogResult::Continue,
        },
        DialogKind::Exit => match command {
            Command::Enter => DialogResult::Quit,
            Command::Cancel => DialogResult::Close,
            _ => DialogResult::Continue,
        },
        DialogKind::TextEntry => match command {
            Command::Enter => DialogResult::Close,
            Command::Cancel => DialogResult::Close,
            _ => DialogResult::Continue,
        },
    }
}

/// Manages the modal context stack, the in-flight animation and the
/// turn clock around the game.
#[derive(Clone, Debug)]
pub struct WindowManager {
    pub game: Game,
    pub anim: Option<Animation>,
    pub passed_frame: u32,
    pub window_stack: Vec<DialogKind>,
    pub text_input: TextInputState,
    pub pending_toggle: Option<ToggleAction>,
}

impl WindowManager {
    /// The frame counter never runs more than one step past the
    /// in-flight animation's frame count.
    pub open spec fn wf(self) -> bool {
        &&& self.game.wf()
        &&& match self.anim {
            Some(a) => self.passed_frame <= a.n_frames + 1,
            None => self.passed_frame == 0,
        }
    }

    pub fn new(game: Game) -> (r: WindowManager)
        requires
            game.wf(),
        ensures
            r.wf(),
            r.game == game,
            r.anim is None,
            r.passed_frame == 0,
            r.window_stack@ == Seq::<DialogKind>::empty(),
            !r.text_input.requested,
            !r.text_input.active,
            r.pending_toggle is None,
    {
        WindowManager {
            game,
            anim: None,
            passed_frame: 0,
            window_stack: Vec::new(),
            text_input: TextInputState::new(),
            pending_toggle: None,
        }
    }

    /// Whether an animation is in flight.
    pub fn animation_now(&self) -> (r: bool)
        ensures
            r == (self.anim is Some),
    {
        match self.anim {
            Some(_) => true,
            None => false,
        }
    }

    /// The input mode the command decoder must use this cycle: the
    /// top context's, or the normal one when no context is open.
    pub fn input_mode(&self) -> (r: InputMode)
        ensures
            r == if self.window_stack@.len() > 0 {
                self.window_stack@.last().spec_mode()
            } else {
                InputMode::Normal
            },
    {
        if self.window_stack.len() > 0 {
            self.window_stack[self.window_stack.len() - 1].mode()
        } else {
            InputMode::Normal
        }
    }

    /// Route one decoded command: a non-empty context stack consumes
    /// it, and its answer is applied to the stack; otherwise the
    /// command is matched against the default command set. Returns
    /// false exactly when the program must quit.
    pub fn process_command(&mut self, command: Option<Command>) -> (r: bool)
        requires
            old(self).wf(),
        ensures
            final(self).wf(),
            final(self).anim == old(self).anim,
            final(self).passed_frame == old(self).passed_frame,
            final(self).text_input.requested == old(self).text_input.requested,
            final(self).text_input.active == old(self).text_input.requested,
            final(self).pending_toggle == if !old(self).text_input.active && old(
                self,
            ).text_input.requested {
                Some(ToggleAction::Start)
            } else if old(self).text_input.active && !old(self).text_input.requested {
                Some(ToggleAction::Stop)
            } else {
                None::<ToggleAction>
            },
            ({
                match command {
                    None => {
                        &&& r
                        &&& final(self).game == old(self).game
                        &&& final(self).window_stack == old(self).window_stack
                    },
                    Some(cmd) => {
                        if old(self).window_stack@.len() > 0 {
                            let top = old(self).window_stack@.last();
                            let res = top.spec_result(cmd);
                            &&& r == !(res is Quit)
                            &&& final(self).window_stack@ == spec_apply_dialog_result(
                                old(self).window_stack@,
                                res,
                            )
                            &&& ((top is YesNo && cmd is Enter) ==> spec_moved_next_floor(
                                old(self).game,
                                final(self).game,
                            ))
                            &&& (!(top is YesNo && cmd is Enter) ==> final(self).game == old(
                                self,
                            ).game)
                        } else {
                            &&& r
                            &&& match cmd {
                                Command::Move { dir } => {
                                    &&& spec_try_moved(old(self).game, final(self).game, dir)
                                    &&& final(self).window_stack == old(self).window_stack
                                },
                                Command::Enter => {
                                    &&& final(self).game == old(self).game
                                    &&& final(self).window_stack@ == if old(
                                        self,
                                    ).game.player_on_entrance {
                                        old(self).window_stack@.push(
                                            DialogKind::YesNo {
                                                action: YesNoAction::MoveNextFloor,
                                            },
                                        )
                                    } else {
                                        old(self).window_stack@
                                    }
                                },
                                Command::OpenExitWin => {
                                    &&& final(self).game == old(self).game
                                    &&& final(self).window_stack@ == old(
                                        self,
                                    ).window_stack@.push(DialogKind::Exit)
                                },
                                Command::OpenItemMenu => {
                                    &&& final(self).game == old(self).game
                                    &&& final(self).window_stack@ == old(
                                        self,
                                    ).window_stack@.push(DialogKind::TextEntry)
                                },
                                _ => {
                                    &&& final(self).game == old(self).game
                                    &&& final(self).window_stack == old(self).window_stack
                                },
                            }
                        }
                    },
                }
            }),
    {
        let toggle = check_mode(&mut self.text_input);
        self.pending_toggle = toggle;

        let cmd = match command {
            None => {
                return true;
            },
            Some(c) => c,
        };

        if self.window_stack.len() > 0 {
            let top = self.window_stack.pop().unwrap();
            let res = dialog_process(&top, &cmd, &mut self.game);
            match res {
                DialogResult::Continue => {
                    self.window_stack.push(top);
                    proof {
                        assert(self.window_stack@ =~= old(self).window_stack@);
                    }
                },
                DialogResult::Close => {},
                DialogResult::CloseAll => {
                    self.window_stack.clear();
                    proof {
                        assert(self.window_stack@ =~= Seq::<DialogKind>::empty());
                    }
                },
                DialogResult::Quit => {
                    self.window_stack.push(top);
                    proof {
                        assert(self.window_stack@ =~= old(self).window_stack@);
                    }
                    return false;
                },
            }
            return true;
        }

        match cmd {
            Command::Move { dir } => {
                self.game.try_move(dir);
            },
            Command::Enter => {
                if self.game.player_on_entrance {
                    self.window_stack.push(DialogKind::YesNo { action: YesNoAction::MoveNextFloor });
                }
            },
            Command::OpenExitWin => {
                self.window_stack.push(DialogKind::Exit);
            },
            Command::OpenItemMenu => {
                self.window_stack.push(DialogKind::TextEntry);
            },
            _ => {},
        }
        true
    }

    /// One outer-loop step of the turn clock: when the clock waits, a
    /// whole turn is advanced (statuses, upkeep, gates); then the
    /// player's command is routed; finally the in-flight animation is
    /// refilled from the queue. An animation still in flight is a
    /// caller error. Returns false exactly when the program must
    /// quit.
    pub fn advance_turn(&mut self, command: Option<Command>) -> (r: bool)
        requires
            old(self).wf(),
            old(self).anim is None,
        ensures
            final(self).wf(),
            final(self).passed_frame == old(self).passed_frame,
            final(self).game.holder == old(self).game.holder,
            final(self).game.rules == old(self).game.rules,
            final(self).game.effect_queue == old(self).game.effect_queue,
            final(self).game.sound_queue == old(self).game.sound_queue,
            final(self).game.map == old(self).game.map,
            final(self).game.player_on_entrance == old(self).game.player_on_entrance,
            final(self).text_input.requested == old(self).text_input.requested,
            r ==> final(self).anim == if old(self).game.anim_queue@.len() > 0 {
                Some(old(self).game.anim_queue@[0])
            } else {
                None::<Animation>
            },
            r ==> final(self).game.anim_queue@ == if old(self).game.anim_queue@.len() > 0 {
                old(self).game.anim_queue@.drop_first()
            } else {
                old(self).game.anim_queue@
            },
            !r ==> final(self).anim is None && final(self).game.anim_queue == old(
                self,
            ).game.anim_queue,
            ({
                let advanced = old(self).game.state is WaitingForNextTurn;
                &&& final(self).game.charas@.len() == old(self).game.charas@.len()
                &&& (advanced ==> forall|i: int|
                    0 <= i < old(self).game.charas@.len()
                        ==> crate::preturn::spec_chara_preturned(
                        old(self).game.charas@[i],
                        #[trigger] final(self).game.charas@[i],
                        old(self).game.rules.sp_consumption as int,
                    ))
                &&& (!advanced ==> final(self).game.charas == old(self).game.charas)
                &&& (advanced ==> final(self).game.log@ == old(self).game.log@
                    + crate::preturn::spec_advance_log(old(self).game.charas@, 0))
                &&& (!advanced ==> final(self).game.log == old(self).game.log)
            }),
            ({
                match command {
                    None => r && final(self).window_stack == old(self).window_stack,
                    Some(cmd) => {
                        if old(self).window_stack@.len() > 0 {
                            let res = old(self).window_stack@.last().spec_result(cmd);
                            &&& r == !(res is Quit)
                            &&& final(self).window_stack@ == spec_apply_dialog_result(
                                old(self).window_stack@,
                                res,
                            )
                        } else {
                            r
                        }
                    },
                }
            }),
            final(self).game.state == ({
                match command {
                    None => GameState::PlayerTurn,
                    Some(cmd) => {
                        if old(self).window_stack@.len() > 0 {
                            if old(self).window_stack@.last() is YesNo && cmd is Enter {
                                GameState::WaitingForNextTurn
                            } else {
                                GameState::PlayerTurn
                            }
                        } else {
                            match cmd {
                                Command::Move { dir } => {
                                    let nx = old(self).game.player_pos.0 + dir.0;
                                    let ny = old(self).game.player_pos.1 + dir.1;
                                    let m = old(self).game.map;
                                    if m.spec_inside_xy(nx, ny) && m.tile@[m.spec_index_xy(
                                        nx,
                                        ny,
                                    )].wall is None {
                                        GameState::WaitingForNextTurn
                                    } else {
                                        GameState::PlayerTurn
                                    }
                                },
                                _ => GameState::PlayerTurn,
                            }
                        }
                    },
                }
            }),
    {
        let waiting = match self.game.get_state() {
            GameState::WaitingForNextTurn => true,
            GameState::PlayerTurn => false,
        };
        if waiting {
            self.game.advance_turn();
        }

        let ok = match self.game.get_state() {
            GameState::PlayerTurn => self.process_command(command),
            GameState::WaitingForNextTurn => true,
        };
        if !ok {
            return false;
        }

        self.anim = self.game.pop_animation();
        true
    }

    /// One render-cycle step of the animation sequencer: a finished
    /// animation is cleared and the next queued one is pulled in;
    /// while an animation is in flight its frame counter advances.
    pub fn redraw(&mut self)
        requires
            old(self).wf(),
        ensures
            final(self).wf(),
            final(self).window_stack == old(self).window_stack,
            final(self).text_input == old(self).text_input,
            final(self).pending_toggle == old(self).pending_toggle,
            same_queues_but_anim(final(self).game, old(self).game),
            final(self).game.charas == old(self).game.charas,
            final(self).game.map == old(self).game.map,
            final(self).game.holder == old(self).game.holder,
            final(self).game.rules == old(self).game.rules,
            final(self).game.state == old(self).game.state,
            final(self).game.player_pos == old(self).game.player_pos,
            final(self).game.player_on_entrance == old(self).game.player_on_entrance,
            final(self).game.floor == old(self).game.floor,
            ({
                match old(self).anim {
                    None => {
                        &&& final(self).anim is None
                        &&& final(self).passed_frame == old(self).passed_frame
                        &&& final(self).game.anim_queue == old(self).game.anim_queue
                    },
                    Some(a) => {
                        if old(self).passed_frame >= a.n_frames {
                            if old(self).game.anim_queue@.len() > 0 {
                                &&& final(self).anim == Some(old(self).game.anim_queue@[0])
                                &&& final(self).game.anim_queue@ == old(
                                    self,
                                ).game.anim_queue@.drop_first()
                                &&& final(self).passed_frame == 1
                            } else {
                                &&& final(self).anim is None
                                &&& final(self).game.anim_queue == old(self).game.anim_queue
                                &&& final(self).passed_frame == 0
                            }
                        } else {
                            &&& final(self).anim == old(self).anim
                            &&& final(self).game.anim_queue == old(self).game.anim_queue
                            &&& final(self).passed_frame == old(self).passed_frame + 1
                        }
                    },
                }
            }),
    {
        let mut is_animation_over = false;
        match &self.anim {
            Some(a) => {
                if self.passed_frame >= a.get_n_frame() {
                    is_animation_over = true;
                    self.passed_frame = 0;
                }
            },
            None => {},
        }

        if is_animation_over {
            self.anim = self.game.pop_animation();
        }

        let has_anim = match &self.anim {
            Some(_) => true,
            None => false,
        };
        if has_anim {
            self.passed_frame = self.passed_frame + 1;
        }
    }
}

/// The log and all queues but the animation queue agree.
pub open spec fn same_queues_but_anim(g1: Game, g2: Game) -> bool {
    &&& g1.log == g2.log
    &&& g1.effect_queue == g2.effect_queue
    &&& g1.sound_queue == g2.sound_queue
}

} // verus!

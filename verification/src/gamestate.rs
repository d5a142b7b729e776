use vstd::prelude::*;
use crate::controls::Action;
use crate::error::GameError;
use crate::gamedata::GameData;
use crate::overlay::ExampleRockBreakGameGS;
use crate::overlay::MineRock;
use crate::overlay::Overlay;
use crate::overlay::PauseOverlay;
use crate::world::has_interactable;
use crate::world::spec_found;
use crate::world::Interactable;
use crate::world::InteractableKind;
use crate::world::Player;
use crate::world::PlayerFacing;

verus! {

/// Names the kind of a base game state, for lifecycle traces and tests.
#[derive(Debug, Clone, Copy, PartialEq, Eq, Structural)]
pub enum StateTag {
    Playing,
    Pause,
}

/// What a base game state asks the orchestrator to do after an update tick:
/// replace the base state, push an overlay (both `SpawnOverlay` and the
/// older `PushTopState` request this), pop the top overlay, or nothing.
#[derive(Debug)]
pub enum GameStateAction {
    ChangeState(GameState),
    SpawnOverlay(Overlay),
    PushTopState(Overlay),
    PopTopState,
    NoOp,
}

/// The movement the player asked for this tick, in whole steps per axis
/// (positive x is right, positive y is down). The platform layer scales
/// this by speed and delta time and applies collisions.
#[derive(Debug, Clone, Copy, PartialEq, Eq, Structural)]
pub struct MoveIntent {
    pub dx: i64,
    pub dy: i64,
}

/// What the base state renders this frame: whether the debug readout and
/// the world tooltips are shown, and whether a pause tint covers the scene.
#[derive(Debug, Clone, Copy, PartialEq, Eq, Structural)]
pub struct StateDraw {
    pub show_debug: bool,
    pub show_tooltips: bool,
    pub pause_shade: bool,
}

/// What interacting with an entity does: a rock opens the mining overlay on
/// itself; an example rock opens the example mini-game.
pub open spec fn spec_interact(i: Interactable) -> GameStateAction {
    match i.kind {
        InteractableKind::Rock => GameStateAction::SpawnOverlay(
            Overlay::MineRock(MineRock { rock_id: i.id, clicks: 0, recently_clicked: false }),
        ),
        InteractableKind::ExampleRock => GameStateAction::PushTopState(
            Overlay::RockBreak(
                ExampleRockBreakGameGS { rock_id: i.id, clicks: 0, recently_clicked: false },
            ),
        ),
    }
}

/// The facing after a step up: up, keeping the horizontal side.
pub open spec fn facing_after_up(f: PlayerFacing) -> PlayerFacing {
    match f {
        PlayerFacing::UpRight => PlayerFacing::UpRight,
        PlayerFacing::UpLeft => PlayerFacing::UpLeft,
        PlayerFacing::DownLeft => PlayerFacing::UpLeft,
        PlayerFacing::DownRight => PlayerFacing::UpRight,
    }
}

/// The facing after a step down: down, keeping the horizontal side.
pub open spec fn facing_after_down(f: PlayerFacing) -> PlayerFacing {
    match f {
        PlayerFacing::UpRight => PlayerFacing::DownRight,
        PlayerFacing::UpLeft => PlayerFacing::DownLeft,
        PlayerFacing::DownLeft => PlayerFacing::DownLeft,
        PlayerFacing::DownRight => PlayerFacing::DownRight,
    }
}

/// The facing after a step left: left, keeping the vertical side.
pub open spec fn facing_after_left(f: PlayerFacing) -> PlayerFacing {
    match f {
        PlayerFacing::UpRight => PlayerFacing::UpLeft,
        PlayerFacing::UpLeft => PlayerFacing::UpLeft,
        PlayerFacing::DownLeft => PlayerFacing::DownLeft,
        PlayerFacing::DownRight => PlayerFacing::DownLeft,
    }
}

/// The facing after a step right: right, keeping the vertical side.
pub open spec fn facing_after_right(f: PlayerFacing) -> PlayerFacing {
    match f {
        PlayerFacing::UpRight => PlayerFacing::UpRight,
        PlayerFacing::UpLeft => PlayerFacing::UpRight,
        PlayerFacing::DownLeft => PlayerFacing::DownRight,
        PlayerFacing::DownRight => PlayerFacing::DownRight,
    }
}

/// The state the playing mode's update folds over its actions: the mode's
/// own flags, the player, the accumulated movement, and the action to hand
/// back if the fold has stopped early.
pub ghost struct PlayingStep {
    pub paused: bool,
    pub debug: bool,
    pub player: Player,
    pub dx: int,
    pub dy: int,
    pub outcome: Option<GameStateAction>,
}

/// One action's effect on the playing mode: movement steers the player and
/// accumulates a step; interacting with a clicked entity in reach hands
/// back that entity's transition; sprint toggles or holds; debug flips the
/// readout; pause marks the mode paused and asks for the pause overlay.
pub open spec fn playing_step(
    st: PlayingStep,
    a: Action,
    clicked: Option<u32>,
    interactables: Seq<Interactable>,
    sprint_toggle: bool,
) -> PlayingStep {
    match a {
        Action::MoveUp => PlayingStep {
            dy: st.dy - 1,
            player: Player { facing: facing_after_up(st.player.facing), ..st.player },
            ..st
        },
        Action::MoveDown => PlayingStep {
            dy: st.dy + 1,
            player: Player { facing: facing_after_down(st.player.facing), ..st.player },
            ..st
        },
        Action::MoveLeft => PlayingStep {
            dx: st.dx - 1,
            player: Player { facing: facing_after_left(st.player.facing), ..st.player },
            ..st
        },
        Action::MoveRight => PlayingStep {
            dx: st.dx + 1,
            player: Player { facing: facing_after_right(st.player.facing), ..st.player },
            ..st
        },
        Action::Interact => match clicked {
            Some(id) => if has_interactable(interactables, id) {
                PlayingStep {
                    outcome: Some(spec_interact(spec_found(interactables, id))),
                    ..st
                }
            } else {
                st
            },
            None => st,
        },
        Action::Sprint => PlayingStep {
            player: Player {
                sprinting: if sprint_toggle {
                    !st.player.sprinting
                } else {
                    true
                },
                ..st.player
            },
            ..st
        },
        Action::Debug => PlayingStep { debug: !st.debug, ..st },
        Action::Pause => PlayingStep {
            paused: true,
            outcome: Some(GameStateAction::SpawnOverlay(Overlay::Pause(PauseOverlay {  }))),
            ..st
        },
        _ => st,
    }
}

/// The fold of `playing_step` over a tick's actions, stopping at the first
/// early outcome.
pub open spec fn playing_run(
    st: PlayingStep,
    actions: Seq<Action>,
    clicked: Option<u32>,
    interactables: Seq<Interactable>,
    sprint_toggle: bool,
) -> PlayingStep
    decreases actions.len(),
{
    if st.outcome is Some || actions.len() == 0 {
        st
    } else {
        playing_run(
            playing_step(st, actions[0], clicked, interactables, sprint_toggle),
            actions.drop_first(),
            clicked,
            interactables,
            sprint_toggle,
        )
    }
}

/// The state the playing mode starts its update tick in: with sprint in
/// hold mode, sprinting is re-armed to off each tick.
pub open spec fn playing_start(gs: PlayingGS, p: Player, sprint_toggle: bool) -> PlayingStep {
    PlayingStep {
        paused: gs.paused,
        debug: gs.debug,
        player: Player {
            sprinting: if sprint_toggle {
                p.sprinting
            } else {
                false
            },
            facing: p.facing,
        },
        dx: 0,
        dy: 0,
        outcome: None,
    }
}

/// The persistent simulation: normal gameplay. `paused` hides transient UI
/// while an overlay sits on top; `debug` shows the diagnostic readout.
#[derive(Debug, Clone, Copy, PartialEq, Eq, Structural)]
pub struct PlayingGS {
    pub paused: bool,
    pub debug: bool,
}

impl PlayingGS {
    pub fn new() -> (r: Result<Box<PlayingGS>, GameError>)
        ensures
            r matches Ok(g) && g.paused == false && g.debug == false,
    {
        Ok(Box::new(Self { paused: false, debug: false }))
    }

    /// One update tick: folds this tick's actions over the mode as
    /// `playing_run` describes, and hands back the requested transition and
    /// the accumulated movement (movement is dropped when a transition cuts
    /// the tick short).
    #[verifier::loop_isolation(false)]
    #[verifier::rlimit(50)]
    pub fn update(
        &mut self,
        actions: &Vec<Action>,
        clicked_interactable: Option<u32>,
        data: &mut GameData,
    ) -> (r: Result<(GameStateAction, MoveIntent), GameError>)
        requires
            actions@.len() < 0x8000_0000_0000_0000,
        ensures
            final(data).control_handler == old(data).control_handler,
            final(data).control_reload_needed == old(data).control_reload_needed,
            final(data).world.interactables@ == old(data).world.interactables@,
            ({
                let fin = playing_run(
                    playing_start(
                        *old(self),
                        old(data).world.player,
                        old(data).control_handler.toggle_sprint,
                    ),
                    actions@,
                    clicked_interactable,
                    old(data).world.interactables@,
                    old(data).control_handler.toggle_sprint,
                );
                &&& final(self).paused == fin.paused
                &&& final(self).debug == fin.debug
                &&& final(data).world.player == fin.player
                &&& match fin.outcome {
                    Some(a) => r == Ok::<(GameStateAction, MoveIntent), GameError>(
                        (a, MoveIntent { dx: 0, dy: 0 }),
                    ),
                    None => (r matches Ok(p) && p.0 is NoOp && p.1.dx as int == fin.dx
                        && p.1.dy as int == fin.dy),
                }
            }),
    {
        let sprinting_toggled = data.control_handler.is_sprint_toggle();
        if !sprinting_toggled {
            data.world.player.sprinting = false;
        }
        let ghost goal = playing_run(
            playing_start(*old(self), old(data).world.player, sprinting_toggled),
            actions@,
            clicked_interactable,
            old(data).world.interactables@,
            sprinting_toggled,
        );
        let mut dx: i64 = 0;
        let mut dy: i64 = 0;
        let mut i: usize = 0;
        proof {
            assert(actions@.skip(0) =~= actions@);
        }
        while i < actions.len()
            invariant
                0 <= i <= actions@.len(),
                -(i as int) <= dx as int <= i as int,
                -(i as int) <= dy as int <= i as int,
                data.control_handler == old(data).control_handler,
                data.control_reload_needed == old(data).control_reload_needed,
                data.world.interactables@ == old(data).world.interactables@,
                goal == playing_run(
                    PlayingStep {
                        paused: self.paused,
                        debug: self.debug,
                        player: data.world.player,
                        dx: dx as int,
                        dy: dy as int,
                        outcome: None,
                    },
                    actions@.skip(i as int),
                    clicked_interactable,
                    old(data).world.interactables@,
                    sprinting_toggled,
                ),
            decreases actions@.len() - i,
        {
            let ghost cur = PlayingStep {
                paused: self.paused,
                debug: self.debug,
                player: data.world.player,
                dx: dx as int,
                dy: dy as int,
                outcome: None,
            };
            let ghost rest = actions@.skip(i as int);
            proof {
                assert(rest[0] == actions@[i as int]);
                assert(rest.drop_first() =~= actions@.skip(i + 1));
            }
            let a = actions[i];
            let outcome = playing_apply(
                &mut self.paused,
                &mut self.debug,
                &mut data.world.player,
                &mut dx,
                &mut dy,
                a,
                clicked_interactable,
                &data.world.interactables,
                sprinting_toggled,
            );
            let ghost stepped = playing_step(
                cur,
                a,
                clicked_interactable,
                old(data).world.interactables@,
                sprinting_toggled,
            );
            match outcome {
                Some(action) => {
                    proof {
                        assert(playing_run(
                            stepped,
                            rest.drop_first(),
                            clicked_interactable,
                            old(data).world.interactables@,
                            sprinting_toggled,
                        ) == stepped);
                        assert(goal == stepped);
                    }
                    return Ok((action, MoveIntent { dx: 0, dy: 0 }));
                },
                None => {},
            }
            i += 1;
        }
        proof {
            assert(actions@.skip(actions@.len() as int) =~= Seq::<Action>::empty());
        }
        Ok((GameStateAction::NoOp, MoveIntent { dx, dy }))
    }

    /// The always-running part of the simulation; nothing needs it yet.
    pub fn persistent_update(&mut self, data: &mut GameData) -> (r: Result<
        GameStateAction,
        GameError,
    >)
        ensures
            *final(self) == *old(self),
            *final(data) == *old(data),
            r matches Ok(a) && a is NoOp,
    {
        Ok(GameStateAction::NoOp)
    }

    /// Called right before this mode stops being current: marks it paused
    /// so the draw pass hides transient UI.
    pub fn pause(&mut self, data: &mut GameData) -> (r: Result<(), GameError>)
        ensures
            *final(data) == *old(data),
            *final(self) == (PlayingGS { paused: true, ..*old(self) }),
            r is Ok,
    {
        self.paused = true;
        Ok(())
    }

    /// Called right after this mode becomes current again: clears the
    /// paused mark and asks for the persisted control bindings to be
    /// re-read (the caller that owns persistence answers the request).
    pub fn restore(&mut self, data: &mut GameData) -> (r: Result<(), GameError>)
        ensures
            *final(self) == (PlayingGS { paused: false, ..*old(self) }),
            *final(data) == (GameData { control_reload_needed: true, ..*old(data) }),
            r is Ok,
    {
        data.control_reload_needed = true;
        self.paused = false;
        Ok(())
    }

    /// What this mode renders: the world, the debug readout when enabled,
    /// and tooltips only while not paused.
    pub fn draw(&self, data: &GameData) -> (r: Result<StateDraw, GameError>)
        ensures
            r == Ok::<StateDraw, GameError>(
                StateDraw {
                    show_debug: self.debug,
                    show_tooltips: !self.paused,
                    pause_shade: false,
                },
            ),
    {
        Ok(StateDraw { show_debug: self.debug, show_tooltips: !self.paused, pause_shade: false })
    }

    pub fn get_name(&self) -> (r: String)
        ensures
            r@ == "Playing"@,
    {
        "Playing".to_owned()
    }
}

/// Applies one action of the playing mode's update tick to its pieces,
/// exactly as `playing_step` describes; the result is the transition that
/// cuts the tick short, if this action requested one.
fn playing_apply(
    paused: &mut bool,
    debug: &mut bool,
    player: &mut Player,
    dx: &mut i64,
    dy: &mut i64,
    a: Action,
    clicked: Option<u32>,
    interactables: &Vec<Interactable>,
    sprint_toggle: bool,
) -> (r: Option<GameStateAction>)
    requires
        i64::MIN < *old(dx) < i64::MAX,
        i64::MIN < *old(dy) < i64::MAX,
    ensures
        ({
            let stepped = playing_step(
                PlayingStep {
                    paused: *old(paused),
                    debug: *old(debug),
                    player: *old(player),
                    dx: *old(dx) as int,
                    dy: *old(dy) as int,
                    outcome: None,
                },
                a,
                clicked,
                interactables@,
                sprint_toggle,
            );
            &&& *final(paused) == stepped.paused
            &&& *final(debug) == stepped.debug
            &&& *final(player) == stepped.player
            &&& *final(dx) as int == stepped.dx
            &&& *final(dy) as int == stepped.dy
            &&& r == stepped.outcome
        }),
{
    match a {
        Action::MoveUp => {
            *dy = *dy - 1;
            player.facing = match player.facing {
                PlayerFacing::UpRight => PlayerFacing::UpRight,
                PlayerFacing::UpLeft => PlayerFacing::UpLeft,
                PlayerFacing::DownLeft => PlayerFacing::UpLeft,
                PlayerFacing::DownRight => PlayerFacing::UpRight,
            };
            None
        },
        Action::MoveDown => {
            *dy = *dy + 1;
            player.facing = match player.facing {
                PlayerFacing::UpRight => PlayerFacing::DownRight,
                PlayerFacing::UpLeft => PlayerFacing::DownLeft,
                PlayerFacing::DownLeft => PlayerFacing::DownLeft,
                PlayerFacing::DownRight => PlayerFacing::DownRight,
            };
            None
        },
        Action::MoveLeft => {
            *dx = *dx - 1;
            player.facing = match player.facing {
                PlayerFacing::UpRight => PlayerFacing::UpLeft,
                PlayerFacing::UpLeft => PlayerFacing::UpLeft,
                PlayerFacing::DownLeft => PlayerFacing::DownLeft,
                PlayerFacing::DownRight => PlayerFacing::DownLeft,
            };
            None
        },
        Action::MoveRight => {
            *dx = *dx + 1;
            player.facing = match player.facing {
                PlayerFacing::UpRight => PlayerFacing::UpRight,
                PlayerFacing::UpLeft => PlayerFacing::UpRight,
                PlayerFacing::DownLeft => PlayerFacing::DownRight,
                PlayerFacing::DownRight => PlayerFacing::DownRight,
            };
            None
        },
        Action::Interact => {
            if let Some(id) = clicked {
                match crate::world::find_interactable_in(interactables, id) {
                    Some(idx) => {
                        proof {
                            crate::world::lemma_first_match_unique(
                                interactables@,
                                id,
                                idx as int,
                                crate::world::spec_first_index(interactables@, id),
                            );
                        }
                        match interactables[idx].interact() {
                            Ok(action) => Some(action),
                            Err(_) => {
                                proof {
                                    assert(false);
                                }
                                None
                            },
                        }
                    },
                    None => None,
                }
            } else {
                None
            }
        },
        Action::Sprint => {
            if sprint_toggle {
                player.sprinting = !player.sprinting;
            } else {
                player.sprinting = true;
            }
            None
        },
        Action::Debug => {
            *debug = !*debug;
            None
        },
        Action::Pause => {
            *paused = true;
            Some(GameStateAction::SpawnOverlay(Overlay::Pause(PauseOverlay::new())))
        },
        _ => None,
    }
}

/// The legacy pause mode, kept from an earlier iteration of the engine: a
/// base state that holds the playing mode it interrupted and hands control
/// back to it on the pause action. The pause overlay is the preferred form.
#[derive(Debug, Clone, Copy, PartialEq, Eq, Structural)]
pub struct PauseGS {
    pub previous_play_state: PlayingGS,
}

impl PauseGS {
    pub fn new(previous_play_state: PlayingGS) -> (r: Self)
        ensures
            r.previous_play_state == previous_play_state,
    {
        Self { previous_play_state }
    }

    /// One update tick: the pause action hands control back to the
    /// interrupted playing mode; everything else is ignored.
    pub fn update(&mut self, actions: &Vec<Action>, data: &mut GameData) -> (r: Result<
        (GameStateAction, MoveIntent),
        GameError,
    >)
        ensures
            *final(self) == *old(self),
            *final(data) == *old(data),
            actions@.contains(Action::Pause) ==> r == Ok::<(GameStateAction, MoveIntent), GameError>(
                (
                    GameStateAction::ChangeState(
                        GameState::Playing(old(self).previous_play_state),
                    ),
                    MoveIntent { dx: 0, dy: 0 },
                ),
            ),
            !actions@.contains(Action::Pause) ==> (r matches Ok(p) && p.0 is NoOp && p.1
                == (MoveIntent { dx: 0, dy: 0 })),
    {
        if crate::overlay::contains_pause_action(actions) {
            Ok(
                (
                    GameStateAction::ChangeState(GameState::Playing(self.previous_play_state)),
                    MoveIntent { dx: 0, dy: 0 },
                ),
            )
        } else {
            Ok((GameStateAction::NoOp, MoveIntent { dx: 0, dy: 0 }))
        }
    }

    pub fn persistent_update(&mut self, data: &mut GameData) -> (r: Result<
        GameStateAction,
        GameError,
    >)
        ensures
            *final(self) == *old(self),
            *final(data) == *old(data),
            r matches Ok(a) && a is NoOp,
    {
        Ok(GameStateAction::NoOp)
    }

    pub fn pause(&mut self, data: &mut GameData) -> (r: Result<(), GameError>)
        ensures
            *final(self) == *old(self),
            *final(data) == *old(data),
            r is Ok,
    {
        Ok(())
    }

    pub fn restore(&mut self, data: &mut GameData) -> (r: Result<(), GameError>)
        ensures
            *final(self) == *old(self),
            *final(data) == *old(data),
            r is Ok,
    {
        Ok(())
    }

    /// What this mode renders: the interrupted scene under a pause tint.
    pub fn draw(&self, data: &GameData) -> (r: Result<StateDraw, GameError>)
        ensures
            r == Ok::<StateDraw, GameError>(
                StateDraw {
                    show_debug: self.previous_play_state.debug,
                    show_tooltips: !self.previous_play_state.paused,
                    pause_shade: true,
                },
            ),
    {
        Ok(
            StateDraw {
                show_debug: self.previous_play_state.debug,
                show_tooltips: !self.previous_play_state.paused,
                pause_shade: true,
            },
        )
    }

    pub fn get_name(&self) -> (r: String)
        ensures
            r@ == "Pause"@,
    {
        "Pause".to_owned()
    }
}

/// The single current base state: exactly one of the closed set of modes is
/// the persistent simulation at any time.
#[derive(Debug, Clone, Copy, PartialEq, Eq, Structural)]
pub enum GameState {
    Playing(PlayingGS),
    Pause(PauseGS),
}

/// The base state with its paused mark set, right before it stops being
/// current.
pub open spec fn spec_state_paused(s: GameState) -> GameState {
    match s {
        GameState::Playing(g) => GameState::Playing(PlayingGS { paused: true, ..g }),
        GameState::Pause(p) => GameState::Pause(p),
    }
}

/// The base state right after it becomes current again.
pub open spec fn spec_state_restored(s: GameState) -> GameState {
    match s {
        GameState::Playing(g) => GameState::Playing(PlayingGS { paused: false, ..g }),
        GameState::Pause(p) => GameState::Pause(p),
    }
}

impl GameState {
    /// Names this state's kind.
    pub open spec fn spec_tag(&self) -> StateTag {
        match self {
            GameState::Playing(_) => StateTag::Playing,
            GameState::Pause(_) => StateTag::Pause,
        }
    }

    /// Names this state's kind.
    #[verifier::when_used_as_spec(spec_tag)]
    pub fn tag(&self) -> (r: StateTag)
        ensures
            r == self.spec_tag(),
    {
        match self {
            GameState::Playing(_) => StateTag::Playing,
            GameState::Pause(_) => StateTag::Pause,
        }
    }

    /// One update tick, dispatched by kind.
    pub fn update(
        &mut self,
        actions: &Vec<Action>,
        clicked_interactable: Option<u32>,
        data: &mut GameData,
    ) -> (r: Result<(GameStateAction, MoveIntent), GameError>)
        requires
            actions@.len() < 0x8000_0000_0000_0000,
        ensures
            final(data).control_handler == old(data).control_handler,
            final(data).control_reload_needed == old(data).control_reload_needed,
            final(data).world.interactables@ == old(data).world.interactables@,
            (*old(self)) is Pause ==> final(data).world.player == old(data).world.player,
            ({
                match *old(self) {
                    GameState::Playing(gs) => {
                        let fin = playing_run(
                            playing_start(
                                gs,
                                old(data).world.player,
                                old(data).control_handler.toggle_sprint,
                            ),
                            actions@,
                            clicked_interactable,
                            old(data).world.interactables@,
                            old(data).control_handler.toggle_sprint,
                        );
                        &&& *final(self) == GameState::Playing(
                            PlayingGS { paused: fin.paused, debug: fin.debug },
                        )
                        &&& final(data).world.player == fin.player
                        &&& match fin.outcome {
                            Some(a) => r == Ok::<(GameStateAction, MoveIntent), GameError>(
                                (a, MoveIntent { dx: 0, dy: 0 }),
                            ),
                            None => (r matches Ok(p) && p.0 is NoOp && p.1.dx as int == fin.dx
                                && p.1.dy as int == fin.dy),
                        }
                    },
                    GameState::Pause(ps) => {
                        &&& *final(self) == *old(self)
                        &&& actions@.contains(Action::Pause) ==> r == Ok::<
                            (GameStateAction, MoveIntent),
                            GameError,
                        >(
                            (
                                GameStateAction::ChangeState(
                                    GameState::Playing(ps.previous_play_state),
                                ),
                                MoveIntent { dx: 0, dy: 0 },
                            ),
                        )
                        &&& !actions@.contains(Action::Pause) ==> (r matches Ok(p) && p.0 is NoOp
                            && p.1 == (MoveIntent { dx: 0, dy: 0 }))
                    },
                }
            }),
    {
        match self {
            GameState::Playing(g) => g.update(actions, clicked_interactable, data),
            GameState::Pause(p) => p.update(actions, data),
        }
    }

    /// The always-running update tick, dispatched by kind; no current mode
    /// uses it, so it never changes anything and asks for nothing.
    pub fn persistent_update(&mut self, data: &mut GameData) -> (r: Result<
        GameStateAction,
        GameError,
    >)
        ensures
            *final(self) == *old(self),
            *final(data) == *old(data),
            r matches Ok(a) && a is NoOp,
    {
        match self {
            GameState::Playing(g) => g.persistent_update(data),
            GameState::Pause(p) => p.persistent_update(data),
        }
    }

    /// Called right before this state stops being current.
    pub fn pause(&mut self, data: &mut GameData) -> (r: Result<(), GameError>)
        ensures
            *final(data) == *old(data),
            *final(self) == spec_state_paused(*old(self)),
            r is Ok,
    {
        match self {
            GameState::Playing(g) => g.pause(data),
            GameState::Pause(p) => p.pause(data),
        }
    }

    /// Called right after this state becomes current (at startup, after a
    /// swap, or after the last overlay above it was popped).
    pub fn restore(&mut self, data: &mut GameData) -> (r: Result<(), GameError>)
        ensures
            *final(self) == spec_state_restored(*old(self)),
            (*old(self)) is Playing ==> *final(data) == (GameData {
                control_reload_needed: true,
                ..*old(data)
            }),
            (*old(self)) is Pause ==> *final(data) == *old(data),
            r is Ok,
    {
        match self {
            GameState::Playing(g) => g.restore(data),
            GameState::Pause(p) => p.restore(data),
        }
    }

    /// What this state renders this frame.
    pub fn draw(&self, data: &GameData) -> (r: Result<StateDraw, GameError>)
        ensures
            r == Ok::<StateDraw, GameError>(self.spec_draw()),
    {
        match self {
            GameState::Playing(g) => g.draw(data),
            GameState::Pause(p) => p.draw(data),
        }
    }

    /// What this state's draw pass shows.
    pub open spec fn spec_draw(&self) -> StateDraw {
        match self {
            GameState::Playing(g) => StateDraw {
                show_debug: g.debug,
                show_tooltips: !g.paused,
                pause_shade: false,
            },
            GameState::Pause(p) => StateDraw {
                show_debug: p.previous_play_state.debug,
                show_tooltips: !p.previous_play_state.paused,
                pause_shade: true,
            },
        }
    }

    /// The state's display name.
    pub fn get_name(&self) -> (r: String)
        ensures
            self is Playing ==> r@ == "Playing"@,
            self is Pause ==> r@ == "Pause"@,
    {
        match self {
            GameState::Playing(g) => g.get_name(),
            GameState::Pause(p) => p.get_name(),
        }
    }
}

} // verus!

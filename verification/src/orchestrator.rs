use vstd::prelude::*;
use crate::controls::Action;
use crate::error::GameError;
use crate::gamedata::GameData;
use crate::gamestate::spec_state_paused;
use crate::gamestate::spec_state_restored;
use crate::gamestate::GameState;
use crate::gamestate::GameStateAction;
use crate::gamestate::MoveIntent;
use crate::gamestate::StateDraw;
use crate::gamestate::StateTag;
use crate::overlay::spec_draw_from;
use crate::overlay::spec_missing_rock_msg;
use crate::overlay::respawned;
use crate::overlay::DrawCmd;
use crate::overlay::Overlay;
use crate::overlay::OverlayAction;
use crate::overlay::OverlayManager;
use crate::overlay::OverlayTag;
use crate::overlay::OvOutcome;
use crate::world::Interactable;

verus! {

/// One lifecycle call the orchestrator made during a tick, in order.
#[derive(Debug, Clone, Copy, PartialEq, Eq, Structural)]
pub enum LifeEvent {
    /// The base state's always-running update ran.
    PersistentUpdate(StateTag),
    /// The base state's plain update ran (only with no overlay stacked).
    Update(StateTag),
    /// The top overlay's update ran.
    OverlayUpdate(OverlayTag),
    /// The base state was told it stops being current.
    Pause(StateTag),
    /// The base state was told it is current again.
    Restore(StateTag),
    /// A freshly pushed overlay ran its one-time setup.
    OverlayInit(OverlayTag),
    /// The top overlay was removed.
    OverlayPop(OverlayTag),
}

/// One tick's worth of outside input, gathered by the platform layer: the
/// semantic actions this tick, which interactable (if any) the pointer is
/// on within interaction reach, and whether the pointer sits on the mined
/// rock's two on-screen sizes.
#[derive(Debug)]
pub struct TickInput {
    pub actions: Vec<Action>,
    pub clicked_interactable: Option<u32>,
    pub mouse_in_rock: bool,
    pub mouse_in_rock_enlarged: bool,
}

/// What one tick decided: the lifecycle calls it made in order, the
/// movement the player asked for, and the draw plan (the base state's scene
/// if it is visible, then the overlay scenes bottom-to-top).
#[derive(Debug)]
pub struct TickOutcome {
    pub events: Vec<LifeEvent>,
    pub movement: MoveIntent,
    pub base_draw: Option<StateDraw>,
    pub overlay_draws: Vec<DrawCmd>,
}

/// Drives one base state and one overlay stack, one tick at a time: runs
/// the persistent update, routes the tick to the top overlay or to the base
/// state, applies the returned transition with the pause/restore bracket,
/// and computes the draw plan.
#[derive(Debug)]
pub struct Orchestrator {
    pub base: GameState,
    pub manager: OverlayManager,
}

/// Every overlay the draw pass would touch can draw against `w1`.
pub open spec fn draw_ready(stack1: Seq<Overlay>, w1: Seq<Interactable>) -> bool {
    forall|k: int|
        spec_draw_from(stack1) <= k < stack1.len() ==> (#[trigger] stack1[k]).spec_draw_ok(w1)
}

/// The draw plan in `out` is exactly what the state left behind calls for:
/// the base state is drawn if and only if every stacked overlay lets the
/// layers beneath it show, and the overlay scenes run from the topmost
/// occluding overlay upward, bottom-to-top.
pub open spec fn draw_plan_matches(
    out: TickOutcome,
    base1: GameState,
    stack1: Seq<Overlay>,
) -> bool {
    &&& (out.base_draw is Some <==> (forall|k: int|
        0 <= k < stack1.len() ==> (#[trigger] stack1[k]).spec_draw_below()))
    &&& (out.base_draw is Some ==> out.base_draw == Some(base1.spec_draw()))
    &&& out.overlay_draws@.len() == stack1.len() - spec_draw_from(stack1)
    &&& forall|k: int|
        0 <= k < out.overlay_draws@.len() ==> out.overlay_draws@[k] == (#[trigger] stack1[
            spec_draw_from(stack1) + k
        ]).spec_draw_cmd()
}

/// The error the draw pass stops with: the first overlay in drawing order
/// whose scene cannot be prepared.
pub open spec fn draw_fail(e: GameError, stack1: Seq<Overlay>, w1: Seq<Interactable>) -> bool {
    exists|j: int|
        spec_draw_from(stack1) <= j < stack1.len() && !(#[trigger] stack1[j]).spec_draw_ok(w1) && (
        forall|k: int| spec_draw_from(stack1) <= k < j ==> (#[trigger] stack1[k]).spec_draw_ok(w1))
            && (e matches GameError::Draw(m) && m@ == spec_missing_rock_msg(
            stack1[j].spec_rock_id().unwrap(),
        ))
}

/// How a tick that reached its draw pass ends: when every touched overlay
/// can draw, the tick succeeds with exactly `events1`, `movement` and the
/// draw plan of the final state; otherwise it fails with the first drawing
/// error.
pub open spec fn tick_output(
    r: Result<TickOutcome, GameError>,
    events1: Seq<LifeEvent>,
    movement: MoveIntent,
    base1: GameState,
    stack1: Seq<Overlay>,
    w1: Seq<Interactable>,
) -> bool {
    if draw_ready(stack1, w1) {
        r matches Ok(out) && out.events@ == events1 && out.movement == movement
            && draw_plan_matches(out, base1, stack1)
    } else {
        r matches Err(e) && draw_fail(e, stack1, w1)
    }
}

impl Orchestrator {
    pub fn new(base: GameState) -> (r: Self)
        ensures
            r.base == base,
            r.manager.overlays@ =~= Seq::<Overlay>::empty(),
    {
        Orchestrator { base, manager: OverlayManager::new() }
    }

    /// Applies one transition request from the base state, with the
    /// lifecycle bracket the transitions demand. For a `ChangeState` from
    /// S1 to S2 the calls made are exactly S1's pause and then S2's
    /// restore, in that order with nothing between them. A push request
    /// pauses the base state and then pushes (the push stays atomic: a
    /// failed setup changes no stack). A pop request pops the top overlay,
    /// if any.
    pub fn apply_action(
        &mut self,
        action: GameStateAction,
        data: &mut GameData,
        events: &mut Vec<LifeEvent>,
    ) -> (r: Result<(), GameError>)
        ensures
            final(data).control_handler == old(data).control_handler,
            final(data).world.player == old(data).world.player,
            final(data).world.interactables@ == old(data).world.interactables@,
            ({
                let base0 = old(self).base;
                let s0 = old(self).manager.overlays@;
                let w0 = old(data).world.interactables@;
                match action {
                    GameStateAction::NoOp => r is Ok && *final(self) == *old(self) && *final(data)
                        == *old(data) && final(events)@ == old(events)@,
                    GameStateAction::ChangeState(new) => r is Ok && final(self).base
                        == spec_state_restored(new) && final(self).manager.overlays@ == s0 && (
                    new is Playing ==> final(data).control_reload_needed == true) && (
                    new is Pause ==> final(data).control_reload_needed == old(data).control_reload_needed) && final(events)@ == old(events)@ + seq![
                        LifeEvent::Pause(base0.spec_tag()),
                        LifeEvent::Restore(new.spec_tag()),
                    ],
                    GameStateAction::SpawnOverlay(o) => final(self).base == spec_state_paused(
                        base0,
                    ) && final(data).control_reload_needed == old(data).control_reload_needed && (
                    o.spec_init_ok(w0) ==> r is Ok && final(self).manager.overlays@ == s0.push(
                        o.spec_inited(w0),
                    ) && final(events)@ == old(events)@ + seq![
                        LifeEvent::Pause(base0.spec_tag()),
                        LifeEvent::OverlayInit(o.spec_tag()),
                    ]) && (!o.spec_init_ok(w0) ==> (r matches Err(e) && e
                        matches GameError::Initialization(m) && m@ == spec_missing_rock_msg(
                        o.spec_rock_id().unwrap(),
                    )) && final(self).manager.overlays@ == s0 && final(events)@ == old(events)@
                        + seq![LifeEvent::Pause(base0.spec_tag())]),
                    GameStateAction::PushTopState(o) => final(self).base == spec_state_paused(
                        base0,
                    ) && final(data).control_reload_needed == old(data).control_reload_needed && (
                    o.spec_init_ok(w0) ==> r is Ok && final(self).manager.overlays@ == s0.push(
                        o.spec_inited(w0),
                    ) && final(events)@ == old(events)@ + seq![
                        LifeEvent::Pause(base0.spec_tag()),
                        LifeEvent::OverlayInit(o.spec_tag()),
                    ]) && (!o.spec_init_ok(w0) ==> (r matches Err(e) && e
                        matches GameError::Initialization(m) && m@ == spec_missing_rock_msg(
                        o.spec_rock_id().unwrap(),
                    )) && final(self).manager.overlays@ == s0 && final(events)@ == old(events)@
                        + seq![LifeEvent::Pause(base0.spec_tag())]),
                    GameStateAction::PopTopState => r is Ok && final(self).base == base0
                        && *final(data) == *old(data) && (s0.len() > 0 ==> final(self).manager.overlays@
                        == s0.drop_last() && final(events)@ == old(events)@ + seq![
                        LifeEvent::OverlayPop(s0.last().spec_tag()),
                    ]) && (s0.len() == 0 ==> final(self).manager.overlays@ == s0 && final(events)@
                        == old(events)@),
                }
            }),
    {
        match action {
            GameStateAction::NoOp => Ok(()),
            GameStateAction::ChangeState(new_state) => {
                let old_tag = self.base.tag();
                match self.base.pause(data) {
                    Ok(_) => {},
                    Err(e) => {
                        proof {
                            assert(false);
                        }
                        return Err(e);
                    },
                }
                events.push(LifeEvent::Pause(old_tag));
                self.base = new_state;
                match self.base.restore(data) {
                    Ok(_) => {},
                    Err(e) => {
                        proof {
                            assert(false);
                        }
                        return Err(e);
                    },
                }
                events.push(LifeEvent::Restore(self.base.tag()));
                proof {
                    assert(events@ =~= old(events)@ + seq![
                        LifeEvent::Pause(old(self).base.spec_tag()),
                        LifeEvent::Restore(self.base.spec_tag()),
                    ]);
                }
                Ok(())
            },
            GameStateAction::SpawnOverlay(o) | GameStateAction::PushTopState(o) => {
                let old_tag = self.base.tag();
                match self.base.pause(data) {
                    Ok(_) => {},
                    Err(e) => {
                        proof {
                            assert(false);
                        }
                        return Err(e);
                    },
                }
                events.push(LifeEvent::Pause(old_tag));
                let overlay_tag = o.tag();
                match self.manager.push(o, data) {
                    Ok(_) => {
                        events.push(LifeEvent::OverlayInit(overlay_tag));
                        proof {
                            assert(events@ =~= old(events)@ + seq![
                                LifeEvent::Pause(old(self).base.spec_tag()),
                                LifeEvent::OverlayInit(overlay_tag),
                            ]);
                        }
                        Ok(())
                    },
                    Err(e) => {
                        proof {
                            assert(events@ =~= old(events)@ + seq![
                                LifeEvent::Pause(old(self).base.spec_tag()),
                            ]);
                        }
                        Err(e)
                    },
                }
            },
            GameStateAction::PopTopState => {
                let top_tag = match self.manager.get_top() {
                    Some(o) => Some(o.tag()),
                    None => None,
                };
                self.manager.pop();
                match top_tag {
                    Some(t) => {
                        events.push(LifeEvent::OverlayPop(t));
                        proof {
                            assert(events@ =~= old(events)@ + seq![LifeEvent::OverlayPop(t)]);
                        }
                    },
                    None => {},
                }
                Ok(())
            },
        }
    }

    /// The whole update half of a tick when overlays are stacked: the base
    /// state's persistent update runs first (its transition, always a
    /// no-op today, is applied), then the tick goes to the top overlay and
    /// its answer is applied: pop on exit (restoring the base state when
    /// the stack empties), push on spawn, nothing otherwise. The base
    /// state's plain update is never called.
    #[verifier::rlimit(100)]
    #[verifier::spinoff_prover]
    fn overlay_phase(&mut self, input: &TickInput, data: &mut GameData) -> (r: Result<
        Vec<LifeEvent>,
        GameError,
    >)
        requires
            old(self).manager.overlays@.len() > 0,
            old(self).manager.overlays@.last().clicks_ok(),
        ensures
            final(data).control_handler == old(data).control_handler,
            r matches Ok(ev) ==> ev@.len() >= 2 && ev@[0] == LifeEvent::PersistentUpdate(
                old(self).base.spec_tag(),
            ) && (forall|k: int| 0 <= k < ev@.len() ==> !((#[trigger] ev@[k]) is Update)),
            ({
                let base0 = old(self).base;
                let s0 = old(self).manager.overlays@;
                let w0 = old(data).world.interactables@;
                let pu = seq![LifeEvent::PersistentUpdate(base0.spec_tag())];

                    let top = s0.last();
                    let st = top.spec_update(
                        input.actions@,
                        input.mouse_in_rock,
                        input.mouse_in_rock_enlarged,
                        w0,
                    );
                    match st.outcome {
                        OvOutcome::NoOp => final(self).base == base0
                            && final(self).manager.overlays@ == s0.drop_last().push(st.ov)
                            && final(data).world.interactables@ == st.interactables
                            && final(data).world.player == old(data).world.player
                            && final(data).control_reload_needed == old(data).control_reload_needed
                            && (r matches Ok(ev) && ev@ == pu + seq![LifeEvent::OverlayUpdate(top.spec_tag())]),
                        OvOutcome::Exit => final(self).manager.overlays@ == s0.drop_last()
                            && final(data).world.interactables@ == st.interactables
                            && final(data).world.player == old(data).world.player && (s0.len() > 1
                            ==> final(self).base == base0 && final(data).control_reload_needed
                            == old(data).control_reload_needed && (r matches Ok(ev) && ev@ == pu + seq![
                                LifeEvent::OverlayUpdate(top.spec_tag()),
                                LifeEvent::OverlayPop(st.ov.spec_tag()),
                            ])) && (s0.len() == 1 ==> final(self).base == spec_state_restored(base0)
                            && (base0 is Playing ==> final(data).control_reload_needed == true) && (
                        base0 is Pause ==> final(data).control_reload_needed == old(data).control_reload_needed) && (r matches Ok(ev) && ev@ == pu + seq![
                                LifeEvent::OverlayUpdate(top.spec_tag()),
                                LifeEvent::OverlayPop(st.ov.spec_tag()),
                                LifeEvent::Restore(base0.spec_tag()),
                            ])),
                        OvOutcome::ExitBroken => final(self).manager.overlays@ == s0.drop_last()
                            && respawned(
                            st.interactables,
                            final(data).world.interactables@,
                            top.spec_rock_id().unwrap(),
                        ) && final(data).world.player == old(data).world.player && (s0.len() > 1
                            ==> final(self).base == base0 && final(data).control_reload_needed
                            == old(data).control_reload_needed && (r matches Ok(ev) && ev@ == pu + seq![
                                LifeEvent::OverlayUpdate(top.spec_tag()),
                                LifeEvent::OverlayPop(st.ov.spec_tag()),
                            ])) && (s0.len() == 1 ==> final(self).base == spec_state_restored(base0)
                            && (base0 is Playing ==> final(data).control_reload_needed == true) && (
                        base0 is Pause ==> final(data).control_reload_needed == old(data).control_reload_needed) && (r matches Ok(ev) && ev@ == pu + seq![
                                LifeEvent::OverlayUpdate(top.spec_tag()),
                                LifeEvent::OverlayPop(st.ov.spec_tag()),
                                LifeEvent::Restore(base0.spec_tag()),
                            ])),
                        OvOutcome::MissingRock => (r matches Err(e) && e
                            matches GameError::Update(m) && m@ == spec_missing_rock_msg(
                            top.spec_rock_id().unwrap(),
                        )),
                    }
            }),
    {
        let mut events: Vec<LifeEvent> = Vec::new();
        events.push(LifeEvent::PersistentUpdate(self.base.tag()));
        proof {
            assert(events@ =~= seq![LifeEvent::PersistentUpdate(old(self).base.spec_tag())]);
        }
        let pa = match self.base.persistent_update(data) {
            Ok(a) => a,
            Err(e) => {
                proof {
                    assert(false);
                }
                return Err(e);
            },
        };
        match self.apply_action(pa, data, &mut events) {
            Ok(_) => {},
            Err(e) => {
                proof {
                    assert(false);
                }
                return Err(e);
            },
        }
        let ghost pu = events@;
        let top_tag = match self.manager.get_top() {
            Some(o) => o.tag(),
            None => {
                proof {
                    assert(false);
                }
                OverlayTag::Pause
            },
        };
        let res = self.manager.update(
            &input.actions,
            input.mouse_in_rock,
            input.mouse_in_rock_enlarged,
            data,
        );
        events.push(LifeEvent::OverlayUpdate(top_tag));
        match res {
            None => {
                proof {
                    assert(false);
                }
                Ok(events)
            },
            Some(Ok(OverlayAction::Exit)) => {
                let popped_tag = match self.manager.get_top() {
                    Some(o) => o.tag(),
                    None => {
                        proof {
                            assert(false);
                        }
                        OverlayTag::Pause
                    },
                };
                self.manager.pop();
                events.push(LifeEvent::OverlayPop(popped_tag));
                if self.manager.len() == 0 {
                    let base_tag = self.base.tag();
                    match self.base.restore(data) {
                        Ok(_) => {},
                        Err(e) => {
                            proof {
                                assert(false);
                            }
                            return Err(e);
                        },
                    }
                    events.push(LifeEvent::Restore(base_tag));
                    proof {
                        assert(events@ =~= pu + seq![
                            LifeEvent::OverlayUpdate(top_tag),
                            LifeEvent::OverlayPop(popped_tag),
                            LifeEvent::Restore(base_tag),
                        ]);
                    }
                } else {
                    proof {
                        assert(events@ =~= pu + seq![
                            LifeEvent::OverlayUpdate(top_tag),
                            LifeEvent::OverlayPop(popped_tag),
                        ]);
                    }
                }
                Ok(events)
            },
            Some(Ok(OverlayAction::SpawnOverlay(o))) => {
                match self.manager.push(o, data) {
                    Ok(_) => Ok(events),
                    Err(e) => Err(e),
                }
            },
            Some(Ok(OverlayAction::NoOp)) => {
                proof {
                    assert(events@ =~= pu + seq![LifeEvent::OverlayUpdate(top_tag)]);
                }
                Ok(events)
            },
            Some(Err(e)) => Err(e),
        }
    }

    /// The whole update half of a tick with no overlay stacked: the base
    /// state's persistent update runs first (its transition, always a
    /// no-op today, is applied), then the base state's plain update runs
    /// and the transition it asked for is applied; hands back the
    /// lifecycle calls made and the movement the player requested.
    #[verifier::rlimit(100)]
    #[verifier::spinoff_prover]
    fn base_phase(&mut self, input: &TickInput, data: &mut GameData) -> (r: Result<
        (Vec<LifeEvent>, MoveIntent),
        GameError,
    >)
        requires
            input.actions@.len() < 0x8000_0000_0000_0000,
            old(self).manager.overlays@.len() == 0,
        ensures
            final(data).control_handler == old(data).control_handler,
            final(data).world.interactables@ == old(data).world.interactables@,
            r matches Ok(p) ==> p.0@.len() >= 2 && p.0@[0] == LifeEvent::PersistentUpdate(
                old(self).base.spec_tag(),
            ),
            ({
                let base0 = old(self).base;
                let s0 = old(self).manager.overlays@;
                let w0 = old(data).world.interactables@;
                let pu = seq![LifeEvent::PersistentUpdate(base0.spec_tag())];
                let zero = MoveIntent { dx: 0, dy: 0 };
                let upd = seq![LifeEvent::Update(base0.spec_tag())];

                    let upd = seq![LifeEvent::Update(base0.spec_tag())];
                    match base0 {
                        GameState::Playing(gs) => {
                            let fin = crate::gamestate::playing_run(
                                crate::gamestate::playing_start(
                                    gs,
                                    old(data).world.player,
                                    old(data).control_handler.toggle_sprint,
                                ),
                                input.actions@,
                                input.clicked_interactable,
                                w0,
                                old(data).control_handler.toggle_sprint,
                            );
                            let base1 = GameState::Playing(
                                crate::gamestate::PlayingGS {
                                    paused: fin.paused,
                                    debug: fin.debug,
                                },
                            );
                            &&& final(data).world.interactables@ == w0
                            &&& final(data).world.player == fin.player
                            &&& match fin.outcome {
                                None => final(self).base == base1 && final(self).manager.overlays@
                                    == s0 && final(data).control_reload_needed == old(data).control_reload_needed && (r matches Ok(p) && p.0@ == pu + upd && p.1 == MoveIntent { dx: fin.dx as i64, dy: fin.dy as i64 }),
                                Some(a) => match a {
                                    GameStateAction::NoOp => final(self).base == base1 && final(self).manager.overlays@ == s0 && final(data).control_reload_needed
                                        == old(data).control_reload_needed && (r matches Ok(p) && p.0@ == pu + upd && p.1 == zero),
                                    GameStateAction::ChangeState(new) => final(self).base
                                        == spec_state_restored(new) && final(self).manager.overlays@
                                        == s0 && (new is Playing ==> final(data).control_reload_needed == true) && (new is Pause ==> final(data).control_reload_needed == old(data).control_reload_needed)
                                        && (r matches Ok(p) && p.0@ == pu + upd + seq![
                                            LifeEvent::Pause(StateTag::Playing),
                                            LifeEvent::Restore(new.spec_tag()),
                                        ] && p.1 == zero),
                                    GameStateAction::SpawnOverlay(o) => final(self).base
                                        == spec_state_paused(base1) && final(data).control_reload_needed == old(data).control_reload_needed && (
                                    o.spec_init_ok(w0) ==> final(self).manager.overlays@ == s0.push(
                                        o.spec_inited(w0),
                                    ) && (r matches Ok(p) && p.0@ == pu + upd + seq![
                                            LifeEvent::Pause(StateTag::Playing),
                                            LifeEvent::OverlayInit(o.spec_tag()),
                                        ] && p.1 == zero)) && (!o.spec_init_ok(w0) ==> (r matches Err(e) && e
                                        matches GameError::Initialization(m) && m@
                                        == spec_missing_rock_msg(o.spec_rock_id().unwrap()))
                                        && final(self).manager.overlays@ == s0),
                                    GameStateAction::PushTopState(o) => final(self).base
                                        == spec_state_paused(base1) && final(data).control_reload_needed == old(data).control_reload_needed && (
                                    o.spec_init_ok(w0) ==> final(self).manager.overlays@ == s0.push(
                                        o.spec_inited(w0),
                                    ) && (r matches Ok(p) && p.0@ == pu + upd + seq![
                                            LifeEvent::Pause(StateTag::Playing),
                                            LifeEvent::OverlayInit(o.spec_tag()),
                                        ] && p.1 == zero)) && (!o.spec_init_ok(w0) ==> (r matches Err(e) && e
                                        matches GameError::Initialization(m) && m@
                                        == spec_missing_rock_msg(o.spec_rock_id().unwrap()))
                                        && final(self).manager.overlays@ == s0),
                                    GameStateAction::PopTopState => final(self).base == base1
                                        && final(self).manager.overlays@ == s0 && final(data).control_reload_needed == old(data).control_reload_needed
                                        && (r matches Ok(p) && p.0@ == pu + upd && p.1 == zero),
                                },
                            }
                        },
                        GameState::Pause(ps) => {
                            &&& final(data).world.interactables@ == w0
                            &&& final(data).world.player == old(data).world.player
                            &&& input.actions@.contains(Action::Pause) ==> final(self).base
                                == GameState::Playing(
                                crate::gamestate::PlayingGS {
                                    paused: false,
                                    debug: ps.previous_play_state.debug,
                                },
                            ) && final(self).manager.overlays@ == s0 && final(data).control_reload_needed == true && (r matches Ok(p) && p.0@ == pu + upd + seq![
                                    LifeEvent::Pause(StateTag::Pause),
                                    LifeEvent::Restore(StateTag::Playing),
                                ] && p.1 == zero)
                            &&& !input.actions@.contains(Action::Pause) ==> final(self).base
                                == base0 && final(self).manager.overlays@ == s0 && final(data).control_reload_needed == old(data).control_reload_needed
                                && (r matches Ok(p) && p.0@ == pu + upd && p.1 == zero)
                        },
                    }
            }),
    {
        let mut events: Vec<LifeEvent> = Vec::new();
        events.push(LifeEvent::PersistentUpdate(self.base.tag()));
        proof {
            assert(events@ =~= seq![LifeEvent::PersistentUpdate(old(self).base.spec_tag())]);
        }
        let pa = match self.base.persistent_update(data) {
            Ok(a) => a,
            Err(e) => {
                proof {
                    assert(false);
                }
                return Err(e);
            },
        };
        match self.apply_action(pa, data, &mut events) {
            Ok(_) => {},
            Err(e) => {
                proof {
                    assert(false);
                }
                return Err(e);
            },
        }
        let base_tag = self.base.tag();
        let res = self.base.update(&input.actions, input.clicked_interactable, data);
        events.push(LifeEvent::Update(base_tag));
        match res {
            Ok((action, movement)) => {
                match self.apply_action(action, data, &mut events) {
                    Ok(_) => Ok((events, movement)),
                    Err(e) => Err(e),
                }
            },
            Err(e) => {
                proof {
                    assert(false);
                }
                Err(e)
            },
        }
    }

    /// Everything in a tick before the draw pass: the persistent update,
    /// the routing of the tick, and the application of the returned
    /// transition; hands back the lifecycle calls made and the movement.
    fn route_phase(&mut self, input: &TickInput, data: &mut GameData) -> (r: Result<
        (Vec<LifeEvent>, MoveIntent),
        GameError,
    >)
        requires
            input.actions@.len() < 0x8000_0000_0000_0000,
            old(self).manager.overlays@.len() > 0 ==> old(
                self,
            ).manager.overlays@.last().clicks_ok(),
        ensures
            final(data).control_handler == old(data).control_handler,
            r matches Ok(p) ==> p.0@.len() >= 2 && p.0@[0] == LifeEvent::PersistentUpdate(
                old(self).base.spec_tag(),
            ),
            old(self).manager.overlays@.len() > 0 ==> (r matches Ok(p) ==> forall|k: int|
                0 <= k < p.0@.len() ==> !((#[trigger] p.0@[k]) is Update)),
            ({
                let base0 = old(self).base;
                let s0 = old(self).manager.overlays@;
                let w0 = old(data).world.interactables@;
                let pu = seq![LifeEvent::PersistentUpdate(base0.spec_tag())];
                let zero = MoveIntent { dx: 0, dy: 0 };
                if s0.len() > 0 {
                    let top = s0.last();
                    let st = top.spec_update(
                        input.actions@,
                        input.mouse_in_rock,
                        input.mouse_in_rock_enlarged,
                        w0,
                    );
                    match st.outcome {
                        OvOutcome::NoOp => final(self).base == base0
                            && final(self).manager.overlays@ == s0.drop_last().push(st.ov)
                            && final(data).world.interactables@ == st.interactables
                            && final(data).world.player == old(data).world.player
                            && final(data).control_reload_needed == old(data).control_reload_needed
                            && (r matches Ok(p) && p.0@ == pu + seq![LifeEvent::OverlayUpdate(top.spec_tag())] && p.1 == zero),
                        OvOutcome::Exit => final(self).manager.overlays@ == s0.drop_last()
                            && final(data).world.interactables@ == st.interactables
                            && final(data).world.player == old(data).world.player && (s0.len() > 1
                            ==> final(self).base == base0 && final(data).control_reload_needed
                            == old(data).control_reload_needed && (r matches Ok(p) && p.0@ == pu + seq![
                                LifeEvent::OverlayUpdate(top.spec_tag()),
                                LifeEvent::OverlayPop(st.ov.spec_tag()),
                            ] && p.1 == zero)) && (s0.len() == 1 ==> final(self).base == spec_state_restored(base0)
                            && (base0 is Playing ==> final(data).control_reload_needed == true) && (
                        base0 is Pause ==> final(data).control_reload_needed == old(data).control_reload_needed) && (r matches Ok(p) && p.0@ == pu + seq![
                                LifeEvent::OverlayUpdate(top.spec_tag()),
                                LifeEvent::OverlayPop(st.ov.spec_tag()),
                                LifeEvent::Restore(base0.spec_tag()),
                            ] && p.1 == zero)),
                        OvOutcome::ExitBroken => final(self).manager.overlays@ == s0.drop_last()
                            && respawned(
                            st.interactables,
                            final(data).world.interactables@,
                            top.spec_rock_id().unwrap(),
                        ) && final(data).world.player == old(data).world.player && (s0.len() > 1
                            ==> final(self).base == base0 && final(data).control_reload_needed
                            == old(data).control_reload_needed && (r matches Ok(p) && p.0@ == pu + seq![
                                LifeEvent::OverlayUpdate(top.spec_tag()),
                                LifeEvent::OverlayPop(st.ov.spec_tag()),
                            ] && p.1 == zero)) && (s0.len() == 1 ==> final(self).base == spec_state_restored(base0)
                            && (base0 is Playing ==> final(data).control_reload_needed == true) && (
                        base0 is Pause ==> final(data).control_reload_needed == old(data).control_reload_needed) && (r matches Ok(p) && p.0@ == pu + seq![
                                LifeEvent::OverlayUpdate(top.spec_tag()),
                                LifeEvent::OverlayPop(st.ov.spec_tag()),
                                LifeEvent::Restore(base0.spec_tag()),
                            ] && p.1 == zero)),
                        OvOutcome::MissingRock => (r matches Err(e) && e
                            matches GameError::Update(m) && m@ == spec_missing_rock_msg(
                            top.spec_rock_id().unwrap(),
                        )),
                    }
                } else {
                    let upd = seq![LifeEvent::Update(base0.spec_tag())];
                    match base0 {
                        GameState::Playing(gs) => {
                            let fin = crate::gamestate::playing_run(
                                crate::gamestate::playing_start(
                                    gs,
                                    old(data).world.player,
                                    old(data).control_handler.toggle_sprint,
                                ),
                                input.actions@,
                                input.clicked_interactable,
                                w0,
                                old(data).control_handler.toggle_sprint,
                            );
                            let base1 = GameState::Playing(
                                crate::gamestate::PlayingGS {
                                    paused: fin.paused,
                                    debug: fin.debug,
                                },
                            );
                            &&& final(data).world.interactables@ == w0
                            &&& final(data).world.player == fin.player
                            &&& match fin.outcome {
                                None => final(self).base == base1 && final(self).manager.overlays@
                                    == s0 && final(data).control_reload_needed == old(data).control_reload_needed && (r matches Ok(p) && p.0@ == pu + upd && p.1 == MoveIntent { dx: fin.dx as i64, dy: fin.dy as i64 }),
                                Some(a) => match a {
                                    GameStateAction::NoOp => final(self).base == base1 && final(self).manager.overlays@ == s0 && final(data).control_reload_needed
                                        == old(data).control_reload_needed && (r matches Ok(p) && p.0@ == pu + upd && p.1 == zero),
                                    GameStateAction::ChangeState(new) => final(self).base
                                        == spec_state_restored(new) && final(self).manager.overlays@
                                        == s0 && (new is Playing ==> final(data).control_reload_needed == true) && (new is Pause ==> final(data).control_reload_needed == old(data).control_reload_needed)
                                        && (r matches Ok(p) && p.0@ == pu + upd + seq![
                                            LifeEvent::Pause(StateTag::Playing),
                                            LifeEvent::Restore(new.spec_tag()),
                                        ] && p.1 == zero),
                                    GameStateAction::SpawnOverlay(o) => final(self).base
                                        == spec_state_paused(base1) && final(data).control_reload_needed == old(data).control_reload_needed && (
                                    o.spec_init_ok(w0) ==> final(self).manager.overlays@ == s0.push(
                                        o.spec_inited(w0),
                                    ) && (r matches Ok(p) && p.0@ == pu + upd + seq![
                                            LifeEvent::Pause(StateTag::Playing),
                                            LifeEvent::OverlayInit(o.spec_tag()),
                                        ] && p.1 == zero)) && (!o.spec_init_ok(w0) ==> (r matches Err(e) && e
                                        matches GameError::Initialization(m) && m@
                                        == spec_missing_rock_msg(o.spec_rock_id().unwrap()))
                                        && final(self).manager.overlays@ == s0),
                                    GameStateAction::PushTopState(o) => final(self).base
                                        == spec_state_paused(base1) && final(data).control_reload_needed == old(data).control_reload_needed && (
                                    o.spec_init_ok(w0) ==> final(self).manager.overlays@ == s0.push(
                                        o.spec_inited(w0),
                                    ) && (r matches Ok(p) && p.0@ == pu + upd + seq![
                                            LifeEvent::Pause(StateTag::Playing),
                                            LifeEvent::OverlayInit(o.spec_tag()),
                                        ] && p.1 == zero)) && (!o.spec_init_ok(w0) ==> (r matches Err(e) && e
                                        matches GameError::Initialization(m) && m@
                                        == spec_missing_rock_msg(o.spec_rock_id().unwrap()))
                                        && final(self).manager.overlays@ == s0),
                                    GameStateAction::PopTopState => final(self).base == base1
                                        && final(self).manager.overlays@ == s0 && final(data).control_reload_needed == old(data).control_reload_needed
                                        && (r matches Ok(p) && p.0@ == pu + upd && p.1 == zero),
                                },
                            }
                        },
                        GameState::Pause(ps) => {
                            &&& final(data).world.interactables@ == w0
                            &&& final(data).world.player == old(data).world.player
                            &&& input.actions@.contains(Action::Pause) ==> final(self).base
                                == GameState::Playing(
                                crate::gamestate::PlayingGS {
                                    paused: false,
                                    debug: ps.previous_play_state.debug,
                                },
                            ) && final(self).manager.overlays@ == s0 && final(data).control_reload_needed == true && (r matches Ok(p) && p.0@ == pu + upd + seq![
                                    LifeEvent::Pause(StateTag::Pause),
                                    LifeEvent::Restore(StateTag::Playing),
                                ] && p.1 == zero)
                            &&& !input.actions@.contains(Action::Pause) ==> final(self).base
                                == base0 && final(self).manager.overlays@ == s0 && final(data).control_reload_needed == old(data).control_reload_needed
                                && (r matches Ok(p) && p.0@ == pu + upd && p.1 == zero)
                        },
                    }
                }
            }),
    {
        if self.manager.len() > 0 {
            match self.overlay_phase(input, data) {
                Ok(ev) => Ok((ev, MoveIntent { dx: 0, dy: 0 })),
                Err(e) => Err(e),
            }
        } else {
            self.base_phase(input, data)
        }
    }

    /// One frame of the orchestrator, in the fixed order: the base state's
    /// persistent update runs first and its transition is applied
    /// immediately (no current mode asks for one); then the tick is routed
    /// to the top overlay or, with no overlay stacked, to the base state,
    /// and the returned transition is applied; last comes the draw plan.
    /// While overlays are stacked the base state's plain update is never
    /// called, and when the last overlay is popped the base state is
    /// restored within the same tick, before its next plain update.
    #[verifier::rlimit(100)]
    #[verifier::spinoff_prover]
    pub fn tick(&mut self, input: &TickInput, data: &mut GameData) -> (r: Result<
        TickOutcome,
        GameError,
    >)
        requires
            input.actions@.len() < 0x8000_0000_0000_0000,
            old(self).manager.overlays@.len() > 0 ==> old(self).manager.overlays@.last().clicks_ok(),
        ensures
            final(data).control_handler == old(data).control_handler,
            r matches Ok(out) ==> out.events@.len() >= 2 && out.events@[0]
                == LifeEvent::PersistentUpdate(old(self).base.spec_tag()),
            old(self).manager.overlays@.len() > 0 ==> (r matches Ok(out) ==> forall|k: int|
                0 <= k < out.events@.len() ==> !((#[trigger] out.events@[k]) is Update)),
            ({
                let base0 = old(self).base;
                let s0 = old(self).manager.overlays@;
                let w0 = old(data).world.interactables@;
                let pu = seq![LifeEvent::PersistentUpdate(base0.spec_tag())];
                let zero = MoveIntent { dx: 0, dy: 0 };
                if s0.len() > 0 {
                    let top = s0.last();
                    let st = top.spec_update(
                        input.actions@,
                        input.mouse_in_rock,
                        input.mouse_in_rock_enlarged,
                        w0,
                    );
                    match st.outcome {
                        OvOutcome::NoOp => final(self).base == base0
                            && final(self).manager.overlays@ == s0.drop_last().push(st.ov)
                            && final(data).world.interactables@ == st.interactables
                            && final(data).world.player == old(data).world.player
                            && final(data).control_reload_needed == old(data).control_reload_needed
                            && tick_output(
                            r,
                            pu + seq![LifeEvent::OverlayUpdate(top.spec_tag())],
                            zero,
                            final(self).base,
                            final(self).manager.overlays@,
                            final(data).world.interactables@,
                        ),
                        OvOutcome::Exit => final(self).manager.overlays@ == s0.drop_last()
                            && final(data).world.interactables@ == st.interactables
                            && final(data).world.player == old(data).world.player && (s0.len() > 1
                            ==> final(self).base == base0 && final(data).control_reload_needed
                            == old(data).control_reload_needed && tick_output(
                            r,
                            pu + seq![
                                LifeEvent::OverlayUpdate(top.spec_tag()),
                                LifeEvent::OverlayPop(st.ov.spec_tag()),
                            ],
                            zero,
                            final(self).base,
                            final(self).manager.overlays@,
                            final(data).world.interactables@,
                        )) && (s0.len() == 1 ==> final(self).base == spec_state_restored(base0)
                            && (base0 is Playing ==> final(data).control_reload_needed == true) && (
                        base0 is Pause ==> final(data).control_reload_needed == old(data).control_reload_needed) && tick_output(
                            r,
                            pu + seq![
                                LifeEvent::OverlayUpdate(top.spec_tag()),
                                LifeEvent::OverlayPop(st.ov.spec_tag()),
                                LifeEvent::Restore(base0.spec_tag()),
                            ],
                            zero,
                            final(self).base,
                            final(self).manager.overlays@,
                            final(data).world.interactables@,
                        )),
                        OvOutcome::ExitBroken => final(self).manager.overlays@ == s0.drop_last()
                            && respawned(
                            st.interactables,
                            final(data).world.interactables@,
                            top.spec_rock_id().unwrap(),
                        ) && final(data).world.player == old(data).world.player && (s0.len() > 1
                            ==> final(self).base == base0 && final(data).control_reload_needed
                            == old(data).control_reload_needed && tick_output(
                            r,
                            pu + seq![
                                LifeEvent::OverlayUpdate(top.spec_tag()),
                                LifeEvent::OverlayPop(st.ov.spec_tag()),
                            ],
                            zero,
                            final(self).base,
                            final(self).manager.overlays@,
                            final(data).world.interactables@,
                        )) && (s0.len() == 1 ==> final(self).base == spec_state_restored(base0)
                            && (base0 is Playing ==> final(data).control_reload_needed == true) && (
                        base0 is Pause ==> final(data).control_reload_needed == old(data).control_reload_needed) && tick_output(
                            r,
                            pu + seq![
                                LifeEvent::OverlayUpdate(top.spec_tag()),
                                LifeEvent::OverlayPop(st.ov.spec_tag()),
                                LifeEvent::Restore(base0.spec_tag()),
                            ],
                            zero,
                            final(self).base,
                            final(self).manager.overlays@,
                            final(data).world.interactables@,
                        )),
                        OvOutcome::MissingRock => (r matches Err(e) && e
                            matches GameError::Update(m) && m@ == spec_missing_rock_msg(
                            top.spec_rock_id().unwrap(),
                        )),
                    }
                } else {
                    let upd = seq![LifeEvent::Update(base0.spec_tag())];
                    match base0 {
                        GameState::Playing(gs) => {
                            let fin = crate::gamestate::playing_run(
                                crate::gamestate::playing_start(
                                    gs,
                                    old(data).world.player,
                                    old(data).control_handler.toggle_sprint,
                                ),
                                input.actions@,
                                input.clicked_interactable,
                                w0,
                                old(data).control_handler.toggle_sprint,
                            );
                            let base1 = GameState::Playing(
                                crate::gamestate::PlayingGS {
                                    paused: fin.paused,
                                    debug: fin.debug,
                                },
                            );
                            &&& final(data).world.interactables@ == w0
                            &&& final(data).world.player == fin.player
                            &&& match fin.outcome {
                                None => final(self).base == base1 && final(self).manager.overlays@
                                    == s0 && final(data).control_reload_needed == old(data).control_reload_needed && tick_output(
                                    r,
                                    pu + upd,
                                    MoveIntent { dx: fin.dx as i64, dy: fin.dy as i64 },
                                    final(self).base,
                                    final(self).manager.overlays@,
                                    final(data).world.interactables@,
                                ),
                                Some(a) => match a {
                                    GameStateAction::NoOp => final(self).base == base1 && final(self).manager.overlays@ == s0 && final(data).control_reload_needed
                                        == old(data).control_reload_needed && tick_output(
                                        r,
                                        pu + upd,
                                        zero,
                                        final(self).base,
                                        final(self).manager.overlays@,
                                        final(data).world.interactables@,
                                    ),
                                    GameStateAction::ChangeState(new) => final(self).base
                                        == spec_state_restored(new) && final(self).manager.overlays@
                                        == s0 && (new is Playing ==> final(data).control_reload_needed == true) && (new is Pause ==> final(data).control_reload_needed == old(data).control_reload_needed)
                                        && tick_output(
                                        r,
                                        pu + upd + seq![
                                            LifeEvent::Pause(StateTag::Playing),
                                            LifeEvent::Restore(new.spec_tag()),
                                        ],
                                        zero,
                                        final(self).base,
                                        final(self).manager.overlays@,
                                        final(data).world.interactables@,
                                    ),
                                    GameStateAction::SpawnOverlay(o) => final(self).base
                                        == spec_state_paused(base1) && final(data).control_reload_needed == old(data).control_reload_needed && (
                                    o.spec_init_ok(w0) ==> final(self).manager.overlays@ == s0.push(
                                        o.spec_inited(w0),
                                    ) && tick_output(
                                        r,
                                        pu + upd + seq![
                                            LifeEvent::Pause(StateTag::Playing),
                                            LifeEvent::OverlayInit(o.spec_tag()),
                                        ],
                                        zero,
                                        final(self).base,
                                        final(self).manager.overlays@,
                                        final(data).world.interactables@,
                                    )) && (!o.spec_init_ok(w0) ==> (r matches Err(e) && e
                                        matches GameError::Initialization(m) && m@
                                        == spec_missing_rock_msg(o.spec_rock_id().unwrap()))
                                        && final(self).manager.overlays@ == s0),
                                    GameStateAction::PushTopState(o) => final(self).base
                                        == spec_state_paused(base1) && final(data).control_reload_needed == old(data).control_reload_needed && (
                                    o.spec_init_ok(w0) ==> final(self).manager.overlays@ == s0.push(
                                        o.spec_inited(w0),
                                    ) && tick_output(
                                        r,
                                        pu + upd + seq![
                                            LifeEvent::Pause(StateTag::Playing),
                                            LifeEvent::OverlayInit(o.spec_tag()),
                                        ],
                                        zero,
                                        final(self).base,
                                        final(self).manager.overlays@,
                                        final(data).world.interactables@,
                                    )) && (!o.spec_init_ok(w0) ==> (r matches Err(e) && e
                                        matches GameError::Initialization(m) && m@
                                        == spec_missing_rock_msg(o.spec_rock_id().unwrap()))
                                        && final(self).manager.overlays@ == s0),
                                    GameStateAction::PopTopState => final(self).base == base1
                                        && final(self).manager.overlays@ == s0 && final(data).control_reload_needed == old(data).control_reload_needed
                                        && tick_output(
                                        r,
                                        pu + upd,
                                        zero,
                                        final(self).base,
                                        final(self).manager.overlays@,
                                        final(data).world.interactables@,
                                    ),
                                },
                            }
                        },
                        GameState::Pause(ps) => {
                            &&& final(data).world.interactables@ == w0
                            &&& final(data).world.player == old(data).world.player
                            &&& input.actions@.contains(Action::Pause) ==> final(self).base
                                == GameState::Playing(
                                crate::gamestate::PlayingGS {
                                    paused: false,
                                    debug: ps.previous_play_state.debug,
                                },
                            ) && final(self).manager.overlays@ == s0 && final(data).control_reload_needed == true && tick_output(
                                r,
                                pu + upd + seq![
                                    LifeEvent::Pause(StateTag::Pause),
                                    LifeEvent::Restore(StateTag::Playing),
                                ],
                                zero,
                                final(self).base,
                                final(self).manager.overlays@,
                                final(data).world.interactables@,
                            )
                            &&& !input.actions@.contains(Action::Pause) ==> final(self).base
                                == base0 && final(self).manager.overlays@ == s0 && final(data).control_reload_needed == old(data).control_reload_needed
                                && tick_output(
                                r,
                                pu + upd,
                                zero,
                                final(self).base,
                                final(self).manager.overlays@,
                                final(data).world.interactables@,
                            )
                        },
                    }
                }
            }),
    {
        let routed = match self.route_phase(input, data) {
            Ok(p) => p,
            Err(e) => {
                return Err(e);
            },
        };
        let (events, movement) = routed;
        match self.draw_phase(data) {
            Ok((base_draw, overlay_draws)) => Ok(
                TickOutcome { events, movement, base_draw, overlay_draws },
            ),
            Err(e) => Err(e),
        }
    }

    /// The draw pass of one tick: the base state's scene when no overlay
    /// occludes it, then the overlay scenes from the topmost occluding
    /// overlay upward.
    fn draw_phase(&self, data: &GameData) -> (r: Result<
        (Option<StateDraw>, Vec<DrawCmd>),
        GameError,
    >)
        ensures
            draw_ready(self.manager.overlays@, data.world.interactables@) ==> (r matches Ok(pair)
                && (pair.0 is Some <==> (forall|k: int|
                0 <= k < self.manager.overlays@.len() ==> (#[trigger] self.manager.overlays@[
                    k
                ]).spec_draw_below())) && (pair.0 is Some ==> pair.0 == Some(self.base.spec_draw()))
                && pair.1@.len() == self.manager.overlays@.len() - spec_draw_from(
                self.manager.overlays@,
            ) && (forall|k: int|
                0 <= k < pair.1@.len() ==> pair.1@[k] == (#[trigger] self.manager.overlays@[
                    spec_draw_from(self.manager.overlays@) + k
                ]).spec_draw_cmd())),
            !draw_ready(self.manager.overlays@, data.world.interactables@) ==> (r matches Err(e)
                && draw_fail(e, self.manager.overlays@, data.world.interactables@)),
    {
        let base_draw: Option<StateDraw> = if self.manager.should_draw_gamestate() {
            match self.base.draw(data) {
                Ok(sd) => Some(sd),
                Err(e) => {
                    proof {
                        assert(false);
                    }
                    return Err(e);
                },
            }
        } else {
            None
        };
        let overlay_draws = match self.manager.draw(data) {
            Ok(c) => c,
            Err(e) => {
                return Err(e);
            },
        };
        Ok((base_draw, overlay_draws))
    }
}

} // verus!

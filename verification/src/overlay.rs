use vstd::prelude::*;
use crate::controls::Action;
use crate::error::GameError;
use crate::gamedata::GameData;
use crate::util::spec_u32_string;
use crate::util::u32_to_string;
use crate::world::has_interactable;
use crate::world::lemma_first_match_unique;
use crate::world::spec_first_index;
use crate::world::spec_found;
use crate::world::spec_remove_id;
use crate::world::Interactable;
use crate::world::InteractableAttribute;
use crate::world::InteractableKind;

verus! {

/// What an overlay asks the orchestrator to do after its update tick.
#[derive(Debug)]
pub enum OverlayAction {
    NoOp,
    Exit,
    SpawnOverlay(Overlay),
}

/// Names the kind of an overlay, for lifecycle traces and tests.
#[derive(Debug, Clone, Copy, PartialEq, Eq, Structural)]
pub enum OverlayTag {
    Pause,
    MineRock,
    RockBreak,
}

/// What one overlay renders this frame; the platform layer turns each
/// command into actual draw calls.
#[derive(Debug, Clone, Copy, PartialEq, Eq, Structural)]
pub enum DrawCmd {
    /// A semi-transparent full-screen tint.
    PauseShade,
    /// The mined rock, centered, enlarged while it was just clicked.
    MineRockScene { rock_id: u32, enlarged: bool },
    /// The example mini-game scene, with its click counter.
    RockBreakScene { rock_id: u32, enlarged: bool, clicks: u32 },
}

/// The pause screen: a transparent overlay that exits on the pause action.
#[derive(Debug)]
pub struct PauseOverlay {}

impl PauseOverlay {
    pub fn new() -> (r: Self)
        ensures
            r == (PauseOverlay {  }),
    {
        Self {  }
    }
}

/// The rock-mining overlay: counts clicks on a rock, mirrors the count into
/// the rock's `"clicks"` attribute, and once the count reaches its threshold
/// breaks the rock and respawns a fresh one under the same identity.
#[derive(Debug)]
pub struct MineRock {
    pub rock_id: u32,
    pub clicks: u32,
    pub recently_clicked: bool,
}

impl MineRock {
    pub fn new(rock_id: u32) -> (r: Result<Box<MineRock>, GameError>)
        ensures
            r matches Ok(m) && m.rock_id == rock_id && m.clicks == 0 && m.recently_clicked
                == false,
    {
        Ok(Box::new(Self { rock_id, clicks: 0, recently_clicked: false }))
    }
}

/// The example rock-breaking mini-game, kept from an earlier iteration of
/// the engine; same shape as the mining overlay with a lower threshold and a
/// fully occluding scene.
#[derive(Debug)]
pub struct ExampleRockBreakGameGS {
    pub rock_id: u32,
    pub clicks: u32,
    pub recently_clicked: bool,
}

impl ExampleRockBreakGameGS {
    pub fn new(rock_id: u32) -> (r: Result<Box<ExampleRockBreakGameGS>, GameError>)
        ensures
            r matches Ok(m) && m.rock_id == rock_id && m.clicks == 0 && m.recently_clicked
                == false,
    {
        Ok(Box::new(Self { rock_id, clicks: 0, recently_clicked: false }))
    }
}

/// How a mining-style overlay's update tick ended, when it ended early.
pub ghost enum MiningOutcome {
    /// The pause action asked to close the overlay.
    Exit,
    /// The click threshold was reached: the rock was broken and respawned,
    /// and the overlay asked to close.
    ExitBroken,
    /// The mined rock is gone from the world.
    MissingRock,
}

/// The state a mining-style overlay's update folds over its actions: the
/// overlay fields, the world's interactables, and the early outcome if the
/// fold has stopped.
pub ghost struct MiningState {
    pub rock_id: u32,
    pub clicks: int,
    pub recently_clicked: bool,
    pub interactables: Seq<Interactable>,
    pub outcome: Option<MiningOutcome>,
}

/// Whether the mouse is on the rock, whose on-screen size depends on
/// whether it was just clicked.
pub open spec fn mining_inside(st: MiningState, in_small: bool, in_large: bool) -> bool {
    if st.recently_clicked {
        in_large
    } else {
        in_small
    }
}

/// One action's effect on a mining-style overlay: pause exits; an attack
/// click on the rock marks it as just-clicked; a UI click on the rock
/// increments the count, mirrors it into the rock's attribute, and at the
/// threshold breaks the rock and exits.
pub open spec fn mining_step(
    st: MiningState,
    a: Action,
    in_small: bool,
    in_large: bool,
    threshold: int,
) -> MiningState {
    match a {
        Action::Pause => MiningState { outcome: Some(MiningOutcome::Exit), ..st },
        Action::BasicAttack => if mining_inside(st, in_small, in_large) {
            MiningState { recently_clicked: true, ..st }
        } else {
            st
        },
        Action::UIClick => if mining_inside(st, in_small, in_large) {
            let c = st.clicks + 1;
            if !has_interactable(st.interactables, st.rock_id) {
                MiningState { clicks: c, outcome: Some(MiningOutcome::MissingRock), ..st }
            } else {
                let idx = spec_first_index(st.interactables, st.rock_id);
                let elem = st.interactables[idx];
                let updated = st.interactables.update(
                    idx,
                    Interactable { clicks: c as u32, ..elem },
                );
                if c >= threshold {
                    MiningState {
                        clicks: c,
                        interactables: spec_remove_id(updated, st.rock_id),
                        outcome: Some(MiningOutcome::ExitBroken),
                        ..st
                    }
                } else {
                    MiningState { clicks: c, recently_clicked: false, interactables: updated, ..st }
                }
            }
        } else {
            MiningState { recently_clicked: false, ..st }
        },
        _ => st,
    }
}

/// The fold of `mining_step` over a tick's actions, stopping at the first
/// early outcome.
pub open spec fn mining_run(
    st: MiningState,
    actions: Seq<Action>,
    in_small: bool,
    in_large: bool,
    threshold: int,
) -> MiningState
    decreases actions.len(),
{
    if st.outcome is Some || actions.len() == 0 {
        st
    } else {
        mining_run(
            mining_step(st, actions[0], in_small, in_large, threshold),
            actions.drop_first(),
            in_small,
            in_large,
            threshold,
        )
    }
}

/// The state a mining-style overlay starts its update tick in: the
/// just-clicked mark is cleared first.
pub open spec fn mining_start(rock_id: u32, clicks: u32, w: Seq<Interactable>) -> MiningState {
    MiningState {
        rock_id,
        clicks: clicks as int,
        recently_clicked: false,
        interactables: w,
        outcome: None,
    }
}

/// `w1` is `w0` with one fresh rock pile added on top under identity `id`.
pub open spec fn respawned(w0: Seq<Interactable>, w1: Seq<Interactable>, id: u32) -> bool {
    &&& w1.len() == w0.len() + 1
    &&& w1.drop_last() == w0
    &&& w1.last().id == id
    &&& w1.last().name@ == "Rock Pile"@
    &&& w1.last().kind == InteractableKind::Rock
    &&& w1.last().clicks == 0
}

/// The message for a rock that is gone from the world.
pub open spec fn spec_missing_rock_msg(id: u32) -> Seq<char> {
    "Rock with id "@ + spec_u32_string(id as nat) + " not found"@
}

fn missing_rock_msg(id: u32) -> (r: String)
    ensures
        r@ == spec_missing_rock_msg(id),
{
    let mut m = "Rock with id ".to_owned();
    let digits = u32_to_string(id);
    m.append(digits.as_str());
    m.append(" not found");
    proof {
        assert(m@ =~= spec_missing_rock_msg(id));
    }
    m
}

impl MineRock {
    /// One-time setup: snapshots the mined rock's current click count; the
    /// push is refused when the rock does not exist.
    pub fn init(&mut self, data: &mut GameData) -> (r: Result<(), GameError>)
        ensures
            *final(data) == *old(data),
            final(self).rock_id == old(self).rock_id,
            final(self).recently_clicked == old(self).recently_clicked,
            has_interactable(old(data).world.interactables@, old(self).rock_id) ==> r is Ok
                && final(self).clicks == spec_found(
                old(data).world.interactables@,
                old(self).rock_id,
            ).clicks,
            !has_interactable(old(data).world.interactables@, old(self).rock_id) ==> (r matches Err(
                e,
            ) && e matches GameError::Initialization(m) && m@ == spec_missing_rock_msg(
                old(self).rock_id,
            ) && final(self).clicks == old(self).clicks),
    {
        let rock = match data.world.get_interactable_by_id(self.rock_id) {
            Some(rock) => rock,
            None => {
                return Err(GameError::Initialization(missing_rock_msg(self.rock_id)));
            },
        };
        self.clicks = match rock.get_attribute("clicks") {
            Some(InteractableAttribute::UInt(clicks)) => clicks,
            _ => 0,
        };
        Ok(())
    }

    /// One update tick, folding this tick's actions over the overlay as
    /// `mining_run` describes, with a click threshold of 16.
    pub fn update(
        &mut self,
        actions: &Vec<Action>,
        mouse_in_rock: bool,
        mouse_in_rock_enlarged: bool,
        data: &mut GameData,
    ) -> (r: Result<OverlayAction, GameError>)
        requires
            old(self).clicks < u32::MAX,
        ensures
            final(self).rock_id == old(self).rock_id,
            final(data).control_handler == old(data).control_handler,
            final(data).control_reload_needed == old(data).control_reload_needed,
            final(data).world.player == old(data).world.player,
            ({
                let fin = mining_run(
                    mining_start(
                        old(self).rock_id,
                        old(self).clicks,
                        old(data).world.interactables@,
                    ),
                    actions@,
                    mouse_in_rock,
                    mouse_in_rock_enlarged,
                    16,
                );
                &&& final(self).clicks as int == fin.clicks
                &&& final(self).recently_clicked == fin.recently_clicked
                &&& match fin.outcome {
                    None => r == Ok::<OverlayAction, GameError>(OverlayAction::NoOp)
                        && final(data).world.interactables@ == fin.interactables,
                    Some(MiningOutcome::Exit) => r == Ok::<OverlayAction, GameError>(
                        OverlayAction::Exit,
                    ) && final(data).world.interactables@ == fin.interactables,
                    Some(MiningOutcome::ExitBroken) => r == Ok::<OverlayAction, GameError>(
                        OverlayAction::Exit,
                    ) && respawned(
                        fin.interactables,
                        final(data).world.interactables@,
                        old(self).rock_id,
                    ),
                    Some(MiningOutcome::MissingRock) => (r matches Err(e) && e
                        matches GameError::Update(m) && m@ == spec_missing_rock_msg(
                        old(self).rock_id,
                    )) && final(data).world.interactables@ == fin.interactables,
                }
            }),
    {
        mining_update(
            &mut self.clicks,
            &mut self.recently_clicked,
            self.rock_id,
            16,
            actions,
            mouse_in_rock,
            mouse_in_rock_enlarged,
            data,
        )
    }

    /// What this overlay renders: its rock, enlarged while just clicked.
    pub fn draw(&self, data: &GameData) -> (r: Result<DrawCmd, GameError>)
        ensures
            has_interactable(data.world.interactables@, self.rock_id) ==> r == Ok::<
                DrawCmd,
                GameError,
            >(DrawCmd::MineRockScene { rock_id: self.rock_id, enlarged: self.recently_clicked }),
            !has_interactable(data.world.interactables@, self.rock_id) ==> (r matches Err(e) && e
                matches GameError::Draw(m) && m@ == spec_missing_rock_msg(self.rock_id)),
    {
        match data.world.get_interactable_by_id(self.rock_id) {
            Some(_) => Ok(
                DrawCmd::MineRockScene { rock_id: self.rock_id, enlarged: self.recently_clicked },
            ),
            None => Err(GameError::Draw(missing_rock_msg(self.rock_id))),
        }
    }

    /// The scene beneath stays visible: this overlay is semi-transparent.
    pub fn draw_below(&self) -> (r: bool)
        ensures
            r == true,
    {
        true
    }
}

/// The shared update tick of the two mining-style overlays: folds the
/// tick's actions as `mining_run` describes, over the given threshold.
#[verifier::loop_isolation(false)]
fn mining_update(
    clicks: &mut u32,
    recently_clicked: &mut bool,
    rock_id: u32,
    threshold: u32,
    actions: &Vec<Action>,
    mouse_in_rock: bool,
    mouse_in_rock_enlarged: bool,
    data: &mut GameData,
) -> (r: Result<OverlayAction, GameError>)
    requires
        *old(clicks) < u32::MAX,
        threshold >= 1,
    ensures
        final(data).control_handler == old(data).control_handler,
        final(data).control_reload_needed == old(data).control_reload_needed,
        final(data).world.player == old(data).world.player,
        ({
            let fin = mining_run(
                mining_start(rock_id, *old(clicks), old(data).world.interactables@),
                actions@,
                mouse_in_rock,
                mouse_in_rock_enlarged,
                threshold as int,
            );
            &&& *final(clicks) as int == fin.clicks
            &&& *final(recently_clicked) == fin.recently_clicked
            &&& match fin.outcome {
                None => r == Ok::<OverlayAction, GameError>(OverlayAction::NoOp)
                    && final(data).world.interactables@ == fin.interactables,
                Some(MiningOutcome::Exit) => r == Ok::<OverlayAction, GameError>(
                    OverlayAction::Exit,
                ) && final(data).world.interactables@ == fin.interactables,
                Some(MiningOutcome::ExitBroken) => r == Ok::<OverlayAction, GameError>(
                    OverlayAction::Exit,
                ) && respawned(fin.interactables, final(data).world.interactables@, rock_id),
                Some(MiningOutcome::MissingRock) => (r matches Err(e) && e
                    matches GameError::Update(m) && m@ == spec_missing_rock_msg(rock_id))
                    && final(data).world.interactables@ == fin.interactables,
            }
        }),
{
    let ghost start = mining_start(rock_id, *old(clicks), old(data).world.interactables@);
    let ghost goal = mining_run(
        start,
        actions@,
        mouse_in_rock,
        mouse_in_rock_enlarged,
        threshold as int,
    );
    *recently_clicked = false;
    let mut i: usize = 0;
    proof {
        assert(actions@.skip(0) =~= actions@);
    }
    while i < actions.len()
        invariant
            *old(clicks) < u32::MAX,
            threshold >= 1,
            0 <= i <= actions@.len(),
            *clicks < threshold || *clicks == *old(clicks),
            data.control_handler == old(data).control_handler,
            data.control_reload_needed == old(data).control_reload_needed,
            data.world.player == old(data).world.player,
            goal == mining_run(
                MiningState {
                    rock_id,
                    clicks: *clicks as int,
                    recently_clicked: *recently_clicked,
                    interactables: data.world.interactables@,
                    outcome: None,
                },
                actions@.skip(i as int),
                mouse_in_rock,
                mouse_in_rock_enlarged,
                threshold as int,
            ),
        decreases actions@.len() - i,
    {
        let ghost cur = MiningState {
            rock_id,
            clicks: *clicks as int,
            recently_clicked: *recently_clicked,
            interactables: data.world.interactables@,
            outcome: None,
        };
        let ghost rest = actions@.skip(i as int);
        proof {
            assert(rest[0] == actions@[i as int]);
            assert(rest.drop_first() =~= actions@.skip(i + 1));
        }
        let a = actions[i];
        match a {
            Action::Pause => {
                proof {
                    let stepped = mining_step(
                        cur,
                        a,
                        mouse_in_rock,
                        mouse_in_rock_enlarged,
                        threshold as int,
                    );
                    assert(mining_run(
                        stepped,
                        rest.drop_first(),
                        mouse_in_rock,
                        mouse_in_rock_enlarged,
                        threshold as int,
                    ) == stepped);
                    assert(goal == stepped);
                }
                return Ok(OverlayAction::Exit);
            },
            Action::BasicAttack => {
                let inside = if *recently_clicked {
                    mouse_in_rock_enlarged
                } else {
                    mouse_in_rock
                };
                if inside {
                    *recently_clicked = true;
                }
            },
            Action::UIClick => {
                let inside = if *recently_clicked {
                    mouse_in_rock_enlarged
                } else {
                    mouse_in_rock
                };
                if inside {
                    *clicks = *clicks + 1;
                    match data.world.find_interactable(rock_id) {
                        None => {
                            proof {
                                let stepped = mining_step(
                                    cur,
                                    a,
                                    mouse_in_rock,
                                    mouse_in_rock_enlarged,
                                    threshold as int,
                                );
                                assert(mining_run(
                                    stepped,
                                    rest.drop_first(),
                                    mouse_in_rock,
                                    mouse_in_rock_enlarged,
                                    threshold as int,
                                ) == stepped);
                                assert(goal == stepped);
                            }
                            return Err(GameError::Update(missing_rock_msg(rock_id)));
                        },
                        Some(idx) => {
                            proof {
                                lemma_first_match_unique(
                                    data.world.interactables@,
                                    rock_id,
                                    idx as int,
                                    spec_first_index(data.world.interactables@, rock_id),
                                );
                            }
                            let e = &mut data.world.interactables[idx];
                            match e.set_attribute("clicks", InteractableAttribute::UInt(*clicks)) {
                                Ok(_) => {},
                                Err(msg) => {
                                    proof {
                                        assert(false);
                                    }
                                    let mut m = "Failed to set clicks: ".to_owned();
                                    m.append(msg.as_str());
                                    return Err(GameError::Update(m));
                                },
                            }
                            if *clicks >= threshold {
                                proof {
                                    assert(has_interactable(data.world.interactables@, rock_id))
                                        by {
                                        assert(data.world.interactables@[idx as int].id == rock_id);
                                    }
                                }
                                match data.world.break_interactable(rock_id) {
                                    Ok(_) => {},
                                    Err(msg) => {
                                        proof {
                                            assert(false);
                                        }
                                        let mut m = "Failed to break rock: ".to_owned();
                                        m.append(msg.as_str());
                                        return Err(GameError::Update(m));
                                    },
                                }
                                data.world.add_interactable(
                                    Interactable::new(
                                        rock_id,
                                        "Rock Pile".to_owned(),
                                        InteractableKind::Rock,
                                    ),
                                );
                                proof {
                                    let stepped = mining_step(
                                        cur,
                                        a,
                                        mouse_in_rock,
                                        mouse_in_rock_enlarged,
                                        threshold as int,
                                    );
                                    assert(mining_run(
                                        stepped,
                                        rest.drop_first(),
                                        mouse_in_rock,
                                        mouse_in_rock_enlarged,
                                        threshold as int,
                                    ) == stepped);
                                    assert(goal == stepped);
                                    assert(data.world.interactables@.drop_last()
                                        =~= stepped.interactables);
                                    assert(respawned(
                                        stepped.interactables,
                                        data.world.interactables@,
                                        rock_id,
                                    ));
                                }
                                return Ok(OverlayAction::Exit);
                            }
                        },
                    }
                }
                *recently_clicked = false;
            },
            _ => {},
        }
        proof {
            let stepped = mining_step(cur, a, mouse_in_rock, mouse_in_rock_enlarged, threshold as int);
            assert(stepped == MiningState {
                rock_id,
                clicks: *clicks as int,
                recently_clicked: *recently_clicked,
                interactables: data.world.interactables@,
                outcome: None,
            });
        }
        i += 1;
    }
    proof {
        assert(actions@.skip(actions@.len() as int) =~= Seq::<Action>::empty());
    }
    Ok(OverlayAction::NoOp)
}

impl ExampleRockBreakGameGS {
    /// One-time setup: snapshots the rock's current click count; the push is
    /// refused when the rock does not exist.
    pub fn init(&mut self, data: &mut GameData) -> (r: Result<(), GameError>)
        ensures
            *final(data) == *old(data),
            final(self).rock_id == old(self).rock_id,
            final(self).recently_clicked == old(self).recently_clicked,
            has_interactable(old(data).world.interactables@, old(self).rock_id) ==> r is Ok
                && final(self).clicks == spec_found(
                old(data).world.interactables@,
                old(self).rock_id,
            ).clicks,
            !has_interactable(old(data).world.interactables@, old(self).rock_id) ==> (r matches Err(
                e,
            ) && e matches GameError::Initialization(m) && m@ == spec_missing_rock_msg(
                old(self).rock_id,
            ) && final(self).clicks == old(self).clicks),
    {
        let rock = match data.world.get_interactable_by_id(self.rock_id) {
            Some(rock) => rock,
            None => {
                return Err(GameError::Initialization(missing_rock_msg(self.rock_id)));
            },
        };
        self.clicks = match rock.get_attribute("clicks") {
            Some(InteractableAttribute::UInt(clicks)) => clicks,
            _ => 0,
        };
        Ok(())
    }

    /// One update tick, folding this tick's actions over the overlay as
    /// `mining_run` describes, with a click threshold of 10.
    pub fn update(
        &mut self,
        actions: &Vec<Action>,
        mouse_in_rock: bool,
        mouse_in_rock_enlarged: bool,
        data: &mut GameData,
    ) -> (r: Result<OverlayAction, GameError>)
        requires
            old(self).clicks < u32::MAX,
        ensures
            final(self).rock_id == old(self).rock_id,
            final(data).control_handler == old(data).control_handler,
            final(data).control_reload_needed == old(data).control_reload_needed,
            final(data).world.player == old(data).world.player,
            ({
                let fin = mining_run(
                    mining_start(
                        old(self).rock_id,
                        old(self).clicks,
                        old(data).world.interactables@,
                    ),
                    actions@,
                    mouse_in_rock,
                    mouse_in_rock_enlarged,
                    10,
                );
                &&& final(self).clicks as int == fin.clicks
                &&& final(self).recently_clicked == fin.recently_clicked
                &&& match fin.outcome {
                    None => r == Ok::<OverlayAction, GameError>(OverlayAction::NoOp)
                        && final(data).world.interactables@ == fin.interactables,
                    Some(MiningOutcome::Exit) => r == Ok::<OverlayAction, GameError>(
                        OverlayAction::Exit,
                    ) && final(data).world.interactables@ == fin.interactables,
                    Some(MiningOutcome::ExitBroken) => r == Ok::<OverlayAction, GameError>(
                        OverlayAction::Exit,
                    ) && respawned(
                        fin.interactables,
                        final(data).world.interactables@,
                        old(self).rock_id,
                    ),
                    Some(MiningOutcome::MissingRock) => (r matches Err(e) && e
                        matches GameError::Update(m) && m@ == spec_missing_rock_msg(
                        old(self).rock_id,
                    )) && final(data).world.interactables@ == fin.interactables,
                }
            }),
    {
        mining_update(
            &mut self.clicks,
            &mut self.recently_clicked,
            self.rock_id,
            10,
            actions,
            mouse_in_rock,
            mouse_in_rock_enlarged,
            data,
        )
    }

    /// What this overlay renders: its scene with the click counter.
    pub fn draw(&self, data: &GameData) -> (r: Result<DrawCmd, GameError>)
        ensures
            has_interactable(data.world.interactables@, self.rock_id) ==> r == Ok::<
                DrawCmd,
                GameError,
            >(
                DrawCmd::RockBreakScene {
                    rock_id: self.rock_id,
                    enlarged: self.recently_clicked,
                    clicks: self.clicks,
                },
            ),
            !has_interactable(data.world.interactables@, self.rock_id) ==> (r matches Err(e) && e
                matches GameError::Draw(m) && m@ == spec_missing_rock_msg(self.rock_id)),
    {
        match data.world.get_interactable_by_id(self.rock_id) {
            Some(_) => Ok(
                DrawCmd::RockBreakScene {
                    rock_id: self.rock_id,
                    enlarged: self.recently_clicked,
                    clicks: self.clicks,
                },
            ),
            None => Err(GameError::Draw(missing_rock_msg(self.rock_id))),
        }
    }

    /// A full mini-game screen: everything beneath it is occluded.
    pub fn draw_below(&self) -> (r: bool)
        ensures
            r == false,
    {
        false
    }
}

pub(crate) fn contains_pause_action(actions: &Vec<Action>) -> (r: bool)
    ensures
        r == actions@.contains(Action::Pause),
{
    let mut i: usize = 0;
    while i < actions.len()
        invariant
            0 <= i <= actions@.len(),
            forall|j: int| 0 <= j < i ==> actions@[j] != Action::Pause,
        decreases actions@.len() - i,
    {
        if actions[i] == Action::Pause {
            proof {
                assert(actions@[i as int] == Action::Pause);
            }
            return true;
        }
        i += 1;
    }
    proof {
        assert(!actions@.contains(Action::Pause)) by {
            if actions@.contains(Action::Pause) {
                let j = choose|j: int|
                    0 <= j < actions@.len() && actions@[j] == Action::Pause;
                assert(actions@[j] != Action::Pause);
            }
        }
    }
    false
}

impl PauseOverlay {
    /// One-time setup: the pause screen needs none.
    pub fn init(&mut self, data: &mut GameData) -> (r: Result<(), GameError>)
        ensures
            *final(data) == *old(data),
            *final(self) == *old(self),
            r is Ok,
    {
        Ok(())
    }

    /// One update tick: exits on the pause action, otherwise stays.
    pub fn update(&mut self, actions: &Vec<Action>, data: &mut GameData) -> (r: Result<
        OverlayAction,
        GameError,
    >)
        ensures
            *final(data) == *old(data),
            *final(self) == *old(self),
            actions@.contains(Action::Pause) ==> r == Ok::<OverlayAction, GameError>(
                OverlayAction::Exit,
            ),
            !actions@.contains(Action::Pause) ==> r == Ok::<OverlayAction, GameError>(
                OverlayAction::NoOp,
            ),
    {
        if contains_pause_action(actions) {
            Ok(OverlayAction::Exit)
        } else {
            Ok(OverlayAction::NoOp)
        }
    }

    /// What this overlay renders: the semi-transparent pause tint.
    pub fn draw(&self, data: &GameData) -> (r: Result<DrawCmd, GameError>)
        ensures
            r == Ok::<DrawCmd, GameError>(DrawCmd::PauseShade),
    {
        Ok(DrawCmd::PauseShade)
    }

    /// The scene beneath stays visible: the tint is semi-transparent.
    pub fn draw_below(&self) -> (r: bool)
        ensures
            r == true,
    {
        true
    }
}

/// A transient, stackable mode that claims the update tick and renders atop
/// (or instead of) what is beneath it: the closed set of overlay kinds.
#[derive(Debug)]
pub enum Overlay {
    Pause(PauseOverlay),
    MineRock(MineRock),
    RockBreak(ExampleRockBreakGameGS),
}

/// How an overlay's update tick ended, at the level of the overlay stack.
pub ghost enum OvOutcome {
    NoOp,
    Exit,
    ExitBroken,
    MissingRock,
}

/// What one overlay update tick leaves behind: the overlay itself, the
/// world's interactables, and how the tick ended.
pub ghost struct OvStep {
    pub ov: Overlay,
    pub interactables: Seq<Interactable>,
    pub outcome: OvOutcome,
}

impl Overlay {
    /// Names this overlay's kind.
    pub open spec fn spec_tag(&self) -> OverlayTag {
        match self {
            Overlay::Pause(_) => OverlayTag::Pause,
            Overlay::MineRock(_) => OverlayTag::MineRock,
            Overlay::RockBreak(_) => OverlayTag::RockBreak,
        }
    }

    /// Names this overlay's kind.
    #[verifier::when_used_as_spec(spec_tag)]
    pub fn tag(&self) -> (r: OverlayTag)
        ensures
            r == self.spec_tag(),
    {
        match self {
            Overlay::Pause(_) => OverlayTag::Pause,
            Overlay::MineRock(_) => OverlayTag::MineRock,
            Overlay::RockBreak(_) => OverlayTag::RockBreak,
        }
    }

    /// Whether the layers beneath this overlay may still be drawn.
    pub open spec fn spec_draw_below(&self) -> bool {
        match self {
            Overlay::Pause(_) => true,
            Overlay::MineRock(_) => true,
            Overlay::RockBreak(_) => false,
        }
    }

    /// The rock this overlay works on; the pause screen has none.
    pub open spec fn spec_rock_id(&self) -> Option<u32> {
        match self {
            Overlay::Pause(_) => None,
            Overlay::MineRock(m) => Some(m.rock_id),
            Overlay::RockBreak(g) => Some(g.rock_id),
        }
    }

    /// The overlay's click counter has room to grow; trivially true of the
    /// pause screen.
    pub open spec fn clicks_ok(&self) -> bool {
        match self {
            Overlay::Pause(_) => true,
            Overlay::MineRock(m) => m.clicks < u32::MAX,
            Overlay::RockBreak(g) => g.clicks < u32::MAX,
        }
    }

    /// Whether this overlay's one-time setup succeeds against `w`.
    pub open spec fn spec_init_ok(&self, w: Seq<Interactable>) -> bool {
        match self {
            Overlay::Pause(_) => true,
            Overlay::MineRock(m) => has_interactable(w, m.rock_id),
            Overlay::RockBreak(g) => has_interactable(w, g.rock_id),
        }
    }

    /// This overlay after successful one-time setup against `w`.
    pub open spec fn spec_inited(&self, w: Seq<Interactable>) -> Overlay {
        match self {
            Overlay::Pause(p) => *self,
            Overlay::MineRock(m) => Overlay::MineRock(
                MineRock { clicks: spec_found(w, m.rock_id).clicks, ..*m },
            ),
            Overlay::RockBreak(g) => Overlay::RockBreak(
                ExampleRockBreakGameGS { clicks: spec_found(w, g.rock_id).clicks, ..*g },
            ),
        }
    }

    /// Whether this overlay's draw pass succeeds against `w`.
    pub open spec fn spec_draw_ok(&self, w: Seq<Interactable>) -> bool {
        match self {
            Overlay::Pause(_) => true,
            Overlay::MineRock(m) => has_interactable(w, m.rock_id),
            Overlay::RockBreak(g) => has_interactable(w, g.rock_id),
        }
    }

    /// What this overlay renders when its draw pass succeeds.
    pub open spec fn spec_draw_cmd(&self) -> DrawCmd {
        match self {
            Overlay::Pause(_) => DrawCmd::PauseShade,
            Overlay::MineRock(m) => DrawCmd::MineRockScene {
                rock_id: m.rock_id,
                enlarged: m.recently_clicked,
            },
            Overlay::RockBreak(g) => DrawCmd::RockBreakScene {
                rock_id: g.rock_id,
                enlarged: g.recently_clicked,
                clicks: g.clicks,
            },
        }
    }

    /// What one update tick of this overlay does: the pause screen exits on
    /// the pause action; the mining-style overlays fold their actions as
    /// `mining_run` describes (thresholds 16 and 10). On `ExitBroken` the
    /// world additionally receives the respawned rock.
    pub open spec fn spec_update(
        &self,
        actions: Seq<Action>,
        in_small: bool,
        in_large: bool,
        w: Seq<Interactable>,
    ) -> OvStep {
        match self {
            Overlay::Pause(p) => OvStep {
                ov: *self,
                interactables: w,
                outcome: if actions.contains(Action::Pause) {
                    OvOutcome::Exit
                } else {
                    OvOutcome::NoOp
                },
            },
            Overlay::MineRock(m) => {
                let fin = mining_run(
                    mining_start(m.rock_id, m.clicks, w),
                    actions,
                    in_small,
                    in_large,
                    16,
                );
                OvStep {
                    ov: Overlay::MineRock(
                        MineRock {
                            rock_id: m.rock_id,
                            clicks: fin.clicks as u32,
                            recently_clicked: fin.recently_clicked,
                        },
                    ),
                    interactables: fin.interactables,
                    outcome: match fin.outcome {
                        None => OvOutcome::NoOp,
                        Some(MiningOutcome::Exit) => OvOutcome::Exit,
                        Some(MiningOutcome::ExitBroken) => OvOutcome::ExitBroken,
                        Some(MiningOutcome::MissingRock) => OvOutcome::MissingRock,
                    },
                }
            },
            Overlay::RockBreak(g) => {
                let fin = mining_run(
                    mining_start(g.rock_id, g.clicks, w),
                    actions,
                    in_small,
                    in_large,
                    10,
                );
                OvStep {
                    ov: Overlay::RockBreak(
                        ExampleRockBreakGameGS {
                            rock_id: g.rock_id,
                            clicks: fin.clicks as u32,
                            recently_clicked: fin.recently_clicked,
                        },
                    ),
                    interactables: fin.interactables,
                    outcome: match fin.outcome {
                        None => OvOutcome::NoOp,
                        Some(MiningOutcome::Exit) => OvOutcome::Exit,
                        Some(MiningOutcome::ExitBroken) => OvOutcome::ExitBroken,
                        Some(MiningOutcome::MissingRock) => OvOutcome::MissingRock,
                    },
                }
            },
        }
    }

    /// One-time setup, dispatched by kind.
    pub fn init(&mut self, data: &mut GameData) -> (r: Result<(), GameError>)
        ensures
            *final(data) == *old(data),
            old(self).spec_init_ok(old(data).world.interactables@) ==> r is Ok && *final(self)
                == old(self).spec_inited(old(data).world.interactables@),
            !old(self).spec_init_ok(old(data).world.interactables@) ==> (r matches Err(e) && e
                matches GameError::Initialization(m) && m@ == spec_missing_rock_msg(
                old(self).spec_rock_id().unwrap(),
            )),
    {
        match self {
            Overlay::Pause(p) => p.init(data),
            Overlay::MineRock(m) => m.init(data),
            Overlay::RockBreak(g) => g.init(data),
        }
    }

    /// One update tick, dispatched by kind; `spec_update` says what it does.
    pub fn update(
        &mut self,
        actions: &Vec<Action>,
        mouse_in_rock: bool,
        mouse_in_rock_enlarged: bool,
        data: &mut GameData,
    ) -> (r: Result<OverlayAction, GameError>)
        requires
            old(self).clicks_ok(),
        ensures
            final(data).control_handler == old(data).control_handler,
            final(data).control_reload_needed == old(data).control_reload_needed,
            final(data).world.player == old(data).world.player,
            ({
                let st = old(self).spec_update(
                    actions@,
                    mouse_in_rock,
                    mouse_in_rock_enlarged,
                    old(data).world.interactables@,
                );
                &&& *final(self) == st.ov
                &&& match st.outcome {
                    OvOutcome::NoOp => r == Ok::<OverlayAction, GameError>(OverlayAction::NoOp)
                        && final(data).world.interactables@ == st.interactables,
                    OvOutcome::Exit => r == Ok::<OverlayAction, GameError>(OverlayAction::Exit)
                        && final(data).world.interactables@ == st.interactables,
                    OvOutcome::ExitBroken => r == Ok::<OverlayAction, GameError>(
                        OverlayAction::Exit,
                    ) && respawned(
                        st.interactables,
                        final(data).world.interactables@,
                        old(self).spec_rock_id().unwrap(),
                    ),
                    OvOutcome::MissingRock => (r matches Err(e) && e matches GameError::Update(m)
                        && m@ == spec_missing_rock_msg(old(self).spec_rock_id().unwrap()))
                        && final(data).world.interactables@ == st.interactables,
                }
            }),
    {
        match self {
            Overlay::Pause(p) => p.update(actions, data),
            Overlay::MineRock(m) => m.update(actions, mouse_in_rock, mouse_in_rock_enlarged, data),
            Overlay::RockBreak(g) => g.update(
                actions,
                mouse_in_rock,
                mouse_in_rock_enlarged,
                data,
            ),
        }
    }

    /// The draw pass, dispatched by kind.
    pub fn draw(&self, data: &GameData) -> (r: Result<DrawCmd, GameError>)
        ensures
            self.spec_draw_ok(data.world.interactables@) ==> r == Ok::<DrawCmd, GameError>(
                self.spec_draw_cmd(),
            ),
            !self.spec_draw_ok(data.world.interactables@) ==> (r matches Err(e) && e
                matches GameError::Draw(m) && m@ == spec_missing_rock_msg(
                self.spec_rock_id().unwrap(),
            )),
    {
        match self {
            Overlay::Pause(p) => p.draw(data),
            Overlay::MineRock(m) => m.draw(data),
            Overlay::RockBreak(g) => g.draw(data),
        }
    }

    /// Whether the layers beneath this overlay may still be drawn;
    /// semi-transparent overlays say yes.
    pub fn draw_below(&self) -> (r: bool)
        ensures
            r == self.spec_draw_below(),
    {
        match self {
            Overlay::Pause(p) => p.draw_below(),
            Overlay::MineRock(m) => m.draw_below(),
            Overlay::RockBreak(g) => g.draw_below(),
        }
    }
}

/// The position the draw pass starts from: the topmost overlay that occludes
/// what is beneath it, or the bottom of the stack when every overlay lets
/// the layers beneath show through.
pub open spec fn spec_draw_from(s: Seq<Overlay>) -> int
    decreases s.len(),
{
    if s.len() == 0 {
        0
    } else if !s.last().spec_draw_below() {
        s.len() - 1
    } else {
        spec_draw_from(s.drop_last())
    }
}

/// When position `j` holds an occluding overlay and everything above it is
/// transparent, the draw pass starts exactly at `j`.
pub proof fn lemma_draw_from_at(s: Seq<Overlay>, j: int)
    requires
        0 <= j < s.len(),
        !s[j].spec_draw_below(),
        forall|k: int| j < k < s.len() ==> (#[trigger] s[k]).spec_draw_below(),
    ensures
        spec_draw_from(s) == j,
    decreases s.len(),
{
    if j == s.len() - 1 {
    } else {
        assert(s.last().spec_draw_below());
        assert(s.drop_last()[j] == s[j]);
        assert(forall|k: int|
            j < k < s.drop_last().len() ==> (#[trigger] s.drop_last()[k]) == s[k]);
        lemma_draw_from_at(s.drop_last(), j);
    }
}

/// When every overlay is transparent, the whole stack is drawn, from the
/// bottom.
pub proof fn lemma_draw_from_all(s: Seq<Overlay>)
    requires
        forall|k: int| 0 <= k < s.len() ==> (#[trigger] s[k]).spec_draw_below(),
    ensures
        spec_draw_from(s) == 0,
    decreases s.len(),
{
    if s.len() == 0 {
    } else {
        assert(forall|k: int|
            0 <= k < s.drop_last().len() ==> (#[trigger] s.drop_last()[k]) == s[k]);
        lemma_draw_from_all(s.drop_last());
    }
}

/// Owns the ordered stack of overlays: the back of the sequence is the top,
/// the most recently pushed, and the only one receiving updates. Decides
/// which overlays (and whether the base state) are drawn, and in what
/// order.
#[derive(Debug)]
pub struct OverlayManager {
    pub overlays: Vec<Overlay>,
}

impl OverlayManager {
    pub fn new() -> (r: Self)
        ensures
            r.overlays@ =~= Seq::<Overlay>::empty(),
    {
        Self { overlays: Vec::new() }
    }

    /// Runs the overlay's one-time setup and, only on success, appends it to
    /// the stack. A failed setup leaves the stack exactly as it was: the
    /// push is atomic.
    pub fn push(&mut self, overlay: Overlay, data: &mut GameData) -> (r: Result<(), GameError>)
        ensures
            *final(data) == *old(data),
            overlay.spec_init_ok(old(data).world.interactables@) ==> r is Ok
                && final(self).overlays@ == old(self).overlays@.push(
                overlay.spec_inited(old(data).world.interactables@),
            ),
            !overlay.spec_init_ok(old(data).world.interactables@) ==> (r matches Err(e)
                && final(self).overlays@ == old(self).overlays@ && (e
                matches GameError::Initialization(m) && m@ == spec_missing_rock_msg(
                overlay.spec_rock_id().unwrap(),
            ))),
    {
        let mut overlay = overlay;
        match overlay.init(data) {
            Ok(_) => {
                self.overlays.push(overlay);
                Ok(())
            },
            Err(e) => Err(e),
        }
    }

    /// Removes and drops the top overlay; on an empty stack nothing
    /// happens. No lifecycle hook runs on pop itself: updates and draws
    /// simply stop being routed to the removed overlay.
    pub fn pop(&mut self)
        ensures
            old(self).overlays@.len() > 0 ==> final(self).overlays@ == old(
                self,
            ).overlays@.drop_last(),
            old(self).overlays@.len() == 0 ==> final(self).overlays@ == old(self).overlays@,
    {
        self.overlays.pop();
    }

    /// The top overlay: the most recently pushed one, if any.
    pub fn get_top(&self) -> (r: Option<&Overlay>)
        ensures
            match r {
                Some(o) => self.overlays@.len() > 0 && *o == self.overlays@.last(),
                None => self.overlays@.len() == 0,
            },
    {
        let n = self.overlays.len();
        if n == 0 {
            None
        } else {
            Some(&self.overlays[n - 1])
        }
    }

    /// Routes one update tick to the top overlay; `None` signals an empty
    /// stack, telling the caller to route the tick to the base game state
    /// instead. Only the top overlay ever receives the update.
    pub fn update(
        &mut self,
        actions: &Vec<Action>,
        mouse_in_rock: bool,
        mouse_in_rock_enlarged: bool,
        data: &mut GameData,
    ) -> (r: Option<Result<OverlayAction, GameError>>)
        requires
            old(self).overlays@.len() > 0 ==> old(self).overlays@.last().clicks_ok(),
        ensures
            old(self).overlays@.len() == 0 ==> r is None && *final(self) == *old(self)
                && *final(data) == *old(data),
            old(self).overlays@.len() > 0 ==> ({
                let st = old(self).overlays@.last().spec_update(
                    actions@,
                    mouse_in_rock,
                    mouse_in_rock_enlarged,
                    old(data).world.interactables@,
                );
                &&& final(self).overlays@ == old(self).overlays@.drop_last().push(st.ov)
                &&& final(data).control_handler == old(data).control_handler
                &&& final(data).control_reload_needed == old(data).control_reload_needed
                &&& final(data).world.player == old(data).world.player
                &&& match st.outcome {
                    OvOutcome::NoOp => r == Some(
                        Ok::<OverlayAction, GameError>(OverlayAction::NoOp),
                    ) && final(data).world.interactables@ == st.interactables,
                    OvOutcome::Exit => r == Some(
                        Ok::<OverlayAction, GameError>(OverlayAction::Exit),
                    ) && final(data).world.interactables@ == st.interactables,
                    OvOutcome::ExitBroken => r == Some(
                        Ok::<OverlayAction, GameError>(OverlayAction::Exit),
                    ) && respawned(
                        st.interactables,
                        final(data).world.interactables@,
                        old(self).overlays@.last().spec_rock_id().unwrap(),
                    ),
                    OvOutcome::MissingRock => (r matches Some(e2) && e2 matches Err(e) && e
                        matches GameError::Update(m) && m@ == spec_missing_rock_msg(
                        old(self).overlays@.last().spec_rock_id().unwrap(),
                    )) && final(data).world.interactables@ == st.interactables,
                }
            }),
    {
        let n = self.overlays.len();
        if n == 0 {
            return None;
        }
        let top = &mut self.overlays[n - 1];
        let res = top.update(actions, mouse_in_rock, mouse_in_rock_enlarged, data);
        proof {
            assert(self.overlays@ =~= old(self).overlays@.drop_last().push(
                self.overlays@[n - 1],
            ));
        }
        Some(res)
    }

    /// The number of overlays on the stack.
    pub fn len(&self) -> (r: usize)
        ensures
            r == self.overlays@.len(),
    {
        self.overlays.len()
    }

    /// Whether the base game state should be drawn this frame: true exactly
    /// when every overlay on the stack lets the layers beneath it show
    /// through; one occluding overlay anywhere hides the base state.
    pub fn should_draw_gamestate(&self) -> (r: bool)
        ensures
            r == (forall|k: int|
                0 <= k < self.overlays@.len() ==> (#[trigger] self.overlays@[k]).spec_draw_below()),
    {
        let mut i: usize = self.overlays.len();
        while i > 0
            invariant
                0 <= i <= self.overlays@.len(),
                forall|k: int|
                    i <= k < self.overlays@.len() ==> (#[trigger] self.overlays@[k]).spec_draw_below(),
            decreases i,
        {
            i = i - 1;
            if !self.overlays[i].draw_below() {
                return false;
            }
        }
        true
    }

    /// The draw pass: finds the topmost occluding overlay and renders from
    /// it upward, bottom-to-top (the occluding overlay itself is drawn, only
    /// the layers beneath it are skipped); with no occluding overlay, every
    /// overlay is drawn. The commands come back bottom-to-top; the first
    /// overlay whose draw fails stops the pass with its error.
    pub fn draw(&self, data: &GameData) -> (r: Result<Vec<DrawCmd>, GameError>)
        ensures
            ({
                let s = self.overlays@;
                let w = data.world.interactables@;
                let d = spec_draw_from(s);
                &&& (forall|k: int| d <= k < s.len() ==> (#[trigger] s[k]).spec_draw_ok(w))
                    ==> (r matches Ok(cmds) && cmds@.len() == s.len() - d && forall|k: int|
                    0 <= k < cmds@.len() ==> cmds@[k] == (#[trigger] s[d + k]).spec_draw_cmd())
                &&& !(forall|k: int| d <= k < s.len() ==> (#[trigger] s[k]).spec_draw_ok(w))
                    ==> (r matches Err(e) && exists|j: int|
                    d <= j < s.len() && !(#[trigger] s[j]).spec_draw_ok(w) && (forall|k: int|
                        d <= k < j ==> (#[trigger] s[k]).spec_draw_ok(w)) && (e
                        matches GameError::Draw(m) && m@ == spec_missing_rock_msg(
                        s[j].spec_rock_id().unwrap(),
                    )))
            }),
    {
        let n = self.overlays.len();
        let mut draw_from: usize = 0;
        let mut found = false;
        let mut j: usize = n;
        while j > 0 && !found
            invariant
                0 <= j <= n,
                n == self.overlays@.len(),
                !found ==> draw_from == 0,
                !found ==> forall|k: int|
                    j <= k < n ==> (#[trigger] self.overlays@[k]).spec_draw_below(),
                found ==> 0 <= draw_from < n && !self.overlays@[draw_from as int].spec_draw_below()
                    && forall|k: int|
                    draw_from < k < n ==> (#[trigger] self.overlays@[k]).spec_draw_below(),
            decreases j,
        {
            let jj = j - 1;
            if !self.overlays[jj].draw_below() {
                draw_from = jj;
                found = true;
            }
            j = jj;
        }
        proof {
            if found {
                lemma_draw_from_at(self.overlays@, draw_from as int);
            } else {
                lemma_draw_from_all(self.overlays@);
            }
            assert(spec_draw_from(self.overlays@) == draw_from as int);
        }
        let mut cmds: Vec<DrawCmd> = Vec::new();
        let mut i: usize = draw_from;
        while i < n
            invariant
                draw_from <= i <= n,
                n == self.overlays@.len(),
                draw_from as int == spec_draw_from(self.overlays@),
                cmds@.len() == i - draw_from,
                forall|k: int|
                    0 <= k < cmds@.len() ==> cmds@[k] == (#[trigger] self.overlays@[
                        draw_from + k
                    ]).spec_draw_cmd(),
                forall|k: int|
                    draw_from <= k < i ==> (#[trigger] self.overlays@[k]).spec_draw_ok(
                        data.world.interactables@,
                    ),
            decreases n - i,
        {
            match self.overlays[i].draw(data) {
                Ok(c) => {
                    cmds.push(c);
                },
                Err(e) => {
                    proof {
                        assert(!self.overlays@[i as int].spec_draw_ok(data.world.interactables@));
                    }
                    return Err(e);
                },
            }
            i += 1;
        }
        Ok(cmds)
    }
}

/// A stack operation, for stating the stack discipline as one law.
pub ghost enum StackOp {
    Push(Overlay),
    Pop,
}

/// The stack that results from applying `ops` in order to `init`: a push
/// appends its overlay at the top, a pop removes the top (and does nothing
/// on an empty stack).
pub open spec fn apply_stack_ops(init: Seq<Overlay>, ops: Seq<StackOp>) -> Seq<Overlay>
    decreases ops.len(),
{
    if ops.len() == 0 {
        init
    } else {
        let next = match ops[0] {
            StackOp::Push(o) => init.push(o),
            StackOp::Pop => if init.len() == 0 {
                init
            } else {
                init.drop_last()
            },
        };
        apply_stack_ops(next, ops.drop_first())
    }
}

/// How many of `ops` are pushes.
pub open spec fn count_pushes(ops: Seq<StackOp>) -> int
    decreases ops.len(),
{
    if ops.len() == 0 {
        0
    } else {
        (if ops[0] is Push {
            1int
        } else {
            0int
        }) + count_pushes(ops.drop_first())
    }
}

/// How many of `ops` are pops.
pub open spec fn count_pops(ops: Seq<StackOp>) -> int
    decreases ops.len(),
{
    if ops.len() == 0 {
        0
    } else {
        (if ops[0] is Pop {
            1int
        } else {
            0int
        }) + count_pops(ops.drop_first())
    }
}

/// The stack depth law, generalized over the starting stack: as long as no
/// prefix pops more than was available, applying N pushes and M pops leaves
/// exactly `init.len() + N - M` overlays.
pub proof fn lemma_stack_depth_from(init: Seq<Overlay>, ops: Seq<StackOp>)
    requires
        forall|k: int|
            0 <= k <= ops.len() ==> count_pops(#[trigger] ops.take(k)) <= init.len()
                + count_pushes(ops.take(k)),
    ensures
        apply_stack_ops(init, ops).len() == init.len() + count_pushes(ops) - count_pops(ops),
    decreases ops.len(),
{
    if ops.len() == 0 {
    } else {
        let rest = ops.drop_first();
        let next = match ops[0] {
            StackOp::Push(o) => init.push(o),
            StackOp::Pop => if init.len() == 0 {
                init
            } else {
                init.drop_last()
            },
        };
        assert(ops.take(1) =~= seq![ops[0]]);
        assert(ops.take(1).drop_first() =~= Seq::<StackOp>::empty());
        assert(count_pops(Seq::<StackOp>::empty()) == 0);
        assert(count_pushes(Seq::<StackOp>::empty()) == 0);
        assert(count_pops(ops.take(1)) == (if ops[0] is Pop {
            1int
        } else {
            0int
        }));
        assert(count_pushes(ops.take(1)) == (if ops[0] is Push {
            1int
        } else {
            0int
        }));
        if ops[0] is Pop {
            assert(init.len() >= 1);
        }
        assert forall|k: int|
            0 <= k <= rest.len() implies count_pops(#[trigger] rest.take(k)) <= next.len()
            + count_pushes(rest.take(k)) by {
            assert(ops.take(k + 1)[0] == ops[0]);
            assert(ops.take(k + 1).drop_first() =~= rest.take(k));
            assert(count_pops(ops.take(k + 1)) == (if ops[0] is Pop {
                1int
            } else {
                0int
            }) + count_pops(rest.take(k)));
            assert(count_pushes(ops.take(k + 1)) == (if ops[0] is Push {
                1int
            } else {
                0int
            }) + count_pushes(rest.take(k)));
        }
        lemma_stack_depth_from(next, rest);
    }
}

/// The stack depth law: for any sequence of pushes and pops in which every
/// prefix pops at most as much as it pushed, the depth of the stack built
/// from empty is exactly the number of pushes minus the number of pops.
pub proof fn lemma_stack_depth(ops: Seq<StackOp>)
    requires
        forall|k: int|
            0 <= k <= ops.len() ==> count_pops(#[trigger] ops.take(k)) <= count_pushes(
                ops.take(k),
            ),
    ensures
        apply_stack_ops(Seq::empty(), ops).len() == count_pushes(ops) - count_pops(ops),
{
    lemma_stack_depth_from(Seq::empty(), ops);
}

/// Applying a concatenation of operation sequences is applying them in
/// turn.
pub proof fn lemma_stack_ops_concat(init: Seq<Overlay>, s1: Seq<StackOp>, s2: Seq<StackOp>)
    ensures
        apply_stack_ops(init, s1 + s2) == apply_stack_ops(apply_stack_ops(init, s1), s2),
    decreases s1.len(),
{
    if s1.len() == 0 {
        assert(s1 + s2 =~= s2);
    } else {
        let next = match s1[0] {
            StackOp::Push(o) => init.push(o),
            StackOp::Pop => if init.len() == 0 {
                init
            } else {
                init.drop_last()
            },
        };
        assert((s1 + s2)[0] == s1[0]);
        assert((s1 + s2).drop_first() =~= s1.drop_first() + s2);
        lemma_stack_ops_concat(next, s1.drop_first(), s2);
    }
}

/// The top of the stack is always the most recently pushed overlay that has
/// not been popped: a push puts its overlay at the top, and a pop right
/// after removes exactly it, restoring the stack below.
pub proof fn lemma_stack_push_pop(init: Seq<Overlay>, ops: Seq<StackOp>, o: Overlay)
    ensures
        apply_stack_ops(init, ops.push(StackOp::Push(o))) == apply_stack_ops(init, ops).push(o),
        apply_stack_ops(init, ops.push(StackOp::Push(o)).push(StackOp::Pop)) == apply_stack_ops(
            init,
            ops,
        ),
{
    let base = apply_stack_ops(init, ops);
    lemma_stack_ops_concat(init, ops, seq![StackOp::Push(o)]);
    assert(ops.push(StackOp::Push(o)) =~= ops + seq![StackOp::Push(o)]);
    assert(seq![StackOp::Push(o)].drop_first() =~= Seq::<StackOp>::empty());
    assert(apply_stack_ops(base.push(o), Seq::<StackOp>::empty()) == base.push(o));
    assert(apply_stack_ops(base, seq![StackOp::Push(o)]) == base.push(o));
    lemma_stack_ops_concat(init, ops.push(StackOp::Push(o)), seq![StackOp::Pop]);
    assert(ops.push(StackOp::Push(o)).push(StackOp::Pop) =~= ops.push(StackOp::Push(o)) + seq![
        StackOp::Pop,
    ]);
    assert(seq![StackOp::Pop].drop_first() =~= Seq::<StackOp>::empty());
    assert(base.push(o).len() > 0);
    assert(apply_stack_ops(base.push(o).drop_last(), Seq::<StackOp>::empty()) == base.push(
        o,
    ).drop_last());
    assert(apply_stack_ops(base.push(o), seq![StackOp::Pop]) == base.push(o).drop_last());
    assert(base.push(o).drop_last() =~= base);
}

} // verus!

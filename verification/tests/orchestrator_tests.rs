use monkey_business::controls::Action;
use monkey_business::controls::ControlHandler;
use monkey_business::gamedata::GameData;
use monkey_business::gamestate::GameState;
use monkey_business::gamestate::PauseGS;
use monkey_business::gamestate::PlayingGS;
use monkey_business::gamestate::StateTag;
use monkey_business::orchestrator::LifeEvent;
use monkey_business::orchestrator::Orchestrator;
use monkey_business::orchestrator::TickInput;
use monkey_business::overlay::MineRock;
use monkey_business::overlay::Overlay;
use monkey_business::overlay::OverlayManager;
use monkey_business::overlay::OverlayTag;
use monkey_business::world::InteractableAttribute;
use monkey_business::world::PlayerFacing;
use monkey_business::world::World;

fn data() -> GameData {
    GameData::new(ControlHandler::default(), World::new())
}

fn playing() -> Orchestrator {
    Orchestrator::new(GameState::Playing(*PlayingGS::new().unwrap()))
}

fn input(actions: Vec<Action>) -> TickInput {
    TickInput {
        actions,
        clicked_interactable: None,
        mouse_in_rock: false,
        mouse_in_rock_enlarged: false,
    }
}

#[test]
fn a_quiet_tick_updates_and_draws_the_base_state() {
    let mut data = data();
    let mut orch = playing();
    let out = orch.tick(&input(vec![]), &mut data).unwrap();
    assert_eq!(out.events, vec![
        LifeEvent::PersistentUpdate(StateTag::Playing),
        LifeEvent::Update(StateTag::Playing),
    ]);
    assert!(out.base_draw.is_some());
    assert!(out.overlay_draws.is_empty());
    assert_eq!(out.movement.dx, 0);
    assert_eq!(out.movement.dy, 0);
}

#[test]
fn movement_accumulates_and_steers_facing() {
    let mut data = data();
    let mut orch = playing();
    let out = orch.tick(&input(vec![Action::MoveDown, Action::MoveLeft]), &mut data).unwrap();
    assert_eq!(out.movement.dx, -1);
    assert_eq!(out.movement.dy, 1);
    assert_eq!(data.world.player.facing, PlayerFacing::DownLeft);
}

#[test]
fn pause_then_resume_round_trip() {
    // End-to-end: the playing state asks for the pause overlay; the next
    // tick goes to the overlay (never the base state's plain update); its
    // exit pops it and restores the base state; the tick after that the
    // base state updates normally again.
    let mut data = data();
    let mut orch = playing();

    let out = orch.tick(&input(vec![Action::Pause]), &mut data).unwrap();
    assert_eq!(out.events, vec![
        LifeEvent::PersistentUpdate(StateTag::Playing),
        LifeEvent::Update(StateTag::Playing),
        LifeEvent::Pause(StateTag::Playing),
        LifeEvent::OverlayInit(OverlayTag::Pause),
    ]);
    assert_eq!(orch.manager.len(), 1);
    // the pause tint is transparent: the base state still draws under it
    assert!(out.base_draw.is_some());
    assert_eq!(out.overlay_draws.len(), 1);

    let out = orch.tick(&input(vec![Action::Pause]), &mut data).unwrap();
    assert_eq!(out.events, vec![
        LifeEvent::PersistentUpdate(StateTag::Playing),
        LifeEvent::OverlayUpdate(OverlayTag::Pause),
        LifeEvent::OverlayPop(OverlayTag::Pause),
        LifeEvent::Restore(StateTag::Playing),
    ]);
    assert_eq!(orch.manager.len(), 0);
    assert!(data.control_reload_needed);

    let out = orch.tick(&input(vec![]), &mut data).unwrap();
    assert!(out.events.contains(&LifeEvent::Update(StateTag::Playing)));
}

#[test]
fn overlays_claim_the_update_tick() {
    // While the stack is non-empty the base state's plain update is never
    // called that tick; only the persistent update runs on it.
    let mut data = data();
    let mut orch = playing();
    orch.tick(&input(vec![Action::Pause]), &mut data).unwrap();
    let out = orch.tick(&input(vec![Action::MoveUp]), &mut data).unwrap();
    for e in &out.events {
        assert!(!matches!(e, LifeEvent::Update(_)));
    }
    assert_eq!(out.events[1], LifeEvent::OverlayUpdate(OverlayTag::Pause));
    // the overlay swallowed the movement
    assert_eq!(out.movement.dx, 0);
    assert_eq!(out.movement.dy, 0);
}

#[test]
fn change_state_brackets_pause_then_restore() {
    // For a ChangeState from S1 to S2, the calls observed are exactly
    // S1.pause then S2.restore, with nothing between them.
    let mut data = data();
    let previous = *PlayingGS::new().unwrap();
    let mut orch = Orchestrator::new(GameState::Pause(PauseGS::new(previous)));
    let out = orch.tick(&input(vec![Action::Pause]), &mut data).unwrap();
    assert_eq!(out.events, vec![
        LifeEvent::PersistentUpdate(StateTag::Pause),
        LifeEvent::Update(StateTag::Pause),
        LifeEvent::Pause(StateTag::Pause),
        LifeEvent::Restore(StateTag::Playing),
    ]);
    assert!(matches!(orch.base, GameState::Playing(_)));
    assert!(data.control_reload_needed);
}

#[test]
fn interacting_with_a_rock_opens_mining_through_the_orchestrator() {
    let mut data = data();
    let mut orch = playing();
    let mut tick_input = input(vec![Action::Interact]);
    tick_input.clicked_interactable = Some(3);
    let out = orch.tick(&tick_input, &mut data).unwrap();
    assert_eq!(out.events, vec![
        LifeEvent::PersistentUpdate(StateTag::Playing),
        LifeEvent::Update(StateTag::Playing),
        LifeEvent::Pause(StateTag::Playing),
        LifeEvent::OverlayInit(OverlayTag::MineRock),
    ]);
    assert_eq!(orch.manager.len(), 1);
}

#[test]
fn mined_clicks_survive_the_overlay_exit() {
    // A rock's clicks attribute keeps whatever value the mining overlay
    // set during its lifetime; exiting the overlay resets nothing.
    let mut data = data();
    let mut manager = OverlayManager::new();
    assert!(manager.push(Overlay::MineRock(*MineRock::new(3).unwrap()), &mut data).is_ok());
    let mut orch = Orchestrator { base: GameState::Playing(*PlayingGS::new().unwrap()), manager };

    // three clicks on the rock
    let mut click = input(vec![Action::UIClick]);
    click.mouse_in_rock = true;
    click.mouse_in_rock_enlarged = true;
    for _ in 0..3 {
        orch.tick(&click, &mut data).unwrap();
    }
    match data.world.get_interactable_by_id(3).unwrap().get_attribute("clicks") {
        Some(InteractableAttribute::UInt(c)) => assert_eq!(c, 3),
        _ => panic!("expected the click count"),
    }

    // exit the overlay; the attribute keeps its value
    let out = orch.tick(&input(vec![Action::Pause]), &mut data).unwrap();
    assert!(out.events.contains(&LifeEvent::OverlayPop(OverlayTag::MineRock)));
    assert_eq!(orch.manager.len(), 0);
    match data.world.get_interactable_by_id(3).unwrap().get_attribute("clicks") {
        Some(InteractableAttribute::UInt(c)) => assert_eq!(c, 3),
        _ => panic!("expected the click count"),
    }
}

#[test]
fn sprint_holds_or_toggles_with_the_mode() {
    let mut data = data();
    let mut orch = playing();
    // hold mode: sprint is re-armed each tick
    orch.tick(&input(vec![Action::Sprint]), &mut data).unwrap();
    assert!(data.world.player.sprinting);
    orch.tick(&input(vec![]), &mut data).unwrap();
    assert!(!data.world.player.sprinting);
    // toggle mode: sprint sticks until toggled again
    data.control_handler.set_sprint_toggle(true);
    orch.tick(&input(vec![Action::Sprint]), &mut data).unwrap();
    assert!(data.world.player.sprinting);
    orch.tick(&input(vec![]), &mut data).unwrap();
    assert!(data.world.player.sprinting);
    orch.tick(&input(vec![Action::Sprint]), &mut data).unwrap();
    assert!(!data.world.player.sprinting);
}

#[test]
fn the_debug_readout_toggles_and_shows_in_the_draw_plan() {
    let mut data = data();
    let mut orch = playing();
    let out = orch.tick(&input(vec![Action::Debug]), &mut data).unwrap();
    let draw = out.base_draw.unwrap();
    assert!(draw.show_debug);
    assert!(draw.show_tooltips);
    assert!(!draw.pause_shade);
    let out = orch.tick(&input(vec![Action::Debug]), &mut data).unwrap();
    assert!(!out.base_draw.unwrap().show_debug);
}

#[test]
fn tooltips_hide_while_paused() {
    let mut data = data();
    let mut orch = playing();
    orch.tick(&input(vec![Action::Pause]), &mut data).unwrap();
    let out = orch.tick(&input(vec![]), &mut data).unwrap();
    let draw = out.base_draw.unwrap();
    assert!(!draw.show_tooltips);
}

#[test]
fn a_fully_occluding_overlay_hides_the_base_state_in_the_tick_plan() {
    let mut data = data();
    let mut orch = playing();
    let mut tick_input = input(vec![Action::Interact]);
    // the example rock opens the fully occluding mini-game
    data.world.add_interactable(
        monkey_business::world::Interactable::new(
            30,
            "Rock Pile".to_string(),
            monkey_business::world::InteractableKind::ExampleRock,
        ),
    );
    tick_input.clicked_interactable = Some(30);
    let out = orch.tick(&tick_input, &mut data).unwrap();
    assert!(out.events.contains(&LifeEvent::OverlayInit(OverlayTag::RockBreak)));
    let out = orch.tick(&input(vec![]), &mut data).unwrap();
    assert!(out.base_draw.is_none());
    assert_eq!(out.overlay_draws.len(), 1);
}

#[test]
fn a_tick_fails_when_a_drawn_rock_is_gone() {
    let mut data = data();
    let mut manager = OverlayManager::new();
    assert!(manager.push(Overlay::MineRock(*MineRock::new(2).unwrap()), &mut data).is_ok());
    let mut orch = Orchestrator { base: GameState::Playing(*PlayingGS::new().unwrap()), manager };
    // the mined rock vanishes out from under the overlay
    assert!(data.world.break_interactable(2).is_ok());
    match orch.tick(&input(vec![]), &mut data) {
        Err(e) => assert_eq!(e.message(), "Rock with id 2 not found"),
        Ok(_) => panic!("expected the draw pass to fail"),
    }
}

#[test]
fn pop_requests_on_an_empty_stack_do_nothing() {
    let mut data = data();
    let mut orch = playing();
    let mut events = Vec::new();
    assert!(orch
        .apply_action(
            monkey_business::gamestate::GameStateAction::PopTopState,
            &mut data,
            &mut events,
        )
        .is_ok());
    assert!(events.is_empty());
    assert_eq!(orch.manager.len(), 0);
}

use monkey_business::controls::Action;
use monkey_business::controls::ControlHandler;
use monkey_business::error::GameError;
use monkey_business::gamedata::GameData;
use monkey_business::overlay::DrawCmd;
use monkey_business::overlay::ExampleRockBreakGameGS;
use monkey_business::overlay::MineRock;
use monkey_business::overlay::Overlay;
use monkey_business::overlay::OverlayAction;
use monkey_business::overlay::OverlayManager;
use monkey_business::overlay::PauseOverlay;
use monkey_business::world::InteractableAttribute;
use monkey_business::world::World;

fn data() -> GameData {
    GameData::new(ControlHandler::default(), World::new())
}

#[test]
fn stack_depth_is_pushes_minus_pops() {
    // For any run of pushes and pops that never over-pops, the depth is
    // the number of pushes minus the number of pops, and the top is the
    // most recently pushed overlay that has not been popped.
    let mut data = data();
    let mut manager = OverlayManager::new();
    assert_eq!(manager.len(), 0);
    assert!(manager.push(Overlay::Pause(PauseOverlay::new()), &mut data).is_ok());
    assert!(manager.push(Overlay::MineRock(*MineRock::new(1).unwrap()), &mut data).is_ok());
    assert!(manager.push(Overlay::MineRock(*MineRock::new(2).unwrap()), &mut data).is_ok());
    assert_eq!(manager.len(), 3);
    match manager.get_top() {
        Some(Overlay::MineRock(m)) => assert_eq!(m.rock_id, 2),
        _ => panic!("expected the last pushed overlay on top"),
    }
    manager.pop();
    assert_eq!(manager.len(), 2);
    match manager.get_top() {
        Some(Overlay::MineRock(m)) => assert_eq!(m.rock_id, 1),
        _ => panic!("expected the previously pushed overlay on top"),
    }
    manager.pop();
    manager.pop();
    assert_eq!(manager.len(), 0);
    manager.pop();
    assert_eq!(manager.len(), 0);
}

#[test]
fn base_state_is_hidden_exactly_when_an_overlay_occludes() {
    // should_draw_gamestate is false if and only if some stacked overlay
    // refuses to draw what is beneath it.
    let mut data = data();
    let mut manager = OverlayManager::new();
    assert!(manager.should_draw_gamestate());
    assert!(manager.push(Overlay::Pause(PauseOverlay::new()), &mut data).is_ok());
    assert!(manager.should_draw_gamestate());
    assert!(manager.push(Overlay::RockBreak(*ExampleRockBreakGameGS::new(0).unwrap()), &mut data).is_ok());
    assert!(!manager.should_draw_gamestate());
    assert!(manager.push(Overlay::Pause(PauseOverlay::new()), &mut data).is_ok());
    assert!(!manager.should_draw_gamestate());
    manager.pop();
    manager.pop();
    assert!(manager.should_draw_gamestate());
}

#[test]
fn draw_starts_at_the_topmost_occluding_overlay() {
    // For a stack [transparent, occluding, transparent] the base state is
    // not drawn, and the draw pass is exactly the occluding overlay and
    // the one above it, bottom to top.
    let mut data = data();
    let mut manager = OverlayManager::new();
    assert!(manager.push(Overlay::Pause(PauseOverlay::new()), &mut data).is_ok());
    assert!(manager.push(Overlay::RockBreak(*ExampleRockBreakGameGS::new(0).unwrap()), &mut data).is_ok());
    assert!(manager.push(Overlay::Pause(PauseOverlay::new()), &mut data).is_ok());
    assert!(!manager.should_draw_gamestate());
    let cmds = manager.draw(&data).unwrap();
    assert_eq!(cmds.len(), 2);
    assert!(matches!(cmds[0], DrawCmd::RockBreakScene { rock_id: 0, .. }));
    assert!(matches!(cmds[1], DrawCmd::PauseShade));
}

#[test]
fn fully_transparent_stack_draws_everything() {
    let mut data = data();
    let mut manager = OverlayManager::new();
    assert!(manager.push(Overlay::Pause(PauseOverlay::new()), &mut data).is_ok());
    assert!(manager.push(Overlay::MineRock(*MineRock::new(3).unwrap()), &mut data).is_ok());
    assert!(manager.should_draw_gamestate());
    let cmds = manager.draw(&data).unwrap();
    assert_eq!(cmds.len(), 2);
    assert!(matches!(cmds[0], DrawCmd::PauseShade));
    assert!(matches!(cmds[1], DrawCmd::MineRockScene { rock_id: 3, enlarged: false }));
}

#[test]
fn failed_init_leaves_the_stack_unchanged() {
    // Push atomicity: when the overlay's one-time setup fails, the stack
    // length after the call equals the length before it.
    let mut data = data();
    let mut manager = OverlayManager::new();
    assert!(manager.push(Overlay::Pause(PauseOverlay::new()), &mut data).is_ok());
    let before = manager.len();
    let r = manager.push(Overlay::MineRock(*MineRock::new(77).unwrap()), &mut data);
    match r {
        Err(GameError::Initialization(m)) => {
            assert_eq!(m, "Rock with id 77 not found");
        },
        _ => panic!("expected the setup to fail"),
    }
    assert_eq!(manager.len(), before);
}

#[test]
fn mining_init_snapshots_the_rock_clicks() {
    let mut data = data();
    data.world.interactables[2].clicks = 5;
    let mut overlay = *MineRock::new(2).unwrap();
    assert!(overlay.init(&mut data).is_ok());
    assert_eq!(overlay.clicks, 5);
}

#[test]
fn mining_clicks_write_through_to_the_rock() {
    let mut data = data();
    let mut overlay = *MineRock::new(1).unwrap();
    assert!(overlay.init(&mut data).is_ok());
    let actions = vec![Action::UIClick];
    let r = overlay.update(&actions, true, true, &mut data).unwrap();
    assert!(matches!(r, OverlayAction::NoOp));
    assert_eq!(overlay.clicks, 1);
    match data.world.get_interactable_by_id(1).unwrap().get_attribute("clicks") {
        Some(InteractableAttribute::UInt(c)) => assert_eq!(c, 1),
        _ => panic!("expected the click count"),
    }
}

#[test]
fn clicks_off_the_rock_change_nothing() {
    let mut data = data();
    let mut overlay = *MineRock::new(1).unwrap();
    assert!(overlay.init(&mut data).is_ok());
    let actions = vec![Action::UIClick, Action::BasicAttack];
    let r = overlay.update(&actions, false, false, &mut data).unwrap();
    assert!(matches!(r, OverlayAction::NoOp));
    assert_eq!(overlay.clicks, 0);
}

#[test]
fn sixteen_clicks_break_the_rock_and_respawn_it() {
    let mut data = data();
    let mut overlay = *MineRock::new(1).unwrap();
    assert!(overlay.init(&mut data).is_ok());
    let actions = vec![Action::UIClick];
    for _ in 0..15 {
        let r = overlay.update(&actions, true, true, &mut data).unwrap();
        assert!(matches!(r, OverlayAction::NoOp));
    }
    assert_eq!(overlay.clicks, 15);
    let r = overlay.update(&actions, true, true, &mut data).unwrap();
    assert!(matches!(r, OverlayAction::Exit));
    // the rock was broken and a fresh pile respawned under the same key
    assert_eq!(data.world.interactables.len(), 5);
    let fresh = data.world.interactables.last().unwrap();
    assert_eq!(fresh.get_id(), 1);
    assert_eq!(fresh.clicks, 0);
    assert_eq!(fresh.get_name(), "Rock Pile");
}

#[test]
fn the_example_mini_game_breaks_at_ten_clicks() {
    let mut data = data();
    let mut overlay = *ExampleRockBreakGameGS::new(0).unwrap();
    assert!(overlay.init(&mut data).is_ok());
    let actions = vec![Action::UIClick];
    for _ in 0..9 {
        assert!(matches!(overlay.update(&actions, true, true, &mut data).unwrap(), OverlayAction::NoOp));
    }
    assert!(matches!(overlay.update(&actions, true, true, &mut data).unwrap(), OverlayAction::Exit));
}

#[test]
fn mining_a_vanished_rock_is_an_update_error() {
    let mut data = data();
    let mut overlay = *MineRock::new(1).unwrap();
    assert!(overlay.init(&mut data).is_ok());
    assert!(data.world.break_interactable(1).is_ok());
    let actions = vec![Action::UIClick];
    match overlay.update(&actions, true, true, &mut data) {
        Err(GameError::Update(m)) => assert_eq!(m, "Rock with id 1 not found"),
        _ => panic!("expected the rock to be missing"),
    }
}

#[test]
fn drawing_a_vanished_rock_is_a_draw_error() {
    let mut data = data();
    let overlay = *MineRock::new(1).unwrap();
    assert!(data.world.break_interactable(1).is_ok());
    match overlay.draw(&data) {
        Err(GameError::Draw(m)) => assert_eq!(m, "Rock with id 1 not found"),
        _ => panic!("expected the rock to be missing"),
    }
}

#[test]
fn pause_overlay_exits_on_the_pause_action() {
    let mut data = data();
    let mut overlay = PauseOverlay::new();
    let quiet: Vec<Action> = vec![Action::MoveUp];
    assert!(matches!(overlay.update(&quiet, &mut data).unwrap(), OverlayAction::NoOp));
    let pausing = vec![Action::Pause];
    assert!(matches!(overlay.update(&pausing, &mut data).unwrap(), OverlayAction::Exit));
}

#[test]
fn an_attack_on_the_rock_enlarges_it_for_the_next_check() {
    let mut data = data();
    let mut overlay = *MineRock::new(1).unwrap();
    assert!(overlay.init(&mut data).is_ok());
    // the attack hits the small rock; the following click only hits the
    // enlarged one, which is exactly what the second flag models
    let actions = vec![Action::BasicAttack, Action::UIClick];
    let r = overlay.update(&actions, true, true, &mut data).unwrap();
    assert!(matches!(r, OverlayAction::NoOp));
    assert_eq!(overlay.clicks, 1);
    let mut overlay2 = *MineRock::new(2).unwrap();
    assert!(overlay2.init(&mut data).is_ok());
    // enlarged-only pointer: the attack misses the small rock, so the
    // click is checked against the small size and misses too
    let r = overlay2.update(&actions, false, true, &mut data).unwrap();
    assert!(matches!(r, OverlayAction::NoOp));
    assert_eq!(overlay2.clicks, 0);
}

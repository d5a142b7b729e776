use monkey_business::error::GameError;
use monkey_business::gamestate::GameStateAction;
use monkey_business::overlay::Overlay;
use monkey_business::popup::PopupCard;
use monkey_business::popup::PopupLocation;
use monkey_business::tooltip::ToolTipCard;
use monkey_business::util::parse_ansi;
use monkey_business::util::remove_ansii_escape_codes;
use monkey_business::util::Rgba;
use monkey_business::util::str_eq;
use monkey_business::util::u32_to_string;
use monkey_business::world::Interactable;
use monkey_business::world::InteractableAttribute;
use monkey_business::world::InteractableKind;
use monkey_business::world::World;

#[test]
fn new_world_holds_five_rock_piles() {
    let world = World::new();
    assert_eq!(world.interactables.len(), 5);
    for (i, rock) in world.interactables.iter().enumerate() {
        assert_eq!(rock.get_id(), i as u32);
        assert_eq!(rock.get_name(), "Rock Pile");
        assert_eq!(rock.kind, InteractableKind::Rock);
        assert_eq!(rock.clicks, 0);
    }
    assert!(!world.player.sprinting);
}

#[test]
fn lookup_by_id_finds_the_first_match() {
    let world = World::new();
    assert!(world.get_interactable_by_id(3).is_some());
    assert_eq!(world.get_interactable_by_id(3).unwrap().get_id(), 3);
    assert!(world.get_interactable_by_id(99).is_none());
    assert_eq!(world.find_interactable(0), Some(0));
    assert_eq!(world.find_interactable(42), None);
}

#[test]
fn clicks_attribute_reads_and_writes() {
    let mut rock = Interactable::new(7, "Rock Pile".to_string(), InteractableKind::Rock);
    match rock.get_attribute("clicks") {
        Some(InteractableAttribute::UInt(c)) => assert_eq!(c, 0),
        _ => panic!("expected the click count"),
    }
    assert!(rock.set_attribute("clicks", InteractableAttribute::UInt(9)).is_ok());
    match rock.get_attribute("clicks") {
        Some(InteractableAttribute::UInt(c)) => assert_eq!(c, 9),
        _ => panic!("expected the click count"),
    }
    assert!(rock.get_attribute("color").is_none());
}

#[test]
fn unknown_attribute_writes_are_rejected_with_messages() {
    let mut rock = Interactable::new(7, "Rock Pile".to_string(), InteractableKind::Rock);
    let err = rock.set_attribute("size", InteractableAttribute::UInt(1)).unwrap_err();
    assert_eq!(err, "Unknown attribute: size");
    let err = rock.set_attribute("clicks", InteractableAttribute::Bool(true)).unwrap_err();
    assert_eq!(err, "Invalid type for attribute clicks: expected UInt");
}

#[test]
fn break_interactable_removes_by_id() {
    let mut world = World::new();
    assert!(world.break_interactable(2).is_ok());
    assert_eq!(world.interactables.len(), 4);
    assert!(world.get_interactable_by_id(2).is_none());
    let err = world.break_interactable(2).unwrap_err();
    assert_eq!(err, "Failed to find interactable with id: 2");
}

#[test]
fn add_interactable_appends() {
    let mut world = World::new();
    world.add_interactable(Interactable::new(40, "Rock Pile".to_string(), InteractableKind::Rock));
    assert_eq!(world.interactables.len(), 6);
    assert_eq!(world.interactables.last().unwrap().get_id(), 40);
}

#[test]
fn interacting_with_a_rock_opens_the_mining_overlay() {
    let world = World::new();
    let rock = world.get_interactable_by_id(4).unwrap();
    match rock.interact() {
        Ok(GameStateAction::SpawnOverlay(Overlay::MineRock(m))) => {
            assert_eq!(m.rock_id, 4);
            assert_eq!(m.clicks, 0);
        },
        _ => panic!("expected the mining overlay"),
    }
}

#[test]
fn interacting_with_an_example_rock_pushes_the_mini_game() {
    let rock = Interactable::new(8, "Rock Pile".to_string(), InteractableKind::ExampleRock);
    match rock.interact() {
        Ok(GameStateAction::PushTopState(Overlay::RockBreak(g))) => {
            assert_eq!(g.rock_id, 8);
        },
        _ => panic!("expected the mini-game overlay"),
    }
}

#[test]
fn tooltip_card_splits_title_and_lines() {
    let card = ToolTipCard::from_string("Rock Pile\nPress E to interact.\nShiny!");
    assert_eq!(card.title, "Rock Pile");
    assert_eq!(card.lines, vec!["Press E to interact.".to_string(), "Shiny!".to_string()]);
    let bare = ToolTipCard::from_string("Just a title");
    assert_eq!(bare.title, "Just a title");
    assert!(bare.lines.is_empty());
}

#[test]
fn popup_card_keeps_its_parts() {
    let card = PopupCard::new(
        "Hello".to_string(),
        vec!["line".to_string()],
        PopupLocation::BottomRight,
    );
    assert_eq!(card.title, "Hello");
    assert_eq!(card.lines.len(), 1);
    assert!(matches!(card.location, PopupLocation::BottomRight));
}

#[test]
fn decimal_rendering_is_exact() {
    assert_eq!(u32_to_string(0), "0");
    assert_eq!(u32_to_string(7), "7");
    assert_eq!(u32_to_string(42), "42");
    assert_eq!(u32_to_string(1000), "1000");
    assert_eq!(u32_to_string(u32::MAX), "4294967295");
}

#[test]
fn ansi_codes_are_stripped() {
    assert_eq!(remove_ansii_escape_codes("\u{1b}[33mhi\u{1b}[0m!"), "hi!");
    assert_eq!(remove_ansii_escape_codes("plain"), "plain");
    assert_eq!(remove_ansii_escape_codes("\u{1b}[38;2;1;2;3mx"), "x");
    assert_eq!(remove_ansii_escape_codes(""), "");
}

#[test]
fn string_equality_checks_characters() {
    assert!(str_eq("clicks", "clicks"));
    assert!(!str_eq("clicks", "click"));
    assert!(!str_eq("a", "b"));
    assert!(str_eq("", ""));
}

#[test]
fn error_messages_come_back_whole() {
    let e = GameError::Initialization("missing resource".to_string());
    assert_eq!(e.message(), "missing resource");
    let e = GameError::Update("bad tick".to_string());
    assert_eq!(e.message(), "bad tick");
    let e = GameError::Draw("bad frame".to_string());
    assert_eq!(e.message(), "bad frame");
}

#[test]
fn ansi_parsing_colors_each_character() {
    let white = Rgba { r: 255, g: 255, b: 255, a: 255 };
    let yellow = Rgba { r: 0xFF, g: 0xAA, b: 0x00, a: 255 };

    let lines = parse_ansi("hi");
    assert_eq!(lines.len(), 1);
    assert_eq!(lines[0].len(), 2);
    assert_eq!(lines[0][0].text, "h");
    assert_eq!(lines[0][0].color, white);

    let lines = parse_ansi("\u{1b}[33mab\u{1b}[0mc");
    assert_eq!(lines.len(), 1);
    assert_eq!(lines[0].len(), 3);
    assert_eq!(lines[0][0].color, yellow);
    assert_eq!(lines[0][1].color, yellow);
    assert_eq!(lines[0][2].color, white);

    // the 24-bit form picks its channels; a later palette code overrides
    let lines = parse_ansi("\u{1b}[38;2;9;8;7mx");
    assert_eq!(lines[0][0].color, Rgba { r: 9, g: 8, b: 7, a: 255 });

    // newlines split lines; a trailing empty line is dropped
    let lines = parse_ansi("a\nb\n");
    assert_eq!(lines.len(), 2);
    assert_eq!(lines[0][0].text, "a");
    assert_eq!(lines[1][0].text, "b");

    // an unterminated escape swallows the rest
    let lines = parse_ansi("a\u{1b}[33");
    assert_eq!(lines.len(), 1);
    assert_eq!(lines[0].len(), 1);

    // unknown codes and unparsable segments change nothing
    let lines = parse_ansi("\u{1b}[notacode;33mz");
    assert_eq!(lines[0][0].color, yellow);
}

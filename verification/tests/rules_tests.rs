use rts::cli::parse_arg;
use rts::codec::{decode_frame_len, encode_frame, frame_header, FrameError};
use rts::components::{calc_damage, Health as ClientHealth, Team as ClientTeam, UnitKind as PaletteKind, UnitKindId};
use rts::in_game::{
    check_game_result, count_food, food_of_units, game_result_of, is_building_kind, is_worker_kind, unit_kind_str,
    pause_step, GameResult, PauseStep,
};
use rts::input::Input;
use rts::msg::{DEFAULT_PORT, MAX_MSG_SIZE, PROTOCOL_VERSION};
use rts::multiplayer::{is_building, is_worker};
use rts::systems::{apply_hit, attack_hit};
use rts::text::str_eq;

#[test]
fn protocol_constants() {
    assert_eq!(DEFAULT_PORT, 7777);
    assert_eq!(PROTOCOL_VERSION, 1);
    assert_eq!(MAX_MSG_SIZE, 10 * 1024 * 1024);
}

#[test]
fn frame_roundtrip() {
    let body = b"{\"a\":1}".to_vec();
    let f = encode_frame(&body);
    assert_eq!(&f[..4], &[0, 0, 0, 7]);
    assert_eq!(&f[4..], &body[..]);
    assert_eq!(decode_frame_len([f[0], f[1], f[2], f[3]]), Ok(7));
    assert_eq!(frame_header(0x0102_0304), [1, 2, 3, 4]);
}

#[test]
fn oversized_frame_refused() {
    assert_eq!(decode_frame_len(frame_header(MAX_MSG_SIZE)), Ok(MAX_MSG_SIZE));
    assert_eq!(decode_frame_len(frame_header(MAX_MSG_SIZE + 1)), Err(FrameError::TooLarge(10485761)));
    assert_eq!(decode_frame_len([255, 255, 255, 255]), Err(FrameError::TooLarge(u32::MAX)));
}

#[test]
fn damage_formula() {
    assert_eq!(calc_damage(10, 3, 4), 9);
    assert_eq!(calc_damage(2, 0, 5), 1);
    assert_eq!(calc_damage(2, 6, 5), 7);
    assert_eq!(attack_hit(0, 0, 3), 1);
    assert_eq!(attack_hit(8, 4, 2), 10);
    assert_eq!(apply_hit(10, 4), 6);
    assert_eq!(apply_hit(3, 4), 0);
}

#[test]
fn entity_classes() {
    assert!(is_building_kind("pig_farm"));
    assert!(is_building_kind("oil_platform"));
    assert!(!is_building_kind("grunt"));
    assert!(is_worker_kind("peon"));
    assert!(!is_worker_kind("grunt"));
    assert!(is_building("altar"));
    assert!(!is_building("keep"));
    assert!(is_worker("peasant"));
    assert_eq!(unit_kind_str(PaletteKind::TownHall), "town_hall");
    assert_eq!(unit_kind_str(PaletteKind::Catapult), "catapult");
}

#[test]
fn single_player_result() {
    assert_eq!(game_result_of(&vec![(1, 5)]), Some(GameResult::Lose));
    assert_eq!(game_result_of(&vec![(0, 5), (1, 0)]), Some(GameResult::Win));
    assert_eq!(game_result_of(&vec![(0, 5), (1, 2)]), None);
    let mut w = hecs::World::new();
    w.spawn((ClientTeam(0), ClientHealth::new(3)));
    assert_eq!(check_game_result(&mut w), Some(GameResult::Win));
    w.spawn((ClientTeam(1), ClientHealth::new(3)));
    assert_eq!(check_game_result(&mut w), None);
}

#[test]
fn food_counts() {
    let units = vec![
        (0u8, "farm".to_string()),
        (0, "town_hall".to_string()),
        (0, "peon".to_string()),
        (0, "barracks".to_string()),
        (1, "farm".to_string()),
        (1, "grunt".to_string()),
    ];
    assert_eq!(food_of_units(&units), (1, 9));
    assert_eq!(food_of_units(&vec![(0, "grunt".to_string())]), (1, 5));
    let many: Vec<(u8, String)> = (0..60).map(|_| (0u8, "farm".to_string())).collect();
    assert_eq!(food_of_units(&many), (0, 200));
    let mut w = hecs::World::new();
    w.spawn((ClientTeam(0), UnitKindId("pig_farm".to_string()), ClientHealth::new(1)));
    w.spawn((ClientTeam(0), UnitKindId("grunt".to_string()), ClientHealth::new(1)));
    w.spawn((ClientTeam(0), UnitKindId("grunt".to_string()), ClientHealth::new(1)));
    assert_eq!(count_food(&mut w), Some((2, 4)));
}

#[test]
fn command_line() {
    let args: Vec<String> = ["server", "--port", "9000", "--scripts"].iter().map(|s| s.to_string()).collect();
    assert_eq!(parse_arg(&args, "--port", "7777"), "9000");
    assert_eq!(parse_arg(&args, "--scripts", "res"), "res");
    assert_eq!(parse_arg(&args, "--assets", "assets"), "assets");
}

#[test]
fn string_equality() {
    assert!(str_eq("šíp", "šíp"));
    assert!(!str_eq("a", "ab"));
}

#[test]
fn key_edges() {
    let mut i = Input::new();
    i.on_key(5, true);
    assert!(i.key_just_pressed(5));
    assert!(i.key_held(5));
    i.end_frame();
    assert!(!i.key_just_pressed(5));
    assert!(i.key_held(5));
    i.on_key(5, true);
    assert!(!i.key_just_pressed(5));
    i.on_key(5, false);
    assert!(i.key_just_released(5));
    assert!(!i.key_held(5));
    i.on_mouse_button(0, true);
    assert!(i.mouse_just_pressed(0));
    assert!(i.mouse_held(0));
    i.on_mouse_button(0, false);
    assert!(i.mouse_just_released(0));
}

#[test]
fn training_menus() {
    let keep = rts::in_game::building_train_options("keep");
    assert_eq!(keep.len(), 1);
    assert_eq!((keep[0].kind_id, keep[0].gold, keep[0].time), ("peasant", 400, 15));
    let ob = rts::in_game::building_train_options("orc_barracks");
    assert_eq!(ob.len(), 3);
    assert_eq!((ob[1].kind_id, ob[1].name, ob[1].lumber), ("troll_axethrower", "Troll", 50));
    assert_eq!(ob[2].time, 30);
    assert!(rts::in_game::building_train_options("farm").is_empty());
}

#[test]
fn pause_rules() {
    assert_eq!(pause_step(false, false, false, false), PauseStep { paused: false, to_menu: false, run_world: true });
    assert_eq!(pause_step(false, true, false, false), PauseStep { paused: true, to_menu: false, run_world: false });
    assert_eq!(pause_step(true, true, false, false), PauseStep { paused: false, to_menu: false, run_world: true });
    assert_eq!(pause_step(false, false, true, false), PauseStep { paused: true, to_menu: false, run_world: false });
    assert_eq!(pause_step(true, false, true, false).to_menu, true);
    assert_eq!(pause_step(false, false, false, true).run_world, false);
}

#[test]
fn frame_header_announces_lengths_past_the_read_limit() {
    let body = vec![7u8; MAX_MSG_SIZE + 3];
    let f = encode_frame(&body);
    assert_eq!(f.len(), MAX_MSG_SIZE + 7);
    let announced = u32::from_be_bytes([f[0], f[1], f[2], f[3]]) as usize;
    assert_eq!(announced, MAX_MSG_SIZE + 3);
    assert_eq!(&f[4..], &body[..]);
    assert_eq!(decode_frame_len([f[0], f[1], f[2], f[3]]), Err(FrameError::TooLarge(10485763)));
}

use rts::session::{
    check_winner, event_recipients, formation_slot, may_command, next_tick, team_of_client, unit_build_time,
    winner_of_units, TickPlan,
};
use rts::world::{Health, ProductionQueue, Team, TrainResult};

#[test]
fn winner_rules() {
    assert_eq!(winner_of_units(&vec![]), Some(0));
    assert_eq!(winner_of_units(&vec![(2, 0), (3, -5)]), Some(0));
    assert_eq!(winner_of_units(&vec![(1, 10), (2, 0), (1, 3)]), Some(1));
    assert_eq!(winner_of_units(&vec![(1, 10), (2, 1)]), None);
}

#[test]
fn winner_from_world() {
    let mut w = hecs::World::new();
    w.spawn((Team(0), Health::new(10)));
    w.spawn((Team(1), Health { current: 0, max: 10 }));
    assert_eq!(check_winner(&mut w, 2), Some(0));
    w.spawn((Team(1), Health::new(5)));
    assert_eq!(check_winner(&mut w, 2), None);
    let mut empty = hecs::World::new();
    assert_eq!(check_winner(&mut empty, 2), Some(0));
}

#[test]
fn build_times() {
    assert_eq!(unit_build_time("peon"), 15);
    assert_eq!(unit_build_time("knight"), 30);
    assert_eq!(unit_build_time("dragon"), 45);
    assert_eq!(unit_build_time("mage"), 35);
    assert_eq!(unit_build_time("anything"), 20);
}

#[test]
fn tick_plan() {
    assert_eq!(next_tick(0), TickPlan { tick: 1, send_snapshot: false, check_winner: false });
    assert_eq!(next_tick(4), TickPlan { tick: 5, send_snapshot: true, check_winner: false });
    assert_eq!(next_tick(99), TickPlan { tick: 100, send_snapshot: true, check_winner: true });
}

#[test]
fn teams_of_clients() {
    assert_eq!(team_of_client(&[7, 9, 11], 11), 2);
    assert_eq!(team_of_client(&[7, 9, 11], 5), 0);
    assert_eq!(team_of_client(&[7, 7], 7), 0);
}

#[test]
fn script_event_recipients() {
    assert_eq!(event_recipients(-1, &[3, 4]), vec![3, 4]);
    assert_eq!(event_recipients(4, &[3, 4]), vec![4]);
    assert!(event_recipients(5, &[3, 4]).is_empty());
}

#[test]
fn formation_rows_of_five() {
    assert_eq!(formation_slot(0), (-2, -1));
    assert_eq!(formation_slot(2), (0, -1));
    assert_eq!(formation_slot(7), (0, 0));
    assert_eq!(formation_slot(14), (2, 1));
}

#[test]
fn command_rights() {
    assert!(may_command(Some(1), 1));
    assert!(!may_command(Some(0), 1));
    assert!(may_command(None, 1));
}

#[test]
fn production_queue_orders() {
    let mut q = ProductionQueue::new(2);
    assert_eq!(q.train("peon".to_string()), TrainResult::Started);
    assert_eq!(q.current.as_deref(), Some("peon"));
    assert_eq!(q.train("grunt".to_string()), TrainResult::Queued);
    assert_eq!(q.train("archer".to_string()), TrainResult::Queued);
    assert_eq!(q.train("ogre".to_string()), TrainResult::Refused);
    assert_eq!(q.queue, vec!["grunt".to_string(), "archer".to_string()]);
    assert!(!q.advance());
    q.cancel();
    assert!(q.current.is_none());
    assert!(q.advance());
    assert_eq!(q.current.as_deref(), Some("grunt"));
    assert_eq!(q.queue, vec!["archer".to_string()]);
    assert!(q.enqueue("x".to_string()));
    assert!(!q.enqueue("y".to_string()));
}

#[test]
fn health_of_server_entities() {
    let h = Health::new(40);
    assert_eq!(h.current, 40);
    assert!(h.is_alive());
    assert!(!Health { current: 0, max: 40 }.is_alive());
}

#[test]
fn unit_templates() {
    let t = rts::session::unit_template("archer");
    assert_eq!((t.hp, t.damage, t.pierce, t.armor, t.range, t.cooldown_ms, t.speed), (40, 4, 6, 0, 160, 1200, 128));
    assert_eq!(t.ai, "ranged_ai");
    assert!(!t.can_fly);
    let d = rts::session::unit_template("dragon");
    assert!(d.can_fly);
    assert_eq!(d.speed, 384);
    let o = rts::session::unit_template("ogre");
    assert_eq!(o.cooldown_ms, 1300);
    let u = rts::session::unit_template("sheep");
    assert_eq!((u.hp, u.ai), (30, "worker_ai"));
}

#[test]
fn starting_sets() {
    assert_eq!(rts::session::base_tile(0), (6, 6));
    assert_eq!(rts::session::base_tile(1), (54, 54));
    assert_eq!(rts::session::base_tile(2), (61, 5));
    let s = rts::session::start_spawns(1);
    assert_eq!(s.len(), 14);
    assert_eq!(s[0].kind_id, "great_hall");
    assert_eq!((s[0].tile_x, s[0].tile_y, s[0].building), (54, 54, Some((1200, 5))));
    assert_eq!((s[1].kind_id, s[1].tile_x), ("orc_barracks", 59));
    assert_eq!((s[3].tile_x, s[3].tile_y, s[3].building), (57, 59, Some((400, 0))));
    assert_eq!((s[4].kind_id, s[4].tile_x, s[4].tile_y), ("peon", 56, 56));
    assert_eq!((s[9].tile_x, s[9].tile_y), (58, 57));
    assert_eq!((s[10].kind_id, s[10].tile_x, s[10].tile_y), ("grunt", 52, 62));
    assert_eq!(s[13].tile_x, 58);
    let h = rts::session::start_spawns(0);
    assert_eq!(h[0].kind_id, "town_hall");
    assert_eq!(h[4].kind_id, "peasant");
    assert_eq!(h[12].kind_id, "footman");
}

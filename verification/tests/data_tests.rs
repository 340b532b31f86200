use rts::defs::{all_building_defs, all_unit_defs, building_def, unit_def, BuildingKind, Faction, Resources, UnitKind};
use rts::font::{atlas_pixels, build_atlas, glyph_cell, glyph_index, glyph_pixel, ATLAS_H, ATLAS_W};
use rts::manifest::{glob_dir, has_lua_extension, load_order_of, load_sequence, DEFAULT_LOAD_ORDER};

#[test]
fn resources_constructors() {
    assert_eq!(Resources::new(5, 6), Resources { gold: 5, lumber: 6, oil: 0 });
    assert_eq!(Resources::with_oil(1, 2, 3).oil, 3);
}

#[test]
fn unit_table() {
    let all = all_unit_defs();
    assert_eq!(all.len(), 14);
    let p = unit_def(UnitKind::Peasant).unwrap();
    assert_eq!(p.name, "Peasant");
    assert_eq!(p.hp_max, 30);
    assert_eq!(p.speed, 128);
    assert_eq!(p.attack_cooldown_ms, 1500);
    assert_eq!(p.cost, Resources::new(400, 0));
    assert_eq!(p.produced_in, vec![BuildingKind::TownHall, BuildingKind::Keep, BuildingKind::Castle]);
    assert!(p.can_harvest && p.can_build);
    let o = unit_def(UnitKind::OgreKnight).unwrap();
    assert_eq!(o.attack_cooldown_ms, 1300);
    assert_eq!(o.faction, Faction::Orc);
    let d = unit_def(UnitKind::DragonRider).unwrap();
    assert!(d.air);
    assert_eq!(d.sprite, (7, 1));
    assert!(unit_def(UnitKind::Daemon).is_none());
    for (i, a) in all.iter().enumerate() {
        for b in &all[i + 1..] {
            assert!(a.kind != b.kind);
        }
    }
}

#[test]
fn building_table() {
    let all = all_building_defs();
    assert_eq!(all.len(), 25);
    let th = building_def(BuildingKind::TownHall).unwrap();
    assert_eq!(th.name, "Town Hall");
    assert_eq!(th.size_tiles, 4);
    assert_eq!(th.build_time, 255);
    assert_eq!(th.upgrades_to, Some(BuildingKind::Keep));
    let keep = building_def(BuildingKind::Keep).unwrap();
    assert_eq!(keep.required_buildings, vec![BuildingKind::Barracks, BuildingKind::LumberMill]);
    let farm = building_def(BuildingKind::Farm).unwrap();
    assert_eq!(farm.food_provided, 4);
    assert!(farm.produces.is_empty());
    assert!(building_def(BuildingKind::OilPlatform).is_none());
    let cloned = th.clone();
    assert_eq!(cloned.produces, th.produces);
}

#[test]
fn manifest_load_order() {
    assert_eq!(load_order_of("fx_version 'x'\nload_order = 5\n"), 5);
    assert_eq!(load_order_of("  load_order=  -12,,  \r\nload_order = 3"), -12);
    assert_eq!(load_order_of("load_order = x\nload_order = +7"), 7);
    assert_eq!(load_order_of("-- none here"), DEFAULT_LOAD_ORDER);
    assert_eq!(load_order_of(""), 100);
    assert_eq!(load_order_of("load_order 5"), 100);
    assert_eq!(load_order_of("load_order = 9223372036854775808"), 100);
    assert_eq!(load_order_of("load_order = -9223372036854775808"), i64::MIN);
    assert_eq!(load_order_of("\u{3000}load_order\t=\u{a0}42"), 42);
}

#[test]
fn script_patterns() {
    assert_eq!(glob_dir("server/*.lua"), Some("server".to_string()));
    assert_eq!(glob_dir("a/b/*.lua"), None);
    assert_eq!(glob_dir("main.lua"), None);
    assert_eq!(glob_dir("shared/*.luac"), None);
    assert!(has_lua_extension("init.lua"));
    assert!(!has_lua_extension(".lua"));
    assert!(!has_lua_extension("init.luac"));
    assert!(has_lua_extension("..lua"));
}

#[test]
fn font_atlas() {
    let px = atlas_pixels();
    assert_eq!(px.len(), (ATLAS_W * ATLAS_H * 4) as usize);
    // Space (code 32) is blank; every pixel is either clear or opaque white.
    assert!(px[..32].iter().all(|b| *b == 0));
    assert!(px.iter().all(|b| *b == 0 || *b == 255));
    assert!(px.iter().any(|b| *b == 255));
    // 'A' (code 65, cell 1 of row 2): compare with the font table.
    let glyph = font8x8::legacy::BASIC_LEGACY[65];
    for row in 0..8usize {
        for col in 0..8usize {
            let x = 8 + col;
            let y = 16 + row;
            let lit = (glyph[row] >> col) & 1 == 1;
            assert_eq!(px[(y * 128 + x) * 4 + 3], if lit { 255 } else { 0 });
        }
    }
    let img = build_atlas();
    assert_eq!((img.width, img.height), (128, 48));
    assert_eq!(img.rgba, px);
}

#[test]
fn glyph_cells() {
    assert_eq!(glyph_index(' '), 0);
    assert_eq!(glyph_index('A'), 33);
    assert_eq!(glyph_index('é'), 31);
    assert_eq!(glyph_cell('A'), (1, 2));
    assert_eq!(glyph_cell('\u{7f}'), (15, 5));
    assert_eq!(glyph_cell('\n'), (15, 1));
}

#[test]
fn resources_load_by_order_then_listing() {
    assert_eq!(load_sequence(&vec![100, 0, 100, -5]), vec![3, 1, 0, 2]);
    assert_eq!(load_sequence(&vec![]), Vec::<usize>::new());
    assert_eq!(load_sequence(&vec![7, 7, 7]), vec![0, 1, 2]);
}

#[test]
fn glyph_row_bits() {
    assert_eq!(glyph_pixel(0b0000_0100, 2), 255);
    assert_eq!(glyph_pixel(0b0000_0100, 1), 0);
    assert_eq!(glyph_pixel(0b1000_0000, 7), 255);
    assert_eq!(glyph_pixel(0xff, 0), 255);
    assert_eq!(glyph_pixel(0, 5), 0);
}

#[test]
fn tables_agree_on_production() {
    let units = all_unit_defs();
    let buildings = all_building_defs();
    for b in &buildings {
        for u in &units {
            assert_eq!(b.produces.contains(&u.kind), u.produced_in.contains(&b.kind));
        }
        for k in &b.produces {
            assert!(units.iter().any(|u| u.kind == *k));
        }
    }
    assert_eq!(unit_def(UnitKind::Ballista).unwrap().produced_in, vec![BuildingKind::Blacksmith, BuildingKind::Barracks]);
}

#[test]
fn every_unit_is_trained_by_a_building_of_its_faction() {
    let units = all_unit_defs();
    assert_eq!(units.len(), 14);
    for u in &units {
        assert!(u.hp_max > 0);
        assert!(u.speed > 0);
        assert!(!u.produced_in.is_empty());
        for b in &u.produced_in {
            let d = building_def(*b).unwrap();
            assert_eq!(d.faction, u.faction);
        }
    }
}

use rts::editor::{mode_after_keys, paint_tile, palette_index, tile_kind_name, tile_palette, unit_kind_short, EditorMode};
use rts::components::UnitKind as PaletteKind;
use rts::in_game::create_demo_map;
use rts::multiplayer::tile_color_index;
use rts::session::{build_map, tile_bytes, ARENA_SIZE};
use rts::tilemap::{Tile, TileKind, TileMap};
use rts::world::{TileKind as ServerTile, TileMap as ServerMap};

#[test]
fn sheet_positions_and_passability() {
    assert_eq!(TileKind::Grass.sheet_pos(), (0, 0));
    assert_eq!(TileKind::Forest.sheet_pos(), (4, 0));
    assert_eq!(TileKind::Bridge.sheet_pos(), (7, 0));
    assert!(TileKind::Bridge.is_passable());
    assert!(!TileKind::DeepWater.is_passable());
    assert!(!TileKind::Rock.is_passable());
}

#[test]
fn new_tile_is_hidden() {
    let t = Tile::new(TileKind::Sand);
    assert_eq!(t, Tile { kind: TileKind::Sand, visible: false, explored: false });
}

#[test]
fn tilemap_get_set_and_bounds() {
    let mut m = TileMap::new_filled(3, 2, TileKind::Grass);
    assert_eq!(m.tiles.len(), 6);
    m.set(2, 1, TileKind::Water);
    assert_eq!(m.get(2, 1).unwrap().kind, TileKind::Water);
    assert_eq!(m.tiles[5].kind, TileKind::Water);
    assert!(m.get(3, 0).is_none());
    assert!(m.get(0, 2).is_none());
    m.set(9, 9, TileKind::Rock);
    assert!(m.tiles.iter().all(|t| t.kind != TileKind::Rock));
    if let Some(t) = m.get_mut(0, 0) {
        t.visible = true;
    }
    assert!(m.tiles[0].visible);
}

#[test]
fn fill_and_reveal() {
    let mut m = TileMap::new_filled(10, 10, TileKind::Grass);
    m.fill_rect(2, 4, 3, 5, TileKind::Forest);
    assert_eq!(m.get(2, 3).unwrap().kind, TileKind::Forest);
    assert_eq!(m.get(3, 4).unwrap().kind, TileKind::Forest);
    assert_eq!(m.get(4, 4).unwrap().kind, TileKind::Grass);
    m.reveal_rect(0, 2, 0, 1);
    assert!(m.get(1, 0).unwrap().explored);
    assert!(!m.get(2, 0).unwrap().visible);
}

#[test]
fn reveal_circle_lifts_fog_within_radius() {
    let mut m = TileMap::new_filled(20, 20, TileKind::Grass);
    m.reveal_circle(10, 10, 3);
    assert!(m.get(10, 10).unwrap().visible);
    assert!(m.get(13, 10).unwrap().visible);
    assert!(m.get(10, 7).unwrap().explored);
    assert!(!m.get(13, 13).unwrap().visible);
    assert!(!m.get(14, 10).unwrap().visible);
}

#[test]
fn server_map_wire_bytes() {
    let mut m = ServerMap::new_filled(2, 2, ServerTile::Grass);
    m.set(1, 0, ServerTile::Bridge);
    m.set(0, 1, ServerTile::DeepWater);
    assert_eq!(tile_bytes(&m), vec![0, 7, 3, 0]);
    assert_eq!(ServerTile::Forest.to_byte(), 4);
    assert_eq!(m.get(5, 5), None);
}

#[test]
fn arena_layout() {
    let m = build_map("anything");
    assert_eq!(m.width, ARENA_SIZE);
    assert_eq!(m.height, 64);
    assert!(m.get(10, 10) == Some(ServerTile::Dirt));
    assert!(m.get(5, 33) == Some(ServerTile::DeepWater));
    assert!(m.get(5, 32) == Some(ServerTile::Water));
    assert!(m.get(12, 33) == Some(ServerTile::Bridge));
    assert!(m.get(30, 25) == Some(ServerTile::Rock));
    assert!(m.get(30, 28) == Some(ServerTile::Grass));
    assert!(m.get(20, 2) == Some(ServerTile::Forest));
    assert!(m.get(63, 63) == Some(ServerTile::Grass));
}

#[test]
fn client_reads_back_the_arena() {
    let m = build_map("arena");
    let bytes = tile_bytes(&m);
    assert_eq!(bytes.len(), 64 * 64);
    for (x, y) in [(0u32, 0u32), (12, 33), (30, 25), (5, 33), (20, 2)] {
        let k = m.get(x, y).unwrap();
        assert_eq!(tile_color_index(&bytes, 64, x, y), k.to_byte() as usize);
    }
    // Beyond the bytes the client falls back to grass.
    assert_eq!(tile_color_index(&bytes, 64, 0, 64), 0);
    assert_eq!(tile_color_index(&[9], 1, 0, 0), 7);
}

#[test]
fn demo_map_layout() {
    let m = create_demo_map();
    assert_eq!(m.width, 64);
    assert_eq!(m.get(40, 15).unwrap().kind, TileKind::Rock);
    assert_eq!(m.get(15, 8).unwrap().kind, TileKind::Forest);
    assert_eq!(m.get(33, 23).unwrap().kind, TileKind::Bridge);
    assert_eq!(m.get(0, 23).unwrap().kind, TileKind::DeepWater);
    assert_eq!(m.get(0, 21).unwrap().kind, TileKind::Water);
    assert_eq!(m.get(0, 0).unwrap().kind, TileKind::Grass);
    assert!(m.get(5, 35).unwrap().explored);
    assert!(!m.get(25, 35).unwrap().visible);
}

#[test]
fn editor_names() {
    assert_eq!(tile_kind_name(TileKind::DeepWater), "Deep Water");
    assert_eq!(tile_kind_name(TileKind::Grass), "Grass");
    assert_eq!(unit_kind_short(PaletteKind::TownHall), "Town Hall");
    assert_eq!(unit_kind_short(PaletteKind::Peon), "Peon");
}

#[test]
fn editor_palette_and_painting() {
    let p = tile_palette();
    assert_eq!(p.len(), 8);
    assert_eq!(p[2], TileKind::Forest);
    assert_eq!(palette_index(&p, TileKind::Rock), Some(6));
    assert_eq!(palette_index(&p[..3], TileKind::Rock), None);
    let mut m = TileMap::new_filled(4, 4, TileKind::Grass);
    paint_tile(&mut m, TileKind::Sand, 1, 2);
    assert_eq!(*m.get(1, 2).unwrap(), Tile { kind: TileKind::Sand, visible: true, explored: true });
    assert!(!m.get(2, 2).unwrap().visible);
    paint_tile(&mut m, TileKind::Rock, 9, 9);
    assert!(m.tiles.iter().all(|t| t.kind != TileKind::Rock));
}

#[test]
fn editor_mode_keys() {
    assert_eq!(mode_after_keys(EditorMode::Tiles, false, false, false, false), EditorMode::Tiles);
    assert_eq!(mode_after_keys(EditorMode::Tiles, false, true, false, false), EditorMode::Units);
    assert_eq!(mode_after_keys(EditorMode::Units, true, false, true, false), EditorMode::Select);
    assert_eq!(mode_after_keys(EditorMode::Select, true, true, true, true), EditorMode::Erase);
}

#[test]
fn arena_bases_are_connected_by_land() {
    let m = build_map("x");
    let other = build_map("another id");
    assert_eq!(tile_bytes(&m), tile_bytes(&other));
    let walk = |k: ServerTile| !matches!(k, ServerTile::Water | ServerTile::DeepWater | ServerTile::Rock);
    let mut seen = vec![false; 64 * 64];
    let mut stack = vec![(6u32, 6u32)];
    seen[6 * 64 + 6] = true;
    while let Some((x, y)) = stack.pop() {
        let mut next = Vec::new();
        if x > 0 { next.push((x - 1, y)); }
        if y > 0 { next.push((x, y - 1)); }
        if x < 63 { next.push((x + 1, y)); }
        if y < 63 { next.push((x, y + 1)); }
        for (nx, ny) in next {
            let i = (ny * 64 + nx) as usize;
            if !seen[i] && walk(m.get(nx, ny).unwrap()) {
                seen[i] = true;
                stack.push((nx, ny));
            }
        }
    }
    assert!(seen[54 * 64 + 54]);
}

use straight_ahead::direction::Direction;
use straight_ahead::fault::Fault;
use straight_ahead::grid::Grid;
use straight_ahead::player::Player;
use straight_ahead::tile::Tile;
use straight_ahead::world::{Goal, World};

const ALL: [Direction; 4] = [Direction::North, Direction::East, Direction::South, Direction::West];

fn world_on(grid: Grid, col: usize, row: usize, facing: Direction) -> World {
    World::new(grid, Player::new(col, row, facing), Goal { col: 0, row: 0 }).unwrap()
}

fn two_cells(west_open: bool) -> Grid {
    let left = Tile::new([false, true, false, false]);
    let right = Tile::new([true, true, true, west_open]);
    Grid::new(2, 1, vec![left, right]).unwrap()
}

#[test]
fn invert_twice_and_four_turns_give_back() {
    for d in ALL {
        assert_eq!(d.invert().invert(), d);
        assert_eq!(d.rotate_cw().rotate_cw().rotate_cw().rotate_cw(), d);
    }
}

#[test]
fn rotate_cw_cycles_clockwise() {
    assert_eq!(Direction::North.rotate_cw(), Direction::East);
    assert_eq!(Direction::East.rotate_cw(), Direction::South);
    assert_eq!(Direction::South.rotate_cw(), Direction::West);
    assert_eq!(Direction::West.rotate_cw(), Direction::North);
    assert_eq!(Direction::North.invert(), Direction::South);
    assert_eq!(Direction::East.invert(), Direction::West);
}

#[test]
fn index_and_vector_round_trip() {
    for (i, d) in ALL.iter().enumerate() {
        assert_eq!(d.to_index(), i);
        assert_eq!(Direction::from_index(i), Ok(*d));
        let (dx, dy) = d.vector();
        assert_eq!(Direction::from_vector(dx, dy), Ok(*d));
    }
    assert_eq!(Direction::North.vector(), (0, -1));
    assert_eq!(Direction::East.vector(), (1, 0));
    assert_eq!(Direction::from_index(4), Err(Fault::InvalidDirection));
    assert_eq!(Direction::from_vector(1, 1), Err(Fault::InvalidDirection));
    assert_eq!(Direction::from_vector(0, 0), Err(Fault::InvalidDirection));
    assert_eq!(Direction::from_vector(2, 0), Err(Fault::InvalidDirection));
}

#[test]
fn is_open_reads_the_turned_door() {
    let mut t = Tile::new([true, false, false, false]);
    assert!(t.is_open(Direction::North));
    assert!(!t.is_open(Direction::East));
    t.rotate_cw();
    assert_eq!(t.rotation, 1);
    assert!(t.is_open(Direction::West));
    assert!(!t.is_open(Direction::North));
    let raw = Tile { doors: [false, false, true, false], rotation: 7 };
    assert!(raw.is_open(Direction::West));
}

#[test]
fn tile_rotation_equals_query_rotation() {
    let doors = [true, false, true, true];
    for turns in 0..6usize {
        let mut t = Tile::new(doors);
        for _ in 0..turns {
            t.rotate_cw();
        }
        let before = t;
        t.rotate_cw();
        assert_eq!(t.rotation, (turns + 1) % 4);
        for d in ALL {
            assert_eq!(t.is_open(d), before.is_open(d.rotate_cw()));
        }
    }
}

#[test]
fn grid_new_requires_one_tile_per_cell() {
    let t = Tile::new([true; 4]);
    assert!(Grid::new(2, 2, vec![t, t, t]).is_none());
    assert!(Grid::new(usize::MAX, 2, vec![t]).is_none());
    let g = Grid::new(2, 1, vec![t, t]).unwrap();
    assert_eq!(g.width(), 2);
    assert_eq!(g.height(), 1);
    let empty = Grid::new(0, 0, vec![]).unwrap();
    assert!(!empty.in_bounds(0, 0));
}

#[test]
fn tile_at_refuses_cells_off_grid() {
    let a = Tile::new([true, false, false, false]);
    let b = Tile::new([false, true, false, false]);
    let g = Grid::new(2, 1, vec![a, b]).unwrap();
    assert!(g.in_bounds(0, 1));
    assert!(!g.in_bounds(1, 0));
    assert!(!g.in_bounds(0, 2));
    assert_eq!(g.tile_at(0, 1).unwrap().doors, [false, true, false, false]);
    assert_eq!(g.tile_at(0, 0).unwrap().doors, [true, false, false, false]);
    assert!(matches!(g.tile_at(1, 0), Err(Fault::OutOfBounds)));
}

#[test]
fn world_new_refuses_player_off_grid() {
    let g = Grid::filled(2, 2, Tile::new([true; 4]));
    let r = World::new(g, Player::new(2, 0, Direction::East), Goal { col: 1, row: 1 });
    assert!(matches!(r, Err(Fault::OutOfBounds)));
    let g = Grid::filled(2, 2, Tile::new([true; 4]));
    let w = World::new(g, Player::new(1, 1, Direction::East), Goal { col: 1, row: 0 }).unwrap();
    assert_eq!(w.goal(), Goal { col: 1, row: 0 });
    assert_eq!(w.grid().width(), 2);
}

#[test]
fn tick_blocked_by_closed_far_door() {
    let mut w = world_on(two_cells(false), 0, 0, Direction::East);
    w.tick();
    assert_eq!(w.player(), Player::new(0, 0, Direction::East));
}

#[test]
fn tick_moves_through_aligned_doors() {
    let mut w = world_on(two_cells(true), 0, 0, Direction::East);
    w.tick();
    assert_eq!(w.player(), Player::new(1, 0, Direction::East));
}

#[test]
fn tick_blocked_by_closed_near_door() {
    let left = Tile::new([true, false, true, true]);
    let right = Tile::new([true; 4]);
    let mut w = world_on(Grid::new(2, 1, vec![left, right]).unwrap(), 0, 0, Direction::East);
    w.tick();
    assert_eq!(w.player(), Player::new(0, 0, Direction::East));
}

#[test]
fn tick_when_blocked_leaves_player_alone() {
    let mut w = world_on(two_cells(false), 0, 0, Direction::East);
    for _ in 0..3 {
        w.tick();
        assert_eq!(w.player(), Player::new(0, 0, Direction::East));
    }
    let mut w = world_on(two_cells(true), 0, 0, Direction::North);
    w.tick();
    assert_eq!(w.player(), Player::new(0, 0, Direction::North));
}

#[test]
fn tick_stays_inside_the_grid() {
    let mut w = world_on(Grid::filled(3, 2, Tile::new([true; 4])), 0, 0, Direction::East);
    for d in [Direction::East, Direction::South, Direction::West, Direction::North] {
        for _ in 0..5 {
            w.tick();
            let p = w.player();
            assert!(p.col < 3 && p.row < 2);
        }
        let r = w.player().row;
        let c = w.player().col;
        w.rotate_cell(r, c).unwrap();
        assert_eq!(w.player().facing, d.rotate_cw());
    }
}

#[test]
fn rotating_occupied_tile_turns_player() {
    let mut tiles = Vec::new();
    for _ in 0..9 {
        tiles.push(Tile::new([true, false, true, false]));
    }
    let mut w = world_on(Grid::new(3, 3, tiles).unwrap(), 1, 1, Direction::North);
    assert_eq!(w.rotate_cell(1, 1), Ok(()));
    assert_eq!(w.player().facing, Direction::East);
    let t = w.grid().tile_at(1, 1).unwrap();
    assert_eq!(t.rotation, 1);
    assert!(t.is_open(Direction::East));
    assert_eq!(w.player().col, 1);
    assert_eq!(w.player().row, 1);
}

#[test]
fn rotating_other_tile_keeps_facing() {
    let mut w = world_on(Grid::filled(3, 3, Tile::new([true, false, true, false])), 1, 1, Direction::North);
    assert_eq!(w.rotate_cell(0, 1), Ok(()));
    assert_eq!(w.rotate_cell(1, 0), Ok(()));
    assert_eq!(w.rotate_cell(2, 2), Ok(()));
    assert_eq!(w.player(), Player::new(1, 1, Direction::North));
    assert_eq!(w.grid().tile_at(0, 1).unwrap().rotation, 1);
    assert_eq!(w.grid().tile_at(1, 1).unwrap().rotation, 0);
}

#[test]
fn rotate_cell_out_of_bounds_changes_nothing() {
    let mut w = world_on(Grid::filled(2, 2, Tile::new([true; 4])), 0, 0, Direction::East);
    assert_eq!(w.rotate_cell(2, 0), Err(Fault::OutOfBounds));
    assert_eq!(w.rotate_cell(0, 2), Err(Fault::OutOfBounds));
    assert_eq!(w.player(), Player::new(0, 0, Direction::East));
    for r in 0..2 {
        for c in 0..2 {
            assert_eq!(w.grid().tile_at(r, c).unwrap().rotation, 0);
        }
    }
}

#[test]
fn open_grid_blocks_only_at_edges() {
    let open = Tile::new([true; 4]);
    for start_col in 0..4usize {
        for start_row in 0..4usize {
            for d in ALL {
                let mut w = world_on(Grid::filled(4, 4, open), start_col, start_row, d);
                let (dx, dy) = d.vector();
                let nc = start_col as i64 + dx as i64;
                let nr = start_row as i64 + dy as i64;
                w.tick();
                let p = w.player();
                if (0..4).contains(&nc) && (0..4).contains(&nr) {
                    assert_eq!((p.col as i64, p.row as i64), (nc, nr));
                } else {
                    assert_eq!((p.col, p.row), (start_col, start_row));
                }
            }
        }
    }
}

#[test]
fn open_grid_walks_any_sequence_of_facings() {
    let mut w = world_on(Grid::filled(4, 4, Tile::new([true; 4])), 0, 0, Direction::East);
    let mut moves = 0;
    for _ in 0..10 {
        let before = w.player();
        w.tick();
        if w.player() != before {
            moves += 1;
        }
        let p = w.player();
        w.rotate_cell(p.row, p.col).unwrap();
    }
    assert!(moves > 0);
    let p = w.player();
    assert!(p.col < 4 && p.row < 4);
}

#[test]
fn player_steps_and_turns() {
    let mut p = Player::new(2, 3, Direction::West);
    assert_eq!(p.next_cell(), Some((1, 3)));
    p.forward();
    assert_eq!(p, Player::new(1, 3, Direction::West));
    p.rotate_cw();
    assert_eq!(p, Player::new(1, 3, Direction::North));
    assert_eq!(Player::new(0, 0, Direction::North).next_cell(), None);
    assert_eq!(Player::new(0, 0, Direction::West).next_cell(), None);
    assert_eq!(Player::new(usize::MAX, 0, Direction::East).next_cell(), None);
    assert_eq!(Player::new(0, 0, Direction::South).next_cell(), Some((0, 1)));
}

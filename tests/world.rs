use code_selection::{AreaSize, CellPair, CellState, UpdateState, World};

fn phase_pairs(stage: UpdateState, size: AreaSize) -> Vec<(usize, usize)> {
    let mut pairs = Vec::new();
    for i in stage.get_i_range(size) {
        for j in stage.get_j_range(size) {
            pairs.push(stage.get_indices(size, i, j));
        }
    }
    pairs
}

fn patterned_cells(count: usize) -> Vec<CellState> {
    (0..count)
        .map(|k| {
            let mut memory = [0u8; 128];
            for (a, byte) in memory.iter_mut().enumerate() {
                *byte = ((a * 31 + k * 17 + 7) % 256) as u8;
            }
            let mut registers = [0u8; 8];
            for (r, byte) in registers.iter_mut().enumerate() {
                *byte = ((r * 53 + k * 11) % 256) as u8;
            }
            CellState::new(memory, registers)
        })
        .collect()
}

#[test]
fn phase_cycle_on_four_by_four() {
    let size = AreaSize::new(4, 4);
    let mut stage = UpdateState::Vertical { reversed: false };
    let mut as_main = vec![Vec::new(); 16];
    let mut met = vec![Vec::new(); 16];
    for _ in 0..8 {
        let pairs = phase_pairs(stage, size);
        assert_eq!(pairs.len(), 8);
        let mut count = [0usize; 16];
        for &(m, n) in &pairs {
            count[m] += 1;
            count[n] += 1;
            as_main[m].push(n);
            met[m].push(n);
            met[n].push(m);
        }
        assert!(count.iter().all(|&c| c == 1));
        stage = stage.next();
    }
    assert_eq!(stage, UpdateState::Vertical { reversed: false });
    for k in 0..16 {
        let (x, y) = (k % 4, k / 4);
        let neighbours = [
            y * 4 + (x + 1) % 4,
            y * 4 + (x + 3) % 4,
            ((y + 1) % 4) * 4 + x,
            ((y + 3) % 4) * 4 + x,
        ];
        for nb in neighbours {
            assert!(met[k].contains(&nb));
            assert!(as_main[k].contains(&nb));
        }
    }
}

#[test]
fn phase_order_and_reversal() {
    let s = UpdateState::Vertical { reversed: false };
    assert_eq!(s.next(), UpdateState::Horizontal { reversed: false });
    assert_eq!(s.next().next(), UpdateState::VerticalOffset { reversed: false });
    assert_eq!(s.next().next().next(), UpdateState::HorizontalOffset { reversed: false });
    assert_eq!(s.next().next().next().next(), UpdateState::Vertical { reversed: true });
}

#[test]
fn offset_phases_wrap_around() {
    let size = AreaSize::new(4, 6);
    let v = UpdateState::VerticalOffset { reversed: false };
    // last pair of column 1: rows 5 and 0
    assert_eq!(v.get_indices(size, 1, 2), (5 * 4 + 1, 1));
    let h = UpdateState::HorizontalOffset { reversed: true };
    // last pair of row 2: columns 3 and 0, reversed
    assert_eq!(h.get_indices(size, 2, 1), (2 * 4, 2 * 4 + 3));
    assert_eq!(v.get_i_range(size), 0..4);
    assert_eq!(v.get_j_range(size), 0..3);
    assert_eq!(h.get_i_range(size), 0..6);
    assert_eq!(h.get_j_range(size), 0..2);
}

#[test]
fn parallel_tick_matches_sequential_in_any_order() {
    let size = AreaSize::new(4, 6);
    let cells = patterned_cells(24);
    for stage_steps in 0..4 {
        let mut world = World::from_cells(size, cells.clone());
        for _ in 0..stage_steps {
            world.update_stage = world.update_stage.next();
        }
        let stage = world.update_stage;
        world.tick();
        let mut expected = cells.clone();
        let mut pairs = phase_pairs(stage, size);
        pairs.reverse();
        for (m, n) in pairs {
            let mut pair = CellPair::new(expected[m], expected[n]);
            pair.tick();
            expected[m] = pair.main;
            expected[n] = pair.neighbor;
        }
        for k in 0..24 {
            assert_eq!(world.cells[k].memory, expected[k].memory);
            assert_eq!(world.cells[k].registers, expected[k].registers);
        }
        assert_eq!(world.update_stage, stage.next());
    }
}

#[test]
fn ticks_are_deterministic() {
    let size = AreaSize::new(6, 4);
    let cells = patterned_cells(24);
    let mut a = World::from_cells(size, cells.clone());
    let mut b = World::from_cells(size, cells);
    for _ in 0..10 {
        a.tick();
        b.tick();
    }
    for k in 0..24 {
        assert_eq!(a.cells[k].memory, b.cells[k].memory);
        assert_eq!(a.cells[k].registers, b.cells[k].registers);
    }
    assert_eq!(a.update_stage, UpdateState::VerticalOffset { reversed: false });
}

#[test]
fn new_world_and_reset() {
    let mut world = World::new(AreaSize::new(4, 6));
    assert_eq!(world.cells.len(), 24);
    assert_eq!(world.get_image_size(), AreaSize::new(28, 42));
    world.tick();
    world.reset();
    assert_eq!(world.cells.len(), 24);
    assert_eq!(world.size, AreaSize::new(4, 6));
    assert_eq!(world.update_stage, UpdateState::Vertical { reversed: false });
}

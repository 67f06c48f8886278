use rand::rngs::StdRng;
use rand::SeedableRng;

use game_of_life::cell::{next_state, Cell, DeathState, LivingState};
use game_of_life::game::{Game, GameError, GridInitialization};
use game_of_life::grid::{live_neighbour_count, Grid};
use game_of_life::scheduler::{
    compute_data_parallel, compute_next, compute_sequential, compute_worker_pool, join_by_id,
    partition, Scheduler,
};

const ALIVE: Cell = Cell::Alive(LivingState::Remains);
const DEAD: Cell = Cell::Dead(DeathState::Remains);

fn grid_from(width: usize, height: usize, alive: &[(usize, usize)]) -> Grid {
    (0..width * height)
        .map(|x| {
            let xy = (x % width, x / width);
            if alive.contains(&xy) {
                ALIVE
            } else {
                DEAD
            }
        })
        .collect()
}

fn pseudo_random_grid(width: usize, height: usize, seed: u64) -> Grid {
    let mut state = seed;
    (0..width * height)
        .map(|_| {
            state = state.wrapping_mul(6364136223846793005).wrapping_add(1442695040888963407);
            if (state >> 33) % 3 == 0 {
                ALIVE
            } else {
                DEAD
            }
        })
        .collect()
}

#[test]
fn test_game_rules() {
    let width: usize = 3;
    let height: usize = 4;
    /* "x" is "dead"
    xox
    xxo
    ooo
    xxx
    */
    let start_grid: Grid = (0..width * height)
        .enumerate()
        .map(|(x, _)| {
            let xy = (x % width, x / width);
            if xy == (1, 0) || xy == (2, 1) || xy == (0, 2) || xy == (1, 2) || xy == (2, 2) {
                Cell::Alive(LivingState::Remains)
            } else {
                Cell::Dead(DeathState::Remains)
            }
        })
        .collect();
    /*
    xxx
    oxo
    xoo
    xox
    */
    let next_grid: Grid = (0..width * height)
        .enumerate()
        .map(|(x, _)| {
            let xy = (x % width, x / width);
            if xy == (2, 1) || xy == (1, 2) || xy == (2, 2) {
                Cell::Alive(LivingState::Remains)
            } else if xy == (0, 1) || xy == (1, 3) {
                Cell::Alive(LivingState::Reproduction)
            } else if xy == (1, 0) || xy == (0, 2) {
                Cell::Dead(DeathState::Underpopulation)
            } else {
                Cell::Dead(DeathState::Remains)
            }
        })
        .collect();
    let mut game = Game::new(width, height, GridInitialization::Custom(start_grid)).unwrap();
    game.tick();
    assert_eq!(&next_grid, game.get_grid());
}

#[test]
fn glider_example_same_under_every_scheduler() {
    let start = grid_from(3, 4, &[(1, 0), (2, 1), (0, 2), (1, 2), (2, 2)]);
    let expected = compute_sequential(&start, 3, 4);
    for scheduler in [Scheduler::Sequential, Scheduler::DataParallel, Scheduler::WorkerPool] {
        let mut game =
            Game::with_scheduler(3, 4, GridInitialization::Custom(start.clone()), scheduler).unwrap();
        game.tick();
        assert_eq!(&expected, game.get_grid());
        assert_eq!(game.scheduler(), scheduler);
    }
}

#[test]
fn schedulers_agree_on_many_grids() {
    for (width, height, seed) in [(1, 1, 1), (1, 7, 2), (5, 1, 3), (8, 6, 4), (17, 13, 5), (40, 25, 6)] {
        let g = pseudo_random_grid(width, height, seed);
        let seq = compute_sequential(&g, width, height);
        assert_eq!(seq.len(), width * height);
        assert_eq!(compute_data_parallel(&g, width, height), seq);
        for workers in [0, 1, 2, 3, 7, width * height, width * height + 5] {
            assert_eq!(compute_worker_pool(&g, width, height, workers), seq);
        }
        assert_eq!(compute_next(&g, width, height, Scheduler::WorkerPool), seq);
        assert_eq!(compute_next(&g, width, height, Scheduler::DataParallel), seq);
    }
}

#[test]
fn single_cell_grid() {
    let mut alive = Game::new(1, 1, GridInitialization::Custom(vec![ALIVE])).unwrap();
    alive.tick();
    assert_eq!(alive.get_grid(), &vec![Cell::Dead(DeathState::Underpopulation)]);
    let mut dead = Game::new(1, 1, GridInitialization::Custom(vec![DEAD])).unwrap();
    dead.tick();
    assert_eq!(dead.get_grid(), &vec![DEAD]);
}

#[test]
fn lone_center_cell_dies() {
    let mut game = Game::new(3, 3, GridInitialization::Custom(grid_from(3, 3, &[(1, 1)]))).unwrap();
    game.tick();
    let mut expected = vec![DEAD; 9];
    expected[4] = Cell::Dead(DeathState::Underpopulation);
    assert_eq!(game.get_grid(), &expected);
}

#[test]
fn dead_cell_with_three_neighbours_is_born() {
    assert_eq!(next_state(DEAD, 3), Cell::Alive(LivingState::Reproduction));
    assert_eq!(next_state(Cell::Dead(DeathState::Overpopulation), 3), Cell::Alive(LivingState::Reproduction));
    assert_eq!(next_state(Cell::Dead(DeathState::Underpopulation), 2), DEAD);
    assert_eq!(next_state(Cell::Dead(DeathState::Overpopulation), 4), DEAD);
    // On a grid: the top-left corner has three living neighbours.
    let g = grid_from(3, 3, &[(1, 0), (0, 1), (1, 1)]);
    assert_eq!(live_neighbour_count(&g, 3, 3, 0, 0), 3);
    assert_eq!(compute_sequential(&g, 3, 3)[0], Cell::Alive(LivingState::Reproduction));
    // Two neighbours: stays dead.
    let g = grid_from(3, 3, &[(1, 0), (0, 1)]);
    assert_eq!(compute_sequential(&g, 3, 3)[0], DEAD);
    // Four neighbours: stays dead.
    let g = grid_from(3, 3, &[(0, 0), (2, 0), (0, 2), (2, 2)]);
    assert_eq!(live_neighbour_count(&g, 3, 3, 1, 1), 4);
    assert_eq!(compute_sequential(&g, 3, 3)[4], DEAD);
}

#[test]
fn survivor_born_last_tick_settles_to_remains() {
    let born = Cell::Alive(LivingState::Reproduction);
    assert_eq!(next_state(born, 2), ALIVE);
    assert_eq!(next_state(born, 3), ALIVE);
    assert_eq!(next_state(ALIVE, 2), ALIVE);
    // The blinker's centre survives with two neighbours.
    let mut g = grid_from(3, 3, &[(0, 1), (1, 1), (2, 1)]);
    g[4] = born;
    assert_eq!(compute_sequential(&g, 3, 3)[4], ALIVE);
}

#[test]
fn rule_table_for_living_cells() {
    for n in 0..=1u8 {
        assert_eq!(next_state(ALIVE, n), Cell::Dead(DeathState::Underpopulation));
    }
    for n in 4..=8u8 {
        assert_eq!(next_state(ALIVE, n), Cell::Dead(DeathState::Overpopulation));
    }
    for n in [0u8, 1, 2, 4, 5, 6, 7, 8] {
        assert_eq!(next_state(Cell::Dead(DeathState::Underpopulation), n), DEAD);
    }
}

#[test]
fn length_kept_across_ticks() {
    let mut game = Game::new(7, 5, GridInitialization::Custom(pseudo_random_grid(7, 5, 9))).unwrap();
    for _ in 0..10 {
        game.tick();
        assert_eq!(game.get_grid().len(), 35);
        assert_eq!(game.width(), 7);
        assert_eq!(game.height(), 5);
    }
}

#[test]
fn neighbour_counts_clip_at_edges() {
    let g = vec![ALIVE; 12];
    assert_eq!(live_neighbour_count(&g, 3, 4, 0, 0), 3);
    assert_eq!(live_neighbour_count(&g, 3, 4, 0, 1), 5);
    assert_eq!(live_neighbour_count(&g, 3, 4, 1, 1), 8);
    assert_eq!(live_neighbour_count(&g, 3, 4, 3, 2), 3);
    assert_eq!(live_neighbour_count(&g, 3, 4, 2, 0), 5);
    let one = vec![ALIVE];
    assert_eq!(live_neighbour_count(&one, 1, 1, 0, 0), 0);
}

#[test]
fn construction_errors() {
    assert_eq!(Game::new(0, 3, GridInitialization::Custom(vec![])).err(), Some(GameError::ZeroDimension));
    assert_eq!(
        Game::new(3, 0, GridInitialization::Random { numerator: 1, denominator: 2 }).err(),
        Some(GameError::ZeroDimension)
    );
    assert_eq!(
        Game::new(2, 2, GridInitialization::Custom(vec![DEAD; 3])).err(),
        Some(GameError::DimensionMismatch)
    );
    assert_eq!(
        Game::new(usize::MAX, 2, GridInitialization::Custom(vec![DEAD; 2])).err(),
        Some(GameError::DimensionMismatch)
    );
}

#[test]
fn random_initialisation() {
    let dead = Game::new(6, 4, GridInitialization::Random { numerator: 0, denominator: 5 }).unwrap();
    assert_eq!(dead.get_grid(), &vec![DEAD; 24]);
    let alive = Game::new(6, 4, GridInitialization::Random { numerator: 5, denominator: 5 }).unwrap();
    assert_eq!(alive.get_grid(), &vec![ALIVE; 24]);
    let mixed = Game::new(30, 20, GridInitialization::Random { numerator: 1, denominator: 2 }).unwrap();
    assert_eq!(mixed.get_grid().len(), 600);
    assert!(mixed.get_grid().iter().all(|c| *c == ALIVE || *c == DEAD));
    assert_eq!(mixed.scheduler(), Scheduler::DataParallel);
}

#[test]
fn partition_sizes() {
    assert_eq!(partition(10, 3), vec![0, 4, 7, 10]);
    assert_eq!(partition(5, 5), vec![0, 1, 2, 3, 4, 5]);
    assert_eq!(partition(7, 1), vec![0, 7]);
}

#[test]
fn join_ignores_arrival_order() {
    let results = vec![
        (2, vec![DEAD]),
        (0, vec![ALIVE, ALIVE]),
        (1, vec![Cell::Dead(DeathState::Overpopulation)]),
    ];
    assert_eq!(
        join_by_id(&results),
        vec![ALIVE, ALIVE, Cell::Dead(DeathState::Overpopulation), DEAD]
    );
}

#[test]
fn seeded_generator_reproduces_the_first_generation() {
    let init = || GridInitialization::Random { numerator: 1, denominator: 3 };
    let mut a = StdRng::seed_from_u64(42);
    let mut b = StdRng::seed_from_u64(42);
    let ga = Game::with_rng(16, 9, init(), Scheduler::Sequential, &mut a).unwrap();
    let gb = Game::with_rng(16, 9, init(), Scheduler::WorkerPool, &mut b).unwrap();
    assert_eq!(ga.get_grid(), gb.get_grid());
    assert_eq!(ga.get_grid().len(), 144);
    assert!(ga.get_grid().iter().any(|c| *c == ALIVE));
    assert!(ga.get_grid().iter().any(|c| *c == DEAD));
}

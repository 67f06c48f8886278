//! The engine: owns the current grid and advances it one generation per tick.

use vstd::prelude::*;
use rand::rngs::StdRng;
use rand::{Rng, SeedableRng};
use crate::cell::{Cell, DeathState, LivingState};
use crate::grid::{Grid, grid_wf, next_grid};
use crate::scheduler::{Scheduler, compute_next};

verus! {

/// How the first generation is made.
pub enum GridInitialization {
    /// Each cell independently alive with probability
    /// `numerator / denominator`, dead otherwise.
    Random { numerator: u32, denominator: u32 },
    /// The given cells, row-major.
    Custom(Grid),
}

/// Why a game could not be constructed.
#[derive(Clone, Copy, Debug, PartialEq, Eq, Structural)]
pub enum GameError {
    /// The width or the height is zero.
    ZeroDimension,
    /// A custom grid does not hold `width * height` cells.
    DimensionMismatch,
}

/// Whether a cell is one that random initialisation may produce.
pub open spec fn is_fresh(c: Cell) -> bool {
    c == Cell::Alive(LivingState::Remains) || c == Cell::Dead(DeathState::Remains)
}

/// The cell that a draw stands for: alive when the draw came out `true`.
pub open spec fn cell_of_draw(draw: bool) -> Cell {
    if draw {
        Cell::Alive(LivingState::Remains)
    } else {
        Cell::Dead(DeathState::Remains)
    }
}

/// rand's standard generator, carried through as an opaque value.
#[verifier::external_type_specification]
#[verifier::external_body]
pub struct ExStdRng(StdRng);

/// Relies on rand's `SeedableRng::from_entropy` for `StdRng`: a generator
/// seeded from the operating system (it panics only where the system has no
/// entropy to give).
#[verifier::external_body]
fn fresh_rng() -> (r: StdRng) {
    StdRng::from_entropy()
}

/// Relies on rand's `Rng::gen_ratio`: `true` with probability
/// `numerator / denominator`, always `false` when the numerator is 0 and
/// always `true` when it equals the denominator. It panics when the
/// denominator is 0 or below the numerator.
#[verifier::external_body]
fn draw_ratio(rng: &mut StdRng, numerator: u32, denominator: u32) -> (r: bool)
    requires
        0 < denominator,
        numerator <= denominator,
    ensures
        numerator == 0 ==> !r,
        numerator == denominator ==> r,
{
    rng.gen_ratio(numerator, denominator)
}

/// Turns one draw per cell into cells: alive where the draw is `true`.
pub fn cells_from_draws(draws: &Vec<bool>) -> (r: Grid)
    ensures
        r@.len() == draws@.len(),
        forall|i: int| 0 <= i < draws@.len() ==> #[trigger] r@[i] == cell_of_draw(draws@[i]),
{
    let mut out: Vec<Cell> = Vec::new();
    let mut i: usize = 0;
    while i < draws.len()
        invariant
            i <= draws@.len(),
            out@.len() == i,
            forall|j: int| 0 <= j < i ==> #[trigger] out@[j] == cell_of_draw(draws@[j]),
        decreases draws@.len() - i,
    {
        let c = if draws[i] {
            Cell::Alive(LivingState::Remains)
        } else {
            Cell::Dead(DeathState::Remains)
        };
        out.push(c);
        i += 1;
    }
    out
}

/// A game: the current generation of a `width` by `height` grid, and the
/// scheduler that computes the next one.
pub struct Game {
    height: usize,
    width: usize,
    grid: Grid,
    scheduler: Scheduler,
}

impl Game {
    /// The width of the grid.
    pub closed spec fn spec_width(&self) -> int {
        self.width as int
    }

    /// The height of the grid.
    pub closed spec fn spec_height(&self) -> int {
        self.height as int
    }

    /// The current generation, row-major.
    pub closed spec fn cells(&self) -> Seq<Cell> {
        self.grid@
    }

    /// The scheduler chosen at construction.
    pub closed spec fn spec_scheduler(&self) -> Scheduler {
        self.scheduler
    }

    /// The grid holds exactly `width * height` cells, both non-zero.
    pub open spec fn wf(&self) -> bool {
        grid_wf(self.cells(), self.spec_width(), self.spec_height())
    }

    /// What random initialisation needs: a probability in `[0, 1]`, and a
    /// number of cells that fits in memory.
    pub open spec fn init_ok(width: usize, height: usize, init: GridInitialization) -> bool {
        init is Random ==> {
            &&& 0 < init->denominator
            &&& init->numerator <= init->denominator
            &&& width * height <= usize::MAX
        }
    }

    /// What construction returns, for every outcome of the random draws.
    pub open spec fn new_result(
        width: usize,
        height: usize,
        init: GridInitialization,
        scheduler: Scheduler,
        r: Result<Game, GameError>,
    ) -> bool {
        if width == 0 || height == 0 {
            r == Err::<Game, GameError>(GameError::ZeroDimension)
        } else if init is Custom && init->Custom_0@.len() != width * height {
            r == Err::<Game, GameError>(GameError::DimensionMismatch)
        } else {
            &&& r is Ok
            &&& r->Ok_0.wf()
            &&& r->Ok_0.spec_width() == width
            &&& r->Ok_0.spec_height() == height
            &&& r->Ok_0.spec_scheduler() == scheduler
            &&& init is Custom ==> r->Ok_0.cells() == init->Custom_0@
            &&& init is Random ==> {
                &&& forall|i: int| 0 <= i < width * height ==> #[trigger] is_fresh(r->Ok_0.cells()[i])
                &&& init->numerator == 0 ==> forall|i: int|
                    0 <= i < width * height ==> #[trigger] r->Ok_0.cells()[i] == Cell::Dead(
                        DeathState::Remains,
                    )
                &&& init->numerator == init->denominator ==> forall|i: int|
                    0 <= i < width * height ==> #[trigger] r->Ok_0.cells()[i] == Cell::Alive(
                        LivingState::Remains,
                    )
            }
        }
    }

    /// `width * height` fresh cells, each alive with probability
    /// `numerator / denominator`.
    fn init_rand(width: usize, height: usize, numerator: u32, denominator: u32, rng: &mut StdRng) -> (r:
        Grid)
        requires
            0 < denominator,
            numerator <= denominator,
            width * height <= usize::MAX,
        ensures
            r@.len() == width * height,
            forall|i: int| 0 <= i < r@.len() ==> #[trigger] is_fresh(r@[i]),
            numerator == 0 ==> forall|i: int|
                0 <= i < r@.len() ==> #[trigger] r@[i] == Cell::Dead(DeathState::Remains),
            numerator == denominator ==> forall|i: int|
                0 <= i < r@.len() ==> #[trigger] r@[i] == Cell::Alive(LivingState::Remains),
    {
        let n = width * height;
        let mut draws: Vec<bool> = Vec::new();
        let mut i: usize = 0;
        while i < n
            invariant
                0 < denominator,
                numerator <= denominator,
                i <= n,
                draws@.len() == i,
                numerator == 0 ==> forall|j: int| 0 <= j < i ==> !#[trigger] draws@[j],
                numerator == denominator ==> forall|j: int| 0 <= j < i ==> #[trigger] draws@[j],
            decreases n - i,
        {
            draws.push(draw_ratio(rng, numerator, denominator));
            i += 1;
        }
        cells_from_draws(&draws)
    }

    /// A game whose ticks use the data-parallel scheduler.
    pub fn new(width: usize, height: usize, init: GridInitialization) -> (r: Result<Game, GameError>)
        requires
            Game::init_ok(width, height, init),
        ensures
            Game::new_result(width, height, init, Scheduler::DataParallel, r),
    {
        Game::with_scheduler(width, height, init, Scheduler::DataParallel)
    }

    /// A game whose ticks use `scheduler`, drawing a random first generation
    /// from a generator seeded by the system.
    pub fn with_scheduler(width: usize, height: usize, init: GridInitialization, scheduler: Scheduler) -> (r:
        Result<Game, GameError>)
        requires
            Game::init_ok(width, height, init),
        ensures
            Game::new_result(width, height, init, scheduler, r),
    {
        let mut rng = fresh_rng();
        Game::with_rng(width, height, init, scheduler, &mut rng)
    }

    /// A game whose ticks use `scheduler`, drawing a random first generation
    /// from `rng` (so that a seeded generator gives a reproducible game).
    /// Fails with `ZeroDimension` when the width or the height is zero, and
    /// with `DimensionMismatch` when a custom grid does not hold
    /// `width * height` cells.
    pub fn with_rng(
        width: usize,
        height: usize,
        init: GridInitialization,
        scheduler: Scheduler,
        rng: &mut StdRng,
    ) -> (r: Result<Game, GameError>)
        requires
            Game::init_ok(width, height, init),
        ensures
            Game::new_result(width, height, init, scheduler, r),
    {
        if width == 0 || height == 0 {
            return Err(GameError::ZeroDimension);
        }
        let grid = match init {
            GridInitialization::Random { numerator, denominator } => {
                Game::init_rand(width, height, numerator, denominator, rng)
            },
            GridInitialization::Custom(grid) => {
                let len = grid.len();
                let fits = match width.checked_mul(height) {
                    Some(n) => n == len,
                    None => false,
                };
                if !fits {
                    return Err(GameError::DimensionMismatch);
                }
                grid
            },
        };
        Ok(Game { height, width, grid, scheduler })
    }

    /// The current generation, row-major.
    pub fn get_grid(&self) -> (r: &Grid)
        ensures
            r@ == self.cells(),
    {
        &self.grid
    }

    /// The width of the grid.
    pub fn width(&self) -> (r: usize)
        ensures
            r == self.spec_width(),
    {
        self.width
    }

    /// The height of the grid.
    pub fn height(&self) -> (r: usize)
        ensures
            r == self.spec_height(),
    {
        self.height
    }

    /// The scheduler that ticks use.
    pub fn scheduler(&self) -> (r: Scheduler)
        ensures
            r == self.spec_scheduler(),
    {
        self.scheduler
    }

    /// Advances the game by one generation: every cell is updated from the
    /// same snapshot, and the new grid replaces the old one whole.
    pub fn tick(&mut self)
        requires
            old(self).wf(),
        ensures
            final(self).wf(),
            final(self).spec_width() == old(self).spec_width(),
            final(self).spec_height() == old(self).spec_height(),
            final(self).spec_scheduler() == old(self).spec_scheduler(),
            final(self).cells() == next_grid(
                old(self).cells(),
                old(self).spec_width(),
                old(self).spec_height(),
            ),
    {
        let next = compute_next(&self.grid, self.width, self.height, self.scheduler);
        self.grid = next;
    }
}

} // verus!

//! The simulation driver: it owns the live board, advances it one
//! generation at a time, and applies control commands.

use vstd::prelude::*;

verus! {

use crate::state::board::{
    board_wf, copy_board, create, grid, height_of, random_cells, randomize, width_of, Board,
    BoardError,
};
use crate::state::engine::{is_next_generation, tick};
use crate::view::ui::ControlMessages;

/// How many generations a running simulation advances per second.
pub const TICK_RATE_PER_SECOND: u64 = 30;

/// The length of one tick, in milliseconds, for a tick rate in
/// generations per second.
pub fn tick_interval_ms(ticks_per_second: u64) -> (ms: u64)
    requires
        ticks_per_second >= 1,
    ensures
        ms == 1000u64 / ticks_per_second,
{
    1000 / ticks_per_second
}

/// One published generation: the run flag, the current board, and the
/// board of the generation immediately before it.
#[derive(Debug)]
#[allow(non_snake_case)]
pub struct GameData {
    pub running: bool,
    pub cells: Board,
    pub previousGeneration: Board,
}

/// Two snapshots hold the same values: the same run flag and, cell for
/// cell, the same boards.
pub open spec fn same_snapshot(a: GameData, b: GameData) -> bool {
    a.running == b.running && grid(a.cells@) == grid(b.cells@) && grid(a.previousGeneration@)
        == grid(b.previousGeneration@)
}

/// The simulation driver's state: the board dimensions, the live
/// snapshot, and the generation counter.
#[derive(Debug)]
pub struct Game {
    pub size_x: u32,
    pub size_y: u32,
    pub game_data: GameData,
    pub generation: u64,
}

impl Game {
    /// Both boards are well formed and have the configured dimensions.
    pub open spec fn wf(&self) -> bool {
        &&& board_wf(grid(self.game_data.cells@))
        &&& board_wf(grid(self.game_data.previousGeneration@))
        &&& width_of(grid(self.game_data.cells@)) == self.size_x as int
        &&& height_of(grid(self.game_data.cells@)) == self.size_y as int
        &&& width_of(grid(self.game_data.previousGeneration@)) == self.size_x as int
        &&& height_of(grid(self.game_data.previousGeneration@)) == self.size_y as int
        &&& self.size_x > 0
        &&& self.size_y > 0
    }

    /// A stopped driver at generation zero, over a freshly randomized
    /// board; the previous generation starts out equal to the current
    /// one. Fails with `InvalidDimensions` when either dimension is
    /// zero.
    pub fn randomized_board(size_x: u32, size_y: u32) -> (r: Result<Game, BoardError>)
        ensures
            (size_x == 0 || size_y == 0) <==> r is Err,
            r is Err ==> r == Err::<Game, BoardError>(BoardError::InvalidDimensions),
            r matches Ok(g) ==> g.wf() && g.size_x == size_x && g.size_y == size_y
                && !g.game_data.running && g.generation == 0 && grid(
                g.game_data.previousGeneration@,
            ) == grid(g.game_data.cells@),
    {
        let mut cells = match create(size_x, size_y) {
            Ok(cells) => cells,
            Err(e) => {
                return Err(e);
            },
        };
        randomize(&mut cells, size_x, size_y);
        let previous = copy_board(&cells);
        Ok(
            Game {
                size_x,
                size_y,
                game_data: GameData { running: false, cells, previousGeneration: previous },
                generation: 0,
            },
        )
    }

    /// Advances the simulation by exactly one generation: the current
    /// board becomes the previous one, the Life rule produces the new
    /// current board, and the generation counter grows by one.
    pub fn tick(&mut self)
        requires
            old(self).wf(),
            old(self).generation < u64::MAX,
        ensures
            final(self).wf(),
            final(self).size_x == old(self).size_x,
            final(self).size_y == old(self).size_y,
            final(self).generation == old(self).generation + 1,
            final(self).game_data.running == old(self).game_data.running,
            grid(final(self).game_data.previousGeneration@) == grid(old(self).game_data.cells@),
            is_next_generation(
                grid(old(self).game_data.cells@),
                grid(final(self).game_data.cells@),
            ),
    {
        let next = tick(&self.game_data.cells);
        let current = copy_board(&self.game_data.cells);
        self.game_data.previousGeneration = current;
        self.game_data.cells = next;
        self.generation = self.generation + 1;
    }

    /// Stops the simulation, resets the generation counter to zero,
    /// and replaces the board with a freshly randomized one; the
    /// previous generation equals the new current one.
    pub fn reset(&mut self)
        requires
            old(self).wf(),
        ensures
            final(self).wf(),
            final(self).size_x == old(self).size_x,
            final(self).size_y == old(self).size_y,
            !final(self).game_data.running,
            final(self).generation == 0,
            grid(final(self).game_data.previousGeneration@) == grid(final(self).game_data.cells@),
    {
        self.game_data.running = false;
        self.generation = 0;
        let fresh = random_cells(self.size_x, self.size_y);
        self.game_data.previousGeneration = copy_board(&fresh);
        self.game_data.cells = fresh;
    }

    /// Applies one control command: `Start` and `Stop` set the run
    /// flag and leave everything else alone, `Step` forces exactly one
    /// tick regardless of the run state, and `Reset` stops the driver
    /// over a fresh board at generation zero.
    pub fn apply_command(&mut self, message: ControlMessages)
        requires
            old(self).wf(),
            old(self).generation < u64::MAX,
        ensures
            final(self).wf(),
            final(self).size_x == old(self).size_x,
            final(self).size_y == old(self).size_y,
            message is Start ==> final(self).game_data.running && final(self).generation == old(
                self,
            ).generation && grid(final(self).game_data.cells@) == grid(old(self).game_data.cells@)
                && grid(final(self).game_data.previousGeneration@) == grid(
                old(self).game_data.previousGeneration@,
            ),
            message is Stop ==> !final(self).game_data.running && final(self).generation == old(
                self,
            ).generation && grid(final(self).game_data.cells@) == grid(old(self).game_data.cells@)
                && grid(final(self).game_data.previousGeneration@) == grid(
                old(self).game_data.previousGeneration@,
            ),
            message is Step ==> final(self).game_data.running == old(self).game_data.running
                && final(self).generation == old(self).generation + 1 && grid(
                final(self).game_data.previousGeneration@,
            ) == grid(old(self).game_data.cells@) && is_next_generation(
                grid(old(self).game_data.cells@),
                grid(final(self).game_data.cells@),
            ),
            message is Reset ==> !final(self).game_data.running && final(self).generation == 0
                && grid(final(self).game_data.previousGeneration@) == grid(
                final(self).game_data.cells@,
            ),
    {
        match message {
            ControlMessages::Stop => {
                self.game_data.running = false;
            },
            ControlMessages::Start => {
                self.game_data.running = true;
            },
            ControlMessages::Reset => {
                self.reset();
            },
            ControlMessages::Step => {
                self.tick();
            },
        }
    }

    /// An immutable copy of the driver's state, for publication; the
    /// driver keeps exclusive ownership of the live board.
    pub fn snapshot(&self) -> (s: GameData)
        ensures
            same_snapshot(s, self.game_data),
    {
        GameData {
            running: self.game_data.running,
            cells: copy_board(&self.game_data.cells),
            previousGeneration: copy_board(&self.game_data.previousGeneration),
        }
    }
}

} // verus!

//! The state of a dashboard session and the decisions of its loop.
use crate::grid::{Grid, rectangular, rows_view};
use vstd::prelude::*;

verus! {

/// The tick interval of the loop, in milliseconds.
pub const TICK_MS: u64 = 250;

/// The character of the quit key.
pub const QUIT_KEY: char = 'q';

/// An input event, as the loop sees it.
#[derive(Clone, Copy, Debug, PartialEq, Eq, Structural)]
pub enum InputEvent {
    /// A key that types a character.
    Char(char),
    /// Any other key.
    OtherKey,
    /// An event that is not a key (a resize, the mouse, focus).
    NonKey,
}

/// The event is the quit key.
pub open spec fn is_quit(e: InputEvent) -> bool {
    e == InputEvent::Char(QUIT_KEY)
}

/// The exit flag after `e` is handled with the flag at `exit`.
pub open spec fn handled_spec(exit: bool, e: InputEvent) -> bool {
    exit || is_quit(e)
}

/// How long the loop may wait for input when `elapsed_ms` milliseconds have
/// passed since the last tick boundary: the rest of the tick, never below
/// zero.
pub open spec fn timeout_spec(elapsed_ms: int) -> int {
    if elapsed_ms >= TICK_MS as int {
        0
    } else {
        TICK_MS as int - elapsed_ms
    }
}

/// The session: the exit flag and the grid that the map panel shows.
pub struct App {
    exit: bool,
    map: Grid,
}

impl App {
    pub closed spec fn exited(&self) -> bool {
        self.exit
    }

    pub closed spec fn grid(&self) -> Grid {
        self.map
    }

    pub closed spec fn wf(&self) -> bool {
        self.map.wf()
    }

    /// A running session over a copy of the grid `map`.
    pub fn new(map: &Vec<Vec<i32>>) -> (r: App)
        requires
            rectangular(rows_view(map@)),
        ensures
            !r.exited(),
            r.wf(),
            r.grid()@ == rows_view(map@),
    {
        let grid = Grid::from_rows(map);
        App { exit: false, map: grid.unwrap() }
    }

    /// Whether the loop goes on: it paints and waits for input only while
    /// the session runs.
    pub fn is_running(&self) -> (r: bool)
        ensures
            r == !self.exited(),
    {
        !self.exit
    }

    /// The grid that the map panel shows.
    pub fn map(&self) -> (r: &Grid)
        ensures
            *r == self.grid(),
    {
        &self.map
    }

    /// Handles one input event: the quit key ends the session, every other
    /// event changes nothing.
    pub fn handle_input(&mut self, event: InputEvent)
        ensures
            final(self).exited() == handled_spec(old(self).exited(), event),
            final(self).grid() == old(self).grid(),
            final(self).wf() == old(self).wf(),
    {
        match event {
            InputEvent::Char(c) => {
                if c == QUIT_KEY {
                    self.exit = true;
                }
            },
            _ => {},
        }
    }
}

/// How long to wait for input when `elapsed_ms` milliseconds have passed
/// since the last tick boundary; never longer than one tick.
pub fn poll_timeout(elapsed_ms: u64) -> (r: u64)
    ensures
        r == timeout_spec(elapsed_ms as int),
        r <= TICK_MS,
{
    if elapsed_ms >= TICK_MS {
        0
    } else {
        TICK_MS - elapsed_ms
    }
}

/// Whether the tick boundary moves to now, `elapsed_ms` milliseconds after
/// the last one.
pub fn tick_due(elapsed_ms: u64) -> (r: bool)
    ensures
        r == (elapsed_ms >= TICK_MS),
{
    elapsed_ms >= TICK_MS
}

/// Once the quit key is handled, the session has exited, and the loop
/// paints no more, whatever events follow.
pub proof fn lemma_quit_exits(exit: bool, later: Seq<InputEvent>)
    ensures
        handled_spec(exit, InputEvent::Char(QUIT_KEY)),
        later.fold_left(
            handled_spec(exit, InputEvent::Char(QUIT_KEY)),
            |x: bool, e: InputEvent| handled_spec(x, e),
        ),
    decreases later.len(),
{
    if later.len() > 0 {
        lemma_quit_exits(exit, later.drop_last());
    }
}

/// The wait for input never exceeds one tick, and ends no earlier than the
/// tick boundary while the tick runs.
pub proof fn lemma_wait_bounded(elapsed_ms: int)
    requires
        0 <= elapsed_ms,
    ensures
        0 <= timeout_spec(elapsed_ms) <= TICK_MS,
        elapsed_ms < TICK_MS ==> elapsed_ms + timeout_spec(elapsed_ms) == TICK_MS,
{
}

} // verus!

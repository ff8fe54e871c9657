use vstd::prelude::*;
use crate::error::HomieError;
use crate::state::State;

verus! {

/// How far the character moves in one step, in pixels.
pub const STEP: i64 = 10;

/// Where a character at `x` is after one movement step: it moves only while
/// running, by [`STEP`] pixels to the left or to the right. Once it is fully
/// off the left edge it comes back at the right edge, and once it reaches
/// the right edge it comes back just off the left edge.
pub open spec fn next_x(state: State, x: int, left: bool, width: int, screen_width: int) -> Option<
    int,
> {
    if state != State::Running {
        None
    } else if left {
        Some(if x - STEP <= -width { screen_width } else { x - STEP })
    } else {
        Some(if x + STEP >= screen_width { -width } else { x + STEP })
    }
}

/// One movement step (see [`next_x`]); `None` when the character does not move.
pub fn next_position(state: State, x: i64, left: bool, width: i32, screen_width: i32) -> (r:
    Option<i64>)
    requires
        i64::MIN + STEP <= x <= i64::MAX - STEP,
    ensures
        match next_x(state, x as int, left, width as int, screen_width as int) {
            Some(n) => r == Some(n as i64),
            None => r is None,
        },
{
    if state != State::Running {
        return None;
    }
    let w: i64 = width as i64;
    let sw: i64 = screen_width as i64;
    if left {
        Some(if x - STEP <= -w { sw } else { x - STEP })
    } else {
        Some(if x + STEP >= sw { -w } else { x + STEP })
    }
}

/// A running character that starts between just off the left edge and the
/// right edge of the screen stays there.
pub proof fn lemma_stays_on_track(state: State, x: int, left: bool, width: int, screen_width: int)
    requires
        -width <= x <= screen_width,
        -width <= screen_width,
    ensures
        next_x(state, x, left, width, screen_width) matches Some(n) ==> -width <= n <= screen_width,
{
}

/// Where a character at `x` is after one movement tick for each state in
/// `states`, in order (a click between ticks only changes the state).
pub open spec fn drift(x: int, states: Seq<State>, left: bool, width: int, screen_width: int) -> int
    decreases states.len(),
{
    if states.len() == 0 {
        x
    } else {
        let next = match next_x(states[0], x, left, width, screen_width) {
            Some(n) => n,
            None => x,
        };
        drift(next, states.drop_first(), left, width, screen_width)
    }
}

/// Whatever the character does, ticks and clicks in any order, a character
/// that starts between just off the left edge and the right edge of the
/// screen stays there.
pub proof fn lemma_stays_on_track_always(
    x: int,
    states: Seq<State>,
    left: bool,
    width: int,
    screen_width: int,
)
    requires
        -width <= x <= screen_width,
        -width <= screen_width,
    ensures
        -width <= drift(x, states, left, width, screen_width) <= screen_width,
    decreases states.len(),
{
    if states.len() > 0 {
        lemma_stays_on_track(states[0], x, left, width, screen_width);
        let next = match next_x(states[0], x, left, width, screen_width) {
            Some(n) => n,
            None => x,
        };
        lemma_stays_on_track_always(next, states.drop_first(), left, width, screen_width);
    }
}

/// Whether a character of the given size at (`x`, `y`) leaves the screen.
pub open spec fn out_of_bounds(
    x: int,
    y: int,
    width: int,
    height: int,
    screen_width: int,
    screen_height: int,
) -> bool {
    x + width >= screen_width || x < 0 || y + height >= screen_height || y < 0
}

/// A character of non-negative width that passed the start check begins
/// on the track of [`lemma_stays_on_track_always`], so it stays on it.
pub proof fn lemma_start_on_track(
    x: int,
    y: int,
    width: int,
    height: int,
    screen_width: int,
    screen_height: int,
    states: Seq<State>,
    left: bool,
)
    requires
        width >= 0,
        !out_of_bounds(x, y, width, height, screen_width, screen_height),
    ensures
        -width <= x <= screen_width,
        -width <= screen_width,
        -width <= drift(x, states, left, width, screen_width) <= screen_width,
{
    lemma_stays_on_track_always(x, states, left, width, screen_width);
}

/// Checks the start position: unless bounds checking is switched off
/// (`debug`), a character that does not fit on the screen is refused with
/// [`HomieError::CoordinatesOutOfBounds`].
pub fn check_start_position(
    x: i32,
    y: i32,
    width: i32,
    height: i32,
    screen_width: i32,
    screen_height: i32,
    debug: bool,
) -> (r: Result<(), HomieError>)
    requires
        !debug ==> i32::MIN <= x + width <= i32::MAX,
        !debug && x + width < screen_width && x >= 0 ==> i32::MIN <= y + height <= i32::MAX,
    ensures
        !debug && out_of_bounds(x as int, y as int, width as int, height as int, screen_width as int, screen_height as int)
            ==> (r matches Err(HomieError::CoordinatesOutOfBounds(a, b, c, d, e, f)) && a == x && b == y
            && c == screen_width && d == screen_height && e == width && f == height),
        !(!debug && out_of_bounds(x as int, y as int, width as int, height as int, screen_width as int, screen_height as int))
            ==> r is Ok,
{
    if !debug && ((x + width) >= screen_width || x < 0 || (y + height) >= screen_height || y < 0) {
        return Err(HomieError::CoordinatesOutOfBounds(x, y, screen_width, screen_height, width, height));
    }
    Ok(())
}

/// The time between two events, in milliseconds, for `per_second` events a second.
pub fn interval_ms(per_second: u32) -> (ms: u64)
    requires
        per_second > 0,
    ensures
        ms == 1000int / (per_second as int),
{
    1000 / (per_second as u64)
}


/// A running character moves exactly [`STEP`] pixels a tick while that keeps
/// it short of the edge it runs to: to the right it moves to `x + STEP` as
/// long as that is left of the screen's right edge, and only once it would
/// reach that edge does it come back just off the left edge (`-width`); to
/// the left it moves to `x - STEP` as long as that is right of `-width`,
/// and only then comes back at the right edge. A character that does not
/// run does not move.
pub proof fn lemma_step_moves_by_step(state: State, x: int, left: bool, width: int, screen_width: int)
    ensures
        state != State::Running ==> next_x(state, x, left, width, screen_width) is None,
        state == State::Running && !left && x + STEP < screen_width ==> next_x(
            state,
            x,
            left,
            width,
            screen_width,
        ) == Some(x + STEP),
        state == State::Running && !left && x + STEP >= screen_width ==> next_x(
            state,
            x,
            left,
            width,
            screen_width,
        ) == Some(-width),
        state == State::Running && left && x - STEP > -width ==> next_x(
            state,
            x,
            left,
            width,
            screen_width,
        ) == Some(x - STEP),
        state == State::Running && left && x - STEP <= -width ==> next_x(
            state,
            x,
            left,
            width,
            screen_width,
        ) == Some(screen_width),
{
}

/// Away from the edges a step to the right and a step to the left undo
/// each other.
pub proof fn lemma_steps_undo(x: int, width: int, screen_width: int)
    requires
        -width < x,
        x + STEP < screen_width,
    ensures
        next_x(State::Running, x, false, width, screen_width) == Some(x + STEP),
        next_x(State::Running, x + STEP, true, width, screen_width) == Some(x),
{
}


/// The start check lets a character through exactly when bounds checking
/// is off or the whole character lies on the screen: `0 <= x`,
/// `x + width < screen_width`, `0 <= y` and `y + height < screen_height`.
pub proof fn lemma_start_check_fits(
    x: int,
    y: int,
    width: int,
    height: int,
    screen_width: int,
    screen_height: int,
)
    ensures
        !out_of_bounds(x, y, width, height, screen_width, screen_height) <==> (0 <= x && x + width
            < screen_width && 0 <= y && y + height < screen_height),
{
}

} // verus!

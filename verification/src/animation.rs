use vstd::prelude::*;
use crate::state::{toggled, State};
use std::ops::Not;

verus! {

/// The frames of the three animations; `None` until they are loaded.
pub struct Sprites<T> {
    pub idle: Option<Vec<T>>,
    pub click: Option<Vec<T>>,
    pub running: Option<Vec<T>>,
}

/// What an [`Animation`] is: the animation playing, the index of the frame
/// shown next, and the frames of each animation.
pub struct AnimationView<T> {
    pub state: State,
    pub index: int,
    pub idle: Option<Seq<T>>,
    pub click: Option<Seq<T>>,
    pub running: Option<Seq<T>>,
}

pub open spec fn seq_of<T>(o: Option<Vec<T>>) -> Option<Seq<T>> {
    match o {
        Some(v) => Some(v@),
        None => None,
    }
}

/// The frames of the animation for state `s`.
pub open spec fn frames_of<T>(v: AnimationView<T>, s: State) -> Option<Seq<T>> {
    match s {
        State::Idle => v.idle,
        State::Click => v.click,
        State::Running => v.running,
    }
}

/// The index of the next frame lies in the playing animation, where that
/// animation is loaded and has frames.
pub open spec fn view_wf<T>(v: AnimationView<T>) -> bool {
    &&& v.index >= 0
    &&& (frames_of(v, v.state) matches Some(f) ==> (f.len() > 0 ==> v.index < f.len()))
}

/// Whether the playing animation is loaded but has no frame at all.
pub open spec fn playing_empty<T>(v: AnimationView<T>) -> bool {
    frames_of(v, v.state) matches Some(f) && f.len() == 0
}

/// One frame step: which frame (animation and index) is shown, and what
/// comes next. Nothing is shown while the playing animation is not loaded.
/// After the last frame an animation starts over, except the click
/// animation, which hands over to the idle one.
pub open spec fn step<T>(v: AnimationView<T>) -> (AnimationView<T>, Option<(State, int)>) {
    match frames_of(v, v.state) {
        None => (v, None),
        Some(f) => if v.index + 1 >= f.len() {
            (
                AnimationView {
                    state: if v.state == State::Click { State::Idle } else { v.state },
                    index: 0,
                    ..v
                },
                Some((v.state, v.index)),
            )
        } else {
            (AnimationView { index: v.index + 1, ..v }, Some((v.state, v.index)))
        },
    }
}

/// The animation after `k` frame steps.
pub open spec fn steps<T>(v: AnimationView<T>, k: nat) -> AnimationView<T>
    decreases k,
{
    if k == 0 {
        v
    } else {
        step(steps(v, (k - 1) as nat)).0
    }
}

/// The animation after a switch to `s`: it plays `s` from its first frame.
pub open spec fn switched<T>(v: AnimationView<T>, s: State) -> AnimationView<T> {
    AnimationView { state: s, index: 0, ..v }
}

/// What a click on a character in state `state` does, given a roll between
/// 0 and 100: nothing while the click animation plays; an idle character
/// plays the click animation when the roll is at most `chance`, and
/// otherwise starts running; a running character stops.
pub open spec fn click_spec(state: State, roll: u8, chance: u8) -> Option<State> {
    if state == State::Click {
        None
    } else if state == State::Idle && roll <= chance {
        Some(State::Click)
    } else {
        Some(toggled(state))
    }
}

/// The animation after a click with the given roll.
pub open spec fn clicked<T>(v: AnimationView<T>, roll: u8, chance: u8) -> AnimationView<T> {
    match click_spec(v.state, roll, chance) {
        Some(s) => switched(v, s),
        None => v,
    }
}

/// The animation state machine of the character.
pub struct Animation<T> {
    state: State,
    current_idx: usize,
    sprites: Sprites<T>,
}

impl<T> Animation<T> {
    pub closed spec fn view(&self) -> AnimationView<T> {
        AnimationView {
            state: self.state,
            index: self.current_idx as int,
            idle: seq_of(self.sprites.idle),
            click: seq_of(self.sprites.click),
            running: seq_of(self.sprites.running),
        }
    }

    #[verifier::type_invariant]
    closed spec fn inv(&self) -> bool {
        view_wf(self.view())
    }

    /// An idle character with no frames loaded.
    pub fn new() -> (a: Self)
        ensures
            a.view() == (AnimationView::<T> {
                state: State::Idle,
                index: 0,
                idle: None,
                click: None,
                running: None,
            }),
            view_wf(a.view()),
    {
        Animation {
            state: State::Idle,
            current_idx: 0,
            sprites: Sprites { idle: None, click: None, running: None },
        }
    }

    /// The animation playing.
    pub fn state(&self) -> (s: State)
        ensures
            s == self.view().state,
            view_wf(self.view()),
    {
        proof {
            use_type_invariant(self);
        }
        self.state
    }

    /// The index of the frame shown next.
    pub fn current_index(&self) -> (i: usize)
        ensures
            i == self.view().index,
            view_wf(self.view()),
    {
        proof {
            use_type_invariant(self);
        }
        self.current_idx
    }

    /// Whether the playing animation is loaded without any frame, so that
    /// it cannot be played.
    pub fn plays_empty(&self) -> (b: bool)
        ensures
            b == playing_empty(self.view()),
            view_wf(self.view()),
    {
        proof {
            use_type_invariant(self);
        }
        match self.frames(self.state) {
            Some(f) => f.len() == 0,
            None => false,
        }
    }

    /// The frames of the animation for `s`, if they are loaded.
    pub fn frames(&self, s: State) -> (r: Option<&Vec<T>>)
        ensures
            match frames_of(self.view(), s) {
                Some(f) => r is Some && r->0@ == f,
                None => r is None,
            },
    {
        match s {
            State::Idle => self.sprites.idle.as_ref(),
            State::Click => self.sprites.click.as_ref(),
            State::Running => self.sprites.running.as_ref(),
        }
    }

    /// Starts the animation for `new_state` from its first frame.
    pub fn switch_animation(&mut self, new_state: State)
        ensures
            final(self).view() == switched(old(self).view(), new_state),
            view_wf(final(self).view()),
    {
        proof {
            use_type_invariant(&*self);
        }
        self.current_idx = 0;
        self.state = new_state;
    }

    /// Goes back to the first frame of the animation playing.
    pub fn rewind(&mut self)
        ensures
            final(self).view() == (AnimationView { index: 0, ..old(self).view() }),
            view_wf(final(self).view()),
    {
        proof {
            use_type_invariant(&*self);
        }
        self.current_idx = 0;
    }

    /// Replaces all frames and goes back to the first frame of the
    /// animation playing, which is kept.
    pub fn load(&mut self, idle: Vec<T>, click: Vec<T>, running: Vec<T>)
        ensures
            final(self).view() == (AnimationView {
                state: old(self).view().state,
                index: 0,
                idle: Some(idle@),
                click: Some(click@),
                running: Some(running@),
            }),
            view_wf(final(self).view()),
    {
        proof {
            use_type_invariant(&*self);
        }
        self.current_idx = 0;
        self.sprites = Sprites { idle: Some(idle), click: Some(click), running: Some(running) };
    }

    /// Moves to the next frame. Returns the frame to show now, as the
    /// animation and the index of the frame in it, or `None` while the
    /// playing animation has no frames loaded. An animation that was loaded
    /// without any frame cannot be played.
    pub fn setup_next_frame(&mut self) -> (shown: Option<(State, usize)>)
        requires
            !playing_empty(old(self).view()),
        ensures
            final(self).view() == step(old(self).view()).0,
            match step(old(self).view()).1 {
                Some((s, i)) => shown == Some((s, i as usize)),
                None => shown is None,
            },
            view_wf(final(self).view()),
    {
        proof {
            use_type_invariant(&*self);
        }
        let idx: usize = self.current_idx;
        let state = self.state;
        let len: usize = match self.frames(state) {
            Some(frames) => frames.len(),
            None => {
                return None;
            },
        };
        if idx + 1 >= len {
            self.current_idx = 0;
            if state == State::Click {
                self.state = State::Idle;
            }
        } else {
            self.current_idx = idx + 1;
        }
        Some((state, idx))
    }
}

impl<T> Animation<T> {
    /// Reacts to a click on the character (see [`click_spec`]): the dice are
    /// rolled, between 0 and 100, only for an idle character.
    pub fn press(&mut self, onclick_event_chance: u8)
        ensures
            exists|roll: u8|
                roll <= 100 && final(self).view() == #[trigger] clicked(
                    old(self).view(),
                    roll,
                    onclick_event_chance,
                ),
            view_wf(final(self).view()),
    {
        let state = self.state();
        let roll: u8 = if state == State::Idle {
            random_u8(0, 100)
        } else {
            0
        };
        let ghost before = self.view();
        match click_outcome(state, roll, onclick_event_chance) {
            Some(next) => self.switch_animation(next),
            None => {},
        }
        assert(self.view() == clicked(before, roll, onclick_event_chance));
    }
}

/// `fastrand::u8` over `low..=high`: a random number in that range, drawn
/// from the thread's generator. Nothing is claimed of which number comes.
#[verifier::external_body]
fn random_u8(low: u8, high: u8) -> (r: u8)
    requires
        low <= high,
    ensures
        low <= r <= high,
{
    fastrand::u8(low..=high)
}

/// What a click does, given the roll of the dice (see [`click_spec`]).
pub fn click_outcome(state: State, roll: u8, chance: u8) -> (r: Option<State>)
    ensures
        r == click_spec(state, roll, chance),
{
    if state == State::Click {
        None
    } else if state == State::Idle && roll <= chance {
        Some(State::Click)
    } else {
        Some(state.not())
    }
}

/// A frame step keeps an animation well formed and never changes its frames.
pub proof fn lemma_step_keeps_wf<T>(v: AnimationView<T>)
    requires
        view_wf(v),
        !playing_empty(v),
    ensures
        view_wf(step(v).0),
        step(v).0.idle == v.idle,
        step(v).0.click == v.click,
        step(v).0.running == v.running,
{
}

proof fn lemma_click_prefix<T>(v: AnimationView<T>, i: nat)
    requires
        view_wf(v),
        v.state == State::Click,
        v.index == 0,
        v.click matches Some(f) && i < f.len(),
    ensures
        steps(v, i) == (AnimationView { index: i as int, ..v }),
    decreases i,
{
    if i > 0 {
        lemma_click_prefix(v, (i - 1) as nat);
    }
}

/// The click animation plays once: from its first frame it shows each of
/// its `n` frames in order, and after `n` steps the character is idle at the
/// first idle frame.
pub proof fn lemma_click_plays_once<T>(v: AnimationView<T>)
    requires
        view_wf(v),
        v.state == State::Click,
        v.index == 0,
        v.click is Some,
        v.click->0.len() > 0,
    ensures
        forall|i: nat|
            i < v.click->0.len() ==> #[trigger] step(steps(v, i)).1 == Some((State::Click, i as int)),
        steps(v, v.click->0.len()) == (AnimationView { state: State::Idle, index: 0, ..v }),
{
    let n: nat = v.click->0.len();
    assert forall|i: nat| i < n implies #[trigger] step(steps(v, i)).1 == Some(
        (State::Click, i as int),
    ) by {
        lemma_click_prefix(v, i);
    }
    lemma_click_prefix(v, (n - 1) as nat);
    assert(steps(v, n) == step(steps(v, (n - 1) as nat)).0);
}

proof fn lemma_loop_prefix<T>(v: AnimationView<T>, i: nat)
    requires
        view_wf(v),
        v.state != State::Click,
        v.index == 0,
        frames_of(v, v.state) matches Some(f) && i < f.len(),
    ensures
        steps(v, i) == (AnimationView { index: i as int, ..v }),
    decreases i,
{
    if i > 0 {
        lemma_loop_prefix(v, (i - 1) as nat);
    }
}

/// The idle and the running animations loop: from the first frame they
/// show each of their `n` frames in order and after `n` steps are back where
/// they started.
pub proof fn lemma_animation_loops<T>(v: AnimationView<T>)
    requires
        view_wf(v),
        v.state != State::Click,
        v.index == 0,
        frames_of(v, v.state) is Some,
        frames_of(v, v.state)->0.len() > 0,
    ensures
        forall|i: nat|
            i < frames_of(v, v.state)->0.len() ==> #[trigger] step(steps(v, i)).1 == Some(
                (v.state, i as int),
            ),
        steps(v, frames_of(v, v.state)->0.len()) == v,
{
    let n: nat = frames_of(v, v.state)->0.len();
    assert forall|i: nat| i < n implies #[trigger] step(steps(v, i)).1 == Some(
        (v.state, i as int),
    ) by {
        lemma_loop_prefix(v, i);
    }
    lemma_loop_prefix(v, (n - 1) as nat);
    assert(steps(v, n) == step(steps(v, (n - 1) as nat)).0);
}


/// A click never touches a playing click animation; it stops a running
/// character; and it lets an idle character play the click animation when
/// the roll is at most the chance, and start running when the roll is above
/// it.
pub proof fn lemma_click_rules(state: State, roll: u8, chance: u8)
    ensures
        state == State::Click ==> click_spec(state, roll, chance) is None,
        state == State::Running ==> click_spec(state, roll, chance) == Some(State::Idle),
        state == State::Idle && roll <= chance ==> click_spec(state, roll, chance) == Some(
            State::Click,
        ),
        state == State::Idle && roll > chance ==> click_spec(state, roll, chance) == Some(
            State::Running,
        ),
{
}

} // verus!

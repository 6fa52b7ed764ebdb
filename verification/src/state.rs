//! The application state and its per-intent and per-frame transitions.

use vstd::prelude::*;

verus! {

/// The fixed distance a directional intent moves the player.
pub const MOVE_STEP: i64 = 10;

/// The amount the trigger intent adds to the effect magnitude.
pub const TRIGGER_GAIN: i64 = 10;

/// The amount one update step removes from a positive effect magnitude.
pub const DECAY_STEP: i64 = 1;

/// A discrete intent: the meaning of one raw key press. Every raw key
/// outside the recognized set is mapped to `Other` at the boundary.
#[derive(Clone, Copy, Debug, PartialEq, Eq, Structural)]
pub enum Key {
    Up,
    Down,
    Left,
    Right,
    Trigger,
    Other,
}

/// The player's position: the top-left reference point of the rendered
/// square, in canvas units (y grows downward).
#[derive(Clone, Copy, Debug, PartialEq, Eq, Structural)]
pub struct Player {
    pub x: i64,
    pub y: i64,
}

/// All mutable simulation data: the player's position and the transient
/// visual-effect magnitude (`expand`), which is never negative.
#[derive(Clone, Copy, Debug, PartialEq, Eq, Structural)]
pub struct App {
    pub expand: i64,
    pub player: Player,
}

/// The mathematical model of the state: the same three scalars, over
/// unbounded integers.
#[verifier::ext_equal]
pub ghost struct Model {
    pub x: int,
    pub y: int,
    pub expand: int,
}

impl View for App {
    type V = Model;

    open spec fn view(&self) -> Model {
        Model { x: self.player.x as int, y: self.player.y as int, expand: self.expand as int }
    }
}

impl Model {
    /// The state invariant: the effect magnitude never goes below zero.
    pub open spec fn wf(self) -> bool {
        self.expand >= 0
    }
}

/// What one intent does to the model: directional intents shift one
/// coordinate by `MOVE_STEP`, the trigger adds `TRIGGER_GAIN` to the effect
/// magnitude, and an unrecognized key changes nothing.
pub open spec fn apply_key(m: Model, k: Key) -> Model {
    match k {
        Key::Up => Model { y: m.y - MOVE_STEP, ..m },
        Key::Down => Model { y: m.y + MOVE_STEP, ..m },
        Key::Left => Model { x: m.x - MOVE_STEP, ..m },
        Key::Right => Model { x: m.x + MOVE_STEP, ..m },
        Key::Trigger => Model { expand: m.expand + TRIGGER_GAIN, ..m },
        Key::Other => m,
    }
}

/// One frame's decay of the effect magnitude: one unit off a positive
/// value, a value at or below zero left unchanged (clamped at zero by the
/// invariant, never driven negative).
pub open spec fn decay(e: int) -> int {
    if e > 0 {
        e - DECAY_STEP
    } else {
        e
    }
}

/// What one update step does to the model: the position is untouched and
/// the effect magnitude decays.
pub open spec fn step(m: Model) -> Model {
    Model { expand: decay(m.expand), ..m }
}

/// Whether applying `k` keeps the affected scalar inside the machine range
/// of its `i64` field. Only states at the very edge of that range fail this.
pub open spec fn key_fits(m: Model, k: Key) -> bool {
    match k {
        Key::Up => m.y - MOVE_STEP >= i64::MIN,
        Key::Down => m.y + MOVE_STEP <= i64::MAX,
        Key::Left => m.x - MOVE_STEP >= i64::MIN,
        Key::Right => m.x + MOVE_STEP <= i64::MAX,
        Key::Trigger => m.expand + TRIGGER_GAIN <= i64::MAX,
        Key::Other => true,
    }
}

impl App {
    /// The state invariant, on the executable representation.
    pub open spec fn wf(self) -> bool {
        self@.wf()
    }

    /// The initial state: the player at (50, 50) with no active effect.
    pub fn new() -> (a: App)
        ensures
            a@ == (Model { x: 50, y: 50, expand: 0 }),
            a.wf(),
    {
        App { expand: 0, player: Player { x: 50, y: 50 } }
    }

    /// One frame's worth of input-independent decay (UpdateStep): the
    /// position is untouched and a positive effect magnitude shrinks by
    /// `DECAY_STEP`, never below zero.
    pub fn update(&mut self)
        ensures
            final(self)@ == step(old(self)@),
            final(self).player == old(self).player,
            old(self).wf() ==> final(self).wf(),
    {
        if self.expand > 0 {
            self.expand = self.expand - DECAY_STEP;
        }
    }
}

/// Applies one translated key intent to the state (InputTranslator): total
/// over every `Key`, with an unrecognized key an explicit no-op.
pub fn handle_key(key: Key, app: &mut App)
    requires
        key_fits(old(app)@, key),
    ensures
        final(app)@ == apply_key(old(app)@, key),
        key == Key::Other ==> *final(app) == *old(app),
        old(app).wf() ==> final(app).wf(),
{
    match key {
        Key::Up => app.player.y = app.player.y - MOVE_STEP,
        Key::Down => app.player.y = app.player.y + MOVE_STEP,
        Key::Left => app.player.x = app.player.x - MOVE_STEP,
        Key::Right => app.player.x = app.player.x + MOVE_STEP,
        Key::Trigger => app.expand = app.expand + TRIGGER_GAIN,
        Key::Other => {},
    }
}

/// The effect magnitude after `n` update steps from magnitude `e`.
pub open spec fn decay_iter(e: int, n: nat) -> int
    decreases n,
{
    if n == 0 {
        e
    } else {
        decay_iter(decay(e), (n - 1) as nat)
    }
}

/// The clamp invariant: from any non-negative effect magnitude, no number
/// of update steps ever drives the magnitude below zero.
pub proof fn lemma_decay_never_negative(e: int, n: nat)
    requires
        e >= 0,
    ensures
        decay_iter(e, n) >= 0,
    decreases n,
{
    if n > 0 {
        lemma_decay_never_negative(decay(e), (n - 1) as nat);
    }
}

/// Decay convergence: from any magnitude `M >= 0`, after `n` update steps
/// the magnitude is exactly `M - n` while `n < M`, is exactly zero once
/// `n >= M`, and so first reaches zero after exactly `M` steps and remains
/// zero thereafter.
pub proof fn lemma_decay_convergence(e: int, n: nat)
    requires
        e >= 0,
    ensures
        decay_iter(e, n) == if n < e {
            e - n
        } else {
            0
        },
    decreases n,
{
    if n > 0 {
        lemma_decay_convergence(decay(e), (n - 1) as nat);
    }
}

/// Movement determinism: a directional intent and its opposite form an
/// inverse pair, so applying one and then the other returns the model —
/// position included — to its starting value.
pub proof fn lemma_movement_inverse(m: Model)
    ensures
        apply_key(apply_key(m, Key::Right), Key::Left) == m,
        apply_key(apply_key(m, Key::Left), Key::Right) == m,
        apply_key(apply_key(m, Key::Up), Key::Down) == m,
        apply_key(apply_key(m, Key::Down), Key::Up) == m,
{
}

/// Unrecognized input is a no-op: a key outside the recognized set leaves
/// the model exactly as it was.
pub proof fn lemma_unrecognized_noop(m: Model)
    ensures
        apply_key(m, Key::Other) == m,
{
}

/// Every intent preserves the state invariant: the effect magnitude can
/// only grow under an intent, never sink below zero.
pub proof fn lemma_apply_key_wf(m: Model, k: Key)
    requires
        m.wf(),
    ensures
        apply_key(m, k).wf(),
{
}

/// The update step preserves the state invariant.
pub proof fn lemma_step_wf(m: Model)
    requires
        m.wf(),
    ensures
        step(m).wf(),
{
}

/// Whether `handle_key` may be applied in state `app` without leaving the
/// machine range of a coordinate: an executable test of `key_fits`.
pub fn key_fits_now(app: &App, key: Key) -> (r: bool)
    ensures
        r == key_fits(app@, key),
{
    match key {
        Key::Up => app.player.y >= i64::MIN + MOVE_STEP,
        Key::Down => app.player.y <= i64::MAX - MOVE_STEP,
        Key::Left => app.player.x >= i64::MIN + MOVE_STEP,
        Key::Right => app.player.x <= i64::MAX - MOVE_STEP,
        Key::Trigger => app.expand <= i64::MAX - TRIGGER_GAIN,
        Key::Other => true,
    }
}

} // verus!

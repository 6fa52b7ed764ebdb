//! The frame loop's decisions: what each event does to the state, and the
//! fixed per-frame order — pending inputs in the order received, then one
//! update step, then one render step.
//!
//! The surrounding program owns the window and the event source; it feeds
//! each event here and paints the frames handed back. Shutdown is the event
//! source ending, so no event models it.

use vstd::prelude::*;

use crate::render::Frame;
use crate::render::spec_frame;
use crate::state::App;
use crate::state::Key;
use crate::state::Model;
use crate::state::apply_key;
use crate::state::handle_key;
use crate::state::key_fits;
use crate::state::key_fits_now;
use crate::state::step;

verus! {

/// One frame-scoped signal from the event source: a translated key press,
/// an update-due signal, or a render-due signal with the canvas extents.
#[derive(Clone, Copy, Debug, PartialEq, Eq, Structural)]
pub enum Event {
    Press(Key),
    Update,
    Render { width: u32, height: u32 },
}

/// Whether dispatching `ev` keeps every state scalar in machine range:
/// only a press can move a scalar, so only a press is constrained.
pub open spec fn event_fits(m: Model, ev: Event) -> bool {
    match ev {
        Event::Press(k) => key_fits(m, k),
        Event::Update => true,
        Event::Render { .. } => true,
    }
}

/// The model after a sequence of key intents, applied in the order
/// received, each completing before the next begins.
pub open spec fn apply_keys(m: Model, ks: Seq<Key>) -> Model
    decreases ks.len(),
{
    if ks.len() == 0 {
        m
    } else {
        apply_keys(apply_key(m, ks[0]), ks.skip(1))
    }
}

/// Whether a whole sequence of key intents can be applied from model `m`
/// without any scalar leaving its machine range.
pub open spec fn keys_fit(m: Model, ks: Seq<Key>) -> bool
    decreases ks.len(),
{
    ks.len() == 0 || (key_fits(m, ks[0]) && keys_fit(apply_key(m, ks[0]), ks.skip(1)))
}

/// Appending one intent to a sequence applies it last.
pub proof fn lemma_apply_keys_push(m: Model, ks: Seq<Key>, k: Key)
    ensures
        apply_keys(m, ks.push(k)) == apply_key(apply_keys(m, ks), k),
    decreases ks.len(),
{
    let s = ks.push(k);
    if ks.len() == 0 {
        assert(s[0] == k);
        assert(s.skip(1) =~= Seq::<Key>::empty());
        assert(apply_keys(m, s) == apply_keys(apply_key(m, k), s.skip(1)));
        assert(apply_keys(apply_key(m, k), s.skip(1)) == apply_key(m, k));
        assert(apply_keys(m, ks) == m);
    } else {
        assert(s[0] == ks[0]);
        assert(s.skip(1) =~= ks.skip(1).push(k));
        lemma_apply_keys_push(apply_key(m, ks[0]), ks.skip(1), k);
        assert(apply_keys(m, s) == apply_keys(apply_key(m, ks[0]), s.skip(1)));
        assert(apply_keys(m, ks) == apply_keys(apply_key(m, ks[0]), ks.skip(1)));
    }
}

/// Applying an intent sequence preserves the state invariant.
pub proof fn lemma_apply_keys_wf(m: Model, ks: Seq<Key>)
    requires
        m.wf(),
    ensures
        apply_keys(m, ks).wf(),
    decreases ks.len(),
{
    if ks.len() > 0 {
        lemma_apply_keys_wf(apply_key(m, ks[0]), ks.skip(1));
    }
}

/// Dispatches one event (the frame loop's per-event decision): a press is
/// handed to the input translator, an update-due signal runs one update
/// step, and a render-due signal computes the frame's draw commands
/// without touching the state.
pub fn dispatch(app: &mut App, ev: Event) -> (out: Option<Frame>)
    requires
        event_fits(old(app)@, ev),
    ensures
        match ev {
            Event::Press(k) => final(app)@ == apply_key(old(app)@, k) && out is None,
            Event::Update => final(app)@ == step(old(app)@) && out is None,
            Event::Render { width, height } => *final(app) == *old(app) && out == Some(
                spec_frame(*old(app), width, height),
            ),
        },
        old(app).wf() ==> final(app).wf(),
{
    match ev {
        Event::Press(k) => {
            handle_key(k, app);
            None
        },
        Event::Update => {
            app.update();
            None
        },
        Event::Render { width, height } => Some(app.render(width, height)),
    }
}

/// Whether dispatching `ev` in state `app` keeps every scalar in machine
/// range: an executable test of `event_fits`.
pub fn event_fits_now(app: &App, ev: &Event) -> (r: bool)
    ensures
        r == event_fits(app@, *ev),
{
    match ev {
        Event::Press(k) => key_fits_now(app, *k),
        Event::Update => true,
        Event::Render { .. } => true,
    }
}

/// Runs one whole frame in the fixed order: every pending key intent in
/// the order received, then exactly one update step, then exactly one
/// render step, whose draw commands are returned.
pub fn step_frame(app: &mut App, keys: &Vec<Key>, width: u32, height: u32) -> (f: Frame)
    requires
        keys_fit(old(app)@, keys@),
    ensures
        final(app)@ == step(apply_keys(old(app)@, keys@)),
        f == spec_frame(*final(app), width, height),
        old(app).wf() ==> final(app).wf(),
{
    let mut i: usize = 0;
    proof {
        assert(keys@.skip(0) =~= keys@);
        assert(keys@.take(0) =~= Seq::<Key>::empty());
    }
    while i < keys.len()
        invariant
            i <= keys.len(),
            app@ == apply_keys(old(app)@, keys@.take(i as int)),
            keys_fit(app@, keys@.skip(i as int)),
        decreases keys.len() - i,
    {
        let k = keys[i];
        assert(keys@.skip(i as int)[0] == keys@[i as int]);
        handle_key(k, app);
        proof {
            lemma_apply_keys_push(old(app)@, keys@.take(i as int), k);
            assert(keys@.take(i as int).push(k) =~= keys@.take(i + 1));
            assert(keys@.skip(i as int).skip(1) =~= keys@.skip(i + 1));
        }
        i = i + 1;
    }
    proof {
        assert(keys@.take(i as int) =~= keys@);
        if old(app)@.wf() {
            lemma_apply_keys_wf(old(app)@, keys@);
        }
    }
    app.update();
    app.render(width, height)
}

/// Whether a whole intent sequence can be applied from state `app` without
/// leaving machine range: an executable test of `keys_fit`, walking a copy
/// of the state forward.
pub fn keys_fit_now(app: &App, keys: &Vec<Key>) -> (r: bool)
    ensures
        r == keys_fit(app@, keys@),
{
    let mut cur: App = *app;
    let mut i: usize = 0;
    proof {
        assert(keys@.skip(0) =~= keys@);
        assert(keys@.take(0) =~= Seq::<Key>::empty());
    }
    while i < keys.len()
        invariant
            i <= keys.len(),
            cur@ == apply_keys(app@, keys@.take(i as int)),
            keys_fit(app@, keys@) == keys_fit(cur@, keys@.skip(i as int)),
        decreases keys.len() - i,
    {
        let k = keys[i];
        assert(keys@.skip(i as int)[0] == keys@[i as int]);
        if !key_fits_now(&cur, k) {
            return false;
        }
        handle_key(k, &mut cur);
        proof {
            lemma_apply_keys_push(app@, keys@.take(i as int), k);
            assert(keys@.take(i as int).push(k) =~= keys@.take(i + 1));
            assert(keys@.skip(i as int).skip(1) =~= keys@.skip(i + 1));
        }
        i = i + 1;
    }
    proof {
        assert(keys@.skip(i as int) =~= Seq::<Key>::empty());
    }
    true
}

} // verus!

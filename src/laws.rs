//! Properties that relate several calls of the widgets and the update pass.
use crate::frame::{color_for, fire_step, frame_run, rendered, run_through, Interaction, Palette};
use crate::tree::{binding_of, is_button_tree, is_checkbox_tree, is_volume_tree, source_of, ButtonBinding, Node};
use crate::widget::{flips, glyph_of, lens_consistent, pure_format, Action, CheckBox, LabelText, Vol};
use vstd::prelude::*;

verus! {

/// How many of `signals` are presses.
pub open spec fn presses(signals: Seq<Interaction>) -> nat
    decreases signals.len(),
{
    if signals.len() == 0 {
        0
    } else {
        presses(signals.drop_last()) + if signals.last() == Interaction::Pressed {
            1nat
        } else {
            0nat
        }
    }
}

/// A frame with one button takes one step of that button.
proof fn lemma_single_frame<T, F: Fn(&T) -> T>(
    action: Action<F>,
    signal: Interaction,
    before: T,
    after: T,
)
    requires
        frame_run(seq![action], seq![signal], before, after),
    ensures
        fire_step(action, signal, before, after),
{
    let states = choose|states: Seq<T>|
        #[trigger] run_through(seq![action], seq![signal], states) && states[0] == before
            && states.last() == after;
    assert(fire_step(seq![action][0], seq![signal][0], states[0], states[1]));
}

/// Over a run of frames in which a button that adds one to a counter gets
/// one signal per frame, the counter grows by exactly the number of presses:
/// hovering and idle frames never fire, and no press is lost or doubled.
pub proof fn lemma_clicks_counted<T, F: Fn(&T) -> T>(
    action: Action<F>,
    count: spec_fn(T) -> int,
    signals: Seq<Interaction>,
    states: Seq<T>,
)
    requires
        states.len() == signals.len() + 1,
        forall|k: int|
            0 <= k < signals.len() ==> #[trigger] frame_run(
                seq![action],
                seq![signals[k]],
                states[k],
                states[k + 1],
            ),
        forall|s: T, t: T| #[trigger] call_ensures(action.action, (&s,), t) ==> count(t) == count(s) + 1,
    ensures
        count(states.last()) == count(states[0]) + presses(signals),
    decreases signals.len(),
{
    if signals.len() > 0 {
        let n = signals.len() - 1;
        assert(frame_run(seq![action], seq![signals[n]], states[n], states[n + 1]));
        lemma_single_frame(action, signals[n], states[n], states[n + 1]);
        lemma_clicks_counted(action, count, signals.drop_last(), states.drop_last());
        assert(signals.drop_last().len() == n);
    }
}

/// Every signal gives one of the palette's three colors, the one that
/// belongs to it.
pub proof fn lemma_background_in_palette<C>(palette: Palette<C>, signal: Interaction)
    ensures
        color_for(palette, signal) == palette.pressed || color_for(palette, signal)
            == palette.hovered || color_for(palette, signal) == palette.button,
        signal == Interaction::Pressed ==> color_for(palette, signal) == palette.pressed,
        signal == Interaction::Hovered ==> color_for(palette, signal) == palette.hovered,
        signal == Interaction::Idle ==> color_for(palette, signal) == palette.button,
{
}

/// Without presses, every intermediate state equals the first.
proof fn lemma_steps_unchanged<T, F: Fn(&T) -> T>(
    actions: Seq<Action<F>>,
    signals: Seq<Interaction>,
    states: Seq<T>,
    k: int,
)
    requires
        run_through(actions, signals, states),
        0 <= k < states.len(),
        forall|i: int| 0 <= i < signals.len() ==> #[trigger] signals[i] != Interaction::Pressed,
    ensures
        states[k] == states[0],
    decreases k,
{
    if k > 0 {
        let i = k - 1;
        lemma_steps_unchanged(actions, signals, states, i);
        assert(fire_step(actions[i], signals[i], states[i], states[i + 1]));
    }
}

/// A frame without presses leaves the settings as they were.
pub proof fn lemma_no_press_no_change<T, F: Fn(&T) -> T>(
    actions: Seq<Action<F>>,
    signals: Seq<Interaction>,
    before: T,
    after: T,
)
    requires
        frame_run(actions, signals, before, after),
        forall|i: int| 0 <= i < signals.len() ==> #[trigger] signals[i] != Interaction::Pressed,
    ensures
        after == before,
{
    let states = choose|states: Seq<T>|
        #[trigger] run_through(actions, signals, states) && states[0] == before && states.last()
            == after;
    lemma_steps_unchanged(actions, signals, states, states.len() - 1);
    assert(states[states.len() - 1] == before);
}

/// Two update passes in a row with no press between them show the same
/// text in every label, provided each formatter is a pure projection.
pub proof fn lemma_idle_frames_render_same<T, F: Fn(&T) -> T, G: Fn(&T) -> String>(
    actions: Seq<Action<F>>,
    signals: Seq<Interaction>,
    labels: Seq<LabelText<G>>,
    first: T,
    second: T,
    first_texts: Seq<String>,
    second_texts: Seq<String>,
)
    requires
        forall|i: int| 0 <= i < signals.len() ==> #[trigger] signals[i] != Interaction::Pressed,
        forall|j: int| 0 <= j < labels.len() ==> pure_format::<T, G>(#[trigger] labels[j].format),
        rendered(labels, first, first_texts),
        frame_run(actions, signals, first, second),
        rendered(labels, second, second_texts),
    ensures
        first_texts.len() == second_texts.len(),
        forall|j: int| 0 <= j < first_texts.len() ==> (#[trigger] first_texts[j])@ == second_texts[j]@,
{
    lemma_no_press_no_change(actions, signals, first, second);
    assert forall|j: int| 0 <= j < first_texts.len() implies (#[trigger] first_texts[j])@
        == second_texts[j]@ by {
        assert(pure_format::<T, G>(labels[j].format));
        assert(call_ensures(labels[j].format, (&first,), first_texts[j]));
        assert(call_ensures(labels[j].format, (&second,), second_texts[j]));
    }
}

/// Pressing "+" and then "-" on a volume control whose steps undo each
/// other brings its label back to the text it showed before.
pub proof fn lemma_volume_round_trip<T, L: Fn(&T) -> String, M: Fn(&T, bool) -> T>(
    vol: Vol<L, M>,
    start: T,
    raised: T,
    back: T,
    text_before: String,
    text_after: String,
)
    requires
        pure_format::<T, L>(vol.label),
        forall|x: T, y: T, z: T|
            #[trigger] call_ensures(vol.action, (&x, true), y) && #[trigger] call_ensures(
                vol.action,
                (&y, false),
                z,
            ) ==> z == x,
        call_ensures(vol.action, (&start, true), raised),
        call_ensures(vol.action, (&raised, false), back),
        call_ensures(vol.label, (&start,), text_before),
        call_ensures(vol.label, (&back,), text_after),
    ensures
        text_after@ == text_before@,
{
    assert(back == start);
}

/// Writing the negation of what a consistent checkbox reads flips it: the
/// reader then gives the opposite value and the glyph changes with it.
pub proof fn lemma_checkbox_flip<T, R: Fn(&T) -> bool, W: Fn(&T, bool) -> T>(
    read: R,
    write: W,
    before: T,
    after: T,
    was: bool,
)
    requires
        lens_consistent::<T, R, W>(read, write),
        call_ensures(read, (&before,), was),
        call_ensures(write, (&before, !was), after),
    ensures
        forall|now: bool| #[trigger] call_ensures(read, (&after,), now) ==> now == !was && glyph_of(now)
            == glyph_of(!was) && glyph_of(now) != glyph_of(was),
{
    assert(glyph_of(true) != glyph_of(false)) by {
        assert(glyph_of(true)[0] != glyph_of(false)[0]);
    }
}

/// Flipping a consistent checkbox twice gives back the settings it started
/// from.
pub proof fn lemma_flip_twice<T, R: Fn(&T) -> bool, W: Fn(&T, bool) -> T>(
    read: R,
    write: W,
    start: T,
    once: T,
    twice: T,
    first: bool,
    second: bool,
)
    requires
        lens_consistent::<T, R, W>(read, write),
        flips::<T, R, W>(read, write, start, once),
        flips::<T, R, W>(read, write, once, twice),
        call_ensures(read, (&start,), first),
        call_ensures(read, (&once,), second),
    ensures
        second == !first,
        twice == start,
{
    assert(call_ensures(write, (&start, !first), once));
    assert(call_ensures(write, (&once, !second), twice));
}

/// The button of a spawned action runs the action's own closure.
pub proof fn lemma_spawned_action_fires<T, F: Fn(&T) -> T>(
    action: Action<F>,
    n: Node,
    before: T,
    after: Option<T>,
)
    requires
        is_button_tree(n, action.name@, ButtonBinding::Fire),
        action.runs(binding_of(n), before, after),
    ensures
        after is Some,
        call_ensures(action.action, (&before,), after->Some_0),
{
}

/// Through the leaves of a spawned volume control: "+" steps up, "-"
/// steps down and the level leaf shows the shared label; when the two
/// steps undo each other, "+" then "-" brings back the settings and the
/// label text.
pub proof fn lemma_spawned_volume_round_trip<T, L: Fn(&T) -> String, M: Fn(&T, bool) -> T>(
    vol: Vol<L, M>,
    n: Node,
    start: T,
    raised: Option<T>,
    back: Option<T>,
    text_before: Option<String>,
    text_raised: Option<String>,
    text_after: Option<String>,
)
    requires
        is_volume_tree(n),
        pure_format::<T, L>(vol.label),
        forall|x: T, y: T, z: T|
            #[trigger] call_ensures(vol.action, (&x, true), y) && #[trigger] call_ensures(
                vol.action,
                (&y, false),
                z,
            ) ==> z == x,
        n matches Node::Group { children, .. } && {
            &&& vol.runs(binding_of(children@[0]), start, raised)
            &&& raised is Some
            &&& vol.runs(binding_of(children@[2]), raised->Some_0, back)
            &&& vol.shows(source_of(children@[1]), start, text_before)
            &&& vol.shows(source_of(children@[1]), raised->Some_0, text_raised)
            &&& back is Some
            &&& vol.shows(source_of(children@[1]), back->Some_0, text_after)
        },
    ensures
        call_ensures(vol.action, (&start, true), raised->Some_0),
        text_raised is Some && call_ensures(vol.label, (&raised->Some_0,), text_raised->Some_0),
        back == Some(start),
        text_before is Some && text_after is Some && text_after->Some_0@ == text_before->Some_0@,
{
}

/// Through the leaves of a spawned checkbox: its button flips the field,
/// and its glyph leaf turns from the glyph of the old value to that of the
/// new one.
pub proof fn lemma_spawned_checkbox_click<T, R: Fn(&T) -> bool, W: Fn(&T, bool) -> T>(
    cb: CheckBox<R, W>,
    n: Node,
    before: T,
    after: Option<T>,
    was: bool,
    now: bool,
    glyph_before: Option<String>,
    glyph_after: Option<String>,
)
    requires
        lens_consistent::<T, R, W>(cb.read, cb.write),
        is_checkbox_tree(n, cb.name@),
        n matches Node::Group { children, .. } && {
            &&& cb.runs(binding_of(children@[1]), before, after)
            &&& after is Some
            &&& cb.shows(source_of(children@[0]), before, glyph_before)
            &&& cb.shows(source_of(children@[0]), after->Some_0, glyph_after)
            &&& call_ensures(cb.read, (&after->Some_0,), now)
        },
        call_ensures(cb.read, (&before,), was),
    ensures
        now == !was,
        call_ensures(cb.write, (&before, !was), after->Some_0),
        glyph_before is Some && glyph_before->Some_0@ == glyph_of(was),
        glyph_after is Some && glyph_after->Some_0@ == glyph_of(!was),
{
}

} // verus!

//! The per-frame update pass: clicks fire their actions, every button's
//! background follows its interaction signal, and every label is formatted
//! again from the settings as they stand after the clicks.
use crate::widget::{total_format, total_update, Action, LabelText};
use vstd::prelude::*;

verus! {

/// The pointer state of one interactive leaf in the current frame.
#[derive(Clone, Copy, PartialEq, Eq, Debug, Structural)]
pub enum Interaction {
    Pressed,
    Hovered,
    Idle,
}

/// The three background colors of a button.
#[derive(Clone, Copy, Debug)]
pub struct Palette<C> {
    pub button: C,
    pub hovered: C,
    pub pressed: C,
}

/// The background a button shows under the given signal.
pub open spec fn color_for<C>(palette: Palette<C>, signal: Interaction) -> C {
    match signal {
        Interaction::Pressed => palette.pressed,
        Interaction::Hovered => palette.hovered,
        Interaction::Idle => palette.button,
    }
}

impl<C: Copy> Palette<C> {
    pub fn new(button: C, hovered: C, pressed: C) -> (r: Self)
        ensures
            r == (Palette { button, hovered, pressed }),
    {
        Palette { button, hovered, pressed }
    }

    /// The background for `signal`.
    pub fn background(&self, signal: Interaction) -> (r: C)
        ensures
            r == color_for(*self, signal),
    {
        match signal {
            Interaction::Pressed => self.pressed,
            Interaction::Hovered => self.hovered,
            Interaction::Idle => self.button,
        }
    }
}

/// One button's step of a frame: a press runs its action, any other signal
/// leaves the settings as they were.
pub open spec fn fire_step<T, F: Fn(&T) -> T>(
    action: Action<F>,
    signal: Interaction,
    before: T,
    after: T,
) -> bool {
    if signal == Interaction::Pressed {
        call_ensures(action.action, (&before,), after)
    } else {
        after == before
    }
}

/// The settings pass through `states`, one button after the other.
pub open spec fn run_through<T, F: Fn(&T) -> T>(
    actions: Seq<Action<F>>,
    signals: Seq<Interaction>,
    states: Seq<T>,
) -> bool {
    &&& states.len() == actions.len() + 1
    &&& signals.len() == actions.len()
    &&& forall|i: int|
        0 <= i < actions.len() ==> #[trigger] fire_step(
            actions[i],
            signals[i],
            states[i],
            states[i + 1],
        )
}

/// The clicks of one frame take the settings from `before` to `after`.
pub open spec fn frame_run<T, F: Fn(&T) -> T>(
    actions: Seq<Action<F>>,
    signals: Seq<Interaction>,
    before: T,
    after: T,
) -> bool {
    exists|states: Seq<T>|
        #[trigger] run_through(actions, signals, states) && states[0] == before && states.last()
            == after
}

/// `texts` holds, in order, what each label shows for `settings`.
pub open spec fn rendered<T, G: Fn(&T) -> String>(
    labels: Seq<LabelText<G>>,
    settings: T,
    texts: Seq<String>,
) -> bool {
    &&& texts.len() == labels.len()
    &&& forall|j: int|
        0 <= j < labels.len() ==> call_ensures(labels[j].format, (&settings,), #[trigger] texts[j])
}

/// What one frame shows: a background per button and a text per label.
pub struct FrameOutput<C> {
    pub backgrounds: Vec<C>,
    pub texts: Vec<String>,
}

/// Runs `action` if `signal` is a press; returns the background to show.
pub fn handle_interaction<T, F: Fn(&T) -> T, C: Copy>(
    palette: &Palette<C>,
    action: &Action<F>,
    signal: Interaction,
    settings: &mut T,
) -> (r: C)
    requires
        total_update::<T, F>(action.action),
    ensures
        r == color_for(*palette, signal),
        fire_step(*action, signal, *old(settings), *final(settings)),
{
    if signal == Interaction::Pressed {
        action.fire(settings);
    }
    palette.background(signal)
}

/// One update pass. Button `i` gets `signals[i]`. All clicks are applied
/// before any label is formatted, so the texts reflect this frame's clicks.
pub fn update_frame<T, F: Fn(&T) -> T, G: Fn(&T) -> String, C: Copy>(
    palette: &Palette<C>,
    settings: &mut T,
    actions: &Vec<Action<F>>,
    signals: &Vec<Interaction>,
    labels: &Vec<LabelText<G>>,
) -> (r: FrameOutput<C>)
    requires
        signals.len() == actions.len(),
        forall|i: int| 0 <= i < actions.len() ==> total_update::<T, F>(#[trigger] actions[i].action),
        forall|j: int| 0 <= j < labels.len() ==> total_format::<T, G>(#[trigger] labels[j].format),
    ensures
        frame_run(actions@, signals@, *old(settings), *final(settings)),
        r.backgrounds.len() == actions.len(),
        forall|i: int|
            0 <= i < actions.len() ==> #[trigger] r.backgrounds[i] == color_for(*palette, signals[i]),
        rendered(labels@, *final(settings), r.texts@),
{
    let ghost start = *settings;
    let ghost mut states: Seq<T> = seq![*settings];
    let mut backgrounds: Vec<C> = Vec::new();
    let mut i: usize = 0;
    while i < actions.len()
        invariant
            signals.len() == actions.len(),
            forall|k: int| 0 <= k < actions.len() ==> total_update::<T, F>(#[trigger] actions[k].action),
            0 <= i <= actions.len(),
            states.len() == i + 1,
            states[0] == start,
            states[i as int] == *settings,
            forall|k: int|
                0 <= k < i ==> #[trigger] fire_step(
                    actions@[k],
                    signals@[k],
                    states[k],
                    states[k + 1],
                ),
            backgrounds.len() == i,
            forall|k: int| 0 <= k < i ==> #[trigger] backgrounds[k] == color_for(*palette, signals[k]),
        decreases actions.len() - i,
    {
        let c = handle_interaction(palette, &actions[i], signals[i], settings);
        backgrounds.push(c);
        proof {
            states = states.push(*settings);
        }
        i = i + 1;
    }
    assert(run_through(actions@, signals@, states));
    let mut texts: Vec<String> = Vec::new();
    let mut j: usize = 0;
    while j < labels.len()
        invariant
            forall|k: int| 0 <= k < labels.len() ==> total_format::<T, G>(#[trigger] labels[k].format),
            0 <= j <= labels.len(),
            texts.len() == j,
            forall|k: int|
                0 <= k < j ==> call_ensures(labels@[k].format, (&*settings,), #[trigger] texts@[k]),
        decreases labels.len() - j,
    {
        let t = labels[j].render(&*settings);
        texts.push(t);
        j = j + 1;
    }
    FrameOutput { backgrounds, texts }
}

} // verus!

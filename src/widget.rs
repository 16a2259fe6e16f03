//! Widget values: bindings between a settings object of type `T` and the
//! closures that read or update it.
//!
//! Updates are written functionally: a mutation closure takes the current
//! settings and returns the new ones, and the caller stores the result back
//! in place of the old value.
use vstd::prelude::*;

verus! {

broadcast use vstd::string::to_string_from_display_ensures_for_str;

/// `f` can be called on every settings value.
pub open spec fn total_update<T, F: Fn(&T) -> T>(f: F) -> bool {
    forall|s: &T| #[trigger] call_requires(f, (s,))
}

/// `f` can be called on every settings value.
pub open spec fn total_format<T, F: Fn(&T) -> String>(f: F) -> bool {
    forall|s: &T| #[trigger] call_requires(f, (s,))
}

/// `f` can be called on every settings value.
pub open spec fn total_read<T, F: Fn(&T) -> bool>(f: F) -> bool {
    forall|s: &T| #[trigger] call_requires(f, (s,))
}

/// A formatter is a pure projection: equal settings give equal text.
pub open spec fn pure_format<T, F: Fn(&T) -> String>(f: F) -> bool {
    &&& total_format::<T, F>(f)
    &&& forall|s: &T, a: String, b: String|
        #[trigger] call_ensures(f, (s,), a) && #[trigger] call_ensures(f, (s,), b) ==> a@ == b@
}

/// A one-shot command triggered by a click.
pub struct Action<F> {
    pub name: String,
    pub action: F,
}

impl<F> Action<F> {
    pub fn new(name: String, action: F) -> (r: Self)
        ensures
            r.name@ == name@,
            r.action == action,
    {
        Action { name, action }
    }

    /// Runs the bound mutation once on `settings`.
    pub fn fire<T>(&self, settings: &mut T)
        where
            F: Fn(&T) -> T,
        requires
            total_update::<T, F>(self.action),
        ensures
            call_ensures(self.action, (&*old(settings),), *final(settings)),
    {
        let next = (self.action)(&*settings);
        *settings = next;
    }
}

/// A read-only projection from the settings to display text.
pub struct LabelText<F> {
    pub format: F,
}

impl<F> LabelText<F> {
    pub fn new(format: F) -> (r: Self)
        ensures
            r.format == format,
    {
        LabelText { format }
    }

    /// The text this label shows for `settings`.
    pub fn render<T>(&self, settings: &T) -> (r: String)
        where
            F: Fn(&T) -> String,
        requires
            total_format::<T, F>(self.format),
        ensures
            call_ensures(self.format, (settings,), r),
    {
        (self.format)(settings)
    }
}

/// A pair of buttons, "+" and "-", sharing one mutation closure that takes
/// the direction, and one label showing the current level.
pub struct Vol<L, M> {
    pub label: L,
    pub action: M,
}

/// `m` can be called on every settings value in both directions.
pub open spec fn total_step<T, M: Fn(&T, bool) -> T>(m: M) -> bool {
    forall|s: &T, up: bool| #[trigger] call_requires(m, (s, up))
}

impl<L, M> Vol<L, M> {
    pub fn new(label: L, action: M) -> (r: Self)
        ensures
            r.label == label,
            r.action == action,
    {
        Vol { label, action }
    }

    /// The "+" button when `up` holds, the "-" button otherwise.
    pub fn step<T>(&self, settings: &mut T, up: bool)
        where
            M: Fn(&T, bool) -> T,
        requires
            total_step::<T, M>(self.action),
        ensures
            call_ensures(self.action, (&*old(settings), up), *final(settings)),
    {
        let next = self.stepped(&*settings, up);
        *settings = next;
    }

    /// The settings after one step in direction `up`.
    pub fn stepped<T>(&self, settings: &T, up: bool) -> (r: T)
        where
            M: Fn(&T, bool) -> T,
        requires
            total_step::<T, M>(self.action),
        ensures
            call_ensures(self.action, (settings, up), r),
    {
        (self.action)(settings, up)
    }

    /// The text of the shared label.
    pub fn render<T>(&self, settings: &T) -> (r: String)
        where
            L: Fn(&T) -> String,
        requires
            total_format::<T, L>(self.label),
        ensures
            call_ensures(self.label, (settings,), r),
    {
        (self.label)(settings)
    }
}

/// The glyph of a ticked box (U+25A3) or of an empty one (U+25A1).
pub open spec fn glyph_of(checked: bool) -> Seq<char> {
    if checked {
        seq!['\u{25a3}']
    } else {
        seq!['\u{25a1}']
    }
}

/// The glyph for a box in the given state.
pub fn glyph_for(checked: bool) -> (r: String)
    ensures
        r@ == glyph_of(checked),
{
    if checked {
        let t = "\u{25a3}";
        proof {
            reveal_strlit("\u{25a3}");
        }
        t.to_string()
    } else {
        let t = "\u{25a1}";
        proof {
            reveal_strlit("\u{25a1}");
        }
        t.to_string()
    }
}

/// `read` and `write` address one boolean field of the settings and
/// nothing else:
/// - both can always be called, and `read` is deterministic;
/// - reading after `write(s, b)` gives `b`;
/// - writing what `read` gives leaves the settings as they are;
/// - a second write overrides the first;
/// - writing back what was read before a write undoes that write.
pub open spec fn lens_consistent<T, R: Fn(&T) -> bool, W: Fn(&T, bool) -> T>(
    read: R,
    write: W,
) -> bool {
    &&& total_read::<T, R>(read)
    &&& forall|s: &T, b: bool| #[trigger] call_requires(write, (s, b))
    &&& forall|s: &T, a: bool, b: bool|
        #[trigger] call_ensures(read, (s,), a) && #[trigger] call_ensures(read, (s,), b) ==> a == b
    &&& forall|s: &T, b: bool, t: T, c: bool|
        #[trigger] call_ensures(write, (s, b), t) && #[trigger] call_ensures(read, (&t,), c) ==> c
            == b
    &&& forall|s: &T, b: bool, t: T|
        #[trigger] call_ensures(read, (s,), b) && #[trigger] call_ensures(write, (s, b), t) ==> t
            == *s
    &&& forall|s: &T, a: bool, t: T, b: bool, u: T, v: T|
        #[trigger] call_ensures(write, (s, a), t) && #[trigger] call_ensures(write, (&t, b), u)
            && #[trigger] call_ensures(write, (s, b), v) ==> u == v
    &&& forall|s: &T, b: bool, a: bool, t: T, u: T|
        #[trigger] call_ensures(read, (s,), b) && #[trigger] call_ensures(write, (s, a), t)
            && #[trigger] call_ensures(write, (&t, b), u) ==> u == *s
}

/// `after` is `before` with the field that `read` and `write` address
/// flipped.
pub open spec fn flips<T, R: Fn(&T) -> bool, W: Fn(&T, bool) -> T>(
    read: R,
    write: W,
    before: T,
    after: T,
) -> bool {
    &&& forall|b: bool|
        #[trigger] call_ensures(read, (&before,), b) ==> call_ensures(write, (&before, !b), after)
    &&& forall|b: bool, c: bool|
        #[trigger] call_ensures(read, (&before,), b) && #[trigger] call_ensures(read, (&after,), c)
            ==> c == !b
    &&& forall|b: bool, u: T|
        #[trigger] call_ensures(read, (&before,), b) && #[trigger] call_ensures(write, (&after, b), u)
            ==> u == before
}

/// A named boolean toggle with a reader and a writer of one field.
pub struct CheckBox<R, W> {
    pub name: String,
    pub read: R,
    pub write: W,
}

impl<R, W> CheckBox<R, W> {
    pub fn new(name: String, read: R, write: W) -> (r: Self)
        ensures
            r.name@ == name@,
            r.read == read,
            r.write == write,
    {
        CheckBox { name, read, write }
    }

    /// What the reader gives for `settings`.
    pub fn is_checked<T>(&self, settings: &T) -> (r: bool)
        where
            R: Fn(&T) -> bool,
        requires
            total_read::<T, R>(self.read),
        ensures
            call_ensures(self.read, (settings,), r),
    {
        (self.read)(settings)
    }

    /// The glyph that shows the state of the box for `settings`.
    pub fn glyph<T>(&self, settings: &T) -> (r: String)
        where
            R: Fn(&T) -> bool,
            W: Fn(&T, bool) -> T,
        requires
            lens_consistent::<T, R, W>(self.read, self.write),
        ensures
            forall|b: bool| call_ensures(self.read, (settings,), b) ==> r@ == glyph_of(b),
    {
        let b = self.is_checked(settings);
        glyph_for(b)
    }

    /// Flips the bound field; returns the state before the flip.
    pub fn toggle<T>(&self, settings: &mut T) -> (was: bool)
        where
            R: Fn(&T) -> bool,
            W: Fn(&T, bool) -> T,
        requires
            lens_consistent::<T, R, W>(self.read, self.write),
        ensures
            call_ensures(self.read, (&*old(settings),), was),
            call_ensures(self.write, (&*old(settings), !was), *final(settings)),
            flips::<T, R, W>(self.read, self.write, *old(settings), *final(settings)),
    {
        let was = self.is_checked(&*settings);
        let next = (self.write)(&*settings, !was);
        *settings = next;
        was
    }

    /// The settings with the bound field flipped.
    pub fn flipped<T>(&self, settings: &T) -> (r: T)
        where
            R: Fn(&T) -> bool,
            W: Fn(&T, bool) -> T,
        requires
            lens_consistent::<T, R, W>(self.read, self.write),
        ensures
            flips::<T, R, W>(self.read, self.write, *settings, r),
    {
        let was = self.is_checked(settings);
        (self.write)(settings, !was)
    }
}

} // verus!

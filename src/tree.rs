//! The layout tree that widget values expand into. Leaves that react to
//! clicks or show settings carry a tag saying which operation of their
//! widget they stand for; the host attaches the widget's closures there.
use crate::widget::{
    flips, glyph_of, lens_consistent, total_format, total_step, total_update, Action,
    CheckBox, Vol,
};
use vstd::prelude::*;

verus! {

broadcast use vstd::string::to_string_from_display_ensures_for_str;

/// How a group lays out its children.
#[derive(Clone, Copy, PartialEq, Eq, Debug, Structural)]
pub enum Layout {
    /// The bordered frame around a button.
    ButtonBorder,
    /// Children side by side.
    Row,
    /// Children stacked top to bottom.
    Column,
}

/// The operation a button leaf runs when clicked.
#[derive(Clone, Copy, PartialEq, Eq, Debug, Structural)]
pub enum ButtonBinding {
    /// The action's own mutation.
    Fire,
    /// The volume control's step upwards.
    StepUp,
    /// The volume control's step downwards.
    StepDown,
    /// The checkbox's flip.
    Toggle,
}

/// What a label leaf is formatted from each frame.
#[derive(Clone, Copy, PartialEq, Eq, Debug, Structural)]
pub enum LabelBinding {
    /// The label formatter of a label widget.
    Format,
    /// The volume control's shared label.
    Level,
    /// The checkbox's glyph.
    Glyph,
}

/// A node of the layout tree.
pub enum Node {
    /// A container that only groups its children.
    Group { layout: Layout, children: Vec<Node> },
    /// A clickable surface, tagged with the operation it runs.
    Button { name: String, binding: ButtonBinding, children: Vec<Node> },
    /// A text leaf with fixed content.
    Text { text: String },
    /// A text leaf whose content is formatted from the settings.
    Label { source: LabelBinding },
}

/// `n` is a fixed text leaf showing `text`.
pub open spec fn is_text(n: Node, text: Seq<char>) -> bool {
    match n {
        Node::Text { text: t } => t@ == text,
        _ => false,
    }
}

/// `n` is a bordered button named `name`, running `binding`, whose only
/// child is a text leaf with the name.
pub open spec fn is_button_tree(n: Node, name: Seq<char>, binding: ButtonBinding) -> bool {
    match n {
        Node::Group { layout, children } => {
            &&& layout == Layout::ButtonBorder
            &&& children.len() == 1
            &&& match children@[0] {
                Node::Button { name: b, binding: k, children: inner } => {
                    &&& b@ == name
                    &&& k == binding
                    &&& inner.len() == 1
                    &&& is_text(inner@[0], name)
                },
                _ => false,
            }
        },
        _ => false,
    }
}

/// The subtree of a button named `name` that runs `binding`.
pub fn button_tree(name: &String, binding: ButtonBinding) -> (r: Node)
    ensures
        is_button_tree(r, name@, binding),
{
    let label = Node::Text { text: name.clone() };
    let button = Node::Button { name: name.clone(), binding, children: vec![label] };
    Node::Group { layout: Layout::ButtonBorder, children: vec![button] }
}

/// `n` is the subtree of a volume control: a column with "+", the shared
/// label and "-".
pub open spec fn is_volume_tree(n: Node) -> bool {
    match n {
        Node::Group { layout, children } => {
            &&& layout == Layout::Column
            &&& children.len() == 3
            &&& is_button_tree(children@[0], seq!['+'], ButtonBinding::StepUp)
            &&& children@[1] == (Node::Label { source: LabelBinding::Level })
            &&& is_button_tree(children@[2], seq!['-'], ButtonBinding::StepDown)
        },
        _ => false,
    }
}

/// `n` is the subtree of a checkbox named `name`: a row with the glyph
/// label and a button that flips the box.
pub open spec fn is_checkbox_tree(n: Node, name: Seq<char>) -> bool {
    match n {
        Node::Group { layout, children } => {
            &&& layout == Layout::Row
            &&& children.len() == 2
            &&& children@[0] == (Node::Label { source: LabelBinding::Glyph })
            &&& is_button_tree(children@[1], name, ButtonBinding::Toggle)
        },
        _ => false,
    }
}

/// Widget values that can add themselves to a parent's list of children.
pub trait ActionSpawner {
    /// The node this value adds.
    spec fn describes(&self, n: Node) -> bool;

    /// Appends this value's subtree to `parent`.
    fn spawn(&self, parent: &mut Vec<Node>)
        ensures
            final(parent)@.len() == old(parent)@.len() + 1,
            final(parent)@.drop_last() == old(parent)@,
            self.describes(final(parent)@.last()),
    ;
}

impl<F> ActionSpawner for Action<F> {
    open spec fn describes(&self, n: Node) -> bool {
        is_button_tree(n, self.name@, ButtonBinding::Fire)
    }

    fn spawn(&self, parent: &mut Vec<Node>) {
        parent.push(button_tree(&self.name, ButtonBinding::Fire));
    }
}

impl ActionSpawner for String {
    open spec fn describes(&self, n: Node) -> bool {
        is_text(n, self@)
    }

    fn spawn(&self, parent: &mut Vec<Node>) {
        parent.push(Node::Text { text: self.clone() });
    }
}

impl<L, M> ActionSpawner for Vol<L, M> {
    open spec fn describes(&self, n: Node) -> bool {
        is_volume_tree(n)
    }

    fn spawn(&self, parent: &mut Vec<Node>) {
        let plus = "+".to_string();
        let minus = "-".to_string();
        proof {
            reveal_strlit("+");
            reveal_strlit("-");
            assert(plus@ =~= seq!['+']);
            assert(minus@ =~= seq!['-']);
        }
        let up = button_tree(&plus, ButtonBinding::StepUp);
        let level = Node::Label { source: LabelBinding::Level };
        let down = button_tree(&minus, ButtonBinding::StepDown);
        parent.push(Node::Group { layout: Layout::Column, children: vec![up, level, down] });
    }
}

impl<R, W> ActionSpawner for CheckBox<R, W> {
    open spec fn describes(&self, n: Node) -> bool {
        is_checkbox_tree(n, self.name@)
    }

    fn spawn(&self, parent: &mut Vec<Node>) {
        let glyph = Node::Label { source: LabelBinding::Glyph };
        let flip = button_tree(&self.name, ButtonBinding::Toggle);
        parent.push(Node::Group { layout: Layout::Row, children: vec![glyph, flip] });
    }
}

/// The tag of the button inside a bordered button tree.
pub open spec fn binding_of(n: Node) -> ButtonBinding {
    match n {
        Node::Group { children, .. } => match children@[0] {
            Node::Button { binding, .. } => binding,
            _ => ButtonBinding::Fire,
        },
        _ => ButtonBinding::Fire,
    }
}

/// The tag of a label leaf.
pub open spec fn source_of(n: Node) -> LabelBinding {
    match n {
        Node::Label { source } => source,
        _ => LabelBinding::Format,
    }
}

impl<F> Action<F> {
    /// What a leaf tagged `b` does on a click: `Fire` runs the action's
    /// closure, any other tag does not belong to an action.
    pub open spec fn runs<T>(self, b: ButtonBinding, s: T, r: Option<T>) -> bool where
        F: Fn(&T) -> T,
     {
        match r {
            Some(t) => b == ButtonBinding::Fire && call_ensures(self.action, (&s,), t),
            None => b != ButtonBinding::Fire,
        }
    }

    /// The settings after a click on this action's leaf tagged `b`.
    pub fn click<T>(&self, b: ButtonBinding, settings: &T) -> (r: Option<T>)
        where
            F: Fn(&T) -> T,
        requires
            total_update::<T, F>(self.action),
        ensures
            self.runs(b, *settings, r),
    {
        match b {
            ButtonBinding::Fire => Some((self.action)(settings)),
            _ => None,
        }
    }
}

impl<L, M> Vol<L, M> {
    /// What a leaf tagged `b` does on a click: "+" steps up, "-" steps
    /// down, any other tag does not belong to a volume control.
    pub open spec fn runs<T>(self, b: ButtonBinding, s: T, r: Option<T>) -> bool where
        M: Fn(&T, bool) -> T,
     {
        match r {
            Some(t) => (b == ButtonBinding::StepUp && call_ensures(self.action, (&s, true), t)) || (
            b == ButtonBinding::StepDown && call_ensures(self.action, (&s, false), t)),
            None => b != ButtonBinding::StepUp && b != ButtonBinding::StepDown,
        }
    }

    /// What a label leaf tagged `l` shows: `Level` is the shared label.
    pub open spec fn shows<T>(self, l: LabelBinding, s: T, r: Option<String>) -> bool where
        L: Fn(&T) -> String,
     {
        match r {
            Some(t) => l == LabelBinding::Level && call_ensures(self.label, (&s,), t),
            None => l != LabelBinding::Level,
        }
    }

    /// The settings after a click on this control's leaf tagged `b`.
    pub fn click<T>(&self, b: ButtonBinding, settings: &T) -> (r: Option<T>)
        where
            M: Fn(&T, bool) -> T,
        requires
            total_step::<T, M>(self.action),
        ensures
            self.runs(b, *settings, r),
    {
        match b {
            ButtonBinding::StepUp => Some(self.stepped(settings, true)),
            ButtonBinding::StepDown => Some(self.stepped(settings, false)),
            _ => None,
        }
    }

    /// The text of this control's label leaf tagged `l`.
    pub fn show<T>(&self, l: LabelBinding, settings: &T) -> (r: Option<String>)
        where
            L: Fn(&T) -> String,
        requires
            total_format::<T, L>(self.label),
        ensures
            self.shows(l, *settings, r),
    {
        match l {
            LabelBinding::Level => Some(self.render(settings)),
            _ => None,
        }
    }
}

impl<R, W> CheckBox<R, W> {
    /// What a leaf tagged `b` does on a click: `Toggle` flips the field,
    /// any other tag does not belong to a checkbox.
    pub open spec fn runs<T>(self, b: ButtonBinding, s: T, r: Option<T>) -> bool where
        R: Fn(&T) -> bool,
        W: Fn(&T, bool) -> T,
     {
        match r {
            Some(t) => b == ButtonBinding::Toggle && flips::<T, R, W>(self.read, self.write, s, t),
            None => b != ButtonBinding::Toggle,
        }
    }

    /// What a label leaf tagged `l` shows: `Glyph` is the filled or hollow
    /// square for what the reader gives.
    pub open spec fn shows<T>(self, l: LabelBinding, s: T, r: Option<String>) -> bool where
        R: Fn(&T) -> bool,
     {
        match r {
            Some(g) => l == LabelBinding::Glyph && forall|c: bool|
                #[trigger] call_ensures(self.read, (&s,), c) ==> g@ == glyph_of(c),
            None => l != LabelBinding::Glyph,
        }
    }

    /// The settings after a click on this checkbox's leaf tagged `b`.
    pub fn click<T>(&self, b: ButtonBinding, settings: &T) -> (r: Option<T>)
        where
            R: Fn(&T) -> bool,
            W: Fn(&T, bool) -> T,
        requires
            lens_consistent::<T, R, W>(self.read, self.write),
        ensures
            self.runs(b, *settings, r),
    {
        match b {
            ButtonBinding::Toggle => Some(self.flipped(settings)),
            _ => None,
        }
    }

    /// The text of this checkbox's label leaf tagged `l`.
    pub fn show<T>(&self, l: LabelBinding, settings: &T) -> (r: Option<String>)
        where
            R: Fn(&T) -> bool,
            W: Fn(&T, bool) -> T,
        requires
            lens_consistent::<T, R, W>(self.read, self.write),
        ensures
            self.shows(l, *settings, r),
    {
        match l {
            LabelBinding::Glyph => Some(self.glyph(settings)),
            _ => None,
        }
    }
}

} // verus!

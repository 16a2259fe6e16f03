use menu_widgets::frame::{handle_interaction, update_frame, Interaction, Palette};
use menu_widgets::tree::{ActionSpawner, ButtonBinding, LabelBinding, Layout, Node};
use menu_widgets::widget::{glyph_for, Action, CheckBox, LabelText, Vol};

#[derive(Clone, Debug, PartialEq)]
struct Settings {
    volume: i32,
    clicks: u32,
    music: bool,
}

fn settings() -> Settings {
    Settings { volume: 5, clicks: 0, music: false }
}

fn bump() -> impl Fn(&Settings) -> Settings {
    |s: &Settings| Settings { clicks: s.clicks + 1, ..s.clone() }
}

fn show_clicks() -> impl Fn(&Settings) -> String {
    |s: &Settings| format!("clicks: {}", s.clicks)
}

fn palette() -> Palette<u8> {
    Palette::new(10, 20, 30)
}

#[test]
fn presses_fire_once_per_frame() {
    let actions = vec![Action::new("count".to_string(), bump())];
    let labels: Vec<LabelText<fn(&Settings) -> String>> = Vec::new();
    let mut s = settings();
    let frames = [
        Interaction::Pressed,
        Interaction::Hovered,
        Interaction::Idle,
        Interaction::Pressed,
        Interaction::Hovered,
        Interaction::Pressed,
    ];
    for signal in frames {
        update_frame(&palette(), &mut s, &actions, &vec![signal], &labels);
    }
    assert_eq!(s.clicks, 3);
}

#[test]
fn hover_and_idle_never_fire() {
    let action = Action::new("count".to_string(), bump());
    let mut s = settings();
    handle_interaction(&palette(), &action, Interaction::Hovered, &mut s);
    handle_interaction(&palette(), &action, Interaction::Idle, &mut s);
    assert_eq!(s, settings());
    handle_interaction(&palette(), &action, Interaction::Pressed, &mut s);
    assert_eq!(s.clicks, 1);
}

#[test]
fn labels_show_this_frames_clicks() {
    let actions = vec![Action::new("count".to_string(), bump())];
    let labels = vec![LabelText::new(show_clicks())];
    let mut s = settings();
    let out = update_frame(&palette(), &mut s, &actions, &vec![Interaction::Pressed], &labels);
    assert_eq!(out.texts, vec!["clicks: 1".to_string()]);
    let out = update_frame(&palette(), &mut s, &actions, &vec![Interaction::Pressed], &labels);
    assert_eq!(out.texts, vec!["clicks: 2".to_string()]);
}

#[test]
fn clicks_apply_in_button_order() {
    let double = |s: &Settings| Settings { clicks: s.clicks * 2, ..s.clone() };
    let add = |s: &Settings| Settings { clicks: s.clicks + 3, ..s.clone() };
    let both: Vec<Box<dyn Fn(&Settings) -> Settings>> = vec![Box::new(add), Box::new(double)];
    let actions: Vec<Action<Box<dyn Fn(&Settings) -> Settings>>> = both
        .into_iter()
        .enumerate()
        .map(|(i, f)| Action::new(format!("a{}", i), f))
        .collect();
    let labels = vec![LabelText::new(show_clicks())];
    let mut s = settings();
    let out = update_frame(
        &palette(),
        &mut s,
        &actions,
        &vec![Interaction::Pressed, Interaction::Pressed],
        &labels,
    );
    assert_eq!(s.clicks, 6);
    assert_eq!(out.texts, vec!["clicks: 6".to_string()]);
    assert_eq!(out.backgrounds, vec![30, 30]);
}

#[test]
fn backgrounds_follow_signals() {
    let p = palette();
    assert_eq!(p.background(Interaction::Pressed), 30);
    assert_eq!(p.background(Interaction::Hovered), 20);
    assert_eq!(p.background(Interaction::Idle), 10);
    let actions = vec![
        Action::new("a".to_string(), bump()),
        Action::new("b".to_string(), bump()),
        Action::new("c".to_string(), bump()),
    ];
    let labels: Vec<LabelText<fn(&Settings) -> String>> = Vec::new();
    let mut s = settings();
    let out = update_frame(
        &p,
        &mut s,
        &actions,
        &vec![Interaction::Idle, Interaction::Pressed, Interaction::Hovered],
        &labels,
    );
    assert_eq!(out.backgrounds, vec![10, 30, 20]);
    assert!(out.texts.is_empty());
    assert_eq!(s.clicks, 1);
}

#[test]
fn checkbox_flip_changes_glyph() {
    let cb = CheckBox::new(
        "Music".to_string(),
        |s: &Settings| s.music,
        |s: &Settings, b: bool| Settings { music: b, ..s.clone() },
    );
    let mut s = settings();
    assert!(!cb.is_checked(&s));
    assert_eq!(cb.glyph(&s), "\u{25a1}");
    let was = cb.toggle(&mut s);
    assert!(!was);
    assert!(s.music);
    assert!(cb.is_checked(&s));
    assert_eq!(cb.glyph(&s), "\u{25a3}");
    let was = cb.toggle(&mut s);
    assert!(was);
    assert!(!s.music);
}

#[test]
fn glyphs_differ() {
    assert_eq!(glyph_for(true), "\u{25a3}");
    assert_eq!(glyph_for(false), "\u{25a1}");
}

#[test]
fn volume_up_then_down_restores_label() {
    let vol = Vol::new(
        |s: &Settings| format!("{}", s.volume),
        |s: &Settings, up: bool| Settings {
            volume: if up { s.volume + 1 } else { s.volume - 1 },
            ..s.clone()
        },
    );
    let mut s = settings();
    let before = vol.render(&s);
    assert_eq!(before, "5");
    vol.step(&mut s, true);
    assert_eq!(vol.render(&s), "6");
    vol.step(&mut s, false);
    assert_eq!(vol.render(&s), before);
}

#[test]
fn idle_frames_render_the_same() {
    let actions = vec![Action::new("count".to_string(), bump())];
    let labels = vec![LabelText::new(show_clicks())];
    let mut s = settings();
    s.clicks = 4;
    let first = update_frame(&palette(), &mut s, &actions, &vec![Interaction::Idle], &labels);
    let second = update_frame(&palette(), &mut s, &actions, &vec![Interaction::Hovered], &labels);
    assert_eq!(first.texts, second.texts);
    assert_eq!(first.texts, vec!["clicks: 4".to_string()]);
}

#[test]
fn action_fire_and_label_render() {
    let action = Action::new("count".to_string(), bump());
    assert_eq!(action.name, "count");
    let mut s = settings();
    action.fire(&mut s);
    action.fire(&mut s);
    assert_eq!(s.clicks, 2);
    assert_eq!(LabelText::new(show_clicks()).render(&s), "clicks: 2");
}

fn assert_button(n: &Node, name: &str, binding: ButtonBinding) {
    match n {
        Node::Group { layout, children } => {
            assert_eq!(*layout, Layout::ButtonBorder);
            assert_eq!(children.len(), 1);
            match &children[0] {
                Node::Button { name: b, binding: k, children: inner } => {
                    assert_eq!(b, name);
                    assert_eq!(*k, binding);
                    assert_eq!(inner.len(), 1);
                    assert!(matches!(&inner[0], Node::Text { text } if text == name));
                }
                _ => panic!("expected a button"),
            }
        }
        _ => panic!("expected a bordered group"),
    }
}

#[test]
fn action_spawns_bordered_button() {
    let mut parent = vec![Node::Text { text: "title".to_string() }];
    Action::new("Quit".to_string(), bump()).spawn(&mut parent);
    assert_eq!(parent.len(), 2);
    assert!(matches!(&parent[0], Node::Text { text } if text == "title"));
    assert_button(&parent[1], "Quit", ButtonBinding::Fire);
}

#[test]
fn string_spawns_text_leaf() {
    let mut parent = Vec::new();
    "Volume".to_string().spawn(&mut parent);
    assert_eq!(parent.len(), 1);
    assert!(matches!(&parent[0], Node::Text { text } if text == "Volume"));
}

#[test]
fn volume_spawns_plus_label_minus() {
    let vol = Vol::new(
        |s: &Settings| format!("{}", s.volume),
        |s: &Settings, _up: bool| s.clone(),
    );
    let mut parent = Vec::new();
    vol.spawn(&mut parent);
    assert_eq!(parent.len(), 1);
    match &parent[0] {
        Node::Group { layout, children } => {
            assert_eq!(*layout, Layout::Column);
            assert_eq!(children.len(), 3);
            assert_button(&children[0], "+", ButtonBinding::StepUp);
            assert!(matches!(&children[1], Node::Label { source: LabelBinding::Level }));
            assert_button(&children[2], "-", ButtonBinding::StepDown);
        }
        _ => panic!("expected a column"),
    }
}

#[test]
fn checkbox_spawns_glyph_and_button() {
    let cb = CheckBox::new(
        "Music".to_string(),
        |s: &Settings| s.music,
        |s: &Settings, b: bool| Settings { music: b, ..s.clone() },
    );
    let mut parent = Vec::new();
    cb.spawn(&mut parent);
    assert_eq!(parent.len(), 1);
    match &parent[0] {
        Node::Group { layout, children } => {
            assert_eq!(*layout, Layout::Row);
            assert_eq!(children.len(), 2);
            assert!(matches!(&children[0], Node::Label { source: LabelBinding::Glyph }));
            assert_button(&children[1], "Music", ButtonBinding::Toggle);
        }
        _ => panic!("expected a row"),
    }
}

#[test]
fn stepped_and_flipped_leave_input_alone() {
    let vol = Vol::new(
        |s: &Settings| format!("{}", s.volume),
        |s: &Settings, up: bool| Settings {
            volume: if up { s.volume + 1 } else { s.volume - 1 },
            ..s.clone()
        },
    );
    let s = settings();
    assert_eq!(vol.stepped(&s, true).volume, 6);
    assert_eq!(vol.stepped(&s, false).volume, 4);
    let cb = CheckBox::new(
        "Music".to_string(),
        |s: &Settings| s.music,
        |s: &Settings, b: bool| Settings { music: b, ..s.clone() },
    );
    let on = cb.flipped(&s);
    assert!(on.music);
    assert!(!cb.flipped(&on).music);
    assert_eq!(s, settings());
}

fn button_tag(n: &Node) -> ButtonBinding {
    match n {
        Node::Group { children, .. } => match &children[0] {
            Node::Button { binding, .. } => *binding,
            _ => panic!("expected a button"),
        },
        _ => panic!("expected a bordered group"),
    }
}

fn label_tag(n: &Node) -> LabelBinding {
    match n {
        Node::Label { source } => *source,
        _ => panic!("expected a label leaf"),
    }
}

fn children(n: &Node) -> &Vec<Node> {
    match n {
        Node::Group { children, .. } => children,
        _ => panic!("expected a group"),
    }
}

#[test]
fn spawned_volume_leaves_step_and_show() {
    let vol = Vol::new(
        |s: &Settings| format!("{}", s.volume),
        |s: &Settings, up: bool| Settings {
            volume: if up { s.volume + 1 } else { s.volume - 1 },
            ..s.clone()
        },
    );
    let mut tree = Vec::new();
    vol.spawn(&mut tree);
    let kids = children(&tree[0]);
    let (plus, level, minus) = (button_tag(&kids[0]), label_tag(&kids[1]), button_tag(&kids[2]));
    let s = settings();
    assert_eq!(vol.show(level, &s), Some("5".to_string()));
    let raised = vol.click(plus, &s).unwrap();
    assert_eq!(raised.volume, 6);
    assert_eq!(vol.show(level, &raised), Some("6".to_string()));
    let back = vol.click(minus, &raised).unwrap();
    assert_eq!(back, s);
    assert_eq!(vol.show(level, &back), Some("5".to_string()));
}

#[test]
fn spawned_volume_through_update_pass() {
    let vol = std::rc::Rc::new(Vol::new(
        |s: &Settings| format!("{}", s.volume),
        |s: &Settings, up: bool| Settings {
            volume: if up { s.volume + 1 } else { s.volume - 1 },
            ..s.clone()
        },
    ));
    let mut tree = Vec::new();
    vol.spawn(&mut tree);
    let kids = children(&tree[0]);
    let (plus, level, minus) = (button_tag(&kids[0]), label_tag(&kids[1]), button_tag(&kids[2]));
    let make = |b: ButtonBinding| -> Box<dyn Fn(&Settings) -> Settings> {
        let v = vol.clone();
        Box::new(move |s: &Settings| v.click(b, s).unwrap())
    };
    let actions = vec![Action::new("+".to_string(), make(plus)), Action::new("-".to_string(), make(minus))];
    let v = vol.clone();
    let labels = vec![LabelText::new(move |s: &Settings| v.show(level, s).unwrap())];
    let mut s = settings();
    let out = update_frame(&palette(), &mut s, &actions, &vec![Interaction::Pressed, Interaction::Idle], &labels);
    assert_eq!(out.texts, vec!["6".to_string()]);
    let out = update_frame(&palette(), &mut s, &actions, &vec![Interaction::Hovered, Interaction::Pressed], &labels);
    assert_eq!(out.texts, vec!["5".to_string()]);
    assert_eq!(s, settings());
}

#[test]
fn spawned_mute_checkbox_flips_and_redraws() {
    let cb = CheckBox::new(
        "Mute".to_string(),
        |s: &Settings| s.music,
        |s: &Settings, b: bool| Settings { music: b, ..s.clone() },
    );
    let mut tree = Vec::new();
    cb.spawn(&mut tree);
    let kids = children(&tree[0]);
    let (glyph, toggle) = (label_tag(&kids[0]), button_tag(&kids[1]));
    let s = settings();
    assert_eq!(cb.show(glyph, &s), Some("\u{25a1}".to_string()));
    let on = cb.click(toggle, &s).unwrap();
    assert!(on.music);
    assert_eq!(cb.show(glyph, &on), Some("\u{25a3}".to_string()));
    let off = cb.click(toggle, &on).unwrap();
    assert_eq!(off, s);
}

#[test]
fn spawned_action_leaf_fires_its_closure() {
    let action = Action::new("count".to_string(), bump());
    let mut tree = Vec::new();
    action.spawn(&mut tree);
    let tag = button_tag(&tree[0]);
    assert_eq!(tag, ButtonBinding::Fire);
    assert_eq!(action.click(tag, &settings()).unwrap().clicks, 1);
}

#[test]
fn foreign_tags_do_nothing() {
    let action = Action::new("count".to_string(), bump());
    let vol = Vol::new(|s: &Settings| format!("{}", s.volume), |s: &Settings, _up: bool| s.clone());
    let cb = CheckBox::new(
        "Mute".to_string(),
        |s: &Settings| s.music,
        |s: &Settings, b: bool| Settings { music: b, ..s.clone() },
    );
    let s = settings();
    assert!(action.click(ButtonBinding::Toggle, &s).is_none());
    assert!(vol.click(ButtonBinding::Fire, &s).is_none());
    assert!(vol.click(ButtonBinding::Toggle, &s).is_none());
    assert!(vol.show(LabelBinding::Glyph, &s).is_none());
    assert!(cb.click(ButtonBinding::StepUp, &s).is_none());
    assert!(cb.show(LabelBinding::Level, &s).is_none());
    assert!(vol.click(ButtonBinding::StepUp, &s).is_some());
}

//! Tests of the typed tree-access layer.

use missionreviewer::tree::{Document, Node, Span, Value};
use missionreviewer::{get_class, get_float, get_number, get_string};

fn sp(start: usize, end: usize) -> Span {
    Span { start, end }
}

fn entry_str(name: &str, value: &str, span: Span) -> Node {
    Node::Entry { name: name.to_string(), value: Value::Str { value: value.to_string(), span } }
}

fn entry_int(name: &str, value: i32, span: Span) -> Node {
    Node::Entry { name: name.to_string(), value: Value::Int { value, span } }
}

fn entry_float(name: &str, milli: i64, span: Span) -> Node {
    Node::Entry { name: name.to_string(), value: Value::Float { milli, span } }
}

fn class(name: &str, children: Vec<Node>) -> Node {
    Node::Class { name: name.to_string(), parent: None, children }
}

#[test]
fn resolves_dotted_path() {
    let doc = Document {
        nodes: vec![class(
            "Mission",
            vec![class("Intel", vec![entry_int("hour", 9, sp(4, 5))])],
        )],
    };
    let intel = get_class(&doc, "Mission.Intel").expect("path should resolve");
    assert_eq!(get_number(intel, "hour"), Some((9, sp(4, 5))));
    assert!(get_class(&doc, "Mission.Entities").is_none());
    assert!(get_class(&doc, "Elsewhere.Intel").is_none());
    assert!(get_class(&doc, "Mission.Intel.hour").is_none());
}

#[test]
fn first_matching_child_wins() {
    let doc = Document {
        nodes: vec![
            class("A", vec![entry_int("x", 1, sp(0, 1))]),
            class("A", vec![entry_int("x", 2, sp(2, 3))]),
        ],
    };
    let a = get_class(&doc, "A").expect("class should resolve");
    assert_eq!(get_number(a, "x"), Some((1, sp(0, 1))));
}

#[test]
fn lookup_skips_mismatched_kinds() {
    // a same-named entry of the wrong kind is passed over, like an absent one
    let doc = Document {
        nodes: vec![class(
            "C",
            vec![
                entry_str("v", "ten", sp(0, 3)),
                entry_int("v", 10, sp(4, 6)),
                entry_float("v", 500, sp(7, 10)),
            ],
        )],
    };
    let c = get_class(&doc, "C").expect("class should resolve");
    assert_eq!(get_number(c, "v"), Some((10, sp(4, 6))));
    assert_eq!(get_string(c, "v"), Some(("ten", sp(0, 3))));
    assert_eq!(get_float(c, "v"), Some((500, sp(7, 10))));
}

#[test]
fn get_number_never_coerces_a_string() {
    let doc = Document { nodes: vec![class("C", vec![entry_str("n", "42", sp(0, 2))])] };
    let c = get_class(&doc, "C").expect("class should resolve");
    assert_eq!(get_number(c, "n"), None);
    assert_eq!(get_float(c, "n"), None);
}

#[test]
fn absent_names_stay_absent() {
    let doc = Document { nodes: vec![class("C", vec![entry_int("x", 5, sp(0, 1))])] };
    let c = get_class(&doc, "C").expect("class should resolve");
    assert_eq!(get_number(c, "y"), None);
    assert_eq!(get_string(c, "x"), None);
}

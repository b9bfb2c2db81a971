use snippet_segments::cast_field;
use snippet_segments::cast_interactive_segment;
use snippet_segments::cast_mut_programic;
use snippet_segments::render_node;
use snippet_segments::Choice;
use snippet_segments::Code;
use snippet_segments::InteractiveSegment;
use snippet_segments::Node;
use snippet_segments::Placeholder;
use snippet_segments::Programic;
use snippet_segments::Reference;
use snippet_segments::Segment;
use snippet_segments::Snippet;
use snippet_segments::Tab;
use snippet_segments::Variable;

fn empty_snippet() -> Snippet {
    Snippet {
        nodes: vec![],
        body: vec![],
        tabs: vec![],
        program_filled_text: vec![],
        references: vec![],
    }
}

#[test]
fn placeholder_renders_concatenation() {
    let nodes = vec![Node::Placeholder(Placeholder(vec![
        Segment::Text(String::from("hello")),
        Segment::Text(String::from("there!")),
    ]))];
    assert_eq!(render_node(&nodes, 0), "hellothere!");
}

#[test]
fn empty_placeholder_renders_empty() {
    let nodes = vec![Node::Placeholder(Placeholder(vec![]))];
    assert_eq!(render_node(&nodes, 0), "");
}

#[test]
fn nested_placeholder_renders_in_order() {
    let nodes = vec![
        Node::Variable(Variable {
            name: String::from("N"),
            value: String::from("mid"),
        }),
        Node::Placeholder(Placeholder(vec![
            Segment::Text(String::from("a")),
            Segment::Interactive(0),
            Segment::Text(String::from("z")),
        ])),
    ];
    assert_eq!(render_node(&nodes, 1), "amidz");
}

#[test]
fn choice_renders_selected_alternative() {
    let nodes = vec![Node::Choice(Choice(
        1,
        vec![
            vec![Segment::Text(String::from("first"))],
            vec![
                Segment::Text(String::from("sec")),
                Segment::Text(String::from("ond")),
            ],
        ],
    ))];
    assert_eq!(render_node(&nodes, 0), "second");
}

#[test]
fn choice_out_of_range_renders_empty() {
    let nodes = vec![Node::Choice(Choice(
        2,
        vec![
            vec![Segment::Text(String::from("first"))],
            vec![Segment::Text(String::from("second"))],
        ],
    ))];
    assert_eq!(render_node(&nodes, 0), "");
}

#[test]
fn snippet_renders_body_in_order() {
    let mut snippet = empty_snippet();
    snippet.nodes.push(Node::Variable(Variable {
        name: String::from("WHO"),
        value: String::from("world"),
    }));
    snippet.body.push(Segment::Text(String::from("hello ")));
    snippet.body.push(Segment::Interactive(0));
    snippet
        .body
        .push(Segment::Reference(Reference::Text(
            String::from("WHO"),
            String::from("!"),
        )));
    assert_eq!(snippet.render(), "hello world!");
}

#[test]
fn variable_callback_overwrites_cached_value() {
    let mut variable = Variable {
        name: String::from("GREETING"),
        value: String::new(),
    };
    let hook = |_name: &str| String::from("hi");
    // A decoy environment value shows the callback's return wins over it.
    variable.evaluate(Some(&hook), Some(String::from("not this")));
    assert_eq!(variable.value, "hi");
    let second = |_name: &str| String::from("ho");
    variable.evaluate(Some(&second), None);
    assert_eq!(variable.value, "ho");
}

#[test]
fn variable_callback_receives_the_name() {
    let mut variable = Variable {
        name: String::from("USER"),
        value: String::new(),
    };
    let hook = |name: &str| format!("<{}>", name);
    variable.evaluate(Some(&hook), None);
    assert_eq!(variable.value, "<USER>");
}

#[test]
fn variable_environment_value_is_stored() {
    let mut variable = Variable {
        name: String::from("HOMETOWN"),
        value: String::from("stale"),
    };
    variable.evaluate_from_environment(Some(String::from("fresh")));
    assert_eq!(variable.value, "fresh");
}

#[test]
fn variable_unset_environment_stores_empty() {
    let mut variable = Variable {
        name: String::from("HOMETOWN"),
        value: String::from("stale"),
    };
    variable.evaluate_from_environment(None);
    assert_eq!(variable.value, "");
}

#[test]
fn code_evaluate_captures_output() {
    let mut code = Code {
        code_to_run: String::from("echo hi"),
        output: String::new(),
    };
    assert!(code.evaluate().is_ok());
    assert_eq!(code.output, "hi\n");
    assert_eq!(code.code_to_run, "echo hi");
}

#[test]
fn code_evaluate_stores_output_whatever_the_exit_code() {
    let mut code = Code {
        code_to_run: String::from("printf x; exit 3"),
        output: String::new(),
    };
    assert!(code.evaluate().is_ok());
    assert_eq!(code.output, "x");
}

#[test]
fn failed_run_keeps_cached_output() {
    let mut code = Code {
        code_to_run: String::from("echo hi"),
        output: String::from("kept"),
    };
    let outcome = code.store_run(Err(String::from("boom")));
    let error = outcome.unwrap_err();
    assert_eq!(error.message, "boom");
    assert_eq!(code.output, "kept");
}

#[test]
fn successful_run_replaces_cached_output() {
    let mut code = Code {
        code_to_run: String::from("anything"),
        output: String::from("stale"),
    };
    let outcome = code.store_run(Ok((0, String::from("new"), String::new())));
    assert!(outcome.is_ok());
    assert_eq!(code.output, "new");
}

#[test]
fn reference_equality_is_field_wise() {
    let r = Reference::Text(String::from("label"), String::from("text"));
    let same = Reference::Text(String::from("label"), String::from("text"));
    let other_label = Reference::Text(String::from("other"), String::from("text"));
    let other_text = Reference::Text(String::from("label"), String::from("other"));
    assert!(r == Segment::Reference(same));
    assert!(r != Segment::Reference(other_label));
    assert!(r != Segment::Reference(other_text));
}

#[test]
fn reference_never_equals_other_segment_kinds() {
    let r = Reference::Text(String::from("label"), String::from("text"));
    assert!(r != Segment::Text(String::from("text")));
    assert!(r != Segment::Interactive(0));
}

#[test]
fn casting_recovers_exactly_the_held_kind() {
    let node = Node::Placeholder(Placeholder(vec![Segment::Text(String::from("x"))]));
    assert!(cast_interactive_segment::<Choice>(&node).is_none());
    let back: &Placeholder = cast_interactive_segment(&node).unwrap();
    assert_eq!(back.0.len(), 1);
    let as_field: Option<&Placeholder> = cast_field(&node);
    assert!(as_field.is_some());
    assert!(cast_field::<Choice>(&node).is_none());
}

#[test]
fn mutable_cast_misses_other_kinds_and_leaves_them() {
    let mut node = Node::Code(Code {
        code_to_run: String::from("echo"),
        output: String::from("out"),
    });
    assert!(cast_mut_programic::<Variable>(&mut node).is_none());
    let code: &mut Code = cast_mut_programic(&mut node).unwrap();
    code.output = String::from("new");
    match &node {
        Node::Code(c) => assert_eq!(c.output, "new"),
        _ => panic!("kind changed"),
    }
}

#[test]
fn type_tags_are_constant_per_kind() {
    let p = Placeholder(vec![]);
    let c = Choice(0, vec![]);
    let v = Variable {
        name: String::new(),
        value: String::new(),
    };
    let k = Code {
        code_to_run: String::new(),
        output: String::new(),
    };
    assert_eq!(p.get_type(), "placeholder");
    assert_eq!(c.get_type(), "choice");
    assert_eq!(v.get_type(), "variable");
    assert_eq!(k.get_type(), "code");
}

#[test]
fn nested_segments_only_for_structured_kinds() {
    let p = Placeholder(vec![Segment::Text(String::from("x"))]);
    assert_eq!(p.nested_segments().unwrap().len(), 1);
    let selected = Choice(0, vec![vec![Segment::Text(String::from("y"))]]);
    assert_eq!(selected.nested_segments().unwrap().len(), 1);
    let unselected = Choice(7, vec![vec![Segment::Text(String::from("y"))]]);
    assert!(unselected.nested_segments().is_none());
    let v = Variable {
        name: String::new(),
        value: String::new(),
    };
    assert!(v.nested_segments().is_none());
    let k = Code {
        code_to_run: String::new(),
        output: String::new(),
    };
    assert!(k.nested_segments().is_none());
}

#[test]
fn identifiers_are_the_stable_keys() {
    let v = Variable {
        name: String::from("PATHISH"),
        value: String::from("whatever"),
    };
    assert_eq!(v.identifier(), "PATHISH");
    let k = Code {
        code_to_run: String::from("date"),
        output: String::from("whenever"),
    };
    assert_eq!(k.identifier(), "date");
}

#[test]
fn trim_drops_tab_of_whitespace_only_field() {
    let mut snippet = empty_snippet();
    snippet.nodes.push(Node::Placeholder(Placeholder(vec![
        Segment::Text(String::from("   ")),
    ])));
    snippet.tabs.push(Tab { num: 1, field: 0 });
    assert_eq!(snippet.tabs.len(), 1);
    snippet.trim_empty_tabs();
    assert_eq!(snippet.tabs.len(), 0);
}

#[test]
fn trim_keeps_order_of_surviving_tabs() {
    let mut snippet = empty_snippet();
    snippet.nodes.push(Node::Placeholder(Placeholder(vec![
        Segment::Text(String::from("one")),
    ])));
    snippet.nodes.push(Node::Placeholder(Placeholder(vec![
        Segment::Text(String::from("\t \n")),
    ])));
    snippet.nodes.push(Node::Placeholder(Placeholder(vec![
        Segment::Text(String::from(" two ")),
    ])));
    snippet.tabs.push(Tab { num: 1, field: 0 });
    snippet.tabs.push(Tab { num: 2, field: 1 });
    snippet.tabs.push(Tab { num: 3, field: 2 });
    snippet.trim_empty_tabs();
    assert_eq!(
        snippet.tabs,
        vec![Tab { num: 1, field: 0 }, Tab { num: 3, field: 2 }]
    );
}

#[test]
fn trim_is_idempotent() {
    let mut snippet = empty_snippet();
    snippet.nodes.push(Node::Placeholder(Placeholder(vec![
        Segment::Text(String::from("keep")),
    ])));
    snippet.nodes.push(Node::Placeholder(Placeholder(vec![
        Segment::Text(String::from("  ")),
    ])));
    snippet.tabs.push(Tab { num: 1, field: 0 });
    snippet.tabs.push(Tab { num: 2, field: 1 });
    snippet.trim_empty_tabs();
    let after_once = snippet.tabs.clone();
    snippet.trim_empty_tabs();
    assert_eq!(snippet.tabs, after_once);
}

#[test]
fn trim_leaves_body_and_shared_field_alone() {
    let mut snippet = empty_snippet();
    snippet.nodes.push(Node::Placeholder(Placeholder(vec![
        Segment::Text(String::from("  ")),
    ])));
    // The same field is held by a tab and by a body segment.
    snippet.body.push(Segment::Interactive(0));
    snippet.tabs.push(Tab { num: 1, field: 0 });
    let body_before = snippet.render();
    snippet.trim_empty_tabs();
    assert_eq!(snippet.tabs.len(), 0);
    assert_eq!(snippet.nodes.len(), 1);
    assert_eq!(snippet.body.len(), 1);
    assert!(matches!(snippet.body[0], Segment::Interactive(0)));
    assert_eq!(snippet.render(), body_before);
    assert!(matches!(&snippet.nodes[0], Node::Placeholder(_)));
}

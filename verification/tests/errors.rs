use type_prettifier::model::{Slots, MAX_DEPTH};
use type_prettifier::parsing::{
    layout, parse_closure_type, parse_element, parse_items, parse_regular_type, parse_tuple,
    parse_turbofish_type, parse_type, parse_type_expr,
};
use type_prettifier::{parse_root, parse_type_tuple, Node, ParseError, Rule, Site, Span};

fn at(start: usize, text: &str) -> Span {
    Span { start, end: start + text.len(), text: text.to_string() }
}

fn token(rule: Rule, start: usize, text: &str) -> Node {
    Node::leaf(rule, at(start, text))
}

fn branch(rule: Rule, start: usize, text: &str, children: Vec<Node>) -> Node {
    Node::new(rule, at(start, text), children)
}

fn regular(start: usize, text: &str) -> Node {
    branch(Rule::RegularType, start, text, vec![token(Rule::TypeName, start, text)])
}

fn expression(start: usize, text: &str) -> Node {
    branch(Rule::Type, start, text, vec![regular(start, text)])
}

fn site(rule: Rule, start: usize, text: &str, trail: Vec<Rule>) -> Site {
    Site { rule, span: at(start, text), trail }
}

fn leading() -> Vec<Rule> {
    vec![
        Rule::Reference,
        Rule::ImplMarker,
        Rule::RegularType,
        Rule::TurbofishType,
        Rule::ClosureType,
    ]
}

/// `levels` tuples around an empty list: `((..()..))`.
fn nested_tuples(levels: usize) -> Node {
    let mut tree = branch(Rule::Tuple, 0, "()", vec![token(Rule::TypeTuple, 1, "")]);
    for _ in 1..levels {
        let list = branch(Rule::TypeTuple, 1, "", vec![tree]);
        tree = branch(Rule::Tuple, 0, "()", vec![list]);
    }
    tree
}

#[test]
fn reference_after_impl_marker_is_malformed() {
    let text = "impl &T";
    let children =
        vec![token(Rule::ImplMarker, 0, "impl"), token(Rule::Reference, 5, "&"), regular(6, "T")];
    let tree = branch(Rule::Type, 0, text, children);
    let expected = ParseError::Malformed {
        site: site(Rule::Type, 0, text, vec![]),
        expected: leading(),
        found: vec![Rule::ImplMarker, Rule::Reference, Rule::RegularType],
    };
    assert_eq!(parse_root(&tree), Err(expected));
}

#[test]
fn reference_in_the_place_of_the_type() {
    let text = "impl &";
    let children = vec![token(Rule::ImplMarker, 0, "impl"), token(Rule::Reference, 5, "&")];
    let tree = branch(Rule::Type, 0, text, children);
    let expected =
        ParseError::Internal { site: site(Rule::Reference, 5, "&", vec![Rule::Type]) };
    assert_eq!(parse_root(&tree), Err(expected));
}

#[test]
fn malformed_error_points_at_the_expression() {
    let inner = branch(Rule::Type, 4, "", vec![]);
    let list = branch(Rule::TypeTuple, 4, "", vec![inner]);
    let generic =
        branch(Rule::RegularType, 0, "Vec<>", vec![token(Rule::TypeName, 0, "Vec"), list]);
    let tree = branch(Rule::Ast, 0, "Vec<>", vec![branch(Rule::Type, 0, "Vec<>", vec![generic])]);
    let error = parse_root(&tree).unwrap_err();
    let trail = vec![Rule::Ast, Rule::Type, Rule::RegularType, Rule::TypeTuple];
    let expected = ParseError::Malformed {
        site: site(Rule::Type, 4, "", trail),
        expected: leading(),
        found: vec![],
    };
    assert_eq!(error, expected);
    assert_eq!(error.site().span.start, 4);
    assert_eq!(error.site().span.end, 4);
}

#[test]
fn five_children_are_malformed() {
    let children = vec![
        token(Rule::Reference, 0, "&"),
        token(Rule::ImplMarker, 1, "impl"),
        regular(6, "A"),
        regular(11, "B"),
        regular(16, "C"),
    ];
    let tree = branch(Rule::Type, 0, "&impl A as B as C", children);
    match parse_root(&tree) {
        Err(ParseError::Malformed { found, .. }) => assert_eq!(found.len(), 5),
        other => panic!("{:?}", other),
    }
}

#[test]
fn reference_with_as_target_but_no_impl_marker_is_malformed() {
    let children = vec![token(Rule::Reference, 0, "&"), regular(1, "A"), regular(6, "B")];
    let tree = branch(Rule::Type, 0, "&A as B", children);
    assert!(matches!(parse_root(&tree), Err(ParseError::Malformed { .. })));
}

#[test]
fn four_children_need_reference_then_impl_marker() {
    let children = vec![
        token(Rule::ImplMarker, 0, "impl"),
        token(Rule::Reference, 5, "&"),
        regular(6, "A"),
        regular(11, "B"),
    ];
    let tree = branch(Rule::Type, 0, "impl &A as B", children);
    assert!(matches!(parse_root(&tree), Err(ParseError::Malformed { .. })));
}

#[test]
fn closure_type_cannot_lead_an_as_target() {
    let children = vec![token(Rule::ClosureType, 0, "Fn()"), regular(8, "B")];
    let tree = branch(Rule::Type, 0, "Fn() as B", children);
    assert!(matches!(parse_root(&tree), Err(ParseError::Malformed { .. })));
}

#[test]
fn layouts_by_count_and_leading_rules() {
    let of = |rules: &[Rule]| {
        let children = rules.iter().map(|rule| token(*rule, 0, "")).collect();
        layout(&branch(Rule::Type, 0, "", children))
    };
    let slots = |reference, impl_marker, inner, as_target| {
        Some(Slots { reference, impl_marker, inner, as_target })
    };
    assert_eq!(of(&[]), None);
    assert_eq!(of(&[Rule::RegularType]), slots(None, None, 0, None));
    assert_eq!(of(&[Rule::Reference, Rule::RegularType]), slots(Some(0), None, 1, None));
    assert_eq!(of(&[Rule::ImplMarker, Rule::RegularType]), slots(None, Some(0), 1, None));
    assert_eq!(of(&[Rule::RegularType, Rule::RegularType]), slots(None, None, 0, Some(1)));
    assert_eq!(of(&[Rule::TurbofishType, Rule::RegularType]), slots(None, None, 0, Some(1)));
    assert_eq!(of(&[Rule::ClosureType, Rule::RegularType]), None);
    assert_eq!(
        of(&[Rule::Reference, Rule::ImplMarker, Rule::RegularType]),
        slots(Some(0), Some(1), 2, None)
    );
    assert_eq!(
        of(&[Rule::ImplMarker, Rule::RegularType, Rule::RegularType]),
        slots(None, Some(0), 1, Some(2))
    );
    assert_eq!(of(&[Rule::ImplMarker, Rule::Reference, Rule::RegularType]), None);
    assert_eq!(of(&[Rule::Reference, Rule::RegularType, Rule::RegularType]), None);
    assert_eq!(of(&[Rule::RegularType, Rule::RegularType, Rule::RegularType]), None);
    assert_eq!(
        of(&[Rule::Reference, Rule::ImplMarker, Rule::RegularType, Rule::RegularType]),
        slots(Some(0), Some(1), 2, Some(3))
    );
    assert_eq!(
        of(&[Rule::ImplMarker, Rule::Reference, Rule::RegularType, Rule::RegularType]),
        None
    );
    assert_eq!(of(&[Rule::RegularType; 5]), None);
}

#[test]
fn regular_type_without_a_name() {
    let tree = branch(Rule::Type, 3, "", vec![branch(Rule::RegularType, 3, "", vec![])]);
    let expected =
        ParseError::MissingField { site: site(Rule::RegularType, 3, "", vec![Rule::Type]) };
    assert_eq!(parse_root(&tree), Err(expected));
}

#[test]
fn tuple_without_a_list() {
    let tree = branch(Rule::Tuple, 0, "()", vec![]);
    let expected = ParseError::MissingField { site: site(Rule::Tuple, 0, "()", vec![]) };
    assert_eq!(parse_root(&tree), Err(expected));
}

#[test]
fn ast_without_an_expression() {
    let tree = branch(Rule::Ast, 0, "", vec![]);
    let expected = ParseError::MissingField { site: site(Rule::Ast, 0, "", vec![]) };
    assert_eq!(parse_root(&tree), Err(expected));
}

#[test]
fn ast_with_only_the_end_of_input() {
    let tree = branch(Rule::Ast, 0, "", vec![token(Rule::Eoi, 0, "")]);
    let expected = ParseError::Internal { site: site(Rule::Eoi, 0, "", vec![Rule::Ast]) };
    assert_eq!(parse_root(&tree), Err(expected));
}

#[test]
fn turbofish_type_without_arguments() {
    let mut stack = vec![Rule::Type];
    let tree = branch(Rule::TurbofishType, 0, "Vec::", vec![token(Rule::TypeName, 0, "Vec")]);
    let expected = ParseError::MissingField {
        site: site(Rule::TurbofishType, 0, "Vec::", vec![Rule::Type]),
    };
    assert_eq!(parse_turbofish_type(&tree, &mut stack), Err(expected));
    assert_eq!(stack, vec![Rule::Type]);
}

#[test]
fn closure_type_without_parameters_list() {
    let closure = branch(Rule::ClosureType, 0, "Fn", vec![token(Rule::TypeName, 0, "Fn")]);
    let tree = branch(Rule::Type, 0, "Fn", vec![closure]);
    let expected =
        ParseError::MissingField { site: site(Rule::ClosureType, 0, "Fn", vec![Rule::Type]) };
    assert_eq!(parse_root(&tree), Err(expected));
}

#[test]
fn closure_parameters_fail_before_the_return_type() {
    let params = branch(Rule::TypeTuple, 3, "&", vec![token(Rule::Reference, 3, "&")]);
    let children =
        vec![token(Rule::TypeName, 0, "Fn"), params, token(Rule::ImplMarker, 9, "impl")];
    let closure = branch(Rule::ClosureType, 0, "Fn(&) -> impl", children);
    let mut stack = vec![Rule::Type];
    let trail = vec![Rule::Type, Rule::ClosureType, Rule::TypeTuple];
    let expected = ParseError::Internal { site: site(Rule::Reference, 3, "&", trail) };
    assert_eq!(parse_closure_type(&closure, &mut stack), Err(expected));
    assert_eq!(stack, vec![Rule::Type]);
}

#[test]
fn closure_return_type_that_fails() {
    let params = token(Rule::TypeTuple, 3, "");
    let children =
        vec![token(Rule::TypeName, 0, "Fn"), params, token(Rule::ImplMarker, 8, "impl")];
    let closure = branch(Rule::ClosureType, 0, "Fn() -> impl", children);
    let mut stack = vec![Rule::Type];
    let trail = vec![Rule::Type, Rule::ClosureType];
    let expected = ParseError::Internal { site: site(Rule::ImplMarker, 8, "impl", trail) };
    assert_eq!(parse_closure_type(&closure, &mut stack), Err(expected));
    assert_eq!(stack, vec![Rule::Type]);
}

#[test]
fn unknown_rule_where_a_type_belongs() {
    let mut stack = vec![Rule::Type];
    let tree = token(Rule::TypeName, 2, "T");
    let expected =
        ParseError::Internal { site: site(Rule::TypeName, 2, "T", vec![Rule::Type]) };
    assert_eq!(parse_type(&tree, &mut stack), Err(expected));
    assert_eq!(stack, vec![Rule::Type]);
}

#[test]
fn unknown_rule_at_the_root() {
    let tree = regular(0, "String");
    let expected = ParseError::Internal { site: site(Rule::RegularType, 0, "String", vec![]) };
    assert_eq!(parse_root(&tree), Err(expected));
}

#[test]
fn unknown_rule_among_list_elements() {
    let list = branch(Rule::TypeTuple, 1, "A, B", vec![expression(1, "A"), regular(4, "B")]);
    let mut stack = Vec::new();
    let expected = ParseError::Internal {
        site: site(Rule::RegularType, 4, "B", vec![Rule::TypeTuple]),
    };
    assert_eq!(parse_items(&list, &mut stack), Err(expected));
    assert!(stack.is_empty());
}

#[test]
fn leftmost_failing_element_is_reported() {
    let elements = vec![
        expression(1, "A"),
        token(Rule::Reference, 4, "&"),
        token(Rule::ImplMarker, 7, "impl"),
    ];
    let tuple =
        branch(Rule::Tuple, 0, "(A, &, impl)", vec![branch(Rule::TypeTuple, 1, "", elements)]);
    let mut stack = vec![Rule::Ast];
    let trail = vec![Rule::Ast, Rule::Tuple, Rule::TypeTuple];
    let expected = ParseError::Internal { site: site(Rule::Reference, 4, "&", trail) };
    assert_eq!(parse_tuple(&tuple, &mut stack), Err(expected));
    assert_eq!(stack, vec![Rule::Ast]);
}

#[test]
fn error_below_an_as_target_propagates() {
    let bad = branch(Rule::RegularType, 5, "", vec![]);
    let tree = branch(Rule::Type, 0, "A as ", vec![regular(0, "A"), bad]);
    let mut stack = Vec::new();
    let expected =
        ParseError::MissingField { site: site(Rule::RegularType, 5, "", vec![Rule::Type]) };
    assert_eq!(parse_type_expr(&tree, &mut stack), Err(expected));
    assert!(stack.is_empty());
}

#[test]
fn stack_is_handed_back_after_success() {
    let mut stack = vec![Rule::Ast, Rule::Type];
    let list = branch(Rule::TypeTuple, 4, "u8", vec![expression(4, "u8")]);
    let generic =
        branch(Rule::RegularType, 0, "Vec<u8>", vec![token(Rule::TypeName, 0, "Vec"), list]);
    assert!(parse_regular_type(&generic, &mut stack).is_ok());
    assert_eq!(stack, vec![Rule::Ast, Rule::Type]);
    assert!(parse_element(&expression(0, "u8"), &mut stack).is_ok());
    assert_eq!(stack, vec![Rule::Ast, Rule::Type]);
}

#[test]
fn depth_limit_is_two_hundred_and_fifty_six() {
    assert_eq!(MAX_DEPTH, 256);
}

#[test]
fn nesting_up_to_the_depth_limit_converts() {
    assert!(parse_root(&nested_tuples(MAX_DEPTH / 2)).is_ok());
}

#[test]
fn nesting_beyond_the_depth_limit_fails() {
    let error = parse_root(&nested_tuples(MAX_DEPTH / 2 + 1)).unwrap_err();
    match error {
        ParseError::TooDeep { site } => {
            assert_eq!(site.rule, Rule::Tuple);
            assert_eq!(site.trail.len(), MAX_DEPTH);
        }
        other => panic!("{:?}", other),
    }
}

#[test]
fn full_stack_refuses_to_descend() {
    let mut stack = vec![Rule::Type; MAX_DEPTH];
    let tree = expression(0, "u8");
    let expected = ParseError::TooDeep { site: site(Rule::Type, 0, "u8", stack.clone()) };
    assert_eq!(parse_type_expr(&tree, &mut stack), Err(expected));
    assert_eq!(stack.len(), MAX_DEPTH);
    let list = token(Rule::TypeTuple, 0, "");
    assert!(matches!(parse_type_tuple(&list, &mut stack), Err(ParseError::TooDeep { .. })));
    assert_eq!(stack.len(), MAX_DEPTH);
}

#[test]
fn simple_type_needs_no_room_on_the_stack() {
    let mut stack = vec![Rule::Type; MAX_DEPTH];
    assert!(parse_regular_type(&regular(0, "u8"), &mut stack).is_ok());
    assert!(parse_type(&regular(0, "u8"), &mut stack).is_ok());
}

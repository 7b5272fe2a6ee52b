//! The transformer: one routine for each family of grammar productions.
//!
//! The routines share a stack of rules. Whoever descends into the children
//! of a node pushes the node's rule first and pops it afterwards, whether
//! the descent succeeded or not, so that the stack always names the
//! ancestors of the node at hand and is handed back as it was received.

use vstd::prelude::*;
use crate::ast::{type_exprs_view, Type, TypeExpr, TypeExprView};
use crate::error::{ParseError, ParseErrorView, Site};
use crate::laws::{law_error_lies_within_tree, law_finished_tree_list_free};
use crate::model::{
    closure_type_of, element_of, elements_upto, items_of, leading_rules, lies_in,
    regular_type_of, root_of, slot_text, slots_of, tuple_of, turbofish_type_of, type_expr_of,
    type_of, type_tuple_of, Slots, MAX_DEPTH,
};
use crate::rule::Rule;
use crate::text::trim;
use crate::tree::Node;

verus! {

/// A result as specifications see it: the view of the value or of the error.
pub open spec fn outcome<T: View, E: View>(res: Result<T, E>) -> Result<T::V, E::V> {
    match res {
        Ok(value) => Ok(value@),
        Err(error) => Err(error@),
    }
}

/// The result of converting a list as specifications see it.
pub open spec fn list_outcome(res: Result<Vec<TypeExpr>, ParseError>) -> Result<
    Seq<TypeExprView>,
    ParseErrorView,
> {
    match res {
        Ok(items) => Ok(type_exprs_view(items@)),
        Err(error) => Err(error@),
    }
}

/// Finds the layout of a type expression's children.
pub fn layout(node: &Node) -> (res: Option<Slots>)
    ensures
        res == slots_of(node.child_rules()),
        res matches Some(slots) ==> {
            &&& slots.inner < node.children@.len()
            &&& slots.reference matches Some(k) ==> k < node.children@.len()
            &&& slots.impl_marker matches Some(k) ==> k < node.children@.len()
            &&& slots.as_target matches Some(k) ==> k < node.children@.len()
        },
{
    let n: usize = node.children.len();
    if n == 1 {
        Some(Slots { reference: None, impl_marker: None, inner: 0, as_target: None })
    } else if n == 2 {
        match node.children[0].rule {
            Rule::Reference => Some(
                Slots { reference: Some(0), impl_marker: None, inner: 1, as_target: None },
            ),
            Rule::ImplMarker => Some(
                Slots { reference: None, impl_marker: Some(0), inner: 1, as_target: None },
            ),
            Rule::RegularType | Rule::TurbofishType => Some(
                Slots { reference: None, impl_marker: None, inner: 0, as_target: Some(1) },
            ),
            _ => None,
        }
    } else if n == 3 {
        let first = node.children[0].rule;
        let second = node.children[1].rule;
        if first == Rule::Reference && second == Rule::ImplMarker {
            Some(Slots { reference: Some(0), impl_marker: Some(1), inner: 2, as_target: None })
        } else if first == Rule::ImplMarker && second != Rule::Reference {
            Some(Slots { reference: None, impl_marker: Some(0), inner: 1, as_target: Some(2) })
        } else {
            None
        }
    } else if n == 4 {
        let first = node.children[0].rule;
        let second = node.children[1].rule;
        if first == Rule::Reference && second == Rule::ImplMarker {
            Some(Slots { reference: Some(0), impl_marker: Some(1), inner: 2, as_target: Some(3) })
        } else {
            None
        }
    } else {
        None
    }
}

/// The rules that may stand first among the children of a type expression.
fn leading() -> (res: Vec<Rule>)
    ensures
        res@ == leading_rules(),
{
    vec![
        Rule::Reference,
        Rule::ImplMarker,
        Rule::RegularType,
        Rule::TurbofishType,
        Rule::ClosureType,
    ]
}

/// Copies the text of the child that fills an optional slot.
fn marker(node: &Node, slot: Option<usize>) -> (res: Option<String>)
    requires
        slot matches Some(k) ==> k < node.children@.len(),
    ensures
        crate::ast::text_of(res) == slot_text(*node, slot),
{
    match slot {
        Some(k) => Some(node.children[k].span.text.clone()),
        None => None,
    }
}

/// Converts a full type expression: finds out which of the optional slots
/// its children fill, takes the markers over as text and converts the type
/// and the `as` target.
pub fn parse_type_expr(node: &Node, rstack: &mut Vec<Rule>) -> (res: Result<TypeExpr, ParseError>)
    ensures
        outcome(res) == type_expr_of(*node, old(rstack)@),
        final(rstack)@ == old(rstack)@,
    decreases MAX_DEPTH - old(rstack)@.len(), 3int, 0int,
{
    let slots = match layout(node) {
        Some(slots) => slots,
        None => {
            return Err(
                ParseError::Malformed {
                    site: Site::of(node, rstack),
                    expected: leading(),
                    found: node.rules_of_children(),
                },
            );
        },
    };
    if rstack.len() >= MAX_DEPTH {
        return Err(ParseError::TooDeep { site: Site::of(node, rstack) });
    }
    rstack.push(node.rule);
    let ty = match parse_type(&node.children[slots.inner], rstack) {
        Ok(ty) => ty,
        Err(error) => {
            rstack.pop();
            assert(rstack@ =~= old(rstack)@);
            return Err(error);
        },
    };
    let as_target = match slots.as_target {
        None => None,
        Some(k) => match parse_type(&node.children[k], rstack) {
            Ok(target) => Some(Box::new(target)),
            Err(error) => {
                rstack.pop();
                assert(rstack@ =~= old(rstack)@);
                return Err(error);
            },
        },
    };
    rstack.pop();
    assert(rstack@ =~= old(rstack)@);
    Ok(
        TypeExpr {
            original: node.span.text.clone(),
            reference: marker(node, slots.reference),
            impl_marker: marker(node, slots.impl_marker),
            ty,
            as_target,
        },
    )
}

/// Converts the node of a type proper by handing it to the routine for its
/// rule. A node of any other rule is an internal error.
pub fn parse_type(node: &Node, rstack: &mut Vec<Rule>) -> (res: Result<Type, ParseError>)
    ensures
        outcome(res) == type_of(*node, old(rstack)@),
        final(rstack)@ == old(rstack)@,
    decreases MAX_DEPTH - old(rstack)@.len(), 2int, 0int,
{
    match node.rule {
        Rule::RegularType => parse_regular_type(node, rstack),
        Rule::TurbofishType => parse_turbofish_type(node, rstack),
        Rule::ClosureType => parse_closure_type(node, rstack),
        _ => Err(ParseError::Internal { site: Site::of(node, rstack) }),
    }
}

/// Converts a regular type: the trimmed text of its first child names it,
/// and a second child, if there is one, lists its generic arguments.
pub fn parse_regular_type(node: &Node, rstack: &mut Vec<Rule>) -> (res: Result<Type, ParseError>)
    ensures
        outcome(res) == regular_type_of(*node, old(rstack)@),
        final(rstack)@ == old(rstack)@,
    decreases MAX_DEPTH - old(rstack)@.len(), 1int, 0int,
{
    if node.children.len() == 0 {
        return Err(ParseError::MissingField { site: Site::of(node, rstack) });
    }
    let name = trim(node.children[0].span.text.as_str()).to_owned();
    if node.children.len() == 1 {
        return Ok(Type::SimpleType(name));
    }
    if rstack.len() >= MAX_DEPTH {
        return Err(ParseError::TooDeep { site: Site::of(node, rstack) });
    }
    rstack.push(node.rule);
    let items = parse_items(&node.children[1], rstack);
    rstack.pop();
    assert(rstack@ =~= old(rstack)@);
    match items {
        Ok(type_args) => Ok(Type::GenericType { name, type_args }),
        Err(error) => Err(error),
    }
}

/// Converts a turbofish type into a generic type: the trimmed text of its
/// first child names it, its second child lists the arguments.
pub fn parse_turbofish_type(node: &Node, rstack: &mut Vec<Rule>) -> (res: Result<
    Type,
    ParseError,
>)
    ensures
        outcome(res) == turbofish_type_of(*node, old(rstack)@),
        final(rstack)@ == old(rstack)@,
    decreases MAX_DEPTH - old(rstack)@.len(), 1int, 0int,
{
    if node.children.len() < 2 {
        return Err(ParseError::MissingField { site: Site::of(node, rstack) });
    }
    if rstack.len() >= MAX_DEPTH {
        return Err(ParseError::TooDeep { site: Site::of(node, rstack) });
    }
    let name = trim(node.children[0].span.text.as_str()).to_owned();
    rstack.push(node.rule);
    let items = parse_items(&node.children[1], rstack);
    rstack.pop();
    assert(rstack@ =~= old(rstack)@);
    match items {
        Ok(type_args) => Ok(Type::GenericType { name, type_args }),
        Err(error) => Err(error),
    }
}

/// Converts a closure or function-pointer type: the trimmed text of its
/// first child names it, its second child lists the parameters, and a third
/// child, if there is one, is the return type.
pub fn parse_closure_type(node: &Node, rstack: &mut Vec<Rule>) -> (res: Result<Type, ParseError>)
    ensures
        outcome(res) == closure_type_of(*node, old(rstack)@),
        final(rstack)@ == old(rstack)@,
    decreases MAX_DEPTH - old(rstack)@.len(), 1int, 0int,
{
    if node.children.len() < 2 {
        return Err(ParseError::MissingField { site: Site::of(node, rstack) });
    }
    if rstack.len() >= MAX_DEPTH {
        return Err(ParseError::TooDeep { site: Site::of(node, rstack) });
    }
    let name = trim(node.children[0].span.text.as_str()).to_owned();
    rstack.push(node.rule);
    let params = match parse_items(&node.children[1], rstack) {
        Ok(params) => params,
        Err(error) => {
            rstack.pop();
            assert(rstack@ =~= old(rstack)@);
            return Err(error);
        },
    };
    let ret = if node.children.len() == 2 {
        None
    } else {
        match parse_element(&node.children[2], rstack) {
            Ok(ret) => Some(Box::new(ret)),
            Err(error) => {
                rstack.pop();
                assert(rstack@ =~= old(rstack)@);
                return Err(error);
            },
        }
    };
    rstack.pop();
    assert(rstack@ =~= old(rstack)@);
    Ok(Type::Closure { name, params, ret })
}

/// Converts the children of an element list, left to right, and stops at
/// the first one that fails.
pub fn parse_items(node: &Node, rstack: &mut Vec<Rule>) -> (res: Result<Vec<TypeExpr>, ParseError>)
    ensures
        list_outcome(res) == items_of(*node, old(rstack)@),
        final(rstack)@ == old(rstack)@,
    decreases MAX_DEPTH - old(rstack)@.len(), 6int, 0int,
{
    if rstack.len() >= MAX_DEPTH {
        return Err(ParseError::TooDeep { site: Site::of(node, rstack) });
    }
    rstack.push(node.rule);
    let ghost below = rstack@;
    let mut items: Vec<TypeExpr> = Vec::new();
    let mut i: usize = 0;
    assert(type_exprs_view(items@) =~= Seq::empty());
    while i < node.children.len()
        invariant
            i <= node.children@.len(),
            below == old(rstack)@.push(node.rule),
            below.len() <= MAX_DEPTH,
            rstack@ == below,
            elements_upto(node.children@, below, i as nat) == Ok::<
                Seq<TypeExprView>,
                ParseErrorView,
            >(type_exprs_view(items@)),
        decreases node.children@.len() - i,
    {
        match parse_element(&node.children[i], rstack) {
            Ok(item) => {
                let ghost before = items@;
                items.push(item);
                assert(type_exprs_view(items@) =~= type_exprs_view(before).push(item@));
            },
            Err(error) => {
                rstack.pop();
                assert(rstack@ =~= old(rstack)@);
                proof {
                    lemma_elements_fail(node.children@, below, (i + 1) as nat, node.children@.len());
                }
                return Err(error);
            },
        }
        i = i + 1;
    }
    rstack.pop();
    assert(rstack@ =~= old(rstack)@);
    Ok(items)
}

/// Once a prefix of the nodes fails, every longer prefix fails alike.
proof fn lemma_elements_fail(nodes: Seq<Node>, trail: Seq<Rule>, n: nat, m: nat)
    requires
        elements_upto(nodes, trail, n) is Err,
        n <= m <= nodes.len(),
    ensures
        elements_upto(nodes, trail, m) == elements_upto(nodes, trail, n),
    decreases m,
{
    if n < m {
        lemma_elements_fail(nodes, trail, n, (m - 1) as nat);
    }
}

/// Converts one element of a list: a type expression or a nested tuple. A
/// node of any other rule is an internal error.
pub fn parse_element(node: &Node, rstack: &mut Vec<Rule>) -> (res: Result<TypeExpr, ParseError>)
    ensures
        outcome(res) == element_of(*node, old(rstack)@),
        final(rstack)@ == old(rstack)@,
    decreases MAX_DEPTH - old(rstack)@.len(), 4int, 0int,
{
    match node.rule {
        Rule::Type => parse_type_expr(node, rstack),
        Rule::Tuple => parse_tuple(node, rstack),
        _ => Err(ParseError::Internal { site: Site::of(node, rstack) }),
    }
}

/// Converts a tuple: the list that is its first child gives the elements,
/// the tuple itself the text.
pub fn parse_tuple(node: &Node, rstack: &mut Vec<Rule>) -> (res: Result<TypeExpr, ParseError>)
    ensures
        outcome(res) == tuple_of(*node, old(rstack)@),
        final(rstack)@ == old(rstack)@,
    decreases MAX_DEPTH - old(rstack)@.len(), 3int, 0int,
{
    if node.children.len() == 0 {
        return Err(ParseError::MissingField { site: Site::of(node, rstack) });
    }
    if rstack.len() >= MAX_DEPTH {
        return Err(ParseError::TooDeep { site: Site::of(node, rstack) });
    }
    rstack.push(node.rule);
    let items = parse_items(&node.children[0], rstack);
    rstack.pop();
    assert(rstack@ =~= old(rstack)@);
    match items {
        Ok(elements) => Ok(
            TypeExpr {
                original: node.span.text.clone(),
                reference: None,
                impl_marker: None,
                ty: Type::Tuple(elements),
                as_target: None,
            },
        ),
        Err(error) => Err(error),
    }
}

/// Converts an element list by itself. The elements come back as a
/// [`Type::List`] in an otherwise empty expression, for the caller to move
/// into a tuple or a generic type.
pub fn parse_type_tuple(node: &Node, rstack: &mut Vec<Rule>) -> (res: Result<TypeExpr, ParseError>)
    ensures
        outcome(res) == type_tuple_of(*node, old(rstack)@),
        final(rstack)@ == old(rstack)@,
{
    match parse_items(node, rstack) {
        Ok(items) => Ok(
            TypeExpr {
                original: String::new(),
                reference: None,
                impl_marker: None,
                ty: Type::List(items),
                as_target: None,
            },
        ),
        Err(error) => Err(error),
    }
}

/// Converts the parse tree of one type expression. The rule stack is the
/// call's own and starts empty.
pub fn parse_root(node: &Node) -> (res: Result<TypeExpr, ParseError>)
    ensures
        outcome(res) == root_of(*node),
        res matches Ok(expr) ==> expr@.list_free(),
        res matches Err(error) ==> lies_in(error@.site(), *node, Seq::empty()),
{
    proof {
        law_finished_tree_list_free(*node);
        law_error_lies_within_tree(*node);
    }
    let mut rstack: Vec<Rule> = Vec::new();
    match node.rule {
        Rule::Ast => {
            if node.children.len() == 0 {
                return Err(ParseError::MissingField { site: Site::of(node, &rstack) });
            }
            rstack.push(Rule::Ast);
            assert(rstack@ =~= seq![Rule::Ast]);
            parse_element(&node.children[0], &mut rstack)
        },
        _ => parse_element(node, &mut rstack),
    }
}

} // verus!

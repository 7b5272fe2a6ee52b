//! What the transformer computes, as functions of the parse tree.
//!
//! Each function takes the node to convert and the rules of its ancestors,
//! outermost first, and gives the syntax tree or the error that the routine
//! of the same purpose in [`crate::parsing`] returns. A node is converted
//! only while fewer than [`MAX_DEPTH`] ancestors stand above its children.

use vstd::prelude::*;
use crate::ast::{TypeExprView, TypeView};
use crate::error::{ParseErrorView, SiteView};
use crate::rule::Rule;
use crate::text::trimmed;
use crate::tree::Node;

verus! {

/// The greatest number of ancestors that a converted node may have.
pub const MAX_DEPTH: usize = 256;

/// Which children of a type expression fill which of its slots, by index.
#[derive(Clone, Copy, Debug, PartialEq, Eq, Structural)]
pub struct Slots {
    pub reference: Option<usize>,
    pub impl_marker: Option<usize>,
    pub inner: usize,
    pub as_target: Option<usize>,
}

/// The rules that may stand first among the children of a type expression.
pub open spec fn leading_rules() -> Seq<Rule> {
    seq![
        Rule::Reference,
        Rule::ImplMarker,
        Rule::RegularType,
        Rule::TurbofishType,
        Rule::ClosureType,
    ]
}

/// The layout that the rules of a type expression's children stand for, if
/// they stand for one. The number of children and the rules of the first two
/// decide:
///
/// | children | first | second | layout |
/// |---|---|---|---|
/// | 1 | any | | type |
/// | 2 | reference | any | reference, type |
/// | 2 | `impl` marker | any | `impl` marker, type |
/// | 2 | regular or turbofish type | any | type, `as` target |
/// | 3 | reference | `impl` marker | reference, `impl` marker, type |
/// | 3 | `impl` marker | no reference | `impl` marker, type, `as` target |
/// | 4 | reference | `impl` marker | reference, `impl` marker, type, `as` target |
pub open spec fn slots_of(rules: Seq<Rule>) -> Option<Slots> {
    if rules.len() == 1 {
        Some(Slots { reference: None, impl_marker: None, inner: 0, as_target: None })
    } else if rules.len() == 2 {
        match rules[0] {
            Rule::Reference => Some(
                Slots { reference: Some(0), impl_marker: None, inner: 1, as_target: None },
            ),
            Rule::ImplMarker => Some(
                Slots { reference: None, impl_marker: Some(0), inner: 1, as_target: None },
            ),
            Rule::RegularType | Rule::TurbofishType => Some(
                Slots { reference: None, impl_marker: None, inner: 0, as_target: Some(1) },
            ),
            _ => None,
        }
    } else if rules.len() == 3 {
        if rules[0] == Rule::Reference && rules[1] == Rule::ImplMarker {
            Some(Slots { reference: Some(0), impl_marker: Some(1), inner: 2, as_target: None })
        } else if rules[0] == Rule::ImplMarker && rules[1] != Rule::Reference {
            Some(Slots { reference: None, impl_marker: Some(0), inner: 1, as_target: Some(2) })
        } else {
            None
        }
    } else if rules.len() == 4 {
        if rules[0] == Rule::Reference && rules[1] == Rule::ImplMarker {
            Some(Slots { reference: Some(0), impl_marker: Some(1), inner: 2, as_target: Some(3) })
        } else {
            None
        }
    } else {
        None
    }
}

/// The text of the child that fills an optional slot.
pub open spec fn slot_text(node: Node, slot: Option<usize>) -> Option<Seq<char>> {
    match slot {
        Some(k) => Some(node.children@[k as int].span.text@),
        None => None,
    }
}

/// What a full type expression converts to.
///
/// Children that fit no layout of [`slots_of`] make the node malformed.
/// Otherwise the marker slots are taken over as text, and the type and the
/// `as` target are converted by [`type_of`], the type first.
pub open spec fn type_expr_of(node: Node, trail: Seq<Rule>) -> Result<
    TypeExprView,
    ParseErrorView,
>
    decreases MAX_DEPTH - trail.len(), 3int, 0int,
{
    match slots_of(node.child_rules()) {
        None => Err(
            ParseErrorView::Malformed {
                site: SiteView::of(node, trail),
                expected: leading_rules(),
                found: node.child_rules(),
            },
        ),
        Some(slots) => if trail.len() >= MAX_DEPTH {
            Err(ParseErrorView::TooDeep { site: SiteView::of(node, trail) })
        } else {
            let below = trail.push(node.rule);
            match type_of(node.children@[slots.inner as int], below) {
                Err(e) => Err(e),
                Ok(ty) => match slots.as_target {
                    None => Ok(
                        TypeExprView {
                            original: node.span.text@,
                            reference: slot_text(node, slots.reference),
                            impl_marker: slot_text(node, slots.impl_marker),
                            ty,
                            as_target: None,
                        },
                    ),
                    Some(k) => match type_of(node.children@[k as int], below) {
                        Err(e) => Err(e),
                        Ok(target) => Ok(
                            TypeExprView {
                                original: node.span.text@,
                                reference: slot_text(node, slots.reference),
                                impl_marker: slot_text(node, slots.impl_marker),
                                ty,
                                as_target: Some(target),
                            },
                        ),
                    },
                },
            }
        },
    }
}

/// What the node of a type proper converts to: its rule decides how.
pub open spec fn type_of(node: Node, trail: Seq<Rule>) -> Result<TypeView, ParseErrorView>
    decreases MAX_DEPTH - trail.len(), 2int, 0int,
{
    match node.rule {
        Rule::RegularType => regular_type_of(node, trail),
        Rule::TurbofishType => turbofish_type_of(node, trail),
        Rule::ClosureType => closure_type_of(node, trail),
        _ => Err(ParseErrorView::Internal { site: SiteView::of(node, trail) }),
    }
}

/// What a regular type converts to: a simple type named by its first child,
/// trimmed, or a generic type if a second child lists arguments.
pub open spec fn regular_type_of(node: Node, trail: Seq<Rule>) -> Result<
    TypeView,
    ParseErrorView,
>
    decreases MAX_DEPTH - trail.len(), 1int, 0int,
{
    if node.children@.len() == 0 {
        Err(ParseErrorView::MissingField { site: SiteView::of(node, trail) })
    } else if node.children@.len() == 1 {
        Ok(TypeView::SimpleType(trimmed(node.children@[0].span.text@)))
    } else if trail.len() >= MAX_DEPTH {
        Err(ParseErrorView::TooDeep { site: SiteView::of(node, trail) })
    } else {
        match items_of(node.children@[1], trail.push(node.rule)) {
            Err(e) => Err(e),
            Ok(items) => Ok(
                TypeView::GenericType {
                    name: trimmed(node.children@[0].span.text@),
                    type_args: items,
                },
            ),
        }
    }
}

/// What a turbofish type converts to: a generic type. Both the name and the
/// argument list must be there.
pub open spec fn turbofish_type_of(node: Node, trail: Seq<Rule>) -> Result<
    TypeView,
    ParseErrorView,
>
    decreases MAX_DEPTH - trail.len(), 1int, 0int,
{
    if node.children@.len() < 2 {
        Err(ParseErrorView::MissingField { site: SiteView::of(node, trail) })
    } else if trail.len() >= MAX_DEPTH {
        Err(ParseErrorView::TooDeep { site: SiteView::of(node, trail) })
    } else {
        match items_of(node.children@[1], trail.push(node.rule)) {
            Err(e) => Err(e),
            Ok(items) => Ok(
                TypeView::GenericType {
                    name: trimmed(node.children@[0].span.text@),
                    type_args: items,
                },
            ),
        }
    }
}

/// What a closure type converts to: its first child names it, its second
/// lists the parameters, and a third, if there is one, is the return type.
/// The parameters are converted before the return type.
pub open spec fn closure_type_of(node: Node, trail: Seq<Rule>) -> Result<
    TypeView,
    ParseErrorView,
>
    decreases MAX_DEPTH - trail.len(), 1int, 0int,
{
    if node.children@.len() < 2 {
        Err(ParseErrorView::MissingField { site: SiteView::of(node, trail) })
    } else if trail.len() >= MAX_DEPTH {
        Err(ParseErrorView::TooDeep { site: SiteView::of(node, trail) })
    } else {
        let below = trail.push(node.rule);
        match items_of(node.children@[1], below) {
            Err(e) => Err(e),
            Ok(params) => if node.children@.len() == 2 {
                Ok(
                    TypeView::Closure {
                        name: trimmed(node.children@[0].span.text@),
                        params,
                        ret: None,
                    },
                )
            } else {
                match element_of(node.children@[2], below) {
                    Err(e) => Err(e),
                    Ok(ret) => Ok(
                        TypeView::Closure {
                            name: trimmed(node.children@[0].span.text@),
                            params,
                            ret: Some(Box::new(ret)),
                        },
                    ),
                }
            },
        }
    }
}

/// What the children of an element list convert to, in order.
pub open spec fn items_of(node: Node, trail: Seq<Rule>) -> Result<
    Seq<TypeExprView>,
    ParseErrorView,
>
    decreases MAX_DEPTH - trail.len(), 6int, 0int,
{
    if trail.len() >= MAX_DEPTH {
        Err(ParseErrorView::TooDeep { site: SiteView::of(node, trail) })
    } else {
        elements_upto(node.children@, trail.push(node.rule), node.children@.len())
    }
}

/// What the first `n` of `nodes` convert to as list elements: the error of
/// the leftmost one that fails, or else all the results in order.
pub open spec fn elements_upto(nodes: Seq<Node>, trail: Seq<Rule>, n: nat) -> Result<
    Seq<TypeExprView>,
    ParseErrorView,
>
    decreases MAX_DEPTH - trail.len(), 5int, n,
{
    if n == 0 || n > nodes.len() {
        Ok(Seq::empty())
    } else {
        match elements_upto(nodes, trail, (n - 1) as nat) {
            Err(e) => Err(e),
            Ok(items) => match element_of(nodes[n - 1], trail) {
                Err(e) => Err(e),
                Ok(item) => Ok(items.push(item)),
            },
        }
    }
}

/// What one element of a list converts to: a type expression or a tuple.
pub open spec fn element_of(node: Node, trail: Seq<Rule>) -> Result<TypeExprView, ParseErrorView>
    decreases MAX_DEPTH - trail.len(), 4int, 0int,
{
    match node.rule {
        Rule::Type => type_expr_of(node, trail),
        Rule::Tuple => tuple_of(node, trail),
        _ => Err(ParseErrorView::Internal { site: SiteView::of(node, trail) }),
    }
}

/// What a tuple converts to: the elements of the list that is its first
/// child, under the tuple's own text.
pub open spec fn tuple_of(node: Node, trail: Seq<Rule>) -> Result<TypeExprView, ParseErrorView>
    decreases MAX_DEPTH - trail.len(), 3int, 0int,
{
    if node.children@.len() == 0 {
        Err(ParseErrorView::MissingField { site: SiteView::of(node, trail) })
    } else if trail.len() >= MAX_DEPTH {
        Err(ParseErrorView::TooDeep { site: SiteView::of(node, trail) })
    } else {
        match items_of(node.children@[0], trail.push(node.rule)) {
            Err(e) => Err(e),
            Ok(items) => Ok(TypeExprView::bare(node.span.text@, TypeView::Tuple(items))),
        }
    }
}

/// What an element list converts to when it is asked for by itself: its
/// elements as a [`TypeView::List`], in an expression without text.
pub open spec fn type_tuple_of(node: Node, trail: Seq<Rule>) -> Result<
    TypeExprView,
    ParseErrorView,
> {
    match items_of(node, trail) {
        Err(e) => Err(e),
        Ok(items) => Ok(TypeExprView::bare(Seq::empty(), TypeView::List(items))),
    }
}

/// What a whole parse tree converts to. Below an [`Rule::Ast`] root the
/// first child is the expression; any other root is the expression itself.
pub open spec fn root_of(node: Node) -> Result<TypeExprView, ParseErrorView> {
    match node.rule {
        Rule::Ast => if node.children@.len() == 0 {
            Err(ParseErrorView::MissingField { site: SiteView::of(node, Seq::empty()) })
        } else {
            element_of(node.children@[0], seq![Rule::Ast])
        },
        _ => element_of(node, Seq::empty()),
    }
}

/// Whether `site` is the site of `node` or of a node below it, given that
/// `node` is reached through the ancestors in `trail`.
pub open spec fn lies_in(site: SiteView, node: Node, trail: Seq<Rule>) -> bool
    decreases node,
{
    ||| site == SiteView::of(node, trail)
    ||| exists|i: int|
        0 <= i < node.children@.len() && lies_in(
            site,
            #[trigger] node.children@[i],
            trail.push(node.rule),
        )
}

} // verus!

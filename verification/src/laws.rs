//! Laws of the transformer, proved of the functions in [`crate::model`].
//!
//! Since every routine of [`crate::parsing`] is proved to compute its model,
//! each law holds of what the routines return.

use vstd::prelude::*;
use crate::ast::{TypeExprView, TypeView};
use crate::error::{ParseErrorView, SiteView};
use crate::model::{
    element_of, elements_upto, items_of, lies_in, regular_type_of, root_of, slots_of, tuple_of,
    type_expr_of, type_of, type_tuple_of, MAX_DEPTH,
};
use crate::rule::Rule;
use crate::text::trimmed;
use crate::tree::Node;

verus! {

/// A list converts element by element and in order: it succeeds exactly
/// when each of its first `n` nodes does, and then holds their results at
/// the same positions.
pub proof fn law_elements_in_order(nodes: Seq<Node>, trail: Seq<Rule>, n: nat)
    requires
        n <= nodes.len(),
    ensures
        elements_upto(nodes, trail, n) is Ok <==> forall|i: int|
            0 <= i < n ==> (#[trigger] element_of(nodes[i], trail)) is Ok,
        elements_upto(nodes, trail, n) matches Ok(items) ==> {
            &&& items.len() == n
            &&& forall|i: int|
                0 <= i < n ==> #[trigger] element_of(nodes[i], trail) == Ok::<
                    TypeExprView,
                    ParseErrorView,
                >(items[i])
        },
    decreases n,
{
    if n > 0 {
        law_elements_in_order(nodes, trail, (n - 1) as nat);
        let all = forall|i: int| 0 <= i < n ==> (#[trigger] element_of(nodes[i], trail)) is Ok;
        if elements_upto(nodes, trail, n) is Ok {
            assert(all) by {
                assert forall|i: int| 0 <= i < n implies (#[trigger] element_of(
                    nodes[i],
                    trail,
                )) is Ok by {
                    if i < n - 1 {
                    } else {
                        assert(element_of(nodes[n - 1], trail) is Ok);
                    }
                }
            }
        }
        if all {
            assert(element_of(nodes[n - 1], trail) is Ok);
            assert(elements_upto(nodes, trail, (n - 1) as nat) is Ok);
        }
    }
}

/// A list that fails reports the error of its leftmost failing element.
pub proof fn law_leftmost_error(nodes: Seq<Node>, trail: Seq<Rule>, n: nat)
    requires
        n <= nodes.len(),
    ensures
        elements_upto(nodes, trail, n) matches Err(error) ==> exists|k: int|
            {
                &&& 0 <= k < n
                &&& #[trigger] element_of(nodes[k], trail) == Err::<TypeExprView, ParseErrorView>(
                    error,
                )
                &&& forall|j: int| 0 <= j < k ==> (#[trigger] element_of(nodes[j], trail)) is Ok
            },
    decreases n,
{
    if n > 0 {
        law_leftmost_error(nodes, trail, (n - 1) as nat);
        law_elements_in_order(nodes, trail, (n - 1) as nat);
        if elements_upto(nodes, trail, (n - 1) as nat) is Ok && elements_upto(nodes, trail, n)
            is Err {
            assert(element_of(nodes[n - 1], trail) is Err);
        }
    }
}

/// A bare identifier converts to a simple type and nothing else: a type
/// expression whose only child is a regular type whose only child is the
/// name yields that name, trimmed, with no reference, no `impl` marker and
/// no `as` target.
pub proof fn law_bare_identifier(node: Node, trail: Seq<Rule>)
    requires
        trail.len() < MAX_DEPTH,
        node.children@.len() == 1,
        node.children@[0].rule == Rule::RegularType,
        node.children@[0].children@.len() == 1,
    ensures
        type_expr_of(node, trail) == Ok::<TypeExprView, ParseErrorView>(
            TypeExprView::bare(
                node.span.text@,
                TypeView::SimpleType(trimmed(node.children@[0].children@[0].span.text@)),
            ),
        ),
{
    assert(node.child_rules().len() == 1);
}

/// A leading reference changes nothing but the reference: if `borrowed` has
/// a reference child followed by the one child that `plain` has, then one
/// converts exactly when the other does, to the same type, and the result
/// for `borrowed` carries the text of the reference child.
pub proof fn law_reference_prefix(borrowed: Node, plain: Node, trail: Seq<Rule>)
    requires
        borrowed.rule == plain.rule,
        borrowed.children@.len() == 2,
        borrowed.children@[0].rule == Rule::Reference,
        plain.children@.len() == 1,
        plain.children@[0] == borrowed.children@[1],
    ensures
        type_expr_of(borrowed, trail) is Ok <==> type_expr_of(plain, trail) is Ok,
        type_expr_of(borrowed, trail) matches Ok(with_reference) ==> {
            &&& type_expr_of(plain, trail) matches Ok(without)
            &&& with_reference.reference == Some(borrowed.children@[0].span.text@)
            &&& with_reference.ty == without.ty
            &&& with_reference.impl_marker == without.impl_marker
            &&& with_reference.as_target == without.as_target
            &&& without.reference is None
        },
{
    assert(borrowed.child_rules().len() == 2);
    assert(borrowed.child_rules()[0] == Rule::Reference);
    assert(plain.child_rules().len() == 1);
}

/// The arguments of a generic type are the conversions of the argument
/// nodes, in source order: a regular type with a name and an argument list
/// converts exactly when two more levels are within the depth limit and
/// every argument converts, and the result names the type by the trimmed
/// name and holds the converted arguments at their positions.
pub proof fn law_generic_arguments(node: Node, trail: Seq<Rule>)
    requires
        node.children@.len() >= 2,
    ensures
        ({
            let list = node.children@[1];
            let below = trail.push(node.rule).push(list.rule);
            &&& regular_type_of(node, trail) is Ok <==> {
                &&& trail.len() + 2 <= MAX_DEPTH
                &&& forall|i: int|
                    0 <= i < list.children@.len() ==> (#[trigger] element_of(
                        list.children@[i],
                        below,
                    )) is Ok
            }
            &&& regular_type_of(node, trail) matches Ok(ty) ==> {
                &&& ty matches TypeView::GenericType { name, type_args }
                &&& name == trimmed(node.children@[0].span.text@)
                &&& type_args.len() == list.children@.len()
                &&& forall|i: int|
                    0 <= i < list.children@.len() ==> #[trigger] element_of(
                        list.children@[i],
                        below,
                    ) == Ok::<TypeExprView, ParseErrorView>(type_args[i])
            }
        }),
{
    let list = node.children@[1];
    let below = trail.push(node.rule).push(list.rule);
    law_elements_in_order(list.children@, below, list.children@.len());
}

/// The elements of a tuple are the conversions of the element nodes, in
/// source order: a tuple converts exactly when two more levels are within
/// the depth limit and every element converts, and the result holds the
/// converted elements at their positions under the tuple's own text. A
/// tuple with an empty list converts to the empty tuple.
pub proof fn law_tuple_elements(node: Node, trail: Seq<Rule>)
    requires
        node.children@.len() >= 1,
    ensures
        ({
            let list = node.children@[0];
            let below = trail.push(node.rule).push(list.rule);
            &&& tuple_of(node, trail) is Ok <==> {
                &&& trail.len() + 2 <= MAX_DEPTH
                &&& forall|i: int|
                    0 <= i < list.children@.len() ==> (#[trigger] element_of(
                        list.children@[i],
                        below,
                    )) is Ok
            }
            &&& tuple_of(node, trail) matches Ok(tuple) ==> {
                &&& tuple.original == node.span.text@
                &&& tuple.reference is None
                &&& tuple.impl_marker is None
                &&& tuple.as_target is None
                &&& tuple.ty matches TypeView::Tuple(elements)
                &&& elements.len() == list.children@.len()
                &&& forall|i: int|
                    0 <= i < list.children@.len() ==> #[trigger] element_of(
                        list.children@[i],
                        below,
                    ) == Ok::<TypeExprView, ParseErrorView>(elements[i])
            }
            &&& trail.len() + 2 <= MAX_DEPTH && list.children@.len() == 0 ==> tuple_of(node, trail)
                == Ok::<TypeExprView, ParseErrorView>(
                TypeExprView::bare(node.span.text@, TypeView::Tuple(Seq::empty())),
            )
        }),
{
    let list = node.children@[0];
    let below = trail.push(node.rule).push(list.rule);
    law_elements_in_order(list.children@, below, list.children@.len());
}

/// Every element that converts records the source text of its own node.
pub proof fn law_original_is_source_text(node: Node, trail: Seq<Rule>)
    ensures
        element_of(node, trail) matches Ok(expr) ==> expr.original == node.span.text@,
{
}

/// A reference that follows an `impl` marker is always an error: a type
/// expression whose first child is an `impl` marker and whose second is a
/// reference does not convert. With more than two children the expression
/// itself is malformed; with two, the reference stands where the type
/// belongs and is rejected there.
pub proof fn law_reference_after_impl_marker(node: Node, trail: Seq<Rule>)
    requires
        node.children@.len() >= 2,
        node.children@[0].rule == Rule::ImplMarker,
        node.children@[1].rule == Rule::Reference,
    ensures
        type_expr_of(node, trail) matches Err(error) && ({
            ||| error.site() == SiteView::of(node, trail)
            ||| error == ParseErrorView::Internal {
                site: SiteView::of(node.children@[1], trail.push(node.rule)),
            }
        }),
        node.children@.len() > 2 ==> type_expr_of(node, trail) is Err
            && type_expr_of(node, trail)->Err_0 is Malformed,
{
    let rules = node.child_rules();
    assert(rules[0] == Rule::ImplMarker);
    assert(rules[1] == Rule::Reference);
}

/// No element list is left in a type that converted.
pub proof fn law_type_list_free(node: Node, trail: Seq<Rule>)
    ensures
        type_of(node, trail) matches Ok(ty) ==> ty.list_free(),
    decreases MAX_DEPTH - trail.len(), 2int, 0int,
{
    if trail.len() < MAX_DEPTH && node.children@.len() >= 2 {
        let below = trail.push(node.rule);
        if node.rule == Rule::RegularType || node.rule == Rule::TurbofishType {
            law_items_list_free(node.children@[1], below);
        } else if node.rule == Rule::ClosureType {
            law_items_list_free(node.children@[1], below);
            if node.children@.len() > 2 {
                law_element_list_free(node.children@[2], below);
            }
        }
    }
}

/// No element list is left in a type expression that converted.
pub proof fn law_type_expr_list_free(node: Node, trail: Seq<Rule>)
    ensures
        type_expr_of(node, trail) matches Ok(expr) ==> expr.list_free(),
    decreases MAX_DEPTH - trail.len(), 3int, 0int,
{
    if let Some(slots) = slots_of(node.child_rules()) {
        if trail.len() < MAX_DEPTH {
            let below = trail.push(node.rule);
            law_type_list_free(node.children@[slots.inner as int], below);
            if let Some(k) = slots.as_target {
                law_type_list_free(node.children@[k as int], below);
            }
        }
    }
}

/// No element list is left in a tuple that converted.
pub proof fn law_tuple_list_free(node: Node, trail: Seq<Rule>)
    ensures
        tuple_of(node, trail) matches Ok(expr) ==> expr.list_free(),
    decreases MAX_DEPTH - trail.len(), 3int, 0int,
{
    if node.children@.len() > 0 && trail.len() < MAX_DEPTH {
        law_items_list_free(node.children@[0], trail.push(node.rule));
    }
}

/// No element list is left in a list element that converted.
pub proof fn law_element_list_free(node: Node, trail: Seq<Rule>)
    ensures
        element_of(node, trail) matches Ok(expr) ==> expr.list_free(),
    decreases MAX_DEPTH - trail.len(), 4int, 0int,
{
    if node.rule == Rule::Type {
        law_type_expr_list_free(node, trail);
    } else if node.rule == Rule::Tuple {
        law_tuple_list_free(node, trail);
    }
}

/// No element list is left in any of the first `n` converted elements.
pub proof fn law_elements_list_free(nodes: Seq<Node>, trail: Seq<Rule>, n: nat)
    ensures
        elements_upto(nodes, trail, n) matches Ok(items) ==> forall|i: int|
            0 <= i < items.len() ==> (#[trigger] items[i]).list_free(),
    decreases MAX_DEPTH - trail.len(), 5int, n,
{
    if n > 0 && n <= nodes.len() {
        law_elements_list_free(nodes, trail, (n - 1) as nat);
        law_element_list_free(nodes[n - 1], trail);
    }
}

/// No element list is left in any element of a converted list.
pub proof fn law_items_list_free(node: Node, trail: Seq<Rule>)
    ensures
        items_of(node, trail) matches Ok(items) ==> forall|i: int|
            0 <= i < items.len() ==> (#[trigger] items[i]).list_free(),
    decreases MAX_DEPTH - trail.len(), 6int, 0int,
{
    if trail.len() < MAX_DEPTH {
        law_elements_list_free(node.children@, trail.push(node.rule), node.children@.len());
    }
}

/// A finished tree holds no element list, at any depth.
pub proof fn law_finished_tree_list_free(node: Node)
    ensures
        root_of(node) matches Ok(expr) ==> expr.list_free(),
{
    if node.rule == Rule::Ast {
        if node.children@.len() > 0 {
            law_element_list_free(node.children@[0], seq![Rule::Ast]);
        }
    } else {
        law_element_list_free(node, Seq::empty());
    }
}

/// An element list asked for by itself comes back as a list, and no list is
/// left in any of its elements.
pub proof fn law_type_tuple_is_list(node: Node, trail: Seq<Rule>)
    ensures
        type_tuple_of(node, trail) matches Ok(expr) ==> {
            &&& expr.ty matches TypeView::List(items)
            &&& forall|i: int| 0 <= i < items.len() ==> (#[trigger] items[i]).list_free()
        },
{
    law_items_list_free(node, trail);
}

/// A type that converts below some ancestors converts to the same type
/// below fewer.
pub proof fn law_type_at_lesser_depth(node: Node, trail: Seq<Rule>, other: Seq<Rule>)
    requires
        other.len() <= trail.len(),
    ensures
        type_of(node, trail) matches Ok(ty) ==> type_of(node, other) == Ok::<
            TypeView,
            ParseErrorView,
        >(ty),
    decreases MAX_DEPTH - trail.len(), 2int, 0int,
{
    if trail.len() < MAX_DEPTH && node.children@.len() >= 2 {
        let below = trail.push(node.rule);
        let other_below = other.push(node.rule);
        if node.rule == Rule::RegularType || node.rule == Rule::TurbofishType {
            law_items_at_lesser_depth(node.children@[1], below, other_below);
        } else if node.rule == Rule::ClosureType {
            law_items_at_lesser_depth(node.children@[1], below, other_below);
            if node.children@.len() > 2 {
                law_element_at_lesser_depth(node.children@[2], below, other_below);
            }
        }
    }
}

/// A type expression that converts below some ancestors converts to the
/// same expression below fewer.
pub proof fn law_type_expr_at_lesser_depth(node: Node, trail: Seq<Rule>, other: Seq<Rule>)
    requires
        other.len() <= trail.len(),
    ensures
        type_expr_of(node, trail) matches Ok(expr) ==> type_expr_of(node, other) == Ok::<
            TypeExprView,
            ParseErrorView,
        >(expr),
    decreases MAX_DEPTH - trail.len(), 3int, 0int,
{
    if let Some(slots) = slots_of(node.child_rules()) {
        if trail.len() < MAX_DEPTH {
            let below = trail.push(node.rule);
            let other_below = other.push(node.rule);
            law_type_at_lesser_depth(node.children@[slots.inner as int], below, other_below);
            if let Some(k) = slots.as_target {
                law_type_at_lesser_depth(node.children@[k as int], below, other_below);
            }
        }
    }
}

/// A tuple that converts below some ancestors converts to the same
/// expression below fewer.
pub proof fn law_tuple_at_lesser_depth(node: Node, trail: Seq<Rule>, other: Seq<Rule>)
    requires
        other.len() <= trail.len(),
    ensures
        tuple_of(node, trail) matches Ok(expr) ==> tuple_of(node, other) == Ok::<
            TypeExprView,
            ParseErrorView,
        >(expr),
    decreases MAX_DEPTH - trail.len(), 3int, 0int,
{
    if node.children@.len() > 0 && trail.len() < MAX_DEPTH {
        law_items_at_lesser_depth(
            node.children@[0],
            trail.push(node.rule),
            other.push(node.rule),
        );
    }
}

/// A list element that converts below some ancestors converts to the same
/// expression below fewer.
pub proof fn law_element_at_lesser_depth(node: Node, trail: Seq<Rule>, other: Seq<Rule>)
    requires
        other.len() <= trail.len(),
    ensures
        element_of(node, trail) matches Ok(expr) ==> element_of(node, other) == Ok::<
            TypeExprView,
            ParseErrorView,
        >(expr),
    decreases MAX_DEPTH - trail.len(), 4int, 0int,
{
    if node.rule == Rule::Type {
        law_type_expr_at_lesser_depth(node, trail, other);
    } else if node.rule == Rule::Tuple {
        law_tuple_at_lesser_depth(node, trail, other);
    }
}

/// The first `n` elements that convert below some ancestors convert to the
/// same expressions below fewer.
pub proof fn law_elements_at_lesser_depth(
    nodes: Seq<Node>,
    trail: Seq<Rule>,
    other: Seq<Rule>,
    n: nat,
)
    requires
        other.len() <= trail.len(),
    ensures
        elements_upto(nodes, trail, n) matches Ok(items) ==> elements_upto(nodes, other, n)
            == Ok::<Seq<TypeExprView>, ParseErrorView>(items),
    decreases MAX_DEPTH - trail.len(), 5int, n,
{
    if n > 0 && n <= nodes.len() {
        law_elements_at_lesser_depth(nodes, trail, other, (n - 1) as nat);
        law_element_at_lesser_depth(nodes[n - 1], trail, other);
    }
}

/// A list that converts below some ancestors converts to the same
/// expressions below fewer.
pub proof fn law_items_at_lesser_depth(node: Node, trail: Seq<Rule>, other: Seq<Rule>)
    requires
        other.len() <= trail.len(),
    ensures
        items_of(node, trail) matches Ok(items) ==> items_of(node, other) == Ok::<
            Seq<TypeExprView>,
            ParseErrorView,
        >(items),
    decreases MAX_DEPTH - trail.len(), 6int, 0int,
{
    if trail.len() < MAX_DEPTH {
        law_elements_at_lesser_depth(
            node.children@,
            trail.push(node.rule),
            other.push(node.rule),
            node.children@.len(),
        );
    }
}

/// What a node converted to inside a larger tree, it converts to by itself:
/// an element that converts below any ancestors is, taken as a root, a tree
/// that converts to the same expression.
pub proof fn law_converts_alike_in_isolation(node: Node, trail: Seq<Rule>)
    ensures
        element_of(node, trail) matches Ok(expr) ==> root_of(node) == Ok::<
            TypeExprView,
            ParseErrorView,
        >(expr),
{
    law_element_at_lesser_depth(node, trail, Seq::empty());
}

/// An error from a type points at its node or at a node below it.
pub proof fn law_type_error_lies_within(node: Node, trail: Seq<Rule>)
    ensures
        type_of(node, trail) matches Err(error) ==> lies_in(error.site(), node, trail),
    decreases MAX_DEPTH - trail.len(), 2int, 0int,
{
    if trail.len() < MAX_DEPTH && node.children@.len() >= 2 {
        let below = trail.push(node.rule);
        if node.rule == Rule::RegularType || node.rule == Rule::TurbofishType {
            law_items_error_lies_within(node.children@[1], below);
        } else if node.rule == Rule::ClosureType {
            law_items_error_lies_within(node.children@[1], below);
            if node.children@.len() > 2 {
                law_element_error_lies_within(node.children@[2], below);
            }
        }
    }
}

/// An error from a type expression points at its node or at a node below
/// it.
pub proof fn law_type_expr_error_lies_within(node: Node, trail: Seq<Rule>)
    ensures
        type_expr_of(node, trail) matches Err(error) ==> lies_in(error.site(), node, trail),
    decreases MAX_DEPTH - trail.len(), 3int, 0int,
{
    if let Some(slots) = slots_of(node.child_rules()) {
        if trail.len() < MAX_DEPTH {
            let below = trail.push(node.rule);
            let inner = node.children@[slots.inner as int];
            law_type_error_lies_within(inner, below);
            if let Some(k) = slots.as_target {
                law_type_error_lies_within(node.children@[k as int], below);
            }
        }
    }
}

/// An error from a tuple points at its node or at a node below it.
pub proof fn law_tuple_error_lies_within(node: Node, trail: Seq<Rule>)
    ensures
        tuple_of(node, trail) matches Err(error) ==> lies_in(error.site(), node, trail),
    decreases MAX_DEPTH - trail.len(), 3int, 0int,
{
    if node.children@.len() > 0 && trail.len() < MAX_DEPTH {
        let below = trail.push(node.rule);
        law_items_error_lies_within(node.children@[0], below);
    }
}

/// An error from a list element points at its node or at a node below it.
pub proof fn law_element_error_lies_within(node: Node, trail: Seq<Rule>)
    ensures
        element_of(node, trail) matches Err(error) ==> lies_in(error.site(), node, trail),
    decreases MAX_DEPTH - trail.len(), 4int, 0int,
{
    if node.rule == Rule::Type {
        law_type_expr_error_lies_within(node, trail);
    } else if node.rule == Rule::Tuple {
        law_tuple_error_lies_within(node, trail);
    }
}

/// An error from the first `n` elements points at one of them or below it.
pub proof fn law_elements_error_lies_within(nodes: Seq<Node>, trail: Seq<Rule>, n: nat)
    requires
        n <= nodes.len(),
    ensures
        elements_upto(nodes, trail, n) matches Err(error) ==> exists|i: int|
            0 <= i < n && #[trigger] lies_in(error.site(), nodes[i], trail),
    decreases MAX_DEPTH - trail.len(), 5int, n,
{
    if n > 0 {
        law_elements_error_lies_within(nodes, trail, (n - 1) as nat);
        law_element_error_lies_within(nodes[n - 1], trail);
    }
}

/// An error from a list points at the list's node or at a node below it.
pub proof fn law_items_error_lies_within(node: Node, trail: Seq<Rule>)
    ensures
        items_of(node, trail) matches Err(error) ==> lies_in(error.site(), node, trail),
    decreases MAX_DEPTH - trail.len(), 6int, 0int,
{
    if trail.len() < MAX_DEPTH {
        law_elements_error_lies_within(
            node.children@,
            trail.push(node.rule),
            node.children@.len(),
        );
    }
}

/// Every error points into the tree that was converted: its site is that of
/// the root or of a node below it, with the rules on the way there as its
/// trail.
pub proof fn law_error_lies_within_tree(node: Node)
    ensures
        root_of(node) matches Err(error) ==> lies_in(error.site(), node, Seq::empty()),
{
    if node.rule == Rule::Ast {
        if node.children@.len() > 0 {
            let first = node.children@[0];
            law_element_error_lies_within(first, seq![Rule::Ast]);
            assert(seq![Rule::Ast] =~= Seq::<Rule>::empty().push(node.rule));
        }
    } else {
        law_element_error_lies_within(node, Seq::empty());
    }
}

} // verus!

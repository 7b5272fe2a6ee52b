//! The concrete parse tree that the transformer consumes.

use vstd::prelude::*;
use crate::rule::Rule;

verus! {

/// A stretch of the source: its byte range and the exact text it covers.
#[derive(Debug, PartialEq, Eq)]
pub struct Span {
    pub start: usize,
    pub end: usize,
    pub text: String,
}

/// What a [`Span`] is to specifications.
pub ghost struct SpanView {
    pub start: usize,
    pub end: usize,
    pub text: Seq<char>,
}

impl View for Span {
    type V = SpanView;

    open spec fn view(&self) -> SpanView {
        SpanView { start: self.start, end: self.end, text: self.text@ }
    }
}

impl Clone for Span {
    fn clone(&self) -> (res: Span)
        ensures
            res@ == self@,
    {
        Span { start: self.start, end: self.end, text: self.text.clone() }
    }
}

/// One node of the concrete parse tree: the rule that matched, the source it
/// matched, and the nodes matched inside it, in source order.
#[derive(Debug, PartialEq, Eq)]
pub struct Node {
    pub rule: Rule,
    pub span: Span,
    pub children: Vec<Node>,
}

impl Node {
    /// A node without children.
    pub fn leaf(rule: Rule, span: Span) -> (res: Node)
        ensures
            res.rule == rule,
            res.span == span,
            res.children@ == Seq::<Node>::empty(),
    {
        Node { rule, span, children: Vec::new() }
    }

    /// A node with the given children.
    pub fn new(rule: Rule, span: Span, children: Vec<Node>) -> (res: Node)
        ensures
            res.rule == rule,
            res.span == span,
            res.children == children,
    {
        Node { rule, span, children }
    }

    /// The rules of the first `n` children, in order.
    pub open spec fn child_rules_upto(&self, n: int) -> Seq<Rule> {
        Seq::new(n as nat, |i: int| self.children@[i].rule)
    }

    /// The rules of all children, in order.
    pub open spec fn child_rules(&self) -> Seq<Rule> {
        self.child_rules_upto(self.children@.len() as int)
    }

    /// Collects the rules of the children, in order.
    pub fn rules_of_children(&self) -> (res: Vec<Rule>)
        ensures
            res@ == self.child_rules(),
    {
        let mut res: Vec<Rule> = Vec::new();
        let mut i: usize = 0;
        while i < self.children.len()
            invariant
                i <= self.children@.len(),
                res@ == self.child_rules_upto(i as int),
            decreases self.children@.len() - i,
        {
            res.push(self.children[i].rule);
            i = i + 1;
            assert(res@ =~= self.child_rules_upto(i as int));
        }
        res
    }
}

} // verus!

//! The located errors that the transformer reports.

use vstd::prelude::*;
use crate::rule::Rule;
use crate::tree::{Node, Span, SpanView};

verus! {

/// Where in the parse tree something went wrong: the rule and the source
/// span of the offending node, and the rules of its ancestors from the
/// outermost down to its parent.
#[derive(Debug, PartialEq, Eq)]
pub struct Site {
    pub rule: Rule,
    pub span: Span,
    pub trail: Vec<Rule>,
}

/// What a [`Site`] is to specifications.
pub ghost struct SiteView {
    pub rule: Rule,
    pub span: SpanView,
    pub trail: Seq<Rule>,
}

impl View for Site {
    type V = SiteView;

    open spec fn view(&self) -> SiteView {
        SiteView { rule: self.rule, span: self.span@, trail: self.trail@ }
    }
}

impl SiteView {
    /// The site of `node`, reached through the ancestors in `trail`.
    pub open spec fn of(node: Node, trail: Seq<Rule>) -> SiteView {
        SiteView { rule: node.rule, span: node.span@, trail }
    }
}

impl Site {
    /// Records the site of `node`, reached through the ancestors in `trail`.
    pub fn of(node: &Node, trail: &Vec<Rule>) -> (res: Site)
        ensures
            res@ == SiteView::of(*node, trail@),
    {
        let mut copy: Vec<Rule> = Vec::new();
        let mut i: usize = 0;
        while i < trail.len()
            invariant
                i <= trail@.len(),
                copy@ == trail@.subrange(0, i as int),
            decreases trail@.len() - i,
        {
            copy.push(trail[i]);
            i = i + 1;
            assert(copy@ =~= trail@.subrange(0, i as int));
        }
        assert(copy@ =~= trail@);
        Site { rule: node.rule, span: node.span.clone(), trail: copy }
    }
}

/// Why a parse tree could not be turned into a syntax tree.
#[derive(Debug, PartialEq, Eq)]
pub enum ParseError {
    /// The node lacks a child that its rule always has.
    MissingField { site: Site },
    /// The children of a type expression fit none of the accepted layouts.
    /// `expected` lists the rules that may lead a type expression, `found`
    /// the rules of the children as they stand.
    Malformed { site: Site, expected: Vec<Rule>, found: Vec<Rule> },
    /// The node lies deeper than the transformer is willing to descend.
    TooDeep { site: Site },
    /// The node's rule is none that may stand at this place: grammar and
    /// transformer disagree.
    Internal { site: Site },
}

/// What a [`ParseError`] is to specifications.
pub ghost enum ParseErrorView {
    MissingField { site: SiteView },
    Malformed { site: SiteView, expected: Seq<Rule>, found: Seq<Rule> },
    TooDeep { site: SiteView },
    Internal { site: SiteView },
}

impl View for ParseError {
    type V = ParseErrorView;

    open spec fn view(&self) -> ParseErrorView {
        match *self {
            ParseError::MissingField { site } => ParseErrorView::MissingField { site: site@ },
            ParseError::Malformed { site, expected, found } => ParseErrorView::Malformed {
                site: site@,
                expected: expected@,
                found: found@,
            },
            ParseError::TooDeep { site } => ParseErrorView::TooDeep { site: site@ },
            ParseError::Internal { site } => ParseErrorView::Internal { site: site@ },
        }
    }
}

impl ParseErrorView {
    /// The site that the error points at.
    pub open spec fn site(self) -> SiteView {
        match self {
            ParseErrorView::MissingField { site } => site,
            ParseErrorView::Malformed { site, .. } => site,
            ParseErrorView::TooDeep { site } => site,
            ParseErrorView::Internal { site } => site,
        }
    }
}

impl ParseError {
    /// The site that the error points at.
    pub fn site(&self) -> (res: &Site)
        ensures
            res@ == self@.site(),
    {
        match self {
            ParseError::MissingField { site } => site,
            ParseError::Malformed { site, .. } => site,
            ParseError::TooDeep { site } => site,
            ParseError::Internal { site } => site,
        }
    }
}

} // verus!

//! What it is to transpile a node: the fragments, the failures, and the rule
//! that gathers the fragments of a node's children.

use crate::ast::NodeContext;
use crate::ast::Tree;
use crate::ast::TreeView;
use crate::ast::node_views;
use crate::rules::function_tokens;
use crate::tokens::Token;
use crate::tokens::tokens_of;
use crate::types::Clang;
use crate::types::ClangView;
use proc_macro2::TokenStream;
use std::collections::HashMap;
use vstd::prelude::*;

verus! {

/// The place in which a text of the tree is needed.
#[derive(Debug, Clone, Copy, PartialEq, Eq)]
pub enum Place {
    /// A name, which must be a Rust identifier.
    Identifier,
    /// A type name, which after mapping must be a Rust type.
    Type,
    /// A literal, which must be a Rust expression.
    Expression,
}

/// Why a tree cannot be transpiled: a text of the tree that Rust does not
/// take in the place where it is needed.
#[derive(Debug, Clone, PartialEq, Eq)]
pub struct TranspileError {
    /// The identity of the node that holds the text. The rule of a kind does
    /// not know the identity of its own node and leaves it open; the rule
    /// that called it fills it in.
    pub node: Option<u64>,
    /// The place in which the text is needed.
    pub place: Place,
    /// The text.
    pub text: String,
}

/// What a [`TranspileError`] holds.
pub struct TranspileErrorView {
    pub node: Option<u64>,
    pub place: Place,
    pub text: Seq<char>,
}

impl View for TranspileError {
    type V = TranspileErrorView;

    open spec fn view(&self) -> TranspileErrorView {
        TranspileErrorView { node: self.node, place: self.place, text: self.text@ }
    }
}

/// The failure on `text` in `place`, with the node left open.
pub open spec fn unaccepted(place: Place, text: Seq<char>) -> TranspileErrorView {
    TranspileErrorView { node: None, place, text }
}

impl TranspileErrorView {
    /// The failure with the node `id` filled in, if the node is open.
    pub open spec fn at(self, id: u64) -> TranspileErrorView {
        if self.node is None {
            TranspileErrorView { node: Some(id), place: self.place, text: self.text }
        } else {
            self
        }
    }
}

impl TranspileError {
    /// The failure on `text` in `place`, with the node left open.
    pub fn new(place: Place, text: String) -> (e: Self)
        ensures
            e@ == unaccepted(place, text@),
    {
        TranspileError { node: None, place, text }
    }

    /// The failure with the node `id` filled in, if the node is open.
    pub fn at(self, id: u64) -> (e: Self)
        ensures
            e@ == self@.at(id),
    {
        match self.node {
            None => TranspileError { node: Some(id), place: self.place, text: self.text },
            Some(_) => self,
        }
    }
}

/// What a rule makes of a node: a failure, nothing, or the tokens of a
/// fragment.
pub type Outcome = Result<Option<Seq<Token>>, TranspileErrorView>;

/// The outcome with the node `id` filled in, if it is a failure whose node
/// is open.
pub open spec fn located(outcome: Outcome, id: u64) -> Outcome {
    match outcome {
        Err(e) => Err(e.at(id)),
        Ok(made) => Ok(made),
    }
}

/// Whether the result `r` of a rule is the outcome `outcome`.
pub open spec fn gives(r: Result<Option<TokenStream>, TranspileError>, outcome: Outcome) -> bool {
    match r {
        Ok(Some(stream)) => outcome == Ok::<Option<Seq<Token>>, TranspileErrorView>(
            Some(tokens_of(stream)),
        ),
        Ok(None) => outcome == Ok::<Option<Seq<Token>>, TranspileErrorView>(None),
        Err(e) => outcome == Err::<Option<Seq<Token>>, TranspileErrorView>(e@),
    }
}

/// The fragments that `rule` makes of `nodes`, one after the other in the
/// order of the nodes. A node of which `rule` makes nothing adds nothing. The
/// first failure, in that order, is the failure of the whole.
pub open spec fn gather(nodes: Seq<TreeView>, rule: spec_fn(TreeView) -> Outcome) -> Result<
    Seq<Token>,
    TranspileErrorView,
>
    decreases nodes.len(),
{
    if nodes.len() == 0 {
        Ok(Seq::empty())
    } else {
        match gather(nodes.drop_last(), rule) {
            Err(e) => Err(e),
            Ok(before) => match rule(nodes.last()) {
                Err(e) => Err(e),
                Ok(None) => Ok(before),
                Ok(Some(tokens)) => Ok(before + tokens),
            },
        }
    }
}

/// A failure among the first `n` nodes is the failure of all of them.
pub proof fn gather_failure_stays(
    nodes: Seq<TreeView>,
    rule: spec_fn(TreeView) -> Outcome,
    n: int,
)
    requires
        0 <= n <= nodes.len(),
        gather(nodes.take(n), rule) is Err,
    ensures
        gather(nodes, rule) == gather(nodes.take(n), rule),
    decreases nodes.len() - n,
{
    if n < nodes.len() {
        assert(nodes.take(n + 1).drop_last() =~= nodes.take(n));
        gather_failure_stays(nodes, rule, n + 1);
    } else {
        assert(nodes.take(n) =~= nodes);
    }
}

/// Gathering from two sequences of nodes, one after the other, gives the
/// tokens of the first followed by the tokens of the second: the order of the
/// nodes is the order of their fragments.
pub proof fn gather_in_order(
    first: Seq<TreeView>,
    second: Seq<TreeView>,
    rule: spec_fn(TreeView) -> Outcome,
)
    ensures
        gather(first + second, rule) == match gather(first, rule) {
            Err(e) => Err::<Seq<Token>, TranspileErrorView>(e),
            Ok(before) => match gather(second, rule) {
                Err(e) => Err(e),
                Ok(after) => Ok(before + after),
            },
        },
    decreases second.len(),
{
    if second.len() == 0 {
        assert(first + second =~= first);
        if let Ok(before) = gather(first, rule) {
            assert(before + Seq::<Token>::empty() =~= before);
        }
    } else {
        assert((first + second).drop_last() =~= first + second.drop_last());
        assert((first + second).last() == second.last());
        gather_in_order(first, second.drop_last(), rule);
        if let Ok(before) = gather(first, rule) {
            if let Ok(middle) = gather(second.drop_last(), rule) {
                if let Ok(Some(tokens)) = rule(second.last()) {
                    assert((before + middle) + tokens =~= before + (middle + tokens));
                }
            }
        }
    }
}

/// A node of which the rule makes nothing leaves what is gathered from the
/// nodes before and after it as it is without the node.
pub proof fn gather_skips(
    first: Seq<TreeView>,
    node: TreeView,
    second: Seq<TreeView>,
    rule: spec_fn(TreeView) -> Outcome,
)
    requires
        rule(node) == Ok::<Option<Seq<Token>>, TranspileErrorView>(None),
    ensures
        gather(first + seq![node] + second, rule) == gather(first + second, rule),
{
    assert(seq![node].drop_last() =~= Seq::<TreeView>::empty());
    assert(gather(Seq::<TreeView>::empty(), rule) == Ok::<Seq<Token>, TranspileErrorView>(
        Seq::empty(),
    ));
    assert(seq![node].last() == node);
    assert(gather(seq![node], rule) == Ok::<Seq<Token>, TranspileErrorView>(Seq::empty()));
    gather_in_order(first, seq![node], rule);
    gather_in_order(first + seq![node], second, rule);
    gather_in_order(first, second, rule);
    if let Ok(before) = gather(first, rule) {
        assert(before + Seq::<Token>::empty() =~= before);
    }
}

/// The rule by which a node of some kind is made into Rust tokens.
pub trait Transpile {
    /// What the rule makes of a node with the children `inner`.
    spec fn fragment(&self, inner: Seq<TreeView>) -> Outcome;

    /// Makes the Rust tokens of a node with the children `inner`: `Ok(None)`
    /// where the node adds nothing to the output, a failure where a text of
    /// the node or of its children is not accepted by Rust.
    fn transpile(&self, ctx: &NodeContext, inner: &[Tree]) -> (r: Result<
        Option<TokenStream>,
        TranspileError,
    >)
        ensures
            gives(r, self.fragment(node_views(inner@))),
    ;
}

/// What is made of a node of the kind `kind` with the children `inner`, where
/// it stands at the top of a tree: a function declaration gives a function;
/// a node of any other kind gives nothing. A failure on the function's own
/// name or type leaves the node open.
pub open spec fn node_outcome(kind: ClangView, inner: Seq<TreeView>) -> Outcome {
    match kind {
        ClangView::FunctionDecl(decl) => match function_tokens(decl, inner) {
            Ok(tokens) => Ok(Some(tokens)),
            Err(e) => Err(e),
        },
        _ => Ok(None),
    }
}

impl Transpile for Tree {
    open spec fn fragment(&self, inner: Seq<TreeView>) -> Outcome {
        located(node_outcome(self.kind@, inner), self.id)
    }

    fn transpile(&self, ctx: &NodeContext, inner: &[Tree]) -> (r: Result<
        Option<TokenStream>,
        TranspileError,
    >) {
        match &self.kind {
            Clang::FunctionDecl(func) => match func.transpile(ctx, inner) {
                Err(e) => Err(e.at(self.id)),
                Ok(made) => Ok(made),
            },
            _ => Ok(None),
        }
    }
}

/// What transpiling the files under a path gives: for the full path of each
/// file the Rust code that was made of it.
#[derive(Debug)]
pub struct TranspileInfo {
    /// full path and transpiled code
    map: HashMap<String, String>,
}

impl TranspileInfo {
    /// The code of each path.
    pub closed spec fn codes(&self) -> HashMap<String, String> {
        self.map
    }

    /// The result that holds for each path of `map` its code.
    pub fn new(map: HashMap<String, String>) -> (info: Self)
        ensures
            info.codes() == map,
    {
        TranspileInfo { map }
    }

    /// The code of each path.
    pub fn map(&self) -> (map: &HashMap<String, String>)
        ensures
            *map == self.codes(),
    {
        &self.map
    }
}

} // verus!

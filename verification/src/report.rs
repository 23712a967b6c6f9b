//! A report of what transpiling passes over: the nodes that the rules meet
//! and make nothing of.

use crate::ast::AST;
use crate::ast::Tree;
use crate::ast::TreeView;
use crate::ast::node_views;
use crate::ast::top_level_part;
use crate::ast::views_of_children;
use crate::rules::compound_part;
use crate::rules::decl_stmt_part;
use crate::rules::function_part;
use crate::rules::initializer_part;
use crate::tokens::Token;
use crate::transpiler::TranspileErrorView;
use crate::types::Clang;
use crate::types::ClangView;
use vstd::prelude::*;

verus! {

/// Where in the tree the rules are: what they read depends on it.
#[derive(Debug, Clone, Copy, PartialEq, Eq)]
pub enum Level {
    /// Among the children of the root, where functions are read.
    Top,
    /// Among the children of a function, where compound statements are read.
    Function,
    /// Among the children of a compound statement, where declaration
    /// statements are read.
    Compound,
    /// Among the children of a declaration statement, where variable
    /// declarations are read.
    Declaration,
    /// Among the children of a variable declaration with an initializer,
    /// where integer literals and casts are read.
    Initializer,
    /// Where nothing is read.
    Unread,
}

/// How far from the leaves a level is at most.
pub open spec fn depth(level: Level) -> nat {
    match level {
        Level::Top => 5,
        Level::Function => 4,
        Level::Compound => 3,
        Level::Declaration => 2,
        Level::Initializer => 1,
        Level::Unread => 0,
    }
}

/// The level of the children of a node of the kind `kind` that is read at
/// `level`; `None` where a node of this kind is passed over at `level`.
pub open spec fn below(level: Level, kind: ClangView) -> Option<Level> {
    match (level, kind) {
        (Level::Top, ClangView::FunctionDecl(_)) => Some(Level::Function),
        (Level::Function, ClangView::CompoundStmt(_)) => Some(Level::Compound),
        (Level::Compound, ClangView::DeclStmt(_)) => Some(Level::Declaration),
        (Level::Declaration, ClangView::VarDecl(decl)) => Some(
            if decl.init is Some {
                Level::Initializer
            } else {
                Level::Unread
            },
        ),
        (Level::Initializer, ClangView::IntegerLiteral(_)) => Some(Level::Unread),
        (Level::Initializer, ClangView::CStyleCastExpr(_)) => Some(Level::Unread),
        _ => None,
    }
}

/// The identities of the nodes that are passed over among `nodes` and under
/// them, where `nodes` stand at `level`: in the order of the source, and of
/// each subtree that is passed over only its root.
pub open spec fn passed_over(level: Level, nodes: Seq<TreeView>) -> Seq<u64>
    decreases depth(level), nodes.len(),
{
    if nodes.len() == 0 {
        Seq::empty()
    } else {
        passed_over(level, nodes.drop_last()) + match below(level, nodes.last().kind) {
            Some(next) => passed_over(next, nodes.last().inner),
            None => seq![nodes.last().id],
        }
    }
}

/// A node that is passed over at a level adds nothing to what is made at
/// that level.
pub proof fn passed_over_adds_nothing(level: Level, node: TreeView)
    requires
        below(level, node.kind) is None,
    ensures
        match level {
            Level::Top => top_level_part(node),
            Level::Function => function_part(node),
            Level::Compound => compound_part(node),
            Level::Declaration => decl_stmt_part(node),
            Level::Initializer => initializer_part(node),
            Level::Unread => Ok(None),
        } == Ok::<Option<Seq<Token>>, TranspileErrorView>(None),
{
}

/// The level of the children of a node of the kind `kind` that is read at
/// `level`.
fn level_below(level: Level, kind: &Clang) -> (next: Option<Level>)
    ensures
        next == below(level, kind@),
{
    match level {
        Level::Top => match kind {
            Clang::FunctionDecl(_) => Some(Level::Function),
            _ => None,
        },
        Level::Function => match kind {
            Clang::CompoundStmt(_) => Some(Level::Compound),
            _ => None,
        },
        Level::Compound => match kind {
            Clang::DeclStmt(_) => Some(Level::Declaration),
            _ => None,
        },
        Level::Declaration => match kind {
            Clang::VarDecl(decl) => if decl.init.is_some() {
                Some(Level::Initializer)
            } else {
                Some(Level::Unread)
            },
            _ => None,
        },
        Level::Initializer => match kind {
            Clang::IntegerLiteral(_) => Some(Level::Unread),
            Clang::CStyleCastExpr(_) => Some(Level::Unread),
            _ => None,
        },
        Level::Unread => None,
    }
}

/// Adds to `out` the identities of the nodes that are passed over among
/// `nodes` and under them.
#[verifier::loop_isolation(false)]
fn collect(level: Level, nodes: &[Tree], out: &mut Vec<u64>)
    ensures
        final(out)@ == old(out)@ + passed_over(level, node_views(nodes@)),
    decreases depth(level),
{
    let ghost views = node_views(nodes@);
    let ghost start = out@;
    let mut i: usize = 0;
    assert(out@ =~= start + passed_over(level, views.take(0)));
    while i < nodes.len()
        invariant
            i <= nodes.len(),
            out@ == start + passed_over(level, views.take(i as int)),
        decreases nodes.len() - i,
    {
        let node = &nodes[i];
        let ghost before = out@;
        proof {
            assert(views.take(i + 1).drop_last() =~= views.take(i as int));
            assert(views.take(i + 1).last() == node@);
            views_of_children(*node);
        }
        match level_below(level, &node.kind) {
            Some(next) => {
                collect(next, node.inner.as_slice(), out);
            },
            None => {
                out.push(node.id);
                assert(out@ =~= before + seq![node.id]);
            },
        }
        assert(out@ =~= start + passed_over(level, views.take(i + 1)));
        i = i + 1;
    }
    assert(views.take(i as int) =~= views);
}

impl AST {
    /// The identities of the nodes that transpiling passes over: the nodes
    /// that the rules meet and make nothing of, in the order of the source.
    /// What stands under such a node is not met and not listed.
    pub fn skipped(&self) -> (ids: Vec<u64>)
        ensures
            ids@ == passed_over(Level::Top, self.root()@.inner),
    {
        let mut ids: Vec<u64> = Vec::new();
        let root = self.node();
        proof {
            views_of_children(*root);
        }
        collect(Level::Top, root.inner.as_slice(), &mut ids);
        assert(ids@ =~= passed_over(Level::Top, self.root()@.inner));
        ids
    }
}

} // verus!

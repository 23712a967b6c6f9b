//! The syntax tree and the index of its nodes.

use crate::tokens::Token;
use crate::tokens::new_stream;
use crate::tokens::push_stream;
use crate::tokens::stream_text;
use crate::tokens::text_of;
use crate::tokens::tokens_of;
use crate::transpiler::Outcome;
use crate::transpiler::Transpile;
use crate::transpiler::TranspileError;
use crate::transpiler::TranspileErrorView;
use crate::transpiler::gather;
use crate::transpiler::gather_failure_stays;
use crate::transpiler::located;
use crate::transpiler::node_outcome;
use crate::types::Clang;
use crate::types::ClangView;
use crate::types::ReferencedDecl;
use crate::utils::identity_number;
use crate::utils::identity_of;
use std::collections::HashMap;
use vstd::prelude::*;

verus! {

/// A node of the syntax tree: its identity, what it is, and its children in
/// the order of the source.
#[derive(Debug, PartialEq, Eq)]
pub struct Tree {
    /// The identity that the compiler gave the node.
    pub id: u64,
    /// The node's kind, with what is read of it.
    pub kind: Clang,
    /// The node's children.
    pub inner: Vec<Tree>,
}

/// What a [`Tree`] holds.
pub struct TreeView {
    pub id: u64,
    pub kind: ClangView,
    pub inner: Seq<TreeView>,
}

/// What `node` holds: its identity, what its kind holds, and what its
/// children hold, in their order.
pub open spec fn node_view(node: Tree) -> TreeView
    decreases node,
{
    TreeView {
        id: node.id,
        kind: node.kind@,
        inner: Seq::new(
            node.inner.len() as nat,
            |i: int|
                if 0 <= i < node.inner.len() {
                    node_view(node.inner[i])
                } else {
                    arbitrary()
                },
        ),
    }
}

impl View for Tree {
    type V = TreeView;

    open spec fn view(&self) -> TreeView {
        node_view(*self)
    }
}

/// What each node of a sequence holds.
pub open spec fn node_views(nodes: Seq<Tree>) -> Seq<TreeView> {
    nodes.map_values(|node: Tree| node@)
}

/// The children of what a node holds are what its children hold.
pub proof fn views_of_children(node: Tree)
    ensures
        node_views(node.inner@) == node@.inner,
{
    assert(node@.inner.len() == node.inner@.len());
    assert forall|i: int| 0 <= i < node.inner@.len() implies node_views(node.inner@)[i]
        == node@.inner[i] by {
        assert(node.inner[i] == node.inner@[i]);
    }
    assert(node_views(node.inner@) =~= node@.inner);
}

/// The nodes of the tree under `node`: `node` itself, then the nodes under
/// each of its children.
pub open spec fn all_nodes(node: Tree) -> Seq<Tree>
    decreases node, 0nat,
{
    seq![node] + forest(node.inner@)
}

/// The nodes of the trees under each of `nodes`, tree after tree.
pub open spec fn forest(nodes: Seq<Tree>) -> Seq<Tree>
    decreases nodes, 1nat,
{
    if nodes.len() == 0 {
        Seq::empty()
    } else {
        forest(nodes.drop_last()) + all_nodes(nodes.last())
    }
}

/// The identities of `nodes`, in their order.
pub open spec fn ids_of(nodes: Seq<Tree>) -> Seq<u64> {
    nodes.map_values(|node: Tree| node.id)
}

/// Whether `map` is the index of the tree under `root`: the identity of each
/// node of the tree is a key, and each key leads to a node of the tree that
/// has this identity.
pub open spec fn is_index_of(map: Map<u64, &Tree>, root: Tree) -> bool {
    &&& forall|i: int|
        0 <= i < all_nodes(root).len() ==> map.contains_key(#[trigger] all_nodes(root)[i].id)
    &&& forall|id: u64| #[trigger]
        map.contains_key(id) ==> map[id].id == id && all_nodes(root).contains(*map[id])
}

/// Where no two nodes of a tree have the same identity, its index has
/// exactly one entry for each node, and the entry of a node's identity is
/// that node.
pub proof fn index_is_complete(map: Map<u64, &Tree>, root: Tree)
    requires
        is_index_of(map, root),
        map.dom().finite(),
        ids_of(all_nodes(root)).no_duplicates(),
    ensures
        map.dom().len() == all_nodes(root).len(),
        forall|i: int|
            0 <= i < all_nodes(root).len() ==> *map[#[trigger] all_nodes(root)[i].id]
                == all_nodes(root)[i],
{
    let nodes = all_nodes(root);
    let ids = ids_of(nodes);
    assert forall|id: u64| map.dom().contains(id) <==> ids.to_set().contains(id) by {
        if map.dom().contains(id) {
            let i = choose|i: int| 0 <= i < nodes.len() && nodes[i] == *map[id];
            assert(ids[i] == id);
        }
        if ids.to_set().contains(id) {
            let i = choose|i: int| 0 <= i < ids.len() && ids[i] == id;
            assert(nodes[i].id == id);
        }
    }
    assert(map.dom() =~= ids.to_set());
    ids.unique_seq_to_set();
    assert forall|i: int| 0 <= i < nodes.len() implies *map[#[trigger] nodes[i].id]
        == nodes[i] by {
        let id = nodes[i].id;
        let j = choose|j: int| 0 <= j < nodes.len() && nodes[j] == *map[id];
        assert(ids[j] == ids[i]);
    }
}

/// The nodes that are still to be visited when the trees under the nodes of
/// `stack` are.
spec fn pending(stack: Seq<&Tree>) -> Seq<Tree> {
    forest(stack.map_values(|node: &Tree| *node))
}

/// What a node at the top of the tree adds to the output. A failure on a
/// function's own name or type names the function's node.
pub open spec fn top_level_part(node: TreeView) -> Outcome {
    located(node_outcome(node.kind, node.inner), node.id)
}

/// The tokens of the whole output for the tree under `root`: what the
/// children of the root add, in their order.
pub open spec fn unit_tokens(root: TreeView) -> Result<Seq<Token>, TranspileErrorView> {
    gather(root.inner, |node: TreeView| top_level_part(node))
}

/// Whether a node at the top of the tree is shown when the tree is printed
/// for inspection: all are but the typedefs that the compiler made itself and
/// the nodes of kinds that are passed over.
pub open spec fn is_shown(node: TreeView) -> bool {
    match node.kind {
        ClangView::TypedefDecl(decl) => decl.is_implicit != Some(true),
        ClangView::Other => false,
        _ => true,
    }
}

/// The syntax tree of one translation unit.
#[derive(Debug, PartialEq, Eq)]
pub struct AST {
    node: Tree,
}

impl AST {
    /// The tree's root.
    pub closed spec fn root(&self) -> Tree {
        self.node
    }

    /// The tree with the root `node`.
    pub fn new(node: Tree) -> (ast: AST)
        ensures
            ast.root() == node,
    {
        AST { node }
    }

    /// The tree's root.
    pub fn node(&self) -> (node: &Tree)
        ensures
            *node == self.root(),
    {
        &self.node
    }

    /// The nodes at the top of the tree that are shown when the tree is
    /// printed for inspection, in their order.
    pub fn shown(&self) -> (nodes: Vec<&Tree>)
        ensures
            nodes@.map_values(|node: &Tree| *node) == self.root().inner@.filter(
                |node: Tree| is_shown(node@),
            ),
    {
        let ghost keep = |node: Tree| is_shown(node@);
        let mut nodes: Vec<&Tree> = Vec::new();
        let mut i: usize = 0;
        proof {
            reveal(Seq::filter);
            assert(self.node.inner@.take(0) =~= Seq::<Tree>::empty());
        }
        while i < self.node.inner.len()
            invariant
                i <= self.node.inner.len(),
                keep == (|node: Tree| is_shown(node@)),
                nodes@.map_values(|node: &Tree| *node) == self.node.inner@.take(i as int).filter(
                    keep,
                ),
            decreases self.node.inner.len() - i,
        {
            let node = &self.node.inner[i];
            let show = match &node.kind {
                Clang::TypedefDecl(decl) => match decl.is_implicit {
                    Some(true) => false,
                    _ => true,
                },
                Clang::Other => false,
                _ => true,
            };
            proof {
                reveal(Seq::filter);
                let taken = self.node.inner@.take(i + 1);
                assert(taken.drop_last() =~= self.node.inner@.take(i as int));
                assert(taken.last() == *node);
                assert(show == keep(*node));
            }
            let ghost before = nodes@;
            if show {
                nodes.push(node);
                assert(nodes@.map_values(|node: &Tree| *node) =~= before.map_values(
                    |node: &Tree| *node,
                ).push(*node));
            }
            i = i + 1;
        }
        assert(self.node.inner@.take(i as int) =~= self.node.inner@);
        nodes
    }

    /// Transpiles the tree to Rust source text: the index of the tree is
    /// built, each node at the top of the tree is transpiled, and the tokens
    /// are written out in the order of the nodes. Nodes of kinds without a
    /// rule add nothing. The first text of the tree that Rust does not accept
    /// where it is needed is the failure of the whole, and names the node
    /// that holds the text.
    #[verifier::loop_isolation(false)]
    pub fn transpile(&self) -> (r: Result<String, TranspileError>)
        ensures
            match r {
                Ok(text) => unit_tokens(self.root()@) matches Ok(tokens) && text@ == text_of(
                    tokens,
                ),
                Err(e) => unit_tokens(self.root()@) == Err::<Seq<Token>, TranspileErrorView>(e@)
                    && e.node is Some,
            },
    {
        let ctx = NodeContext::init_from_ast(self);
        let mut out = new_stream();
        let ghost views = node_views(self.node.inner@);
        let ghost rule = |node: TreeView| top_level_part(node);
        proof {
            views_of_children(self.node);
        }
        let mut i: usize = 0;
        while i < self.node.inner.len()
            invariant
                i <= self.node.inner.len(),
                gather(views.take(i as int), rule) == Ok::<Seq<Token>, TranspileErrorView>(
                    tokens_of(out),
                ),
            decreases self.node.inner.len() - i,
        {
            let node = &self.node.inner[i];
            proof {
                assert(views.take(i + 1).drop_last() =~= views.take(i as int));
                assert(views.take(i + 1).last() == node@);
                assert(rule(node@) == top_level_part(node@));
                views_of_children(*node);
            }
            match node.transpile(&ctx, node.inner.as_slice()) {
                Err(e) => {
                    proof {
                        gather_failure_stays(views, rule, i + 1);
                    }
                    return Err(e);
                },
                Ok(None) => {},
                Ok(Some(tokens)) => {
                    push_stream(&mut out, &tokens);
                },
            }
            i = i + 1;
        }
        assert(views.take(i as int) =~= views);
        Ok(stream_text(&out))
    }
}

/// The index of a tree's nodes by their identities.
pub struct NodeContext<'a> {
    /// The node of each identity.
    pub map: HashMap<u64, &'a Tree>,
}

impl<'a> NodeContext<'a> {
    /// Builds the index of `ast`: every node of the tree is visited once,
    /// from a stack and without recursion, and entered under its identity.
    /// Where two nodes have the same identity, one of them is found under it.
    #[verifier::loop_isolation(false)]
    pub fn init_from_ast(ast: &'a AST) -> (ctx: Self)
        ensures
            is_index_of(ctx.map@, ast.root()),
            ids_of(all_nodes(ast.root())).no_duplicates() ==> ctx.map@.len() == all_nodes(
                ast.root(),
            ).len(),
    {
        broadcast use vstd::std_specs::hash::group_hash_axioms;

        let ghost nodes = all_nodes(ast.node);
        let mut map: HashMap<u64, &'a Tree> = HashMap::new();
        let mut stack: Vec<&'a Tree> = Vec::new();
        stack.push(&ast.node);
        proof {
            let refs = stack@.map_values(|node: &Tree| *node);
            assert(refs.drop_last() =~= Seq::<Tree>::empty());
            assert(forest(refs.drop_last()) =~= Seq::<Tree>::empty());
            assert(pending(stack@) =~= nodes);
        }
        while stack.len() > 0
            invariant
                forall|n: Tree| #[trigger] pending(stack@).contains(n) ==> nodes.contains(n),
                forall|n: Tree| #[trigger]
                    nodes.contains(n) ==> map@.contains_key(n.id) || pending(stack@).contains(n),
                forall|id: u64| #[trigger]
                    map@.contains_key(id) ==> map@[id].id == id && nodes.contains(*map@[id]),
            decreases pending(stack@).len(),
        {
            let ghost before = pending(stack@);
            let ghost above = stack@;
            let node = stack.pop().unwrap();
            let ghost rest = pending(stack@);
            proof {
                let refs = above.map_values(|node: &Tree| *node);
                assert(refs.drop_last() =~= stack@.map_values(|node: &Tree| *node));
                assert(refs.last() == *node);
                assert(before == rest + all_nodes(*node));
                assert(before =~= rest + seq![*node] + forest(node.inner@));
            }
            let mut j: usize = 0;
            while j < node.inner.len()
                invariant
                    j <= node.inner.len(),
                    pending(stack@) == rest + forest(node.inner@.take(j as int)),
                decreases node.inner.len() - j,
            {
                let ghost below = stack@;
                stack.push(&node.inner[j]);
                proof {
                    let refs = stack@.map_values(|node: &Tree| *node);
                    assert(refs.drop_last() =~= below.map_values(|node: &Tree| *node));
                    assert(refs.last() == node.inner@[j as int]);
                    let taken = node.inner@.take(j + 1);
                    assert(taken.drop_last() =~= node.inner@.take(j as int));
                    assert(taken.last() == node.inner@[j as int]);
                    assert(pending(stack@) =~= rest + forest(taken));
                }
                j = j + 1;
            }
            map.insert(node.id, node);
            proof {
                assert(node.inner@.take(j as int) =~= node.inner@);
                let after = pending(stack@);
                assert(after == rest + forest(node.inner@));
                assert(before.len() == after.len() + 1);
                assert forall|n: Tree| #[trigger] after.contains(n) implies nodes.contains(n) by {
                    let k = choose|k: int| 0 <= k < after.len() && after[k] == n;
                    if k < rest.len() {
                        assert(before[k] == n);
                    } else {
                        assert(before[k + 1] == n);
                    }
                    assert(before.contains(n));
                }
                assert(before[rest.len() as int] == *node);
                assert(before.contains(*node));
                assert forall|n: Tree| #[trigger] nodes.contains(n) implies map@.contains_key(n.id)
                    || after.contains(n) by {
                    if before.contains(n) && n != *node {
                        let k = choose|k: int| 0 <= k < before.len() && before[k] == n;
                        if k < rest.len() {
                            assert(after[k] == n);
                        } else {
                            assert(after[k - 1] == n);
                        }
                    }
                }
            }
        }
        proof {
            assert(pending(stack@) =~= Seq::<Tree>::empty());
            assert forall|i: int| 0 <= i < nodes.len() implies map@.contains_key(
                #[trigger] nodes[i].id,
            ) by {
                assert(nodes.contains(nodes[i]));
            }
            if ids_of(nodes).no_duplicates() {
                index_is_complete(map@, ast.node);
            }
        }
        NodeContext { map }
    }

    /// The node that is entered under the identity `id`, where there is one.
    pub fn resolve(&self, id: u64) -> (r: Option<&'a Tree>)
        ensures
            match r {
                Some(node) => self.map@.contains_key(id) && node == self.map@[id],
                None => !self.map@.contains_key(id),
            },
    {
        broadcast use vstd::std_specs::hash::group_hash_axioms;

        match self.map.get(&id) {
            Some(node) => Some(*node),
            None => None,
        }
    }

    /// The declaration that `reference` names: the node that is entered
    /// under the identity that it writes. `None` where it writes no identity
    /// or none of the tree.
    pub fn resolve_reference(&self, reference: &ReferencedDecl) -> (r: Option<&'a Tree>)
        ensures
            match r {
                Some(node) => identity_number(reference.id@) matches Some(id)
                    && self.map@.contains_key(id) && node == self.map@[id],
                None => !(identity_number(reference.id@) matches Some(id)
                    && self.map@.contains_key(id)),
            },
    {
        match identity_of(reference.id.as_str()) {
            Some(id) => self.resolve(id),
            None => None,
        }
    }
}

} // verus!

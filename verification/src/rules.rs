//! The rules for the kinds of node that are transpiled: variable
//! declarations, declaration statements, compound statements and functions.

use crate::ast::NodeContext;
use crate::ast::Tree;
use crate::ast::TreeView;
use crate::ast::node_views;
use crate::ast::views_of_children;
use crate::tokens::Delim;
use crate::tokens::Token;
use crate::tokens::new_stream;
use crate::tokens::parse_expr;
use crate::tokens::parse_ident;
use crate::tokens::parse_type;
use crate::tokens::parsed_expr;
use crate::tokens::parsed_ident;
use crate::tokens::parsed_type;
use crate::tokens::push_group;
use crate::tokens::push_ident;
use crate::tokens::push_punct;
use crate::tokens::push_stream;
use crate::tokens::tokens_of;
use crate::transpiler::Outcome;
use crate::transpiler::Place;
use crate::transpiler::Transpile;
use crate::transpiler::TranspileError;
use crate::transpiler::TranspileErrorView;
use crate::transpiler::gather;
use crate::transpiler::gather_failure_stays;
use crate::transpiler::node_outcome;
use crate::transpiler::unaccepted;
use crate::types::Clang;
use crate::types::ClangView;
use crate::types::CompoundStmt;
use crate::types::DeclStmt;
use crate::types::FunctionDecl;
use crate::types::FunctionDeclView;
use crate::types::Type;
use crate::types::TypeView;
use crate::types::ValDecl;
use crate::types::ValDeclView;
use crate::utils::ctype_to_rtype;
use crate::utils::rtype_of;
use crate::utils::same_text;
use proc_macro2::TokenStream;
use vstd::prelude::*;

verus! {

/// The tokens of `::`.
pub open spec fn path_sep() -> Seq<Token> {
    seq![Token::Punct(':', true), Token::Punct(':', false)]
}

/// The tokens of `Box::new(Default::default());`: a new owning pointer to a
/// default value.
pub open spec fn fresh_box() -> Seq<Token> {
    seq![Token::Ident("Box"@)] + path_sep() + seq![
        Token::Ident("new"@),
        Token::Group(
            Delim::Paren,
            seq![Token::Ident("Default"@)] + path_sep() + seq![
                Token::Ident("default"@),
                Token::Group(Delim::Paren, Seq::empty()),
            ],
        ),
        Token::Punct(';', false),
    ]
}

/// The tokens of `Box<T>` for the tokens of a type `T`.
pub open spec fn boxed(ty: Seq<Token>) -> Seq<Token> {
    seq![Token::Ident("Box"@), Token::Punct('<', false)] + ty + seq![Token::Punct('>', false)]
}

/// The tokens of `let <name>: <type>;`, or with an initializer of
/// `let <name>: <type> = <initializer>;`.
pub open spec fn let_item(name: Seq<Token>, ty: Seq<Token>, init: Option<Seq<Token>>) -> Seq<
    Token,
> {
    let head = seq![Token::Ident("let"@)] + name + seq![Token::Punct(':', false)] + ty;
    match init {
        Some(init) => head + seq![Token::Punct('=', false)] + init + seq![
            Token::Punct(';', false),
        ],
        None => head + seq![Token::Punct(';', false)],
    }
}

/// The tokens of `fn <name>() -> <type> { <body> }`.
pub open spec fn fn_item(name: Seq<Token>, ty: Seq<Token>, body: Seq<Token>) -> Seq<Token> {
    seq![Token::Ident("fn"@)] + name + seq![
        Token::Group(Delim::Paren, Seq::empty()),
        Token::Punct('-', true),
        Token::Punct('>', false),
    ] + ty + seq![Token::Group(Delim::Brace, body)]
}

/// The Rust type of a declared variable: its C type's name is mapped, read
/// as a Rust type, and put in a `Box` where the C type is a pointer.
pub open spec fn declared_type(ty: TypeView) -> Result<Seq<Token>, TranspileErrorView> {
    let mapped = rtype_of(ty.resolved_name());
    match parsed_type(mapped.0) {
        None => Err(unaccepted(Place::Type, mapped.0)),
        Some(tokens) => Ok(
            if mapped.1 {
                boxed(tokens)
            } else {
                tokens
            },
        ),
    }
}

/// What a child of an initialized variable declaration adds to the
/// initializer: a cast stands for an allocation and gives a new `Box`; an
/// integer literal gives its value and `;`; anything else gives nothing.
pub open spec fn initializer_part(node: TreeView) -> Outcome {
    match node.kind {
        ClangView::CStyleCastExpr(_) => Ok(Some(fresh_box())),
        ClangView::IntegerLiteral(literal) => match parsed_expr(literal.value) {
            None => Err(unaccepted(Place::Expression, literal.value).at(node.id)),
            Some(tokens) => Ok(Some(tokens.push(Token::Punct(';', false)))),
        },
        _ => Ok(None),
    }
}

/// The tokens of a variable declaration: `let <name>: <type>;`, or with an
/// initializer `let <name>: <type> = <parts>;`. Where the declaration has an
/// initializer of which no part is made, the initializer is dropped and the
/// declaration is made as one without. The name is checked first, then the
/// type, then the parts of the initializer in their order. A failure on the
/// name or the type leaves the node open; a failure on a literal names the
/// literal's node.
pub open spec fn val_decl_tokens(decl: ValDeclView, inner: Seq<TreeView>) -> Result<
    Seq<Token>,
    TranspileErrorView,
> {
    match parsed_ident(decl.name) {
        None => Err(unaccepted(Place::Identifier, decl.name)),
        Some(name) => match declared_type(decl.ty) {
            Err(e) => Err(e),
            Ok(ty) => if decl.init is Some {
                match gather(inner, |node: TreeView| initializer_part(node)) {
                    Err(e) => Err(e),
                    Ok(parts) => Ok(
                        let_item(
                            name,
                            ty,
                            if parts.len() == 0 {
                                None
                            } else {
                                Some(parts)
                            },
                        ),
                    ),
                }
            } else {
                Ok(let_item(name, ty, None))
            },
        },
    }
}

/// Adds the word `Box`.
fn push_box_word(stream: &mut TokenStream)
    ensures
        tokens_of(*final(stream)) == tokens_of(*old(stream)).push(Token::Ident("Box"@)),
{
    proof {
        reveal_strlit("Box");
    }
    push_ident(stream, "Box");
}

/// Adds `::`.
fn push_path_sep(stream: &mut TokenStream)
    ensures
        tokens_of(*final(stream)) == tokens_of(*old(stream)) + path_sep(),
{
    push_punct(stream, ':', true);
    push_punct(stream, ':', false);
    assert(tokens_of(*stream) =~= tokens_of(*old(stream)) + path_sep());
}

/// Adds `Box::new(Default::default());`.
fn push_fresh_box(stream: &mut TokenStream)
    ensures
        tokens_of(*final(stream)) == tokens_of(*old(stream)) + fresh_box(),
{
    proof {
        reveal_strlit("new");
        reveal_strlit("Default");
        reveal_strlit("default");
    }
    let mut args = new_stream();
    push_ident(&mut args, "Default");
    push_path_sep(&mut args);
    push_ident(&mut args, "default");
    push_group(&mut args, Delim::Paren, new_stream());
    assert(tokens_of(args) =~= seq![Token::Ident("Default"@)] + path_sep() + seq![
        Token::Ident("default"@),
        Token::Group(Delim::Paren, Seq::empty()),
    ]);
    push_box_word(stream);
    push_path_sep(stream);
    push_ident(stream, "new");
    push_group(stream, Delim::Paren, args);
    push_punct(stream, ';', false);
    assert(tokens_of(*stream) =~= tokens_of(*old(stream)) + fresh_box());
}

/// The stream of `Box<T>` for the stream of a type `T`.
pub fn boxed_type(ty: &TokenStream) -> (stream: TokenStream)
    ensures
        tokens_of(stream) == boxed(tokens_of(*ty)),
{
    let mut stream = new_stream();
    push_box_word(&mut stream);
    push_punct(&mut stream, '<', false);
    push_stream(&mut stream, ty);
    push_punct(&mut stream, '>', false);
    assert(tokens_of(stream) =~= boxed(tokens_of(*ty)));
    stream
}

/// The stream of a variable declaration with the name `name`, the type `ty`
/// and, where there is one, the initializer `init`.
pub fn let_stream(name: &TokenStream, ty: &TokenStream, init: Option<&TokenStream>) -> (stream:
    TokenStream)
    ensures
        tokens_of(stream) == let_item(
            tokens_of(*name),
            tokens_of(*ty),
            match init {
                Some(init) => Some(tokens_of(*init)),
                None => None,
            },
        ),
{
    proof {
        reveal_strlit("let");
    }
    let mut stream = new_stream();
    push_ident(&mut stream, "let");
    push_stream(&mut stream, name);
    push_punct(&mut stream, ':', false);
    push_stream(&mut stream, ty);
    let ghost head = seq![Token::Ident("let"@)] + tokens_of(*name) + seq![
        Token::Punct(':', false),
    ] + tokens_of(*ty);
    assert(tokens_of(stream) =~= head);
    match init {
        Some(init) => {
            push_punct(&mut stream, '=', false);
            push_stream(&mut stream, init);
            push_punct(&mut stream, ';', false);
            assert(tokens_of(stream) =~= head + seq![Token::Punct('=', false)] + tokens_of(*init)
                + seq![Token::Punct(';', false)]);
        },
        None => {
            push_punct(&mut stream, ';', false);
            assert(tokens_of(stream) =~= head + seq![Token::Punct(';', false)]);
        },
    }
    stream
}

/// The stream of a function without parameters, with the name `name`, the
/// return type `ty` and the body `body`.
pub fn fn_stream(name: &TokenStream, ty: &TokenStream, body: TokenStream) -> (stream: TokenStream)
    ensures
        tokens_of(stream) == fn_item(tokens_of(*name), tokens_of(*ty), tokens_of(body)),
{
    proof {
        reveal_strlit("fn");
    }
    let mut stream = new_stream();
    push_ident(&mut stream, "fn");
    push_stream(&mut stream, name);
    push_group(&mut stream, Delim::Paren, new_stream());
    push_punct(&mut stream, '-', true);
    push_punct(&mut stream, '>', false);
    push_stream(&mut stream, ty);
    push_group(&mut stream, Delim::Brace, body);
    assert(tokens_of(stream) =~= fn_item(tokens_of(*name), tokens_of(*ty), tokens_of(body)));
    stream
}

/// The tokens of the Rust type of a declared variable.
fn declared_type_stream(ty: &Type) -> (r: Result<TokenStream, TranspileError>)
    ensures
        match r {
            Ok(stream) => declared_type(ty@) == Ok::<Seq<Token>, TranspileErrorView>(
                tokens_of(stream),
            ),
            Err(e) => declared_type(ty@) == Err::<Seq<Token>, TranspileErrorView>(e@),
        },
{
    let (mapped, is_pointer) = ctype_to_rtype(ty.resolved_name());
    match parse_type(mapped.as_str()) {
        Err(_) => Err(TranspileError::new(Place::Type, mapped)),
        Ok(tokens) => {
            if is_pointer {
                Ok(boxed_type(&tokens))
            } else {
                Ok(tokens)
            }
        },
    }
}

impl Transpile for ValDecl {
    open spec fn fragment(&self, inner: Seq<TreeView>) -> Outcome {
        match val_decl_tokens(self@, inner) {
            Ok(tokens) => Ok(Some(tokens)),
            Err(e) => Err(e),
        }
    }

    #[verifier::loop_isolation(false)]
    fn transpile(&self, ctx: &NodeContext, inner: &[Tree]) -> (r: Result<
        Option<TokenStream>,
        TranspileError,
    >) {
        let name = match parse_ident(self.name.as_str()) {
            Ok(name) => name,
            Err(_) => {
                return Err(TranspileError::new(Place::Identifier, self.name.clone()));
            },
        };
        let ty = match declared_type_stream(&self.ty) {
            Ok(ty) => ty,
            Err(e) => {
                return Err(e);
            },
        };
        if self.init.is_some() {
            let mut parts = new_stream();
            let mut any = false;
            let ghost views = node_views(inner@);
            let ghost rule = |node: TreeView| initializer_part(node);
            let mut i: usize = 0;
            while i < inner.len()
                invariant
                    i <= inner.len(),
                    gather(views.take(i as int), rule) == Ok::<Seq<Token>, TranspileErrorView>(
                        tokens_of(parts),
                    ),
                    any == (tokens_of(parts).len() > 0),
                decreases inner.len() - i,
            {
                let child = &inner[i];
                proof {
                    assert(views.take(i + 1).drop_last() =~= views.take(i as int));
                    assert(views.take(i + 1).last() == child@);
                    assert(rule(child@) == initializer_part(child@));
                }
                match &child.kind {
                    Clang::CStyleCastExpr(_) => {
                        push_fresh_box(&mut parts);
                        any = true;
                    },
                    Clang::IntegerLiteral(literal) => {
                        assert(child@.kind == ClangView::IntegerLiteral(literal@));
                        match parse_expr(literal.value.as_str()) {
                            Err(_) => {
                                proof {
                                    gather_failure_stays(views, rule, i + 1);
                                }
                                return Err(
                                    TranspileError::new(
                                        Place::Expression,
                                        literal.value.clone(),
                                    ).at(child.id),
                                );
                            },
                            Ok(value) => {
                                let ghost before = tokens_of(parts);
                                push_stream(&mut parts, &value);
                                push_punct(&mut parts, ';', false);
                                assert(tokens_of(parts) =~= before + tokens_of(value).push(
                                    Token::Punct(';', false),
                                ));
                                any = true;
                            },
                        }
                    },
                    _ => {},
                }
                i = i + 1;
            }
            assert(views.take(i as int) =~= views);
            if any {
                Ok(Some(let_stream(&name, &ty, Some(&parts))))
            } else {
                Ok(Some(let_stream(&name, &ty, None)))
            }
        } else {
            Ok(Some(let_stream(&name, &ty, None)))
        }
    }
}

/// What a child of a declaration statement adds to it: a variable
/// declaration gives its tokens; anything else gives nothing. A failure on
/// the variable's name or type names the declaration's node.
pub open spec fn decl_stmt_part(node: TreeView) -> Outcome {
    match node.kind {
        ClangView::VarDecl(decl) => match val_decl_tokens(decl, node.inner) {
            Ok(tokens) => Ok(Some(tokens)),
            Err(e) => Err(e.at(node.id)),
        },
        _ => Ok(None),
    }
}

/// The tokens of a declaration statement: those of its variable
/// declarations, in their order.
pub open spec fn decl_stmt_tokens(inner: Seq<TreeView>) -> Result<Seq<Token>, TranspileErrorView> {
    gather(inner, |node: TreeView| decl_stmt_part(node))
}

/// What a child of a compound statement adds to it: a declaration statement
/// gives its tokens; anything else gives nothing.
pub open spec fn compound_part(node: TreeView) -> Outcome {
    match node.kind {
        ClangView::DeclStmt(_) => match decl_stmt_tokens(node.inner) {
            Ok(tokens) => Ok(Some(tokens)),
            Err(e) => Err(e),
        },
        _ => Ok(None),
    }
}

/// The tokens of a compound statement: those of its declaration statements,
/// in their order.
pub open spec fn compound_tokens(inner: Seq<TreeView>) -> Result<Seq<Token>, TranspileErrorView> {
    gather(inner, |node: TreeView| compound_part(node))
}

/// What a child of a function declaration adds to the function's body: a
/// compound statement gives its tokens; anything else, a parameter or an
/// operator too, gives nothing.
pub open spec fn function_part(node: TreeView) -> Outcome {
    match node.kind {
        ClangView::CompoundStmt(_) => match compound_tokens(node.inner) {
            Ok(tokens) => Ok(Some(tokens)),
            Err(e) => Err(e),
        },
        _ => Ok(None),
    }
}

/// The name of a function's Rust return type: `()` for the function `main`,
/// whatever it declares; else what its declared return type is mapped to.
pub open spec fn return_type_name(decl: FunctionDeclView) -> Seq<char> {
    if decl.name == "main"@ {
        "()"@
    } else {
        rtype_of(decl.ty.return_type()).0
    }
}

/// The tokens of a function: `fn <name>() -> <type> { <body> }`, without
/// parameters. The body is made first, then the name is checked, then the
/// return type.
pub open spec fn function_tokens(decl: FunctionDeclView, inner: Seq<TreeView>) -> Result<
    Seq<Token>,
    TranspileErrorView,
> {
    match gather(inner, |node: TreeView| function_part(node)) {
        Err(e) => Err(e),
        Ok(body) => match parsed_ident(decl.name) {
            None => Err(unaccepted(Place::Identifier, decl.name)),
            Some(name) => match parsed_type(return_type_name(decl)) {
                None => Err(unaccepted(Place::Type, return_type_name(decl))),
                Some(ty) => Ok(fn_item(name, ty, body)),
            },
        },
    }
}

impl Transpile for DeclStmt {
    open spec fn fragment(&self, inner: Seq<TreeView>) -> Outcome {
        match decl_stmt_tokens(inner) {
            Ok(tokens) => Ok(Some(tokens)),
            Err(e) => Err(e),
        }
    }

    #[verifier::loop_isolation(false)]
    fn transpile(&self, ctx: &NodeContext, inner: &[Tree]) -> (r: Result<
        Option<TokenStream>,
        TranspileError,
    >) {
        let mut out = new_stream();
        let ghost views = node_views(inner@);
        let ghost rule = |node: TreeView| decl_stmt_part(node);
        let mut i: usize = 0;
        while i < inner.len()
            invariant
                i <= inner.len(),
                gather(views.take(i as int), rule) == Ok::<Seq<Token>, TranspileErrorView>(
                    tokens_of(out),
                ),
            decreases inner.len() - i,
        {
            let child = &inner[i];
            proof {
                assert(views.take(i + 1).drop_last() =~= views.take(i as int));
                assert(views.take(i + 1).last() == child@);
                assert(rule(child@) == decl_stmt_part(child@));
                views_of_children(*child);
            }
            match &child.kind {
                Clang::VarDecl(decl) => {
                    assert(child@.kind == ClangView::VarDecl(decl@));
                    match decl.transpile(ctx, child.inner.as_slice()) {
                        Err(e) => {
                            proof {
                                gather_failure_stays(views, rule, i + 1);
                            }
                            return Err(e.at(child.id));
                        },
                        Ok(None) => {},
                        Ok(Some(tokens)) => {
                            push_stream(&mut out, &tokens);
                        },
                    }
                },
                _ => {},
            }
            i = i + 1;
        }
        assert(views.take(i as int) =~= views);
        Ok(Some(out))
    }
}

impl Transpile for CompoundStmt {
    open spec fn fragment(&self, inner: Seq<TreeView>) -> Outcome {
        match compound_tokens(inner) {
            Ok(tokens) => Ok(Some(tokens)),
            Err(e) => Err(e),
        }
    }

    #[verifier::loop_isolation(false)]
    fn transpile(&self, ctx: &NodeContext, inner: &[Tree]) -> (r: Result<
        Option<TokenStream>,
        TranspileError,
    >) {
        let mut out = new_stream();
        let ghost views = node_views(inner@);
        let ghost rule = |node: TreeView| compound_part(node);
        let mut i: usize = 0;
        while i < inner.len()
            invariant
                i <= inner.len(),
                gather(views.take(i as int), rule) == Ok::<Seq<Token>, TranspileErrorView>(
                    tokens_of(out),
                ),
            decreases inner.len() - i,
        {
            let child = &inner[i];
            proof {
                assert(views.take(i + 1).drop_last() =~= views.take(i as int));
                assert(views.take(i + 1).last() == child@);
                assert(rule(child@) == compound_part(child@));
                views_of_children(*child);
            }
            match &child.kind {
                Clang::DeclStmt(decl_stmt) => {
                    assert(child@.kind == ClangView::DeclStmt(*decl_stmt));
                    match decl_stmt.transpile(ctx, child.inner.as_slice()) {
                        Err(e) => {
                            proof {
                                gather_failure_stays(views, rule, i + 1);
                            }
                            return Err(e);
                        },
                        Ok(None) => {},
                        Ok(Some(tokens)) => {
                            push_stream(&mut out, &tokens);
                        },
                    }
                },
                _ => {},
            }
            i = i + 1;
        }
        assert(views.take(i as int) =~= views);
        Ok(Some(out))
    }
}

impl Transpile for FunctionDecl {
    open spec fn fragment(&self, inner: Seq<TreeView>) -> Outcome {
        match function_tokens(self@, inner) {
            Ok(tokens) => Ok(Some(tokens)),
            Err(e) => Err(e),
        }
    }

    #[verifier::loop_isolation(false)]
    fn transpile(&self, ctx: &NodeContext, inner: &[Tree]) -> (r: Result<
        Option<TokenStream>,
        TranspileError,
    >) {
        let declared = self.ty.return_type().unwrap();
        let name = self.name.as_str();
        let return_type = if same_text(name, "main") {
            "()".to_owned()
        } else {
            ctype_to_rtype(declared).0
        };
        assert(return_type@ == return_type_name(self@));

        let mut body = new_stream();
        let ghost views = node_views(inner@);
        let ghost rule = |node: TreeView| function_part(node);
        let mut i: usize = 0;
        while i < inner.len()
            invariant
                i <= inner.len(),
                gather(views.take(i as int), rule) == Ok::<Seq<Token>, TranspileErrorView>(
                    tokens_of(body),
                ),
            decreases inner.len() - i,
        {
            let child = &inner[i];
            proof {
                assert(views.take(i + 1).drop_last() =~= views.take(i as int));
                assert(views.take(i + 1).last() == child@);
                assert(rule(child@) == function_part(child@));
                views_of_children(*child);
            }
            match &child.kind {
                Clang::CompoundStmt(compound_stmt) => {
                    assert(child@.kind == ClangView::CompoundStmt(*compound_stmt));
                    match compound_stmt.transpile(ctx, child.inner.as_slice()) {
                        Err(e) => {
                            proof {
                                gather_failure_stays(views, rule, i + 1);
                            }
                            return Err(e);
                        },
                        Ok(None) => {},
                        Ok(Some(tokens)) => {
                            push_stream(&mut body, &tokens);
                        },
                    }
                },
                _ => {},
            }
            i = i + 1;
        }
        assert(views.take(i as int) =~= views);

        let name = match parse_ident(name) {
            Ok(name) => name,
            Err(_) => {
                return Err(TranspileError::new(Place::Identifier, self.name.clone()));
            },
        };
        let ty = match parse_type(return_type.as_str()) {
            Ok(ty) => ty,
            Err(_) => {
                return Err(TranspileError::new(Place::Type, return_type));
            },
        };
        Ok(Some(fn_stream(&name, &ty, body)))
    }
}

/// A node of a kind that is passed over adds nothing, wherever it stands:
/// at the top of the tree, in a function, in a compound statement, in a
/// declaration statement or in an initializer.
pub proof fn other_adds_nothing(node: TreeView)
    requires
        node.kind == ClangView::Other,
    ensures
        node_outcome(node.kind, node.inner) == Ok::<
            Option<Seq<Token>>,
            TranspileErrorView,
        >(None),
        function_part(node) == Ok::<Option<Seq<Token>>, TranspileErrorView>(None),
        compound_part(node) == Ok::<Option<Seq<Token>>, TranspileErrorView>(None),
        decl_stmt_part(node) == Ok::<Option<Seq<Token>>, TranspileErrorView>(None),
        initializer_part(node) == Ok::<Option<Seq<Token>>, TranspileErrorView>(None),
{
}

/// The function `main` is given the return type `()` whatever return type it
/// declares: two declarations of `main` that differ only in their types make
/// the same tokens.
pub proof fn main_returns_unit(
    decl: FunctionDeclView,
    other: FunctionDeclView,
    inner: Seq<TreeView>,
)
    requires
        decl.name == "main"@,
        other.name == "main"@,
    ensures
        return_type_name(decl) == "()"@,
        function_tokens(decl, inner) == function_tokens(other, inner),
{
}

/// Where the rule makes nothing of any of the nodes, nothing is gathered.
proof fn nothing_from_nothing(nodes: Seq<TreeView>, rule: spec_fn(TreeView) -> Outcome)
    requires
        forall|i: int|
            0 <= i < nodes.len() ==> #[trigger] rule(nodes[i]) == Ok::<
                Option<Seq<Token>>,
                TranspileErrorView,
            >(None),
    ensures
        gather(nodes, rule) == Ok::<Seq<Token>, TranspileErrorView>(Seq::empty()),
    decreases nodes.len(),
{
    if nodes.len() > 0 {
        assert forall|i: int| 0 <= i < nodes.drop_last().len() implies #[trigger] rule(
            nodes.drop_last()[i],
        ) == Ok::<Option<Seq<Token>>, TranspileErrorView>(None) by {
            assert(nodes.drop_last()[i] == nodes[i]);
        }
        nothing_from_nothing(nodes.drop_last(), rule);
        assert(rule(nodes[nodes.len() - 1]) == Ok::<Option<Seq<Token>>, TranspileErrorView>(None));
    }
}

/// An initializer of which no part is made is dropped: a variable
/// declaration whose children are neither integer literals nor casts is made
/// as the same declaration without an initializer, `let <name>: <type>;`.
pub proof fn unhandled_initializer_is_dropped(decl: ValDeclView, inner: Seq<TreeView>)
    requires
        forall|i: int|
            0 <= i < inner.len() ==> !(#[trigger] inner[i].kind is IntegerLiteral)
                && !(inner[i].kind is CStyleCastExpr),
    ensures
        val_decl_tokens(decl, inner) == val_decl_tokens(
            ValDeclView { name: decl.name, ty: decl.ty, init: None },
            inner,
        ),
        val_decl_tokens(decl, inner) matches Ok(tokens) ==> tokens == let_item(
            parsed_ident(decl.name)->Some_0,
            declared_type(decl.ty)->Ok_0,
            None,
        ),
{
    let rule = |node: TreeView| initializer_part(node);
    assert forall|i: int| 0 <= i < inner.len() implies #[trigger] rule(inner[i]) == Ok::<
        Option<Seq<Token>>,
        TranspileErrorView,
    >(None) by {
        assert(!(inner[i].kind is IntegerLiteral));
    }
    nothing_from_nothing(inner, rule);
}

} // verus!

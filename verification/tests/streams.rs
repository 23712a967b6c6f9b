use cpp_ast::ast::NodeContext;
use cpp_ast::ast::Tree;
use cpp_ast::ast::AST;
use cpp_ast::rules::boxed_type;
use cpp_ast::rules::fn_stream;
use cpp_ast::rules::let_stream;
use cpp_ast::transpiler::Place;
use cpp_ast::transpiler::Transpile;
use cpp_ast::transpiler::TranspileError;
use cpp_ast::types::CStyleCastExpr;
use cpp_ast::types::Clang;
use cpp_ast::types::CompoundStmt;
use cpp_ast::types::DeclStmt;
use cpp_ast::types::FunctionDecl;
use cpp_ast::types::IntegerLiteral;
use cpp_ast::types::Type;
use cpp_ast::types::ValDecl;
use proc_macro2::TokenStream;

fn stream(text: &str) -> TokenStream {
    text.parse().unwrap()
}

fn ty(qual: &str) -> Type {
    Type { qual_type: qual.to_string(), desugared_qual_type: None }
}

fn tree(id: u64, kind: Clang, inner: Vec<Tree>) -> Tree {
    Tree { id, kind, inner }
}

fn var(name: &str, qual: &str, init: bool) -> ValDecl {
    ValDecl {
        name: name.to_string(),
        ty: ty(qual),
        init: if init { Some("c".to_string()) } else { None },
    }
}

fn literal(id: u64, value: &str) -> Tree {
    tree(id, Clang::IntegerLiteral(IntegerLiteral { value: value.to_string(), ty: ty("int") }), vec![])
}

fn cast(id: u64) -> Tree {
    tree(
        id,
        Clang::CStyleCastExpr(CStyleCastExpr { cast_kind: "BitCast".to_string(), ty: ty("long") }),
        vec![],
    )
}

fn text(r: Result<Option<TokenStream>, TranspileError>) -> String {
    r.unwrap().unwrap().to_string()
}

fn failure(r: Result<Option<TokenStream>, TranspileError>) -> TranspileError {
    match r {
        Err(e) => e,
        Ok(stream) => panic!("no failure: {:?}", stream.map(|s| s.to_string())),
    }
}

#[test]
fn let_without_initializer() {
    assert_eq!(let_stream(&stream("x"), &stream("i32"), None).to_string(), "let x : i32 ;");
}

#[test]
fn let_with_initializer() {
    assert_eq!(
        let_stream(&stream("x"), &stream("Vec<u8>"), Some(&stream("Vec::new();"))).to_string(),
        "let x : Vec < u8 > = Vec :: new () ; ;"
    );
}

#[test]
fn function_item() {
    assert_eq!(
        fn_stream(&stream("f"), &stream("()"), stream("let a : i32 ;")).to_string(),
        "fn f () -> () { let a : i32 ; }"
    );
    assert_eq!(
        fn_stream(&stream("f"), &stream("[u8; 2]"), TokenStream::new()).to_string(),
        "fn f () -> [u8 ; 2] { }"
    );
}

#[test]
fn boxed_type_wraps_in_box() {
    assert_eq!(boxed_type(&stream("i32")).to_string(), "Box < i32 >");
}

#[test]
fn variable_rule_by_hand() {
    let ast = AST::new(tree(0, Clang::Other, vec![]));
    let ctx = NodeContext::init_from_ast(&ast);
    assert_eq!(text(var("x", "int", false).transpile(&ctx, &[])), "let x : i32 ;");
    assert_eq!(
        text(var("x", "int", true).transpile(&ctx, &[literal(1, "42")])),
        "let x : i32 = 42 ; ;"
    );
    assert_eq!(
        text(var("p", "int *", true).transpile(&ctx, &[cast(1)])),
        "let p : Box < i32 > = Box :: new (Default :: default ()) ; ;"
    );
    // The initializer's children are passed over where the declaration says
    // that it has none.
    assert_eq!(text(var("x", "int", false).transpile(&ctx, &[literal(1, "42")])), "let x : i32 ;");
    // Children of other kinds add nothing; the others keep their order.
    assert_eq!(
        text(var("x", "char", true).transpile(
            &ctx,
            &[tree(1, Clang::ReturnStmt, vec![]), literal(2, "1"), cast(3), literal(4, "0x2f")]
        )),
        "let x : i8 = 1 ; Box :: new (Default :: default ()) ; 0x2f ; ;"
    );
    // An initializer of which no part is made is dropped.
    assert_eq!(text(var("x", "int", true).transpile(&ctx, &[])), "let x : i32 ;");
    assert_eq!(
        text(var("s", "double", true).transpile(&ctx, &[tree(1, Clang::Other, vec![])])),
        "let s : double ;"
    );
    assert_eq!(
        text(var("s", "double", true).transpile(
            &ctx,
            &[tree(1, Clang::ReturnStmt, vec![literal(2, "1")]), tree(3, Clang::FullComment, vec![])]
        )),
        "let s : double ;"
    );
}

#[test]
fn variable_rule_failures_in_order() {
    let ast = AST::new(tree(0, Clang::Other, vec![]));
    let ctx = NodeContext::init_from_ast(&ast);
    assert_eq!(
        failure(var("a b", "unsigned int", true).transpile(&ctx, &[literal(1, ")")])),
        TranspileError { node: None, place: Place::Identifier, text: "a b".to_string() }
    );
    assert_eq!(
        failure(var("a", "unsigned int", true).transpile(&ctx, &[literal(1, ")")])),
        TranspileError { node: None, place: Place::Type, text: "unsigned int".to_string() }
    );
    assert_eq!(
        failure(var("a", "int", true).transpile(&ctx, &[literal(1, "7"), literal(2, ")"), literal(3, "(")])),
        TranspileError { node: Some(2), place: Place::Expression, text: ")".to_string() }
    );
    assert_eq!(
        failure(var("fn", "int", false).transpile(&ctx, &[])),
        TranspileError { node: None, place: Place::Identifier, text: "fn".to_string() }
    );
}

#[test]
fn failure_names_the_node() {
    let ast = AST::new(tree(0, Clang::Other, vec![]));
    let ctx = NodeContext::init_from_ast(&ast);
    let bad_name = tree(7, Clang::VarDecl(var("a-b", "int", false)), vec![]);
    assert_eq!(
        failure(DeclStmt.transpile(&ctx, &[tree(6, Clang::VarDecl(var("a", "int", false)), vec![]), bad_name])),
        TranspileError { node: Some(7), place: Place::Identifier, text: "a-b".to_string() }
    );
    let bad_literal = tree(8, Clang::VarDecl(var("a", "int", true)), vec![literal(9, "1 +")]);
    assert_eq!(
        failure(CompoundStmt.transpile(&ctx, &[tree(5, Clang::DeclStmt(DeclStmt), vec![bad_literal])])),
        TranspileError { node: Some(9), place: Place::Expression, text: "1 +".to_string() }
    );
    let function = tree(
        3,
        Clang::FunctionDecl(FunctionDecl {
            name: "f".to_string(),
            mangled_name: None,
            ty: ty("struct S (void)"),
            loc: None,
        }),
        vec![],
    );
    assert_eq!(
        failure(function.transpile(&ctx, &function.inner)),
        TranspileError { node: Some(3), place: Place::Type, text: "struct S".to_string() }
    );
    assert_eq!(
        TranspileError::new(Place::Type, "t".to_string()).at(4).at(5),
        TranspileError { node: Some(4), place: Place::Type, text: "t".to_string() }
    );
}

#[test]
fn statements_by_hand() {
    let ast = AST::new(tree(0, Clang::Other, vec![]));
    let ctx = NodeContext::init_from_ast(&ast);
    let decl_a = tree(2, Clang::VarDecl(var("a", "int", false)), vec![]);
    let decl_b = tree(3, Clang::VarDecl(var("b", "void", false)), vec![]);
    let stmt = tree(1, Clang::DeclStmt(DeclStmt), vec![decl_a, tree(9, Clang::Other, vec![]), decl_b]);
    assert_eq!(text(DeclStmt.transpile(&ctx, &stmt.inner)), "let a : i32 ; let b : () ;");
    assert_eq!(text(DeclStmt.transpile(&ctx, &[])), "");
    let block = [tree(8, Clang::ReturnStmt, vec![]), stmt];
    assert_eq!(text(CompoundStmt.transpile(&ctx, &block)), "let a : i32 ; let b : () ;");
    // A variable declaration that is no child of a declaration statement
    // adds nothing to a compound statement.
    assert_eq!(
        text(CompoundStmt.transpile(&ctx, &[tree(2, Clang::VarDecl(var("a", "int", false)), vec![])])),
        ""
    );
}

#[test]
fn only_functions_are_made_at_the_top() {
    let ast = AST::new(tree(0, Clang::Other, vec![]));
    let ctx = NodeContext::init_from_ast(&ast);
    let function = tree(
        1,
        Clang::FunctionDecl(FunctionDecl {
            name: "f".to_string(),
            mangled_name: None,
            ty: ty("long (void)"),
            loc: None,
        }),
        vec![],
    );
    assert_eq!(text(function.transpile(&ctx, &function.inner)), "fn f () -> long { }");
    let block = tree(2, Clang::CompoundStmt(CompoundStmt), vec![]);
    assert_eq!(block.transpile(&ctx, &block.inner).unwrap().map(|s| s.to_string()), None);
    let variable = tree(3, Clang::VarDecl(var("a", "int", false)), vec![]);
    assert_eq!(variable.transpile(&ctx, &variable.inner).unwrap().map(|s| s.to_string()), None);
}

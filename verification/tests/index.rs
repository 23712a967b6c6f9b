use cpp_ast::ast::NodeContext;
use cpp_ast::ast::Tree;
use cpp_ast::ast::AST;
use cpp_ast::types::Clang;
use cpp_ast::types::Type;
use cpp_ast::types::TypeDefDecl;

fn leaf(id: u64) -> Tree {
    Tree { id, kind: Clang::Other, inner: vec![] }
}

fn node(id: u64, inner: Vec<Tree>) -> Tree {
    Tree { id, kind: Clang::Other, inner }
}

fn typedef(id: u64, implicit: Option<bool>) -> Tree {
    Tree {
        id,
        kind: Clang::TypedefDecl(TypeDefDecl {
            name: "t".to_string(),
            ty: Type { qual_type: "int".to_string(), desugared_qual_type: None },
            is_implicit: implicit,
        }),
        inner: vec![],
    }
}

#[test]
fn index_has_one_entry_for_each_node() {
    let ast = AST::new(node(
        1,
        vec![node(2, vec![leaf(3), node(4, vec![leaf(5)])]), leaf(6), node(7, vec![leaf(8)])],
    ));
    let ctx = NodeContext::init_from_ast(&ast);
    assert_eq!(ctx.map.len(), 8);
    for id in 1..=8u64 {
        assert_eq!(ctx.map[&id].id, id);
    }
    assert_eq!(ctx.map[&4], &node(4, vec![leaf(5)]));
    assert_eq!(ctx.map[&1], ast.node());
    assert!(!ctx.map.contains_key(&9));
}

#[test]
fn index_of_a_single_node() {
    let ast = AST::new(leaf(42));
    let ctx = NodeContext::init_from_ast(&ast);
    assert_eq!(ctx.map.len(), 1);
    assert_eq!(ctx.map[&42], &leaf(42));
}

#[test]
fn index_of_a_deep_tree() {
    let mut tree = leaf(0);
    for id in 1..20000u64 {
        tree = node(id, vec![tree]);
    }
    let ast = AST::new(tree);
    let ctx = NodeContext::init_from_ast(&ast);
    assert_eq!(ctx.map.len(), 20000);
    assert_eq!(ctx.map[&0], &leaf(0));
    assert_eq!(ctx.map[&19999].inner.len(), 1);
    drop(ctx);
    // The tree is left alone: to drop one so deep would recurse as deep.
    std::mem::forget(ast);
}

#[test]
fn nodes_with_one_identity_share_an_entry() {
    let ast = AST::new(node(1, vec![leaf(2), node(2, vec![leaf(1)])]));
    let ctx = NodeContext::init_from_ast(&ast);
    assert_eq!(ctx.map.len(), 2);
    assert_eq!(ctx.map[&1].id, 1);
    assert_eq!(ctx.map[&2].id, 2);
}

#[test]
fn index_from_a_decoded_dump() {
    let json = r#"{"id":"0x10","kind":"TranslationUnitDecl","inner":[
        {"id":"0x11","kind":"FunctionDecl","name":"f","type":{"qualType":"int ()"},
         "inner":[{"id":"0x12","kind":"CompoundStmt","inner":[{"id":"0x13","kind":"ReturnStmt"}]}]}]}"#;
    let ast = AST::from_ast_json(json).unwrap();
    let ctx = NodeContext::init_from_ast(&ast);
    assert_eq!(ctx.map.len(), 4);
    assert_eq!(ctx.map[&0x13].kind, Clang::ReturnStmt);
    assert_eq!(ctx.map[&0x11].inner.len(), 1);
}

#[test]
fn shown_leaves_out_implicit_typedefs_and_other() {
    let function = Tree { id: 5, kind: Clang::ReturnStmt, inner: vec![] };
    let ast = AST::new(node(
        1,
        vec![typedef(2, Some(true)), typedef(3, Some(false)), leaf(4), function, typedef(6, None)],
    ));
    let shown: Vec<u64> = ast.shown().iter().map(|n| n.id).collect();
    assert_eq!(shown, vec![3, 5, 6]);
    assert_eq!(AST::new(leaf(1)).shown().len(), 0);
}

#[test]
fn resolve_finds_the_node_of_an_identity() {
    let ast = AST::new(node(1, vec![leaf(2), node(3, vec![leaf(4)])]));
    let ctx = NodeContext::init_from_ast(&ast);
    assert_eq!(ctx.resolve(3), Some(&node(3, vec![leaf(4)])));
    assert_eq!(ctx.resolve(1), Some(ast.node()));
    assert_eq!(ctx.resolve(5), None);
}

#[test]
fn a_reference_resolves_to_its_declaration() {
    let json = r#"{"id":"0x10","kind":"TranslationUnitDecl","inner":[
        {"id":"0x2a","kind":"VarDecl","name":"x","type":{"qualType":"int"}},
        {"id":"0x2b","kind":"DeclRefExpr","referencedDecl":{"id":"0x2a"},"type":{"qualType":"int"}},
        {"id":"0x2c","kind":"DeclRefExpr","referencedDecl":{"id":"0x99"},"type":{"qualType":"int"}},
        {"id":"0x2d","kind":"DeclRefExpr","referencedDecl":{"id":"x"},"type":{"qualType":"int"}}]}"#;
    let ast = AST::from_ast_json(json).unwrap();
    let ctx = NodeContext::init_from_ast(&ast);
    let reference = |at: usize| match &ast.node().inner[at].kind {
        Clang::DeclRefExpr(r) => ctx.resolve_reference(&r.referenced_decl),
        other => panic!("no reference: {:?}", other),
    };
    assert_eq!(reference(1), Some(&ast.node().inner[0]));
    assert_eq!(reference(2), None);
    assert_eq!(reference(3), None);
}

#[test]
fn skipped_lists_what_is_passed_over() {
    let json = r#"{"id":"0x1","kind":"TranslationUnitDecl","inner":[
        {"id":"0x2","kind":"TypedefDecl","name":"t","type":{"qualType":"int"},
         "inner":[{"id":"0x3","kind":"BuiltinType"}]},
        {"id":"0x4","kind":"FunctionDecl","name":"f","type":{"qualType":"int (int)"},"inner":[
          {"id":"0x5","kind":"ParmVarDecl","name":"a","type":{"qualType":"int"}},
          {"id":"0x6","kind":"CompoundStmt","inner":[
            {"id":"0x7","kind":"DeclStmt","inner":[
              {"id":"0x8","kind":"VarDecl","name":"x","type":{"qualType":"int"},"init":"c","inner":[
                {"id":"0x9","kind":"IntegerLiteral","value":"1","type":{"qualType":"int"}},
                {"id":"0xa","kind":"BinaryOperator","opcode":"+","type":{"qualType":"int"}},
                {"id":"0xb","kind":"CStyleCastExpr","castKind":"BitCast","type":{"qualType":"int *"},
                 "inner":[{"id":"0xc","kind":"CallExpr"}]}]},
              {"id":"0xd","kind":"VarDecl","name":"y","type":{"qualType":"int"},
               "inner":[{"id":"0xe","kind":"IntegerLiteral","value":"1","type":{"qualType":"int"}}]},
              {"id":"0xf","kind":"CXXRecordDecl","tagUsed":"struct","loc":{}}]},
            {"id":"0x10","kind":"ReturnStmt","inner":[{"id":"0x11","kind":"IntegerLiteral","value":"0","type":{"qualType":"int"}}]}]},
          {"id":"0x12","kind":"BinaryOperator","opcode":"+","type":{"qualType":"int"}}]},
        {"id":"0x13","kind":"CompoundStmt"}]}"#;
    let ast = AST::from_ast_json(json).unwrap();
    assert_eq!(
        ast.skipped(),
        vec![0x2, 0x5, 0xa, 0xc, 0xe, 0xf, 0x10, 0x12, 0x13]
    );
    assert_eq!(
        ast.transpile().unwrap(),
        "fn f () -> i32 { let x : i32 = 1 ; Box :: new (Default :: default ()) ; ; let y : i32 ; }"
    );
    assert_eq!(AST::new(leaf(1)).skipped(), Vec::<u64>::new());
}

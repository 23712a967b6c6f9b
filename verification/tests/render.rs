use cpp_ast::ast::AST;
use cpp_ast::transpiler::Place;
use cpp_ast::transpiler::TranspileError;

fn failure(node: u64, place: Place, text: &str) -> Result<String, TranspileError> {
    Err(TranspileError { node: Some(node), place, text: text.to_string() })
}

fn render(json: &str) -> String {
    AST::from_ast_json(json).unwrap().transpile().unwrap()
}

#[test]
fn function_without_body_statements() {
    let json = r#"{"id":"0x1","kind":"TranslationUnitDecl","inner":[
        {"id":"0x2","kind":"FunctionDecl","name":"add","type":{"qualType":"int (int, int)"},
         "inner":[{"id":"0x3","kind":"CompoundStmt","inner":[]}]}]}"#;
    assert_eq!(render(json), "fn add () -> i32 { }");
}

#[test]
fn main_returns_unit() {
    let json = r#"{"id":"0x1","kind":"TranslationUnitDecl","inner":[
        {"id":"0x2","kind":"FunctionDecl","name":"main","type":{"qualType":"int (void)"},
         "inner":[{"id":"0x3","kind":"CompoundStmt","inner":[]}]}]}"#;
    assert_eq!(render(json), "fn main () -> () { }");
}

#[test]
fn integer_literal_initializer() {
    let json = r#"{"id":"0x1","kind":"TranslationUnitDecl","inner":[
        {"id":"0x2","kind":"FunctionDecl","name":"f","type":{"qualType":"void ()"},
         "inner":[{"id":"0x3","kind":"CompoundStmt","inner":[
           {"id":"0x4","kind":"DeclStmt","inner":[
             {"id":"0x5","kind":"VarDecl","name":"x","type":{"qualType":"int"},"init":"c",
              "inner":[{"id":"0x6","kind":"IntegerLiteral","value":"42","type":{"qualType":"int"}}]}]}]}]}]}"#;
    assert_eq!(render(json), "fn f () -> () { let x : i32 = 42 ; ; }");
}

#[test]
fn cast_initializer_is_a_fresh_box() {
    let json = r#"{"id":"0x1","kind":"TranslationUnitDecl","inner":[
        {"id":"0x2","kind":"FunctionDecl","name":"f","type":{"qualType":"void ()"},
         "inner":[{"id":"0x3","kind":"CompoundStmt","inner":[
           {"id":"0x4","kind":"DeclStmt","inner":[
             {"id":"0x5","kind":"VarDecl","name":"p","type":{"qualType":"int *"},"init":"c",
              "inner":[{"id":"0x6","kind":"CStyleCastExpr","castKind":"BitCast","type":{"qualType":"int *"}}]}]}]}]}]}"#;
    assert_eq!(
        render(json),
        "fn f () -> () { let p : Box < i32 > = Box :: new (Default :: default ()) ; ; }"
    );
}

#[test]
fn declaration_without_initializer() {
    let json = r#"{"id":"0x1","kind":"TranslationUnitDecl","inner":[
        {"id":"0x2","kind":"FunctionDecl","name":"f","type":{"qualType":"void ()"},
         "inner":[{"id":"0x3","kind":"CompoundStmt","inner":[
           {"id":"0x4","kind":"DeclStmt","inner":[
             {"id":"0x5","kind":"VarDecl","name":"c","type":{"qualType":"char"}}]}]}]}]}"#;
    assert_eq!(render(json), "fn f () -> () { let c : i8 ; }");
}

#[test]
fn declarations_keep_their_order() {
    let json = r#"{"id":"0x1","kind":"TranslationUnitDecl","inner":[
        {"id":"0x2","kind":"FunctionDecl","name":"f","type":{"qualType":"void ()"},
         "inner":[{"id":"0x3","kind":"CompoundStmt","inner":[
           {"id":"0x4","kind":"DeclStmt","inner":[
             {"id":"0x5","kind":"VarDecl","name":"a","type":{"qualType":"int"}}]},
           {"id":"0x6","kind":"ReturnStmt"},
           {"id":"0x7","kind":"DeclStmt","inner":[
             {"id":"0x8","kind":"VarDecl","name":"b","type":{"qualType":"char"}}]}]}]}]}"#;
    assert_eq!(render(json), "fn f () -> () { let a : i32 ; let b : i8 ; }");
}

#[test]
fn desugared_type_is_preferred() {
    let json = r#"{"id":"0x1","kind":"TranslationUnitDecl","inner":[
        {"id":"0x2","kind":"FunctionDecl","name":"f","type":{"qualType":"void ()"},
         "inner":[{"id":"0x3","kind":"CompoundStmt","inner":[
           {"id":"0x4","kind":"DeclStmt","inner":[
             {"id":"0x5","kind":"VarDecl","name":"n","type":{"qualType":"myint","desugaredQualType":"int"}}]}]}]}]}"#;
    assert_eq!(render(json), "fn f () -> () { let n : i32 ; }");
}

#[test]
fn unknown_kinds_add_nothing() {
    let json = r#"{"id":"0x1","kind":"TranslationUnitDecl","inner":[
        {"id":"0x9","kind":"SomethingNew","weird":[1,2,{"x":null}]},
        {"id":"0xa","kind":"TypedefDecl","name":"t","type":{"qualType":"int"},"isImplicit":true},
        {"id":"0x2","kind":"FunctionDecl","name":"g","type":{"qualType":"char (void)"},
         "inner":[{"id":"0xb","kind":"ParmVarDecl","type":{"qualType":"int"}},
                  {"id":"0x3","kind":"CompoundStmt","inner":[{"id":"0xc","kind":"NullStmt"}]}]},
        {"id":"0xd","kind":"AlsoNew"}]}"#;
    assert_eq!(render(json), "fn g () -> i8 { }");
}

#[test]
fn two_functions_in_order() {
    let json = r#"{"id":"0x1","kind":"TranslationUnitDecl","inner":[
        {"id":"0x2","kind":"FunctionDecl","name":"a","type":{"qualType":"int ()"},"inner":[]},
        {"id":"0x3","kind":"FunctionDecl","name":"b","type":{"qualType":"void ()"},"inner":[]}]}"#;
    assert_eq!(render(json), "fn a () -> i32 { } fn b () -> () { }");
}

#[test]
fn empty_unit_renders_nothing() {
    assert_eq!(render(r#"{"id":"0x1","kind":"TranslationUnitDecl"}"#), "");
}

#[test]
fn bad_identifier_fails() {
    let json = r#"{"id":"0x1","kind":"TranslationUnitDecl","inner":[
        {"id":"0x2","kind":"FunctionDecl","name":"operator+","type":{"qualType":"int (int)"}}]}"#;
    let ast = AST::from_ast_json(json).unwrap();
    assert_eq!(ast.transpile(), failure(2, Place::Identifier, "operator+"));
}

#[test]
fn bad_type_fails() {
    let json = r#"{"id":"0x1","kind":"TranslationUnitDecl","inner":[
        {"id":"0x2","kind":"FunctionDecl","name":"f","type":{"qualType":"unsigned int (int)"}}]}"#;
    let ast = AST::from_ast_json(json).unwrap();
    assert_eq!(ast.transpile(), failure(2, Place::Type, "unsigned int"));
}

#[test]
fn bad_literal_fails() {
    let json = r#"{"id":"0x1","kind":"TranslationUnitDecl","inner":[
        {"id":"0x2","kind":"FunctionDecl","name":"f","type":{"qualType":"void ()"},
         "inner":[{"id":"0x3","kind":"CompoundStmt","inner":[
           {"id":"0x4","kind":"DeclStmt","inner":[
             {"id":"0x5","kind":"VarDecl","name":"x","type":{"qualType":"int"},"init":"c",
              "inner":[{"id":"0x6","kind":"IntegerLiteral","value":"4 2 )","type":{"qualType":"int"}}]}]}]}]}]}"#;
    let ast = AST::from_ast_json(json).unwrap();
    assert_eq!(ast.transpile(), failure(6, Place::Expression, "4 2 )"));
}

#[test]
fn body_failure_comes_before_name_failure() {
    let json = r#"{"id":"0x1","kind":"TranslationUnitDecl","inner":[
        {"id":"0x2","kind":"FunctionDecl","name":"not a name","type":{"qualType":"void ()"},
         "inner":[{"id":"0x3","kind":"CompoundStmt","inner":[
           {"id":"0x4","kind":"DeclStmt","inner":[
             {"id":"0x5","kind":"VarDecl","name":"1x","type":{"qualType":"int"}}]}]}]}]}"#;
    let ast = AST::from_ast_json(json).unwrap();
    assert_eq!(ast.transpile(), failure(5, Place::Identifier, "1x"));
}

#[test]
fn unhandled_initializer_is_dropped() {
    let json = r#"{"id":"0x1","kind":"TranslationUnitDecl","inner":[
        {"id":"0x2","kind":"FunctionDecl","name":"f","type":{"qualType":"void ()"},
         "inner":[{"id":"0x3","kind":"CompoundStmt","inner":[
           {"id":"0x4","kind":"DeclStmt","inner":[
             {"id":"0x5","kind":"VarDecl","name":"s","type":{"qualType":"double"},"init":"c",
              "inner":[{"id":"0x6","kind":"FloatingLiteral","value":"1.5"}]}]}]}]}]}"#;
    assert_eq!(render(json), "fn f () -> () { let s : double ; }");
}

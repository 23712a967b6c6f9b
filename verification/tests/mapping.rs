use cpp_ast::types::Type;
use cpp_ast::utils::ctype_to_rtype;
use cpp_ast::utils::same_text;

fn ty(qual: &str, desugared: Option<&str>) -> Type {
    Type {
        qual_type: qual.to_string(),
        desugared_qual_type: desugared.map(|s| s.to_string()),
    }
}

#[test]
fn int_pointer_is_flagged() {
    assert_eq!(ctype_to_rtype("int *"), ("i32".to_string(), true));
    assert_eq!(ctype_to_rtype("int"), ("i32".to_string(), false));
}

#[test]
fn char_and_void_are_mapped() {
    assert_eq!(ctype_to_rtype("char"), ("i8".to_string(), false));
    assert_eq!(ctype_to_rtype("void"), ("()".to_string(), false));
}

#[test]
fn unknown_names_pass_through() {
    assert_eq!(ctype_to_rtype("double"), ("double".to_string(), false));
    assert_eq!(ctype_to_rtype("char *"), ("char *".to_string(), false));
    assert_eq!(ctype_to_rtype(""), ("".to_string(), false));
    assert_eq!(ctype_to_rtype("int*"), ("int*".to_string(), false));
}

#[test]
fn same_text_compares_contents() {
    assert!(same_text("main", "main"));
    assert!(!same_text("main", "main "));
    assert!(same_text("", ""));
}

#[test]
fn resolved_name_prefers_desugared() {
    assert_eq!(ty("myint", Some("int")).resolved_name(), "int");
    assert_eq!(ty("myint", None).resolved_name(), "myint");
}

#[test]
fn return_type_is_what_precedes_the_parameters() {
    assert_eq!(ty("int (int, int)", None).return_type(), Some("int"));
    assert_eq!(ty("void (*(int))(char)", None).return_type(), Some("void"));
    assert_eq!(ty("int", None).return_type(), Some("int"));
    assert_eq!(ty("", None).return_type(), Some(""));
    assert_eq!(ty(" (", None).return_type(), Some(""));
    assert_eq!(ty("int (", None).return_type(), Some("int"));
    assert_eq!(ty("int(void)", None).return_type(), Some("int(void)"));
    assert_eq!(ty("a (b) (c)", None).return_type(), Some("a"));
    assert_eq!(ty("std::vector<int> (void)", Some("x (y)")).return_type(), Some("std::vector<int>"));
    assert_eq!(ty("naïve (void)", None).return_type(), Some("naïve"));
}

#[test]
fn identities_are_read_as_hexadecimal() {
    use_identity("0x0", Some(0));
    use_identity("0x1f", Some(31));
    use_identity("0xABCdef", Some(0xabcdef));
    use_identity("0x55d1c8a0f3b8", Some(0x55d1c8a0f3b8));
    use_identity("0xffffffffffffffff", Some(u64::MAX));
    use_identity("0x0000000000000000000001", Some(1));
    use_identity("0x10000000000000000", None);
    use_identity("0xfffffffffffffffff", None);
    use_identity("0x", None);
    use_identity("", None);
    use_identity("0", None);
    use_identity("1f", None);
    use_identity("0X1f", None);
    use_identity("0x1g", None);
    use_identity("0x+1", None);
    use_identity("0x 1", None);
    use_identity(" 0x1", None);
    use_identity("0x1é", None);
}

fn use_identity(text: &str, expected: Option<u64>) {
    assert_eq!(cpp_ast::utils::identity_of(text), expected, "{:?}", text);
}

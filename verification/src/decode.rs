//! Decoding: from the dump as it is read from JSON text to the syntax tree.
//!
//! A node's kind is told by the field `kind`. For the kinds that hold
//! something, the fields that are read are required or optional; an optional
//! field may be absent or `null`. Fields that are not read are passed over.

use crate::ast::AST;
use crate::ast::Tree;
use crate::ast::TreeView;
use crate::ast::node_views;
use crate::ast::views_of_children;
use crate::json::Dump;
use crate::json::Json;
use crate::json::dump_of;
use crate::json::json_bool;
use crate::json::json_get;
use crate::json::json_is_null;
use crate::json::json_is_object;
use crate::json::json_of;
use crate::json::json_str;
use crate::json::parse_dump;
use crate::json::raw_fields;
use crate::json::raw_id_text;
use crate::json::raw_inner;
use crate::json::read_dump;
use crate::types::BinaryOperator;
use crate::types::BinaryOperatorView;
use crate::types::CStyleCastExpr;
use crate::types::CStyleCastExprView;
use crate::types::CXXRecordDecl;
use crate::types::CXXRecordDeclView;
use crate::types::Clang;
use crate::types::ClangView;
use crate::types::CompoundStmt;
use crate::types::DeclRefExpr;
use crate::types::DeclRefExprView;
use crate::types::DeclStmt;
use crate::types::FunctionDecl;
use crate::types::FunctionDeclView;
use crate::types::ImplicitCastExpr;
use crate::types::ImplicitCastExprView;
use crate::types::IntegerLiteral;
use crate::types::IntegerLiteralView;
use crate::types::Loc;
use crate::types::LocView;
use crate::types::ParmValDecl;
use crate::types::ParmValDeclView;
use crate::types::ReferencedDecl;
use crate::types::ReferencedDeclView;
use crate::types::StringLiteral;
use crate::types::StringLiteralView;
use crate::types::TextComment;
use crate::types::TextCommentView;
use crate::types::Type;
use crate::types::TypeDefDecl;
use crate::types::TypeDefDeclView;
use crate::types::TypeView;
use crate::types::ValDecl;
use crate::types::ValDeclView;
use crate::types::opt_loc;
use crate::types::opt_text;
use crate::utils::identity_of;
use crate::utils::same_text;
use serde_json::Value;
use vstd::prelude::*;

verus! {

/// Why a text cannot be decoded.
#[derive(Debug)]
pub enum DecodeError {
    /// The text is no JSON, or its nodes do not have the shape of a dump's
    /// nodes. The cause is what `serde_json` reports.
    Malformed(serde_json::Error),
    /// The node with the identity `node`, of the kind `kind`, lacks the
    /// field `field`, or the field has the wrong shape.
    Field { node: u64, kind: String, field: String },
}

/// What a [`DecodeError`] holds; of a malformed text only that it is one.
pub enum DecodeErrorView {
    Malformed,
    Field { node: u64, kind: Seq<char>, field: Seq<char> },
}

/// Why the fields of a node cannot be read: a node of the kind `kind` lacks
/// the field `field`, or the field has the wrong shape.
#[derive(Debug, Clone, PartialEq, Eq)]
pub struct FieldError {
    pub kind: String,
    pub field: String,
}

/// What a [`FieldError`] holds.
pub struct FieldErrorView {
    pub kind: Seq<char>,
    pub field: Seq<char>,
}

impl View for FieldError {
    type V = FieldErrorView;

    open spec fn view(&self) -> FieldErrorView {
        FieldErrorView { kind: self.kind@, field: self.field@ }
    }
}

impl View for DecodeError {
    type V = DecodeErrorView;

    open spec fn view(&self) -> DecodeErrorView {
        match *self {
            DecodeError::Malformed(_) => DecodeErrorView::Malformed,
            DecodeError::Field { node, kind, field } => DecodeErrorView::Field {
                node,
                kind: kind@,
                field: field@,
            },
        }
    }
}

/// Whether the result `r` is `model`: the same value, or the same failure.
pub open spec fn agrees<T: View, E: View>(r: Result<T, E>, model: Result<T::V, E::V>) -> bool {
    match r {
        Ok(value) => model == Ok::<T::V, E::V>(value@),
        Err(e) => model == Err::<T::V, E::V>(e@),
    }
}

/// The value under `key` in the object `fields`, where there is one.
pub open spec fn member(fields: Json, key: Seq<char>) -> Option<Json> {
    match fields {
        Json::Object(map) => if map.contains_key(key) {
            Some(map[key])
        } else {
            None
        },
        _ => None,
    }
}

/// A required text: the field must be there and be a string.
pub open spec fn text_at(fields: Json, key: Seq<char>) -> Result<Seq<char>, Seq<char>> {
    match member(fields, key) {
        Some(Json::Text(text)) => Ok(text),
        _ => Err(key),
    }
}

/// An optional text: the field may be absent or `null`; if it is there, it
/// must be a string.
pub open spec fn opt_text_at(fields: Json, key: Seq<char>) -> Result<
    Option<Seq<char>>,
    Seq<char>,
> {
    match member(fields, key) {
        None => Ok(None),
        Some(Json::Null) => Ok(None),
        Some(Json::Text(text)) => Ok(Some(text)),
        _ => Err(key),
    }
}

/// An optional boolean: the field may be absent or `null`; if it is there,
/// it must be a boolean.
pub open spec fn opt_bool_at(fields: Json, key: Seq<char>) -> Result<Option<bool>, Seq<char>> {
    match member(fields, key) {
        None => Ok(None),
        Some(Json::Null) => Ok(None),
        Some(Json::Bool(b)) => Ok(Some(b)),
        _ => Err(key),
    }
}

/// The type that the object `value` describes: `qualType` is required,
/// `desugaredQualType` optional.
pub open spec fn type_of(value: Json) -> Result<TypeView, Seq<char>> {
    let qual_type = text_at(value, "qualType"@);
    let desugared_qual_type = opt_text_at(value, "desugaredQualType"@);
    if qual_type is Err {
        Err(qual_type->Err_0)
    } else if desugared_qual_type is Err {
        Err(desugared_qual_type->Err_0)
    } else {
        Ok(
            TypeView {
                qual_type: qual_type->Ok_0,
                desugared_qual_type: desugared_qual_type->Ok_0,
            },
        )
    }
}

/// A required type: the field must be there and be an object that describes
/// a type.
pub open spec fn type_at(fields: Json, key: Seq<char>) -> Result<TypeView, Seq<char>> {
    match member(fields, key) {
        Some(value) => if value is Object {
            type_of(value)
        } else {
            Err(key)
        },
        None => Err(key),
    }
}

/// The place that the object `value` describes: `file` is optional.
pub open spec fn loc_of(value: Json) -> Result<LocView, Seq<char>> {
    let file = opt_text_at(value, "file"@);
    if file is Err {
        Err(file->Err_0)
    } else {
        Ok(LocView { file: file->Ok_0 })
    }
}

/// An optional place: the field may be absent or `null`; if it is there, it
/// must be an object that describes a place.
pub open spec fn opt_loc_at(fields: Json, key: Seq<char>) -> Result<Option<LocView>, Seq<char>> {
    match member(fields, key) {
        None => Ok(None),
        Some(Json::Null) => Ok(None),
        Some(value) => if value is Object {
            match loc_of(value) {
                Ok(loc) => Ok(Some(loc)),
                Err(inner) => Err(inner),
            }
        } else {
            Err(key)
        },
    }
}

/// The place that is known of a declaration: the place that was read, or,
/// where none was, a place of which nothing is known.
pub open spec fn loc_or_unknown(loc: Option<LocView>) -> LocView {
    match loc {
        Some(loc) => loc,
        None => LocView { file: None },
    }
}

/// A required reference to a declaration: the field must be there and be an
/// object with the text `id`.
pub open spec fn referenced_at(fields: Json, key: Seq<char>) -> Result<
    ReferencedDeclView,
    Seq<char>,
> {
    match member(fields, key) {
        Some(value) => if value is Object {
            match text_at(value, "id"@) {
                Ok(id) => Ok(ReferencedDeclView { id }),
                Err(inner) => Err(inner),
            }
        } else {
            Err(key)
        },
        None => Err(key),
    }
}

/// The kind that the fields of a node name, where they name one.
pub open spec fn kind_name(fields: Json) -> Option<Seq<char>> {
    match member(fields, "kind"@) {
        Some(Json::Text(kind)) => Some(kind),
        _ => None,
    }
}

/// What is read of a typedef from the fields of its node, or the key
/// of the first field, in the order given here, that is missing or has the
/// wrong shape.
pub open spec fn decoded_typedef(fields: Json) -> Result<TypeDefDeclView, Seq<char>> {
    let name = text_at(fields, "name"@);
    let ty = type_at(fields, "type"@);
    let is_implicit = opt_bool_at(fields, "isImplicit"@);
    if name is Err {
        Err(name->Err_0)
    } else if ty is Err {
        Err(ty->Err_0)
    } else if is_implicit is Err {
        Err(is_implicit->Err_0)
    } else {
        Ok(TypeDefDeclView { name: name->Ok_0, ty: ty->Ok_0, is_implicit: is_implicit->Ok_0 })
    }
}

/// What is read of a function declaration from the fields of its node, or the key
/// of the first field, in the order given here, that is missing or has the
/// wrong shape.
pub open spec fn decoded_function(fields: Json) -> Result<FunctionDeclView, Seq<char>> {
    let name = text_at(fields, "name"@);
    let mangled_name = opt_text_at(fields, "mangledName"@);
    let ty = type_at(fields, "type"@);
    let loc = opt_loc_at(fields, "loc"@);
    if name is Err {
        Err(name->Err_0)
    } else if mangled_name is Err {
        Err(mangled_name->Err_0)
    } else if ty is Err {
        Err(ty->Err_0)
    } else if loc is Err {
        Err(loc->Err_0)
    } else {
        Ok(
            FunctionDeclView {
                name: name->Ok_0,
                mangled_name: mangled_name->Ok_0,
                ty: ty->Ok_0,
                loc: loc->Ok_0,
            },
        )
    }
}

/// What is read of a parameter declaration from the fields of its node, or the key
/// of the first field, in the order given here, that is missing or has the
/// wrong shape.
pub open spec fn decoded_parameter(fields: Json) -> Result<ParmValDeclView, Seq<char>> {
    let name = opt_text_at(fields, "name"@);
    let ty = type_at(fields, "type"@);
    if name is Err {
        Err(name->Err_0)
    } else if ty is Err {
        Err(ty->Err_0)
    } else {
        Ok(ParmValDeclView { name: name->Ok_0, ty: ty->Ok_0 })
    }
}

/// What is read of a binary operator from the fields of its node, or the key
/// of the first field, in the order given here, that is missing or has the
/// wrong shape.
pub open spec fn decoded_operator(fields: Json) -> Result<BinaryOperatorView, Seq<char>> {
    let opcode = text_at(fields, "opcode"@);
    let ty = type_at(fields, "type"@);
    if opcode is Err {
        Err(opcode->Err_0)
    } else if ty is Err {
        Err(ty->Err_0)
    } else {
        Ok(BinaryOperatorView { opcode: opcode->Ok_0, ty: ty->Ok_0 })
    }
}

/// What is read of a use of a declared name from the fields of its node, or the key
/// of the first field, in the order given here, that is missing or has the
/// wrong shape.
pub open spec fn decoded_reference(fields: Json) -> Result<DeclRefExprView, Seq<char>> {
    let referenced_decl = referenced_at(fields, "referencedDecl"@);
    let ty = type_at(fields, "type"@);
    if referenced_decl is Err {
        Err(referenced_decl->Err_0)
    } else if ty is Err {
        Err(ty->Err_0)
    } else {
        Ok(DeclRefExprView { referenced_decl: referenced_decl->Ok_0, ty: ty->Ok_0 })
    }
}

/// What is read of a class or struct declaration from the fields of its
/// node, or the key of the first field, in the order given here, that is
/// missing or has the wrong shape. The place may be absent or `null`: then
/// nothing is known of it.
pub open spec fn decoded_record(fields: Json) -> Result<CXXRecordDeclView, Seq<char>> {
    let name = opt_text_at(fields, "name"@);
    let tag_used = text_at(fields, "tagUsed"@);
    let is_abstract = opt_bool_at(fields, "isAbstract"@);
    let is_polymorphic = opt_bool_at(fields, "isPolymorphic"@);
    let loc = opt_loc_at(fields, "loc"@);
    if name is Err {
        Err(name->Err_0)
    } else if tag_used is Err {
        Err(tag_used->Err_0)
    } else if is_abstract is Err {
        Err(is_abstract->Err_0)
    } else if is_polymorphic is Err {
        Err(is_polymorphic->Err_0)
    } else if loc is Err {
        Err(loc->Err_0)
    } else {
        Ok(
            CXXRecordDeclView {
                name: name->Ok_0,
                tag_used: tag_used->Ok_0,
                is_abstract: is_abstract->Ok_0,
                is_polymorphic: is_polymorphic->Ok_0,
                loc: loc_or_unknown(loc->Ok_0),
            },
        )
    }
}

/// What is read of an implicit cast from the fields of its node, or the key
/// of the first field, in the order given here, that is missing or has the
/// wrong shape.
pub open spec fn decoded_implicit_cast(fields: Json) -> Result<ImplicitCastExprView, Seq<char>> {
    let ty = type_at(fields, "type"@);
    let cast_kind = text_at(fields, "castKind"@);
    if ty is Err {
        Err(ty->Err_0)
    } else if cast_kind is Err {
        Err(cast_kind->Err_0)
    } else {
        Ok(ImplicitCastExprView { ty: ty->Ok_0, cast_kind: cast_kind->Ok_0 })
    }
}

/// What is read of a variable declaration from the fields of its node, or the key
/// of the first field, in the order given here, that is missing or has the
/// wrong shape.
pub open spec fn decoded_variable(fields: Json) -> Result<ValDeclView, Seq<char>> {
    let name = text_at(fields, "name"@);
    let ty = type_at(fields, "type"@);
    let init = opt_text_at(fields, "init"@);
    if name is Err {
        Err(name->Err_0)
    } else if ty is Err {
        Err(ty->Err_0)
    } else if init is Err {
        Err(init->Err_0)
    } else {
        Ok(ValDeclView { name: name->Ok_0, ty: ty->Ok_0, init: init->Ok_0 })
    }
}

/// What is read of a C-style cast from the fields of its node, or the key
/// of the first field, in the order given here, that is missing or has the
/// wrong shape.
pub open spec fn decoded_cast(fields: Json) -> Result<CStyleCastExprView, Seq<char>> {
    let cast_kind = text_at(fields, "castKind"@);
    let ty = type_at(fields, "type"@);
    if cast_kind is Err {
        Err(cast_kind->Err_0)
    } else if ty is Err {
        Err(ty->Err_0)
    } else {
        Ok(CStyleCastExprView { cast_kind: cast_kind->Ok_0, ty: ty->Ok_0 })
    }
}

/// What is read of a text comment from the fields of its node, or the key
/// of the first field, in the order given here, that is missing or has the
/// wrong shape.
pub open spec fn decoded_comment(fields: Json) -> Result<TextCommentView, Seq<char>> {
    let text = text_at(fields, "text"@);
    if text is Err {
        Err(text->Err_0)
    } else {
        Ok(TextCommentView { text: text->Ok_0 })
    }
}

/// What is read of an integer literal from the fields of its node, or the key
/// of the first field, in the order given here, that is missing or has the
/// wrong shape.
pub open spec fn decoded_integer(fields: Json) -> Result<IntegerLiteralView, Seq<char>> {
    let value = text_at(fields, "value"@);
    let ty = type_at(fields, "type"@);
    if value is Err {
        Err(value->Err_0)
    } else if ty is Err {
        Err(ty->Err_0)
    } else {
        Ok(IntegerLiteralView { value: value->Ok_0, ty: ty->Ok_0 })
    }
}

/// What is read of a string literal from the fields of its node, or the key
/// of the first field, in the order given here, that is missing or has the
/// wrong shape.
pub open spec fn decoded_string(fields: Json) -> Result<StringLiteralView, Seq<char>> {
    let value = text_at(fields, "value"@);
    let ty = type_at(fields, "type"@);
    if value is Err {
        Err(value->Err_0)
    } else if ty is Err {
        Err(ty->Err_0)
    } else {
        Ok(StringLiteralView { value: value->Ok_0, ty: ty->Ok_0 })
    }
}

/// Whether `kind` is the name of a kind of node that is told apart.
pub open spec fn in_catalog(kind: Seq<char>) -> bool {
    kind == "TypedefDecl"@
        || kind == "CXXNullPtrLiteralExpr"@
        || kind == "CompoundStmt"@
        || kind == "DeclStmt"@
        || kind == "FunctionDecl"@
        || kind == "ParmVarDecl"@
        || kind == "ReturnStmt"@
        || kind == "BinaryOperator"@
        || kind == "DeclRefExpr"@
        || kind == "CXXRecordDecl"@
        || kind == "ImplicitCastExpr"@
        || kind == "VarDecl"@
        || kind == "CStyleCastExpr"@
        || kind == "FullComment"@
        || kind == "ParagraphComment"@
        || kind == "TextComment"@
        || kind == "IntegerLiteral"@
        || kind == "StringLiteral"@
}

/// What a node's fields make of the node, by the kind that they name: the
/// kinds that hold something read it from the fields, and fail where a field
/// is missing or has the wrong shape; the kinds that hold nothing read no
/// field; a kind that is not told apart, or fields without a kind, give
/// `Other`.
pub open spec fn decoded_kind(fields: Json) -> Result<ClangView, FieldErrorView> {
    match kind_name(fields) {
        None => Ok(ClangView::Other),
        Some(kind) => {
            if kind == "TypedefDecl"@ {
                match decoded_typedef(fields) {
                    Ok(payload) => Ok(ClangView::TypedefDecl(payload)),
                    Err(field) => Err(FieldErrorView { kind, field }),
                }
            } else if kind == "CXXNullPtrLiteralExpr"@ {
                Ok(ClangView::CXXNullPtrLiteralExpr)
            } else if kind == "CompoundStmt"@ {
                Ok(ClangView::CompoundStmt(CompoundStmt))
            } else if kind == "DeclStmt"@ {
                Ok(ClangView::DeclStmt(DeclStmt))
            } else if kind == "FunctionDecl"@ {
                match decoded_function(fields) {
                    Ok(payload) => Ok(ClangView::FunctionDecl(payload)),
                    Err(field) => Err(FieldErrorView { kind, field }),
                }
            } else if kind == "ParmVarDecl"@ {
                match decoded_parameter(fields) {
                    Ok(payload) => Ok(ClangView::ParmVarDecl(payload)),
                    Err(field) => Err(FieldErrorView { kind, field }),
                }
            } else if kind == "ReturnStmt"@ {
                Ok(ClangView::ReturnStmt)
            } else if kind == "BinaryOperator"@ {
                match decoded_operator(fields) {
                    Ok(payload) => Ok(ClangView::BinaryOperator(payload)),
                    Err(field) => Err(FieldErrorView { kind, field }),
                }
            } else if kind == "DeclRefExpr"@ {
                match decoded_reference(fields) {
                    Ok(payload) => Ok(ClangView::DeclRefExpr(payload)),
                    Err(field) => Err(FieldErrorView { kind, field }),
                }
            } else if kind == "CXXRecordDecl"@ {
                match decoded_record(fields) {
                    Ok(payload) => Ok(ClangView::CXXRecordDecl(payload)),
                    Err(field) => Err(FieldErrorView { kind, field }),
                }
            } else if kind == "ImplicitCastExpr"@ {
                match decoded_implicit_cast(fields) {
                    Ok(payload) => Ok(ClangView::ImplicitCastExpr(payload)),
                    Err(field) => Err(FieldErrorView { kind, field }),
                }
            } else if kind == "VarDecl"@ {
                match decoded_variable(fields) {
                    Ok(payload) => Ok(ClangView::VarDecl(payload)),
                    Err(field) => Err(FieldErrorView { kind, field }),
                }
            } else if kind == "CStyleCastExpr"@ {
                match decoded_cast(fields) {
                    Ok(payload) => Ok(ClangView::CStyleCastExpr(payload)),
                    Err(field) => Err(FieldErrorView { kind, field }),
                }
            } else if kind == "FullComment"@ {
                Ok(ClangView::FullComment)
            } else if kind == "ParagraphComment"@ {
                Ok(ClangView::ParagraphComment)
            } else if kind == "TextComment"@ {
                match decoded_comment(fields) {
                    Ok(payload) => Ok(ClangView::TextComment(payload)),
                    Err(field) => Err(FieldErrorView { kind, field }),
                }
            } else if kind == "IntegerLiteral"@ {
                match decoded_integer(fields) {
                    Ok(payload) => Ok(ClangView::IntegerLiteral(payload)),
                    Err(field) => Err(FieldErrorView { kind, field }),
                }
            } else if kind == "StringLiteral"@ {
                match decoded_string(fields) {
                    Ok(payload) => Ok(ClangView::StringLiteral(payload)),
                    Err(field) => Err(FieldErrorView { kind, field }),
                }
            } else {
                Ok(ClangView::Other)
            }
        },
    }
}

/// The tree that a dump is decoded to: the node's kind is told and read from
/// its fields, then each child is decoded, in order. The first failure, in
/// that order, is the failure of the whole, and names the node whose fields
/// cannot be read.
pub open spec fn decoded(dump: Dump) -> Result<TreeView, DecodeErrorView>
    decreases dump, 0nat,
{
    match decoded_kind(dump.fields) {
        Err(e) => Err(DecodeErrorView::Field { node: dump.id, kind: e.kind, field: e.field }),
        Ok(kind) => match decoded_all(dump.inner) {
            Err(e) => Err(e),
            Ok(inner) => Ok(TreeView { id: dump.id, kind, inner }),
        },
    }
}

/// The trees that the dumps `dumps` are decoded to, in their order.
pub open spec fn decoded_all(dumps: Seq<Dump>) -> Result<Seq<TreeView>, DecodeErrorView>
    decreases dumps, 1nat,
{
    if dumps.len() == 0 {
        Ok(Seq::empty())
    } else {
        match decoded_all(dumps.drop_last()) {
            Err(e) => Err(e),
            Ok(before) => match decoded(dumps.last()) {
                Err(e) => Err(e),
                Ok(tree) => Ok(before.push(tree)),
            },
        }
    }
}

/// What decoding makes of a text: a malformed text fails as such; a dump is
/// decoded.
pub open spec fn decoded_text(text: Seq<char>) -> Result<TreeView, DecodeErrorView> {
    match read_dump(text) {
        None => Err(DecodeErrorView::Malformed),
        Some(dump) => decoded(dump),
    }
}

/// Whether the fields give no place: `loc` is absent or `null`.
pub open spec fn lacks_location(fields: Json) -> bool {
    member(fields, "loc"@) is None || member(fields, "loc"@) == Some(Json::Null)
}

/// Whether a field of a record other than its place is missing or has the
/// wrong shape.
pub open spec fn record_field_fails(fields: Json) -> bool {
    ||| opt_text_at(fields, "name"@) is Err
    ||| text_at(fields, "tagUsed"@) is Err
    ||| opt_bool_at(fields, "isAbstract"@) is Err
    ||| opt_bool_at(fields, "isPolymorphic"@) is Err
}

/// Whether a field of a function other than its place is missing or has the
/// wrong shape.
pub open spec fn function_field_fails(fields: Json) -> bool {
    ||| text_at(fields, "name"@) is Err
    ||| opt_text_at(fields, "mangledName"@) is Err
    ||| type_at(fields, "type"@) is Err
}

/// A declaration without a place is decoded, and of its place nothing is
/// known: where `loc` is absent or `null`, a record or a function fails only
/// on another field, and otherwise holds the unknown place.
pub proof fn absent_location_is_unknown(fields: Json)
    requires
        lacks_location(fields),
    ensures
        decoded_record(fields) is Err <==> record_field_fails(fields),
        decoded_record(fields) matches Ok(record) ==> record.loc == loc_or_unknown(None),
        decoded_function(fields) is Err <==> function_field_fails(fields),
        decoded_function(fields) matches Ok(function) ==> function.loc == None::<LocView>,
{
}

/// A node whose fields name a kind that is not told apart is decoded to
/// `Other`, whatever its other fields hold: it is decoded if and only if its
/// children are.
pub proof fn unknown_kind_is_other(dump: Dump)
    requires
        kind_name(dump.fields) matches Some(kind) && !in_catalog(kind),
    ensures
        decoded_kind(dump.fields) == Ok::<ClangView, FieldErrorView>(ClangView::Other),
        decoded(dump) is Ok <==> decoded_all(dump.inner) is Ok,
        decoded(dump) matches Ok(tree) ==> tree.kind == ClangView::Other,
{
}

/// A failure among the first `n` dumps is the failure of all of them.
pub proof fn decoding_failure_stays(dumps: Seq<Dump>, n: int)
    requires
        0 <= n <= dumps.len(),
        decoded_all(dumps.take(n)) is Err,
    ensures
        decoded_all(dumps) == decoded_all(dumps.take(n)),
    decreases dumps.len() - n,
{
    if n < dumps.len() {
        assert(dumps.take(n + 1).drop_last() =~= dumps.take(n));
        decoding_failure_stays(dumps, n + 1);
    } else {
        assert(dumps.take(n) =~= dumps);
    }
}


/// Reads a required text.
fn read_text(fields: &Value, key: &str) -> (r: Result<String, String>)
    ensures
        agrees(r, text_at(json_of(*fields), key@)),
{
    match json_get(fields, key) {
        Some(value) => match json_str(value) {
            Some(text) => Ok(text.to_owned()),
            None => Err(key.to_owned()),
        },
        None => Err(key.to_owned()),
    }
}

/// Reads an optional text.
fn read_opt_text(fields: &Value, key: &str) -> (r: Result<Option<String>, String>)
    ensures
        match r {
            Ok(value) => opt_text_at(json_of(*fields), key@) == Ok::<Option<Seq<char>>, Seq<char>>(
                opt_text(value),
            ),
            Err(e) => opt_text_at(json_of(*fields), key@) == Err::<Option<Seq<char>>, Seq<char>>(
                e@,
            ),
        },
{
    match json_get(fields, key) {
        None => Ok(None),
        Some(value) => {
            if json_is_null(value) {
                Ok(None)
            } else {
                match json_str(value) {
                    Some(text) => Ok(Some(text.to_owned())),
                    None => Err(key.to_owned()),
                }
            }
        },
    }
}

/// Reads an optional boolean.
fn read_opt_bool(fields: &Value, key: &str) -> (r: Result<Option<bool>, String>)
    ensures
        match r {
            Ok(value) => opt_bool_at(json_of(*fields), key@) == Ok::<Option<bool>, Seq<char>>(
                value,
            ),
            Err(e) => opt_bool_at(json_of(*fields), key@) == Err::<Option<bool>, Seq<char>>(e@),
        },
{
    match json_get(fields, key) {
        None => Ok(None),
        Some(value) => {
            if json_is_null(value) {
                Ok(None)
            } else {
                match json_bool(value) {
                    Some(b) => Ok(Some(b)),
                    None => Err(key.to_owned()),
                }
            }
        },
    }
}

/// Reads the type that an object describes.
fn read_type_of(value: &Value) -> (r: Result<Type, String>)
    ensures
        agrees(r, type_of(json_of(*value))),
{
    let qual_type = match read_text(value, "qualType") {
        Ok(v) => v,
        Err(key) => {
            return Err(key);
        },
    };
    let desugared_qual_type = match read_opt_text(value, "desugaredQualType") {
        Ok(v) => v,
        Err(key) => {
            return Err(key);
        },
    };
    Ok(Type { qual_type, desugared_qual_type })
}

/// Reads a required type.
fn read_type(fields: &Value, key: &str) -> (r: Result<Type, String>)
    ensures
        agrees(r, type_at(json_of(*fields), key@)),
{
    match json_get(fields, key) {
        Some(value) => {
            if json_is_object(value) {
                read_type_of(value)
            } else {
                Err(key.to_owned())
            }
        },
        None => Err(key.to_owned()),
    }
}

/// Reads the place that an object describes.
fn read_loc_of(value: &Value) -> (r: Result<Loc, String>)
    ensures
        agrees(r, loc_of(json_of(*value))),
{
    match read_opt_text(value, "file") {
        Ok(file) => Ok(Loc { file }),
        Err(key) => Err(key),
    }
}

/// Reads an optional place.
fn read_opt_loc(fields: &Value, key: &str) -> (r: Result<Option<Loc>, String>)
    ensures
        match r {
            Ok(value) => opt_loc_at(json_of(*fields), key@) == Ok::<Option<LocView>, Seq<char>>(
                opt_loc(value),
            ),
            Err(e) => opt_loc_at(json_of(*fields), key@) == Err::<Option<LocView>, Seq<char>>(e@),
        },
{
    match json_get(fields, key) {
        None => Ok(None),
        Some(value) => {
            if json_is_null(value) {
                Ok(None)
            } else if json_is_object(value) {
                match read_loc_of(value) {
                    Ok(loc) => Ok(Some(loc)),
                    Err(inner) => Err(inner),
                }
            } else {
                Err(key.to_owned())
            }
        },
    }
}

/// Reads a required reference to a declaration.
fn read_referenced(fields: &Value, key: &str) -> (r: Result<ReferencedDecl, String>)
    ensures
        agrees(r, referenced_at(json_of(*fields), key@)),
{
    match json_get(fields, key) {
        Some(value) => {
            if json_is_object(value) {
                match read_text(value, "id") {
                    Ok(id) => Ok(ReferencedDecl { id }),
                    Err(inner) => Err(inner),
                }
            } else {
                Err(key.to_owned())
            }
        },
        None => Err(key.to_owned()),
    }
}

/// Reads the kind that the fields of a node name.
fn read_kind_name<'a>(fields: &'a Value) -> (r: Option<&'a str>)
    ensures
        match r {
            Some(kind) => kind_name(json_of(*fields)) == Some(kind@),
            None => kind_name(json_of(*fields)) is None,
        },
{
    match json_get(fields, "kind") {
        Some(value) => json_str(value),
        None => None,
    }
}

/// Reads a typedef from the fields of its node.
fn read_typedef(fields: &Value) -> (r: Result<TypeDefDecl, String>)
    ensures
        agrees(r, decoded_typedef(json_of(*fields))),
{
    let name = match read_text(fields, "name") {
        Ok(v) => v,
        Err(key) => {
            return Err(key);
        },
    };
    let ty = match read_type(fields, "type") {
        Ok(v) => v,
        Err(key) => {
            return Err(key);
        },
    };
    let is_implicit = match read_opt_bool(fields, "isImplicit") {
        Ok(v) => v,
        Err(key) => {
            return Err(key);
        },
    };
    Ok(TypeDefDecl { name, ty, is_implicit })
}

/// Reads a function declaration from the fields of its node.
fn read_function(fields: &Value) -> (r: Result<FunctionDecl, String>)
    ensures
        agrees(r, decoded_function(json_of(*fields))),
{
    let name = match read_text(fields, "name") {
        Ok(v) => v,
        Err(key) => {
            return Err(key);
        },
    };
    let mangled_name = match read_opt_text(fields, "mangledName") {
        Ok(v) => v,
        Err(key) => {
            return Err(key);
        },
    };
    let ty = match read_type(fields, "type") {
        Ok(v) => v,
        Err(key) => {
            return Err(key);
        },
    };
    let loc = match read_opt_loc(fields, "loc") {
        Ok(v) => v,
        Err(key) => {
            return Err(key);
        },
    };
    Ok(FunctionDecl { name, mangled_name, ty, loc })
}

/// Reads a parameter declaration from the fields of its node.
fn read_parameter(fields: &Value) -> (r: Result<ParmValDecl, String>)
    ensures
        agrees(r, decoded_parameter(json_of(*fields))),
{
    let name = match read_opt_text(fields, "name") {
        Ok(v) => v,
        Err(key) => {
            return Err(key);
        },
    };
    let ty = match read_type(fields, "type") {
        Ok(v) => v,
        Err(key) => {
            return Err(key);
        },
    };
    Ok(ParmValDecl { name, ty })
}

/// Reads a binary operator from the fields of its node.
fn read_operator(fields: &Value) -> (r: Result<BinaryOperator, String>)
    ensures
        agrees(r, decoded_operator(json_of(*fields))),
{
    let opcode = match read_text(fields, "opcode") {
        Ok(v) => v,
        Err(key) => {
            return Err(key);
        },
    };
    let ty = match read_type(fields, "type") {
        Ok(v) => v,
        Err(key) => {
            return Err(key);
        },
    };
    Ok(BinaryOperator { opcode, ty })
}

/// Reads a use of a declared name from the fields of its node.
fn read_reference(fields: &Value) -> (r: Result<DeclRefExpr, String>)
    ensures
        agrees(r, decoded_reference(json_of(*fields))),
{
    let referenced_decl = match read_referenced(fields, "referencedDecl") {
        Ok(v) => v,
        Err(key) => {
            return Err(key);
        },
    };
    let ty = match read_type(fields, "type") {
        Ok(v) => v,
        Err(key) => {
            return Err(key);
        },
    };
    Ok(DeclRefExpr { referenced_decl, ty })
}

/// Reads a class or struct declaration from the fields of its node.
fn read_record(fields: &Value) -> (r: Result<CXXRecordDecl, String>)
    ensures
        agrees(r, decoded_record(json_of(*fields))),
{
    let name = match read_opt_text(fields, "name") {
        Ok(v) => v,
        Err(key) => {
            return Err(key);
        },
    };
    let tag_used = match read_text(fields, "tagUsed") {
        Ok(v) => v,
        Err(key) => {
            return Err(key);
        },
    };
    let is_abstract = match read_opt_bool(fields, "isAbstract") {
        Ok(v) => v,
        Err(key) => {
            return Err(key);
        },
    };
    let is_polymorphic = match read_opt_bool(fields, "isPolymorphic") {
        Ok(v) => v,
        Err(key) => {
            return Err(key);
        },
    };
    let loc = match read_opt_loc(fields, "loc") {
        Ok(Some(loc)) => loc,
        Ok(None) => Loc { file: None },
        Err(key) => {
            return Err(key);
        },
    };
    Ok(CXXRecordDecl { name, tag_used, is_abstract, is_polymorphic, loc })
}

/// Reads an implicit cast from the fields of its node.
fn read_implicit_cast(fields: &Value) -> (r: Result<ImplicitCastExpr, String>)
    ensures
        agrees(r, decoded_implicit_cast(json_of(*fields))),
{
    let ty = match read_type(fields, "type") {
        Ok(v) => v,
        Err(key) => {
            return Err(key);
        },
    };
    let cast_kind = match read_text(fields, "castKind") {
        Ok(v) => v,
        Err(key) => {
            return Err(key);
        },
    };
    Ok(ImplicitCastExpr { ty, cast_kind })
}

/// Reads a variable declaration from the fields of its node.
fn read_variable(fields: &Value) -> (r: Result<ValDecl, String>)
    ensures
        agrees(r, decoded_variable(json_of(*fields))),
{
    let name = match read_text(fields, "name") {
        Ok(v) => v,
        Err(key) => {
            return Err(key);
        },
    };
    let ty = match read_type(fields, "type") {
        Ok(v) => v,
        Err(key) => {
            return Err(key);
        },
    };
    let init = match read_opt_text(fields, "init") {
        Ok(v) => v,
        Err(key) => {
            return Err(key);
        },
    };
    Ok(ValDecl { name, ty, init })
}

/// Reads a C-style cast from the fields of its node.
fn read_cast(fields: &Value) -> (r: Result<CStyleCastExpr, String>)
    ensures
        agrees(r, decoded_cast(json_of(*fields))),
{
    let cast_kind = match read_text(fields, "castKind") {
        Ok(v) => v,
        Err(key) => {
            return Err(key);
        },
    };
    let ty = match read_type(fields, "type") {
        Ok(v) => v,
        Err(key) => {
            return Err(key);
        },
    };
    Ok(CStyleCastExpr { cast_kind, ty })
}

/// Reads a text comment from the fields of its node.
fn read_comment(fields: &Value) -> (r: Result<TextComment, String>)
    ensures
        agrees(r, decoded_comment(json_of(*fields))),
{
    let text = match read_text(fields, "text") {
        Ok(v) => v,
        Err(key) => {
            return Err(key);
        },
    };
    Ok(TextComment { text })
}

/// Reads an integer literal from the fields of its node.
fn read_integer(fields: &Value) -> (r: Result<IntegerLiteral, String>)
    ensures
        agrees(r, decoded_integer(json_of(*fields))),
{
    let value = match read_text(fields, "value") {
        Ok(v) => v,
        Err(key) => {
            return Err(key);
        },
    };
    let ty = match read_type(fields, "type") {
        Ok(v) => v,
        Err(key) => {
            return Err(key);
        },
    };
    Ok(IntegerLiteral { value, ty })
}

/// Reads a string literal from the fields of its node.
fn read_string(fields: &Value) -> (r: Result<StringLiteral, String>)
    ensures
        agrees(r, decoded_string(json_of(*fields))),
{
    let value = match read_text(fields, "value") {
        Ok(v) => v,
        Err(key) => {
            return Err(key);
        },
    };
    let ty = match read_type(fields, "type") {
        Ok(v) => v,
        Err(key) => {
            return Err(key);
        },
    };
    Ok(StringLiteral { value, ty })
}

/// Tells the kind of a node from its fields, and reads what the kind holds.
pub fn decode_kind(fields: &Value) -> (r: Result<Clang, FieldError>)
    ensures
        agrees(r, decoded_kind(json_of(*fields))),
{
    let kind = match read_kind_name(fields) {
        Some(kind) => kind,
        None => {
            return Ok(Clang::Other);
        },
    };
    if same_text(kind, "TypedefDecl") {
        match read_typedef(fields) {
            Ok(payload) => Ok(Clang::TypedefDecl(payload)),
            Err(field) => Err(FieldError { kind: kind.to_owned(), field }),
        }
    } else if same_text(kind, "CXXNullPtrLiteralExpr") {
        Ok(Clang::CXXNullPtrLiteralExpr)
    } else if same_text(kind, "CompoundStmt") {
        Ok(Clang::CompoundStmt(CompoundStmt))
    } else if same_text(kind, "DeclStmt") {
        Ok(Clang::DeclStmt(DeclStmt))
    } else if same_text(kind, "FunctionDecl") {
        match read_function(fields) {
            Ok(payload) => Ok(Clang::FunctionDecl(payload)),
            Err(field) => Err(FieldError { kind: kind.to_owned(), field }),
        }
    } else if same_text(kind, "ParmVarDecl") {
        match read_parameter(fields) {
            Ok(payload) => Ok(Clang::ParmVarDecl(payload)),
            Err(field) => Err(FieldError { kind: kind.to_owned(), field }),
        }
    } else if same_text(kind, "ReturnStmt") {
        Ok(Clang::ReturnStmt)
    } else if same_text(kind, "BinaryOperator") {
        match read_operator(fields) {
            Ok(payload) => Ok(Clang::BinaryOperator(payload)),
            Err(field) => Err(FieldError { kind: kind.to_owned(), field }),
        }
    } else if same_text(kind, "DeclRefExpr") {
        match read_reference(fields) {
            Ok(payload) => Ok(Clang::DeclRefExpr(payload)),
            Err(field) => Err(FieldError { kind: kind.to_owned(), field }),
        }
    } else if same_text(kind, "CXXRecordDecl") {
        match read_record(fields) {
            Ok(payload) => Ok(Clang::CXXRecordDecl(payload)),
            Err(field) => Err(FieldError { kind: kind.to_owned(), field }),
        }
    } else if same_text(kind, "ImplicitCastExpr") {
        match read_implicit_cast(fields) {
            Ok(payload) => Ok(Clang::ImplicitCastExpr(payload)),
            Err(field) => Err(FieldError { kind: kind.to_owned(), field }),
        }
    } else if same_text(kind, "VarDecl") {
        match read_variable(fields) {
            Ok(payload) => Ok(Clang::VarDecl(payload)),
            Err(field) => Err(FieldError { kind: kind.to_owned(), field }),
        }
    } else if same_text(kind, "CStyleCastExpr") {
        match read_cast(fields) {
            Ok(payload) => Ok(Clang::CStyleCastExpr(payload)),
            Err(field) => Err(FieldError { kind: kind.to_owned(), field }),
        }
    } else if same_text(kind, "FullComment") {
        Ok(Clang::FullComment)
    } else if same_text(kind, "ParagraphComment") {
        Ok(Clang::ParagraphComment)
    } else if same_text(kind, "TextComment") {
        match read_comment(fields) {
            Ok(payload) => Ok(Clang::TextComment(payload)),
            Err(field) => Err(FieldError { kind: kind.to_owned(), field }),
        }
    } else if same_text(kind, "IntegerLiteral") {
        match read_integer(fields) {
            Ok(payload) => Ok(Clang::IntegerLiteral(payload)),
            Err(field) => Err(FieldError { kind: kind.to_owned(), field }),
        }
    } else if same_text(kind, "StringLiteral") {
        match read_string(fields) {
            Ok(payload) => Ok(Clang::StringLiteral(payload)),
            Err(field) => Err(FieldError { kind: kind.to_owned(), field }),
        }
    } else {
        Ok(Clang::Other)
    }
}

/// The number of a node's identity, read from the text in which the dump
/// writes it.
fn raw_id(raw: &clang_ast::Node<Value>) -> (id: u64)
    ensures
        id == dump_of(*raw).id,
{
    let text = raw_id_text(raw);
    identity_of(text.as_str()).unwrap()
}

/// Decodes one node of the dump, with the nodes under it.
#[verifier::loop_isolation(false)]
pub fn decode_node(raw: &clang_ast::Node<Value>) -> (r: Result<Tree, DecodeError>)
    ensures
        agrees(r, decoded(dump_of(*raw))),
    decreases dump_of(*raw),
{
    let kind = match decode_kind(raw_fields(raw)) {
        Ok(kind) => kind,
        Err(e) => {
            return Err(DecodeError::Field { node: raw_id(raw), kind: e.kind, field: e.field });
        },
    };
    let children = raw_inner(raw);
    let ghost dumps = dump_of(*raw).inner;
    let mut inner: Vec<Tree> = Vec::new();
    let mut i: usize = 0;
    proof {
        assert(dumps.take(0) =~= Seq::<Dump>::empty());
        assert(node_views(inner@) =~= Seq::<TreeView>::empty());
    }
    while i < children.len()
        invariant
            i <= children.len(),
            children@.len() == dumps.len(),
            decoded_all(dumps.take(i as int)) == Ok::<Seq<TreeView>, DecodeErrorView>(
                node_views(inner@),
            ),
        decreases children.len() - i,
    {
        let child = &children[i];
        proof {
            assert(dumps.take(i + 1).drop_last() =~= dumps.take(i as int));
            assert(dumps.take(i + 1).last() == dump_of(*child));
        }
        match decode_node(child) {
            Err(e) => {
                proof {
                    decoding_failure_stays(dumps, i + 1);
                }
                return Err(e);
            },
            Ok(tree) => {
                let ghost before = inner@;
                inner.push(tree);
                assert(node_views(inner@) =~= node_views(before).push(tree@));
            },
        }
        i = i + 1;
    }
    assert(dumps.take(i as int) =~= dumps);
    let tree = Tree { id: raw_id(raw), kind, inner };
    proof {
        views_of_children(tree);
    }
    Ok(tree)
}

/// Whether `r` is what decoding gives for `text`: the tree that the text is
/// decoded to, or the failure.
pub open spec fn is_decoding(text: Seq<char>, r: Result<AST, DecodeError>) -> bool {
    match r {
        Ok(ast) => decoded_text(text) == Ok::<TreeView, DecodeErrorView>(ast.root()@),
        Err(e) => decoded_text(text) == Err::<TreeView, DecodeErrorView>(e@),
    }
}

/// Decoding is a function of the text: two results of decoding one text
/// both succeed, with trees that hold the same, or fail in the same way.
pub proof fn decoding_is_a_function(
    text: Seq<char>,
    first: Result<AST, DecodeError>,
    second: Result<AST, DecodeError>,
)
    requires
        is_decoding(text, first),
        is_decoding(text, second),
    ensures
        match (first, second) {
            (Ok(a), Ok(b)) => a.root()@ == b.root()@,
            (Err(a), Err(b)) => a@ == b@,
            _ => false,
        },
{
}

impl AST {
    /// Builds the syntax tree from the JSON text that the compiler dumps.
    /// Fails on a text that is no dump, and on a node of a known kind with a
    /// field that is missing or has the wrong shape; a node of an unknown
    /// kind is kept as `Other`.
    pub fn from_ast_json(json_str: &str) -> (r: Result<AST, DecodeError>)
        ensures
            is_decoding(json_str@, r),
    {
        match parse_dump(json_str) {
            Err(e) => Err(DecodeError::Malformed(e)),
            Ok(raw) => match decode_node(&raw) {
                Ok(node) => Ok(AST::new(node)),
                Err(e) => Err(e),
            },
        }
    }
}

} // verus!

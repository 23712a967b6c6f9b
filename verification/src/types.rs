//! The kinds of syntax tree node and what is read of each.

use vstd::prelude::*;

verus! {

/// The text of a string that may be absent.
pub open spec fn opt_text(text: Option<String>) -> Option<Seq<char>> {
    match text {
        Some(text) => Some(text@),
        None => None,
    }
}

/// What a place holds that may be absent.
pub open spec fn opt_loc(loc: Option<Loc>) -> Option<LocView> {
    match loc {
        Some(loc) => Some(loc@),
        None => None,
    }
}

/// The kinds of node that are told apart, each with what is read of it.
#[derive(Debug, Clone, PartialEq, Eq)]
pub enum Clang {
    /// A typedef.
    TypedefDecl(TypeDefDecl),
    /// The literal `nullptr`.
    CXXNullPtrLiteralExpr,
    /// A compound statement: statements and declarations in `{}`.
    CompoundStmt(CompoundStmt),
    /// A declaration statement.
    DeclStmt(DeclStmt),
    /// A function declaration.
    FunctionDecl(FunctionDecl),
    /// The declaration of a function's parameter.
    ParmVarDecl(ParmValDecl),
    /// A function's return statement.
    ReturnStmt,
    /// A binary operator.
    BinaryOperator(BinaryOperator),
    /// A use of a declared name.
    DeclRefExpr(DeclRefExpr),
    /// The declaration of a class or struct.
    CXXRecordDecl(CXXRecordDecl),
    /// A cast that the compiler put in.
    ImplicitCastExpr(ImplicitCastExpr),
    /// A variable declaration.
    VarDecl(ValDecl),
    /// A cast written as `(type) value`.
    CStyleCastExpr(CStyleCastExpr),
    /// A whole comment.
    FullComment,
    /// A paragraph of a comment.
    ParagraphComment,
    /// The text of a comment.
    TextComment(TextComment),
    /// An integer literal.
    IntegerLiteral(IntegerLiteral),
    /// A string literal.
    StringLiteral(StringLiteral),
    /// Any other kind of node; such a node is passed over.
    Other,
}

/// What a [`Clang`] holds.
pub enum ClangView {
    TypedefDecl(TypeDefDeclView),
    CXXNullPtrLiteralExpr,
    CompoundStmt(CompoundStmt),
    DeclStmt(DeclStmt),
    FunctionDecl(FunctionDeclView),
    ParmVarDecl(ParmValDeclView),
    ReturnStmt,
    BinaryOperator(BinaryOperatorView),
    DeclRefExpr(DeclRefExprView),
    CXXRecordDecl(CXXRecordDeclView),
    ImplicitCastExpr(ImplicitCastExprView),
    VarDecl(ValDeclView),
    CStyleCastExpr(CStyleCastExprView),
    FullComment,
    ParagraphComment,
    TextComment(TextCommentView),
    IntegerLiteral(IntegerLiteralView),
    StringLiteral(StringLiteralView),
    Other,
}

impl View for Clang {
    type V = ClangView;

    open spec fn view(&self) -> ClangView {
        match *self {
            Clang::TypedefDecl(payload) => ClangView::TypedefDecl(payload@),
            Clang::CXXNullPtrLiteralExpr => ClangView::CXXNullPtrLiteralExpr,
            Clang::CompoundStmt(payload) => ClangView::CompoundStmt(payload),
            Clang::DeclStmt(payload) => ClangView::DeclStmt(payload),
            Clang::FunctionDecl(payload) => ClangView::FunctionDecl(payload@),
            Clang::ParmVarDecl(payload) => ClangView::ParmVarDecl(payload@),
            Clang::ReturnStmt => ClangView::ReturnStmt,
            Clang::BinaryOperator(payload) => ClangView::BinaryOperator(payload@),
            Clang::DeclRefExpr(payload) => ClangView::DeclRefExpr(payload@),
            Clang::CXXRecordDecl(payload) => ClangView::CXXRecordDecl(payload@),
            Clang::ImplicitCastExpr(payload) => ClangView::ImplicitCastExpr(payload@),
            Clang::VarDecl(payload) => ClangView::VarDecl(payload@),
            Clang::CStyleCastExpr(payload) => ClangView::CStyleCastExpr(payload@),
            Clang::FullComment => ClangView::FullComment,
            Clang::ParagraphComment => ClangView::ParagraphComment,
            Clang::TextComment(payload) => ClangView::TextComment(payload@),
            Clang::IntegerLiteral(payload) => ClangView::IntegerLiteral(payload@),
            Clang::StringLiteral(payload) => ClangView::StringLiteral(payload@),
            Clang::Other => ClangView::Other,
        }
    }
}

/// A compound statement; nothing is read of it but its children.
#[derive(Debug, Clone, Copy, PartialEq, Eq)]
pub struct CompoundStmt;

/// A declaration statement; nothing is read of it but its children.
#[derive(Debug, Clone, Copy, PartialEq, Eq)]
pub struct DeclStmt;

/// A `typedef <type> <name>;`.
#[derive(Debug, Clone, PartialEq, Eq)]
pub struct TypeDefDecl {
    /// The name that the typedef gives.
    pub name: String,
    /// The type that is named.
    pub ty: Type,
    /// Whether the compiler made the typedef itself.
    pub is_implicit: Option<bool>,
}

/// What a [`TypeDefDecl`] holds.
pub struct TypeDefDeclView {
    pub name: Seq<char>,
    pub ty: TypeView,
    pub is_implicit: Option<bool>,
}

impl View for TypeDefDecl {
    type V = TypeDefDeclView;

    open spec fn view(&self) -> TypeDefDeclView {
        TypeDefDeclView {
            name: self.name@,
            ty: self.ty@,
            is_implicit: self.is_implicit,
        }
    }
}

/// A function declaration.
#[derive(Debug, Clone, PartialEq, Eq)]
pub struct FunctionDecl {
    /// The function's name in the source.
    pub name: String,
    /// The mangled name, which tells overloads apart.
    pub mangled_name: Option<String>,
    /// The function's type, such as `int (int, int)`.
    pub ty: Type,
    /// Where the function stands in the source.
    pub loc: Option<Loc>,
}

/// What a [`FunctionDecl`] holds.
pub struct FunctionDeclView {
    pub name: Seq<char>,
    pub mangled_name: Option<Seq<char>>,
    pub ty: TypeView,
    pub loc: Option<LocView>,
}

impl View for FunctionDecl {
    type V = FunctionDeclView;

    open spec fn view(&self) -> FunctionDeclView {
        FunctionDeclView {
            name: self.name@,
            mangled_name: opt_text(self.mangled_name),
            ty: self.ty@,
            loc: opt_loc(self.loc),
        }
    }
}

/// The declaration of a function's parameter.
#[derive(Debug, Clone, PartialEq, Eq)]
pub struct ParmValDecl {
    /// The parameter's name.
    pub name: Option<String>,
    /// The parameter's type.
    pub ty: Type,
}

/// What a [`ParmValDecl`] holds.
pub struct ParmValDeclView {
    pub name: Option<Seq<char>>,
    pub ty: TypeView,
}

impl View for ParmValDecl {
    type V = ParmValDeclView;

    open spec fn view(&self) -> ParmValDeclView {
        ParmValDeclView {
            name: opt_text(self.name),
            ty: self.ty@,
        }
    }
}

/// A binary operator.
#[derive(Debug, Clone, PartialEq, Eq)]
pub struct BinaryOperator {
    /// The operator.
    pub opcode: String,
    /// The type of the result.
    pub ty: Type,
}

/// What a [`BinaryOperator`] holds.
pub struct BinaryOperatorView {
    pub opcode: Seq<char>,
    pub ty: TypeView,
}

impl View for BinaryOperator {
    type V = BinaryOperatorView;

    open spec fn view(&self) -> BinaryOperatorView {
        BinaryOperatorView {
            opcode: self.opcode@,
            ty: self.ty@,
        }
    }
}

/// A use of a declared name.
#[derive(Debug, Clone, PartialEq, Eq)]
pub struct DeclRefExpr {
    /// The declaration that is meant.
    pub referenced_decl: ReferencedDecl,
    /// The type of the declaration.
    pub ty: Type,
}

/// What a [`DeclRefExpr`] holds.
pub struct DeclRefExprView {
    pub referenced_decl: ReferencedDeclView,
    pub ty: TypeView,
}

impl View for DeclRefExpr {
    type V = DeclRefExprView;

    open spec fn view(&self) -> DeclRefExprView {
        DeclRefExprView {
            referenced_decl: self.referenced_decl@,
            ty: self.ty@,
        }
    }
}

/// The declaration of a class or struct.
#[derive(Debug, Clone, PartialEq, Eq)]
pub struct CXXRecordDecl {
    /// The name of the class or struct.
    pub name: Option<String>,
    /// `class`, `struct` and the like.
    pub tag_used: String,
    /// Whether the class is abstract.
    pub is_abstract: Option<bool>,
    /// Whether the class has virtual members.
    pub is_polymorphic: Option<bool>,
    /// Where the declaration stands in the source.
    pub loc: Loc,
}

/// What a [`CXXRecordDecl`] holds.
pub struct CXXRecordDeclView {
    pub name: Option<Seq<char>>,
    pub tag_used: Seq<char>,
    pub is_abstract: Option<bool>,
    pub is_polymorphic: Option<bool>,
    pub loc: LocView,
}

impl View for CXXRecordDecl {
    type V = CXXRecordDeclView;

    open spec fn view(&self) -> CXXRecordDeclView {
        CXXRecordDeclView {
            name: opt_text(self.name),
            tag_used: self.tag_used@,
            is_abstract: self.is_abstract,
            is_polymorphic: self.is_polymorphic,
            loc: self.loc@,
        }
    }
}

/// A cast that the compiler put in.
#[derive(Debug, Clone, PartialEq, Eq)]
pub struct ImplicitCastExpr {
    /// The type of the result.
    pub ty: Type,
    /// The kind of conversion.
    pub cast_kind: String,
}

/// What a [`ImplicitCastExpr`] holds.
pub struct ImplicitCastExprView {
    pub ty: TypeView,
    pub cast_kind: Seq<char>,
}

impl View for ImplicitCastExpr {
    type V = ImplicitCastExprView;

    open spec fn view(&self) -> ImplicitCastExprView {
        ImplicitCastExprView {
            ty: self.ty@,
            cast_kind: self.cast_kind@,
        }
    }
}

/// A cast written as `(type) value`.
#[derive(Debug, Clone, PartialEq, Eq)]
pub struct CStyleCastExpr {
    /// The kind of conversion.
    pub cast_kind: String,
    /// The type of the result.
    pub ty: Type,
}

/// What a [`CStyleCastExpr`] holds.
pub struct CStyleCastExprView {
    pub cast_kind: Seq<char>,
    pub ty: TypeView,
}

impl View for CStyleCastExpr {
    type V = CStyleCastExprView;

    open spec fn view(&self) -> CStyleCastExprView {
        CStyleCastExprView {
            cast_kind: self.cast_kind@,
            ty: self.ty@,
        }
    }
}

/// A variable declaration.
#[derive(Debug, Clone, PartialEq, Eq)]
pub struct ValDecl {
    /// The variable's name.
    pub name: String,
    /// The variable's type.
    pub ty: Type,
    /// The style of the initializer, where there is one.
    pub init: Option<String>,
}

/// What a [`ValDecl`] holds.
pub struct ValDeclView {
    pub name: Seq<char>,
    pub ty: TypeView,
    pub init: Option<Seq<char>>,
}

impl View for ValDecl {
    type V = ValDeclView;

    open spec fn view(&self) -> ValDeclView {
        ValDeclView {
            name: self.name@,
            ty: self.ty@,
            init: opt_text(self.init),
        }
    }
}

/// The text of a comment.
#[derive(Debug, Clone, PartialEq, Eq)]
pub struct TextComment {
    /// The comment's text.
    pub text: String,
}

/// What a [`TextComment`] holds.
pub struct TextCommentView {
    pub text: Seq<char>,
}

impl View for TextComment {
    type V = TextCommentView;

    open spec fn view(&self) -> TextCommentView {
        TextCommentView {
            text: self.text@,
        }
    }
}

/// An integer literal.
#[derive(Debug, Clone, PartialEq, Eq)]
pub struct IntegerLiteral {
    /// The literal's value, as written.
    pub value: String,
    /// The literal's type.
    pub ty: Type,
}

/// What a [`IntegerLiteral`] holds.
pub struct IntegerLiteralView {
    pub value: Seq<char>,
    pub ty: TypeView,
}

impl View for IntegerLiteral {
    type V = IntegerLiteralView;

    open spec fn view(&self) -> IntegerLiteralView {
        IntegerLiteralView {
            value: self.value@,
            ty: self.ty@,
        }
    }
}

/// A string literal.
#[derive(Debug, Clone, PartialEq, Eq)]
pub struct StringLiteral {
    /// The literal's value, as written.
    pub value: String,
    /// The literal's type, such as `char[5]`.
    pub ty: Type,
}

/// What a [`StringLiteral`] holds.
pub struct StringLiteralView {
    pub value: Seq<char>,
    pub ty: TypeView,
}

impl View for StringLiteral {
    type V = StringLiteralView;

    open spec fn view(&self) -> StringLiteralView {
        StringLiteralView {
            value: self.value@,
            ty: self.ty@,
        }
    }
}

/// A type as the compiler reports it.
#[derive(Debug, Clone, PartialEq, Eq)]
pub struct Type {
    /// The type's name as written in the source.
    pub qual_type: String,
    /// The type's name after aliases are resolved.
    pub desugared_qual_type: Option<String>,
}

/// What a [`Type`] holds.
pub struct TypeView {
    pub qual_type: Seq<char>,
    pub desugared_qual_type: Option<Seq<char>>,
}

impl View for Type {
    type V = TypeView;

    open spec fn view(&self) -> TypeView {
        TypeView {
            qual_type: self.qual_type@,
            desugared_qual_type: opt_text(self.desugared_qual_type),
        }
    }
}

/// A place in the source.
#[derive(Debug, Clone, PartialEq, Eq)]
pub struct Loc {
    /// The file that the place is in.
    pub file: Option<String>,
}

/// What a [`Loc`] holds.
pub struct LocView {
    pub file: Option<Seq<char>>,
}

impl View for Loc {
    type V = LocView;

    open spec fn view(&self) -> LocView {
        LocView {
            file: opt_text(self.file),
        }
    }
}

/// The declaration that a name refers to.
#[derive(Debug, Clone, PartialEq, Eq)]
pub struct ReferencedDecl {
    /// The identity of the declaration's node, as the compiler writes it.
    pub id: String,
}

/// What a [`ReferencedDecl`] holds.
pub struct ReferencedDeclView {
    pub id: Seq<char>,
}

impl View for ReferencedDecl {
    type V = ReferencedDeclView;

    open spec fn view(&self) -> ReferencedDeclView {
        ReferencedDeclView {
            id: self.id@,
        }
    }
}

/// Whether the two characters of `text` at `at` are a space and an opening
/// parenthesis: there the parameter list of a function type begins.
pub open spec fn params_begin(text: Seq<char>, at: int) -> bool {
    0 <= at && at + 1 < text.len() && text[at] == ' ' && text[at + 1] == '('
}

/// The first place from `from` on where a parameter list begins in `text`, or
/// the length of `text` where none does.
pub open spec fn params_from(text: Seq<char>, from: int) -> int
    decreases text.len() - from,
{
    if from < 0 || from + 1 >= text.len() {
        text.len() as int
    } else if params_begin(text, from) {
        from
    } else {
        params_from(text, from + 1)
    }
}

impl TypeView {
    /// The name after aliases are resolved where the compiler gave it, else
    /// the name as written.
    pub open spec fn resolved_name(self) -> Seq<char> {
        match self.desugared_qual_type {
            Some(name) => name,
            None => self.qual_type,
        }
    }

    /// What stands before the parameter list in the name as written: all of
    /// it where there is no parameter list.
    pub open spec fn return_type(self) -> Seq<char> {
        self.qual_type.subrange(0, params_from(self.qual_type, 0))
    }
}

/// `params_from` gives the least place at or after `from` where a parameter
/// list begins, and the length of the text if there is none.
pub proof fn params_from_is_first(text: Seq<char>, from: int)
    requires
        0 <= from <= text.len(),
    ensures
        from <= params_from(text, from) <= text.len(),
        forall|at: int| from <= at < params_from(text, from) ==> !params_begin(text, at),
        params_from(text, from) == text.len() || params_begin(text, params_from(text, from)),
    decreases text.len() - from,
{
    if from + 1 < text.len() && !params_begin(text, from) {
        params_from_is_first(text, from + 1);
    }
}

impl Type {
    /// The type's name for the mapping to Rust: the name after aliases are
    /// resolved where the compiler gave it, else the name as written.
    pub fn resolved_name(&self) -> (name: &str)
        ensures
            name@ == self@.resolved_name(),
    {
        match &self.desugared_qual_type {
            Some(name) => name.as_str(),
            None => self.qual_type.as_str(),
        }
    }

    /// The return type of a function type such as `int (int, int)`: what
    /// stands before the first ` (`. Always `Some`.
    pub fn return_type(&self) -> (r: Option<&str>)
        ensures
            r matches Some(name) && name@ == self@.return_type(),
    {
        let text = self.qual_type.as_str();
        let len = text.unicode_len();
        let mut at: usize = 0;
        while len - at >= 2 && !(text.get_char(at) == ' ' && text.get_char(at + 1) == '(')
            invariant
                len == text@.len(),
                at <= len,
                params_from(text@, 0) == params_from(text@, at as int),
            decreases len - at,
        {
            at = at + 1;
        }
        let end = if len - at >= 2 {
            at
        } else {
            len
        };
        Some(text.substring_char(0, end))
    }
}

} // verus!

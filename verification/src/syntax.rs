//! The syntax-tree model the visitor engine walks: one parsed source file
//! as a tree of plain values. A source loader (outside this library)
//! parses Rust text and hands the engine this shape; every node carries
//! the literal source snippet it was parsed from (empty when the loader
//! has none), which the engine uses for best-effort line resolution.

use vstd::prelude::*;

verus! {

/// A binary operator, as far as the detection rules care.
#[derive(PartialEq, Eq, Structural, Clone, Copy, Debug)]
pub enum BinOp {
    Add,
    Sub,
    Mul,
    /// The equality comparison `==`.
    Eq,
    /// Any other binary operator.
    Other,
}

/// What an expression node is, with the rendered text the rules inspect.
pub enum ExprKind {
    /// A field access `base.member`; `base_is_path` says whether the base
    /// is a plain path expression.
    FieldAccess { member: String, base_is_path: bool },
    /// A method call `receiver.method(..)`, with the receiver's rendered
    /// text.
    MethodCall { method: String, receiver_text: String },
    /// A call `callee(args)`, with the callee's and the arguments'
    /// rendered texts.
    Call { callee_text: String, args_text: String },
    /// A cast `expr as Type`, with the target type's rendered text.
    Cast { target_type: String },
    /// A binary expression; its operands are the first two children.
    Binary { op: BinOp },
    /// An integer literal; `None` when its value does not read as a
    /// base-10 `u64`.
    IntLit { value: Option<u64> },
    /// An `if`, with the condition's rendered text.
    Conditional { cond_text: String },
    /// Any other expression.
    Other,
}

/// One expression node. `text` is the node's literal source snippet (or
/// empty), and `children` are its sub-expressions in source order.
pub struct Expr {
    pub text: String,
    pub kind: ExprKind,
    pub children: Vec<Expr>,
}

/// A function item: its name, the names of its declared parameters, the
/// rendered text of its body, and the body's expressions in source order.
pub struct Function {
    pub name: String,
    pub text: String,
    pub params: Vec<String>,
    pub body_text: String,
    pub body: Vec<Expr>,
}

/// One attribute on a record or field: whether its path is exactly
/// `account`, and its rendered text.
pub struct AttrDecl {
    pub is_account_attr: bool,
    pub text: String,
}

/// One named field of a record, with its type's rendered text and its
/// attributes.
pub struct FieldDecl {
    pub name: String,
    pub type_text: String,
    pub text: String,
    pub attrs: Vec<AttrDecl>,
}

/// A struct-like record with its attributes and fields.
pub struct Record {
    pub name: String,
    pub text: String,
    pub attrs: Vec<AttrDecl>,
    pub fields: Vec<FieldDecl>,
}

/// An enum-like record; only its name is inspected.
pub struct EnumDecl {
    pub name: String,
    pub text: String,
}

/// A module, or any other item kind that only contains further items:
/// it is recursed into transparently, without a check of its own.
pub struct Group {
    pub text: String,
    pub items: Vec<Item>,
}

/// One item of a source file.
pub enum Item {
    Func(Function),
    Rec(Record),
    Enumeration(EnumDecl),
    Grouped(Group),
}

/// One parsed source file: its items in source order.
pub struct SourceFile {
    pub items: Vec<Item>,
}

} // verus!

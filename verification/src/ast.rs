//! The program tree handed in by the front end: an ordered list of
//! functions whose bodies are statement and expression trees. The tree is
//! produced once and read-only for the whole lifetime of a compilation.

use vstd::prelude::*;

verus! {

#[derive(Debug)]
pub struct Program {
    pub statements: Vec<Statement>,
}

impl Program {
    pub fn new(statements: Vec<Statement>) -> (r: Self)
        ensures
            r.statements == statements,
    {
        Program { statements }
    }
}

#[derive(Debug)]
pub struct Function {
    pub name: String,
    pub params: Vec<Param>,
    pub ret_ty: Option<String>,
    pub body: Block,
}

impl Function {
    pub fn new(name: String, params: Vec<Param>, ret_ty: Option<String>, body: Block) -> (r: Self)
        ensures
            r.name == name,
            r.params == params,
            r.ret_ty == ret_ty,
            r.body == body,
    {
        Function { name, params, ret_ty, body }
    }
}

#[derive(Debug, Clone)]
pub struct Param {
    pub name: String,
    pub ty: Option<String>,
}

impl Param {
    pub fn new(name: String, ty: Option<String>) -> (r: Self)
        ensures
            r.name == name,
            r.ty == ty,
    {
        Param { name, ty }
    }
}

#[derive(Debug)]
pub struct Block {
    pub statements: Vec<Statement>,
}

impl Block {
    pub fn new(statements: Vec<Statement>) -> (r: Self)
        ensures
            r.statements == statements,
    {
        Block { statements }
    }
}

#[derive(Debug)]
pub enum Statement {
    Let { name: String, expr: Expr },
    Assignment { name: String, expr: Expr },
    If {
        cond: Box<Expr>,
        then_block: Block,
        elif_blocks: Vec<(Expr, Block)>,
        else_block: Option<Block>,
    },
    For { var: String, iterable: Expr, body: Block },
    While { cond: Expr, body: Block },
    Break,
    Continue,
    Return(Option<Expr>),
    Function(Function),
    Expr(Expr),
    Use { module: String, alias: Option<String> },
    Block(Block),
}

#[derive(Debug)]
pub enum Expr {
    Literal(Literal),
    Identifier(String),
    Member { object: Box<Expr>, field: String },
    Call { func: Box<Expr>, args: Vec<Expr> },
    Binary { op: BinaryOp, left: Box<Expr>, right: Box<Expr> },
    Unary { op: UnaryOp, expr: Box<Expr> },
    If { cond: Box<Expr>, then_branch: Box<Expr>, else_branch: Option<Box<Expr>> },
    Range { start: Box<Expr>, end: Box<Expr> },
    FString { parts: Vec<FStringPart> },
    Await(Box<Expr>),
    Spawn(Box<Expr>),
}

#[derive(Debug)]
pub enum FStringPart {
    Text(String),
    Expr(Box<Expr>),
}

#[derive(Debug, Clone, Copy, PartialEq, Eq, Structural)]
pub enum BinaryOp {
    Add,
    Sub,
    Mul,
    Div,
    Mod,
    Eq,
    Ne,
    Lt,
    Gt,
    LtEq,
    GtEq,
    And,
    Or,
}

#[derive(Debug, Clone, Copy, PartialEq, Eq, Structural)]
pub enum UnaryOp {
    Neg,
    Not,
}

/// A literal value. A numeric literal carries the bit pattern of the
/// double-precision float it denotes: every number in the surface language
/// is a double, and bit patterns keep the tree free of machine floats.
#[derive(Debug)]
pub enum Literal {
    String(String),
    Number(u64),
    Bool(bool),
}

} // verus!

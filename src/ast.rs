use vstd::prelude::*;

verus! {

/// The operator of an infix expression.
#[derive(Debug)]
pub enum InfixOp {
    Assign,
    Other,
}

/// An expression of a parsed fragment.
#[derive(Debug)]
#[allow(inconsistent_fields)]
pub enum Expression {
    Variable { name: String },
    Identifier { name: String },
    ConstantString { value: String },
    Int { i: i64 },
    /// A float literal, held as its decimal rendering.
    Float { text: String },
    Bool { value: bool },
    Array { items: Vec<Expression> },
    PropertyFetch { target: Box<Expression>, property: Box<Expression> },
    ArrayIndex { array: Box<Expression>, index: Option<Box<Expression>> },
    Call { target: Box<Expression>, args: Vec<Expression> },
    Infix { lhs: Box<Expression>, op: InfixOp, rhs: Box<Expression> },
    /// Any expression form outside the supported subset.
    Unsupported,
}

/// An `elseif` arm of a conditional.
#[derive(Debug)]
pub struct ElseIf {
    pub condition: Expression,
    pub body: Vec<Statement>,
}

/// A statement of a parsed fragment.
#[derive(Debug)]
pub enum Statement {
    If {
        condition: Expression,
        body: Vec<Statement>,
        else_ifs: Vec<ElseIf>,
        otherwise: Option<Vec<Statement>>,
    },
    Expression { expr: Expression },
    /// Any statement form outside the supported subset.
    Unsupported,
}

} // verus!

use vstd::prelude::*;
use crate::token::{Punctuation, Token, TokenModel};

verus! {

/// Which side groups first when operators of equal precedence are
/// chained. Every operator in the current table is left-associative;
/// the tag keeps the contract extensible to right-associative ones.
#[derive(Debug, PartialEq, Eq, Structural, Copy, Clone)]
pub enum Associativity {
    Left,
    Right,
}

/// A binary operator recognised by the expression grammar.
#[derive(Debug, PartialEq, Eq, Structural, Copy, Clone)]
pub enum BinaryOperator {
    Add,
    Sub,
    Mul,
    Div,
    Equal,
    NotEqual,
    Less,
    Greater,
    LEqual,
    GEqual,
    BooleanAnd,
    BooleanOr,
    Concat,
}

/// The binary operator denoted by a token, if any: only punctuation
/// tokens denote operators, and only the arithmetic, comparison,
/// boolean and concatenation symbols among them.
pub open spec fn binary_operator_of(t: TokenModel) -> Option<BinaryOperator> {
    match t {
        TokenModel::Punctuation(p) => match p {
            Punctuation::Plus => Some(BinaryOperator::Add),
            Punctuation::Minus => Some(BinaryOperator::Sub),
            Punctuation::Asterisk => Some(BinaryOperator::Mul),
            Punctuation::Slash => Some(BinaryOperator::Div),
            Punctuation::Equal => Some(BinaryOperator::Equal),
            Punctuation::NotEqual => Some(BinaryOperator::NotEqual),
            Punctuation::Greater => Some(BinaryOperator::Greater),
            Punctuation::Less => Some(BinaryOperator::Less),
            Punctuation::GEqual => Some(BinaryOperator::GEqual),
            Punctuation::LEqual => Some(BinaryOperator::LEqual),
            Punctuation::BooleanAnd => Some(BinaryOperator::BooleanAnd),
            Punctuation::BooleanOr => Some(BinaryOperator::BooleanOr),
            Punctuation::Concat => Some(BinaryOperator::Concat),
            _ => None,
        },
        _ => None,
    }
}

/// The precedence tier of a binary operator: a higher number binds
/// tighter. Boolean connectives sit at 0, comparisons at 1, additive
/// operators at 2, multiplicative at 3 and concatenation at 4.
pub open spec fn precedence_of(op: BinaryOperator) -> int {
    match op {
        BinaryOperator::BooleanAnd | BinaryOperator::BooleanOr => 0,
        BinaryOperator::Equal | BinaryOperator::NotEqual | BinaryOperator::Less
            | BinaryOperator::Greater | BinaryOperator::LEqual | BinaryOperator::GEqual => 1,
        BinaryOperator::Add | BinaryOperator::Sub => 2,
        BinaryOperator::Mul | BinaryOperator::Div => 3,
        BinaryOperator::Concat => 4,
    }
}

impl BinaryOperator {
    /// The binary operator a token denotes, or nothing for tokens that
    /// denote no operator.
    pub fn get_operator(token: &Token) -> (r: Option<BinaryOperator>)
        ensures
            r == binary_operator_of(token@),
    {
        match token {
            Token::Punctuation(Punctuation::Plus) => Some(BinaryOperator::Add),
            Token::Punctuation(Punctuation::Minus) => Some(BinaryOperator::Sub),
            Token::Punctuation(Punctuation::Asterisk) => Some(BinaryOperator::Mul),
            Token::Punctuation(Punctuation::Slash) => Some(BinaryOperator::Div),
            Token::Punctuation(Punctuation::Equal) => Some(BinaryOperator::Equal),
            Token::Punctuation(Punctuation::NotEqual) => Some(BinaryOperator::NotEqual),
            Token::Punctuation(Punctuation::Greater) => Some(BinaryOperator::Greater),
            Token::Punctuation(Punctuation::Less) => Some(BinaryOperator::Less),
            Token::Punctuation(Punctuation::GEqual) => Some(BinaryOperator::GEqual),
            Token::Punctuation(Punctuation::LEqual) => Some(BinaryOperator::LEqual),
            Token::Punctuation(Punctuation::BooleanAnd) => Some(BinaryOperator::BooleanAnd),
            Token::Punctuation(Punctuation::BooleanOr) => Some(BinaryOperator::BooleanOr),
            Token::Punctuation(Punctuation::Concat) => Some(BinaryOperator::Concat),
            _ => None,
        }
    }

    /// The operator's precedence tier; always between 0 and 4.
    pub fn precedence(&self) -> (r: i32)
        ensures
            r == precedence_of(*self),
            0 <= r <= 4,
    {
        match self {
            BinaryOperator::BooleanAnd | BinaryOperator::BooleanOr => 0,
            BinaryOperator::Equal | BinaryOperator::NotEqual | BinaryOperator::Less
                | BinaryOperator::Greater | BinaryOperator::LEqual | BinaryOperator::GEqual => 1,
            BinaryOperator::Add | BinaryOperator::Sub => 2,
            BinaryOperator::Mul | BinaryOperator::Div => 3,
            BinaryOperator::Concat => 4,
        }
    }

    /// How the operator associates; every operator in the current
    /// table is left-associative.
    pub fn associativity(&self) -> (r: Associativity)
        ensures
            r == Associativity::Left,
    {
        match self {
            _ => Associativity::Left,
        }
    }
}

/// A unary operator recognised by the expression grammar.
#[derive(Debug, PartialEq, Eq, Structural, Copy, Clone)]
pub enum UnaryOperator {
    Negate,
    Not,
}

/// The unary operator denoted by a punctuation symbol, if any: minus
/// negates, the exclamation mark is boolean not, and nothing else
/// denotes a unary operator.
pub open spec fn unary_operator_of(p: Punctuation) -> Option<UnaryOperator> {
    match p {
        Punctuation::Minus => Some(UnaryOperator::Negate),
        Punctuation::Exclamation => Some(UnaryOperator::Not),
        _ => None,
    }
}

impl UnaryOperator {
    /// The unary operator a punctuation symbol denotes, or nothing.
    pub fn get_operator(p: Punctuation) -> (r: Option<UnaryOperator>)
        ensures
            r == unary_operator_of(p),
    {
        match p {
            Punctuation::Minus => Some(UnaryOperator::Negate),
            Punctuation::Exclamation => Some(UnaryOperator::Not),
            _ => None,
        }
    }
}

} // verus!

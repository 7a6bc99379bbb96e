use vstd::prelude::*;
use vstd::string::StringExecFns;

verus! {

/// The reserved words of the language. Each keyword has exactly one
/// lowercase spelling, and keyword recognition takes priority over
/// identifier classification for a matching spelling.
#[derive(Debug, PartialEq, Eq, Structural, Copy, Clone)]
pub enum Keyword {
    If,
    ElseIf,
    Else,
    While,
    Return,
    True,
    False,
    Nil,
    Func,
    Var,
}

/// The symbolic operators and delimiters of the language, single- and
/// two-character. Every two-character spelling extends a valid
/// one-character spelling, which drives the lexer's greedy match.
#[derive(Debug, PartialEq, Eq, Structural, Copy, Clone)]
pub enum Punctuation {
    Plus,
    Minus,
    Asterisk,
    Slash,
    Assign,
    Equal,
    NotEqual,
    Greater,
    Less,
    GEqual,
    LEqual,
    And,
    Or,
    BooleanAnd,
    BooleanOr,
    Exclamation,
    Concat,
    Dot,
    Comma,
    LParen,
    RParen,
    LSquare,
    RSquare,
    LCurly,
    RCurly,
    Semicolon,
}

/// A lexical unit. A number carries its raw spelling (a nonempty run
/// of digits and at most one dot); identifiers and string literals
/// carry their text outright, with no escape processing.
#[derive(Debug, PartialEq, Clone)]
pub enum Token {
    EOF,
    Number(String),
    Identifier(String),
    String(String),
    Keyword(Keyword),
    Punctuation(Punctuation),
}

/// Mathematical model of a `Token`: the carried text as character
/// sequences.
pub ghost enum TokenModel {
    EOF,
    Number(Seq<char>),
    Identifier(Seq<char>),
    StringLit(Seq<char>),
    Keyword(Keyword),
    Punctuation(Punctuation),
}

impl View for Token {
    type V = TokenModel;

    open spec fn view(&self) -> TokenModel {
        match self {
            Token::EOF => TokenModel::EOF,
            Token::Number(s) => TokenModel::Number(s@),
            Token::Identifier(s) => TokenModel::Identifier(s@),
            Token::String(s) => TokenModel::StringLit(s@),
            Token::Keyword(k) => TokenModel::Keyword(*k),
            Token::Punctuation(p) => TokenModel::Punctuation(*p),
        }
    }
}

/// The spelling of each keyword.
pub open spec fn keyword_spelling(k: Keyword) -> Seq<char> {
    match k {
        Keyword::If => "if"@,
        Keyword::ElseIf => "elseif"@,
        Keyword::Else => "else"@,
        Keyword::While => "while"@,
        Keyword::Return => "return"@,
        Keyword::True => "true"@,
        Keyword::False => "false"@,
        Keyword::Nil => "nil"@,
        Keyword::Func => "func"@,
        Keyword::Var => "var"@,
    }
}

/// The keyword with the given spelling, if any, by characters.
pub open spec fn keyword_of_spelling(s: Seq<char>) -> Option<Keyword> {
    if s.len() == 2 && s[0] == 'i' && s[1] == 'f' {
        Some(Keyword::If)
    } else if s.len() == 6 && s[0] == 'e' && s[1] == 'l' && s[2] == 's' && s[3] == 'e' && s[4]
        == 'i' && s[5] == 'f' {
        Some(Keyword::ElseIf)
    } else if s.len() == 4 && s[0] == 'e' && s[1] == 'l' && s[2] == 's' && s[3] == 'e' {
        Some(Keyword::Else)
    } else if s.len() == 5 && s[0] == 'w' && s[1] == 'h' && s[2] == 'i' && s[3] == 'l' && s[4]
        == 'e' {
        Some(Keyword::While)
    } else if s.len() == 6 && s[0] == 'r' && s[1] == 'e' && s[2] == 't' && s[3] == 'u' && s[4]
        == 'r' && s[5] == 'n' {
        Some(Keyword::Return)
    } else if s.len() == 4 && s[0] == 't' && s[1] == 'r' && s[2] == 'u' && s[3] == 'e' {
        Some(Keyword::True)
    } else if s.len() == 5 && s[0] == 'f' && s[1] == 'a' && s[2] == 'l' && s[3] == 's' && s[4]
        == 'e' {
        Some(Keyword::False)
    } else if s.len() == 3 && s[0] == 'n' && s[1] == 'i' && s[2] == 'l' {
        Some(Keyword::Nil)
    } else if s.len() == 4 && s[0] == 'f' && s[1] == 'u' && s[2] == 'n' && s[3] == 'c' {
        Some(Keyword::Func)
    } else if s.len() == 3 && s[0] == 'v' && s[1] == 'a' && s[2] == 'r' {
        Some(Keyword::Var)
    } else {
        None
    }
}

/// The keyword spelled by the given characters, if any.
pub fn keyword_from_chars(v: &Vec<char>) -> (r: Option<Keyword>)
    ensures
        r == keyword_of_spelling(v@),
{
    if v.len() == 2 && v[0] == 'i' && v[1] == 'f' {
        Some(Keyword::If)
    } else if v.len() == 6 && v[0] == 'e' && v[1] == 'l' && v[2] == 's' && v[3] == 'e' && v[4]
        == 'i' && v[5] == 'f' {
        Some(Keyword::ElseIf)
    } else if v.len() == 4 && v[0] == 'e' && v[1] == 'l' && v[2] == 's' && v[3] == 'e' {
        Some(Keyword::Else)
    } else if v.len() == 5 && v[0] == 'w' && v[1] == 'h' && v[2] == 'i' && v[3] == 'l' && v[4]
        == 'e' {
        Some(Keyword::While)
    } else if v.len() == 6 && v[0] == 'r' && v[1] == 'e' && v[2] == 't' && v[3] == 'u' && v[4]
        == 'r' && v[5] == 'n' {
        Some(Keyword::Return)
    } else if v.len() == 4 && v[0] == 't' && v[1] == 'r' && v[2] == 'u' && v[3] == 'e' {
        Some(Keyword::True)
    } else if v.len() == 5 && v[0] == 'f' && v[1] == 'a' && v[2] == 'l' && v[3] == 's' && v[4]
        == 'e' {
        Some(Keyword::False)
    } else if v.len() == 3 && v[0] == 'n' && v[1] == 'i' && v[2] == 'l' {
        Some(Keyword::Nil)
    } else if v.len() == 4 && v[0] == 'f' && v[1] == 'u' && v[2] == 'n' && v[3] == 'c' {
        Some(Keyword::Func)
    } else if v.len() == 3 && v[0] == 'v' && v[1] == 'a' && v[2] == 'r' {
        Some(Keyword::Var)
    } else {
        None
    }
}

/// The spelling of each punctuation symbol.
pub open spec fn punct_spelling(p: Punctuation) -> Seq<char> {
    match p {
        Punctuation::Plus => "+"@,
        Punctuation::Minus => "-"@,
        Punctuation::Asterisk => "*"@,
        Punctuation::Slash => "/"@,
        Punctuation::Assign => "="@,
        Punctuation::Equal => "=="@,
        Punctuation::NotEqual => "!="@,
        Punctuation::Greater => ">"@,
        Punctuation::Less => "<"@,
        Punctuation::GEqual => ">="@,
        Punctuation::LEqual => "<="@,
        Punctuation::And => "&"@,
        Punctuation::Or => "|"@,
        Punctuation::BooleanAnd => "&&"@,
        Punctuation::BooleanOr => "||"@,
        Punctuation::Exclamation => "!"@,
        Punctuation::Concat => ".."@,
        Punctuation::Dot => "."@,
        Punctuation::Comma => ","@,
        Punctuation::LParen => "("@,
        Punctuation::RParen => ")"@,
        Punctuation::LSquare => "["@,
        Punctuation::RSquare => "]"@,
        Punctuation::LCurly => "{"@,
        Punctuation::RCurly => "}"@,
        Punctuation::Semicolon => ";"@,
    }
}

/// The punctuation symbol spelled by a single character, if any.
pub open spec fn punct1_of(c: char) -> Option<Punctuation> {
    if c == '+' {
        Some(Punctuation::Plus)
    } else if c == '-' {
        Some(Punctuation::Minus)
    } else if c == '*' {
        Some(Punctuation::Asterisk)
    } else if c == '/' {
        Some(Punctuation::Slash)
    } else if c == '=' {
        Some(Punctuation::Assign)
    } else if c == '>' {
        Some(Punctuation::Greater)
    } else if c == '<' {
        Some(Punctuation::Less)
    } else if c == '&' {
        Some(Punctuation::And)
    } else if c == '|' {
        Some(Punctuation::Or)
    } else if c == '!' {
        Some(Punctuation::Exclamation)
    } else if c == '.' {
        Some(Punctuation::Dot)
    } else if c == ',' {
        Some(Punctuation::Comma)
    } else if c == '(' {
        Some(Punctuation::LParen)
    } else if c == ')' {
        Some(Punctuation::RParen)
    } else if c == '[' {
        Some(Punctuation::LSquare)
    } else if c == ']' {
        Some(Punctuation::RSquare)
    } else if c == '{' {
        Some(Punctuation::LCurly)
    } else if c == '}' {
        Some(Punctuation::RCurly)
    } else if c == ';' {
        Some(Punctuation::Semicolon)
    } else {
        None
    }
}

/// The punctuation symbol spelled by two characters, if any.
pub open spec fn punct2_of(c0: char, c1: char) -> Option<Punctuation> {
    if c0 == '=' && c1 == '=' {
        Some(Punctuation::Equal)
    } else if c0 == '!' && c1 == '=' {
        Some(Punctuation::NotEqual)
    } else if c0 == '>' && c1 == '=' {
        Some(Punctuation::GEqual)
    } else if c0 == '<' && c1 == '=' {
        Some(Punctuation::LEqual)
    } else if c0 == '&' && c1 == '&' {
        Some(Punctuation::BooleanAnd)
    } else if c0 == '|' && c1 == '|' {
        Some(Punctuation::BooleanOr)
    } else if c0 == '.' && c1 == '.' {
        Some(Punctuation::Concat)
    } else {
        None
    }
}

/// The punctuation symbol with the given spelling, if any.
pub open spec fn punct_of_spelling(s: Seq<char>) -> Option<Punctuation> {
    if s.len() == 1 {
        punct1_of(s[0])
    } else if s.len() == 2 {
        punct2_of(s[0], s[1])
    } else {
        None
    }
}

pub fn punct_single(c: char) -> (r: Option<Punctuation>)
    ensures
        r == punct1_of(c),
{
    if c == '+' {
        Some(Punctuation::Plus)
    } else if c == '-' {
        Some(Punctuation::Minus)
    } else if c == '*' {
        Some(Punctuation::Asterisk)
    } else if c == '/' {
        Some(Punctuation::Slash)
    } else if c == '=' {
        Some(Punctuation::Assign)
    } else if c == '>' {
        Some(Punctuation::Greater)
    } else if c == '<' {
        Some(Punctuation::Less)
    } else if c == '&' {
        Some(Punctuation::And)
    } else if c == '|' {
        Some(Punctuation::Or)
    } else if c == '!' {
        Some(Punctuation::Exclamation)
    } else if c == '.' {
        Some(Punctuation::Dot)
    } else if c == ',' {
        Some(Punctuation::Comma)
    } else if c == '(' {
        Some(Punctuation::LParen)
    } else if c == ')' {
        Some(Punctuation::RParen)
    } else if c == '[' {
        Some(Punctuation::LSquare)
    } else if c == ']' {
        Some(Punctuation::RSquare)
    } else if c == '{' {
        Some(Punctuation::LCurly)
    } else if c == '}' {
        Some(Punctuation::RCurly)
    } else if c == ';' {
        Some(Punctuation::Semicolon)
    } else {
        None
    }
}

pub fn punct_double(c0: char, c1: char) -> (r: Option<Punctuation>)
    ensures
        r == punct2_of(c0, c1),
{
    if c0 == '=' && c1 == '=' {
        Some(Punctuation::Equal)
    } else if c0 == '!' && c1 == '=' {
        Some(Punctuation::NotEqual)
    } else if c0 == '>' && c1 == '=' {
        Some(Punctuation::GEqual)
    } else if c0 == '<' && c1 == '=' {
        Some(Punctuation::LEqual)
    } else if c0 == '&' && c1 == '&' {
        Some(Punctuation::BooleanAnd)
    } else if c0 == '|' && c1 == '|' {
        Some(Punctuation::BooleanOr)
    } else if c0 == '.' && c1 == '.' {
        Some(Punctuation::Concat)
    } else {
        None
    }
}

impl Keyword {
    /// The keyword's spelling as text.
    pub fn render(&self) -> (r: String)
        ensures
            r@ == keyword_spelling(*self),
    {
        match self {
            Keyword::If => String::from_str("if"),
            Keyword::ElseIf => String::from_str("elseif"),
            Keyword::Else => String::from_str("else"),
            Keyword::While => String::from_str("while"),
            Keyword::Return => String::from_str("return"),
            Keyword::True => String::from_str("true"),
            Keyword::False => String::from_str("false"),
            Keyword::Nil => String::from_str("nil"),
            Keyword::Func => String::from_str("func"),
            Keyword::Var => String::from_str("var"),
        }
    }
}

impl Punctuation {
    /// The symbol's spelling as text.
    pub fn render(&self) -> (r: String)
        ensures
            r@ == punct_spelling(*self),
    {
        match self {
            Punctuation::Plus => String::from_str("+"),
            Punctuation::Minus => String::from_str("-"),
            Punctuation::Asterisk => String::from_str("*"),
            Punctuation::Slash => String::from_str("/"),
            Punctuation::Assign => String::from_str("="),
            Punctuation::Equal => String::from_str("=="),
            Punctuation::NotEqual => String::from_str("!="),
            Punctuation::Greater => String::from_str(">"),
            Punctuation::Less => String::from_str("<"),
            Punctuation::GEqual => String::from_str(">="),
            Punctuation::LEqual => String::from_str("<="),
            Punctuation::And => String::from_str("&"),
            Punctuation::Or => String::from_str("|"),
            Punctuation::BooleanAnd => String::from_str("&&"),
            Punctuation::BooleanOr => String::from_str("||"),
            Punctuation::Exclamation => String::from_str("!"),
            Punctuation::Concat => String::from_str(".."),
            Punctuation::Dot => String::from_str("."),
            Punctuation::Comma => String::from_str(","),
            Punctuation::LParen => String::from_str("("),
            Punctuation::RParen => String::from_str(")"),
            Punctuation::LSquare => String::from_str("["),
            Punctuation::RSquare => String::from_str("]"),
            Punctuation::LCurly => String::from_str("{"),
            Punctuation::RCurly => String::from_str("}"),
            Punctuation::Semicolon => String::from_str(";"),
        }
    }
}

/// The display text of a token: the end-of-input marker renders as
/// `<EOF>`, text-carrying tokens render as their text, and keywords
/// and punctuation render as their spelling.
pub open spec fn token_render(t: TokenModel) -> Seq<char> {
    match t {
        TokenModel::EOF => "<EOF>"@,
        TokenModel::Number(s) => s,
        TokenModel::Identifier(s) => s,
        TokenModel::StringLit(s) => s,
        TokenModel::Keyword(k) => keyword_spelling(k),
        TokenModel::Punctuation(p) => punct_spelling(p),
    }
}

impl Token {
    /// The token's display text.
    pub fn render(&self) -> (r: String)
        ensures
            r@ == token_render(self@),
    {
        match self {
            Token::EOF => String::from_str("<EOF>"),
            Token::Number(s) => s.clone(),
            Token::Identifier(s) => s.clone(),
            Token::String(s) => s.clone(),
            Token::Keyword(k) => k.render(),
            Token::Punctuation(p) => p.render(),
        }
    }
}

} // verus!

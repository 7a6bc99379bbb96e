use vstd::prelude::*;
use vstd::string::StringExecFns;
use crate::position::{Position, PositionModel};
use crate::text::{append_decimal, append_str_chars, chars_to_string, dec_str};
use crate::token::{token_render, Token, TokenModel};

verus! {

/// The closed set of diagnostic kinds. The lexical kinds are raised
/// by the lexer itself; the syntactic and semantic kinds exist to be
/// signalled by the external parser and resolver through this same
/// error type.
#[derive(Debug, PartialEq, Clone)]
pub enum SyntaxErrorKind {
    MalformedNumber(String),
    UnknownCharacter(char),
    UnfinishedString,
    UnfinishedMultilineComment,
    ExpectedXButGotY { expected: Token, got: Token },
    ExpectedIdentifierButGotX(Token),
    UnexpectedToken(Token),
    DuplicateFunctionDefinition(String),
    MissingMainFunction,
    UnresolvedName(String),
}

/// Mathematical model of a `SyntaxErrorKind`.
pub ghost enum SyntaxErrorKindModel {
    MalformedNumber(Seq<char>),
    UnknownCharacter(char),
    UnfinishedString,
    UnfinishedMultilineComment,
    ExpectedXButGotY { expected: TokenModel, got: TokenModel },
    ExpectedIdentifierButGotX(TokenModel),
    UnexpectedToken(TokenModel),
    DuplicateFunctionDefinition(Seq<char>),
    MissingMainFunction,
    UnresolvedName(Seq<char>),
}

impl View for SyntaxErrorKind {
    type V = SyntaxErrorKindModel;

    open spec fn view(&self) -> SyntaxErrorKindModel {
        match self {
            SyntaxErrorKind::MalformedNumber(s) => SyntaxErrorKindModel::MalformedNumber(s@),
            SyntaxErrorKind::UnknownCharacter(c) => SyntaxErrorKindModel::UnknownCharacter(*c),
            SyntaxErrorKind::UnfinishedString => SyntaxErrorKindModel::UnfinishedString,
            SyntaxErrorKind::UnfinishedMultilineComment => SyntaxErrorKindModel::UnfinishedMultilineComment,
            SyntaxErrorKind::ExpectedXButGotY { expected, got } => SyntaxErrorKindModel::ExpectedXButGotY {
                expected: expected@,
                got: got@,
            },
            SyntaxErrorKind::ExpectedIdentifierButGotX(t) => SyntaxErrorKindModel::ExpectedIdentifierButGotX(t@),
            SyntaxErrorKind::UnexpectedToken(t) => SyntaxErrorKindModel::UnexpectedToken(t@),
            SyntaxErrorKind::DuplicateFunctionDefinition(s) => SyntaxErrorKindModel::DuplicateFunctionDefinition(s@),
            SyntaxErrorKind::MissingMainFunction => SyntaxErrorKindModel::MissingMainFunction,
            SyntaxErrorKind::UnresolvedName(s) => SyntaxErrorKindModel::UnresolvedName(s@),
        }
    }
}

/// The human message of each error kind.
pub open spec fn kind_message(k: SyntaxErrorKindModel) -> Seq<char> {
    match k {
        SyntaxErrorKindModel::MalformedNumber(s) => "Malformed number: '"@ + s + "'"@,
        SyntaxErrorKindModel::UnknownCharacter(c) => "Unknown character: '"@ + seq![c] + "'"@,
        SyntaxErrorKindModel::UnfinishedString => "Unfinished string"@,
        SyntaxErrorKindModel::UnfinishedMultilineComment => "Unfinished multi-line comment"@,
        SyntaxErrorKindModel::ExpectedXButGotY { expected, got } => "Expected '"@ + token_render(
            expected,
        ) + "' but got '"@ + token_render(got) + "'"@,
        SyntaxErrorKindModel::ExpectedIdentifierButGotX(t) => "Expected identifier but got '"@
            + token_render(t) + "'"@,
        SyntaxErrorKindModel::UnexpectedToken(t) => "Did not expect '"@ + token_render(t)
            + "' here"@,
        SyntaxErrorKindModel::DuplicateFunctionDefinition(n) => "Function '"@ + n
            + "' defined more than once"@,
        SyntaxErrorKindModel::MissingMainFunction => "Program is missing main function"@,
        SyntaxErrorKindModel::UnresolvedName(n) => "Name not found: '"@ + n + "'"@,
    }
}

impl SyntaxErrorKind {
    /// The kind's human message.
    pub fn message(&self) -> (r: String)
        ensures
            r@ == kind_message(self@),
    {
        match self {
            SyntaxErrorKind::MalformedNumber(s) => {
                let mut m = String::from_str("Malformed number: '");
                m.append(s.as_str());
                m.append("'");
                m
            },
            SyntaxErrorKind::UnknownCharacter(c) => {
                let mut cv: Vec<char> = Vec::new();
                cv.push(*c);
                let cs = chars_to_string(cv);
                proof {
                    assert(cs@ =~= seq![*c]);
                }
                let mut m = String::from_str("Unknown character: '");
                m.append(cs.as_str());
                m.append("'");
                m
            },
            SyntaxErrorKind::UnfinishedString => String::from_str("Unfinished string"),
            SyntaxErrorKind::UnfinishedMultilineComment => String::from_str(
                "Unfinished multi-line comment",
            ),
            SyntaxErrorKind::ExpectedXButGotY { expected, got } => {
                let mut m = String::from_str("Expected '");
                let er = expected.render();
                m.append(er.as_str());
                m.append("' but got '");
                let gr = got.render();
                m.append(gr.as_str());
                m.append("'");
                m
            },
            SyntaxErrorKind::ExpectedIdentifierButGotX(t) => {
                let mut m = String::from_str("Expected identifier but got '");
                let tr = t.render();
                m.append(tr.as_str());
                m.append("'");
                m
            },
            SyntaxErrorKind::UnexpectedToken(t) => {
                let mut m = String::from_str("Did not expect '");
                let tr = t.render();
                m.append(tr.as_str());
                m.append("' here");
                m
            },
            SyntaxErrorKind::DuplicateFunctionDefinition(n) => {
                let mut m = String::from_str("Function '");
                m.append(n.as_str());
                m.append("' defined more than once");
                m
            },
            SyntaxErrorKind::MissingMainFunction => String::from_str(
                "Program is missing main function",
            ),
            SyntaxErrorKind::UnresolvedName(n) => {
                let mut m = String::from_str("Name not found: '");
                m.append(n.as_str());
                m.append("'");
                m
            },
        }
    }
}

/// A diagnostic: an error kind anchored at a source position.
#[derive(Debug)]
pub struct SyntaxError {
    pub error: SyntaxErrorKind,
    pub position: Position,
}

/// Mathematical model of a `SyntaxError`.
pub ghost struct SyntaxErrorModel {
    pub error: SyntaxErrorKindModel,
    pub position: PositionModel,
}

impl View for SyntaxError {
    type V = SyntaxErrorModel;

    open spec fn view(&self) -> SyntaxErrorModel {
        SyntaxErrorModel { error: self.error@, position: self.position@ }
    }
}

/// The stable single-line rendering of a diagnostic:
/// `source:line:column: message`, with the line one-based and the
/// column zero-based.
pub open spec fn error_render(e: SyntaxErrorModel) -> Seq<char> {
    e.position.source_name + seq![':'] + dec_str((e.position.line + 1) as nat) + seq![':']
        + dec_str(e.position.column as nat) + seq![':'] + seq![' '] + kind_message(e.error)
}

impl SyntaxError {
    /// The diagnostic's single-line rendering.
    pub fn render(&self) -> (r: String)
        requires
            0 <= self.position@.line < i64::MAX,
            0 <= self.position@.column,
        ensures
            r@ == error_render(self@),
    {
        let mut v: Vec<char> = Vec::new();
        append_str_chars(&mut v, self.position.source_name.as_str());
        push_char(&mut v, ':');
        append_decimal((self.position.line + 1) as u64, &mut v);
        push_char(&mut v, ':');
        append_decimal(self.position.column as u64, &mut v);
        push_char(&mut v, ':');
        push_char(&mut v, ' ');
        let msg = self.error.message();
        append_str_chars(&mut v, msg.as_str());
        chars_to_string(v)
    }
}

fn push_char(out: &mut Vec<char>, c: char)
    ensures
        final(out)@ == old(out)@ + seq![c],
{
    out.push(c);
    proof {
        assert(old(out)@.push(c) =~= old(out)@ + seq![c]);
    }
}

} // verus!

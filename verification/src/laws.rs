use vstd::prelude::*;
use crate::chars::{char_is_whitespace, is_digit_spec, is_name_char_spec};
use crate::lexer::{
    set_prev, spec_advance, spec_block_comment, spec_line_comment, spec_name_body, spec_next,
    spec_number_body, spec_punct, spec_skip_trivia, spec_string, spec_string_body, LexOutcome,
    LexState, name_token_of,
};
use crate::syntax_error::SyntaxErrorKindModel;
use crate::token::{
    keyword_of_spelling, keyword_spelling, punct1_of, punct2_of, punct_of_spelling, punct_spelling,
    Keyword, Punctuation, TokenModel,
};

verus! {

/// Greedy longest match: whenever the punctuation scan starts at a
/// character that spells a symbol on its own and the following
/// character completes a two-character spelling, the scan yields the
/// single two-character symbol — never two one-character tokens —
/// and consumes exactly those two characters.
pub proof fn lemma_longest_valid_punctuation(s: LexState)
    requires
        !s.ended,
        punct1_of(s.current) is Some,
        s.remaining.len() > 0,
        punct2_of(s.current, s.remaining[0]) is Some,
    ensures
        spec_punct(s).out == LexOutcome::Tok(
            TokenModel::Punctuation(punct2_of(s.current, s.remaining[0])->Some_0),
        ),
        spec_punct(s).post == spec_advance(spec_advance(s)),
        s.remaining.len() >= 2 ==> spec_punct(s).post.remaining == s.remaining.skip(2),
{
    if s.remaining.len() >= 2 {
        assert(s.remaining.skip(1).skip(1) =~= s.remaining.skip(2));
    }
}

/// No false merge: whenever the following character completes no
/// two-character spelling, the scan backs off to the one-character
/// symbol it had already matched, and the following character stays
/// unconsumed, loaded as the lookahead for the next call.
pub proof fn lemma_punctuation_backoff(s: LexState)
    requires
        !s.ended,
        punct1_of(s.current) is Some,
        s.remaining.len() > 0 ==> punct2_of(s.current, s.remaining[0]) is None,
    ensures
        spec_punct(s).out == LexOutcome::Tok(
            TokenModel::Punctuation(punct1_of(s.current)->Some_0),
        ),
        spec_punct(s).post == spec_advance(s),
        s.remaining.len() > 0 ==> spec_punct(s).post.current == s.remaining[0]
            && spec_punct(s).post.remaining == s.remaining.skip(1),
{
}

/// Every two-character punctuation spelling extends a valid
/// one-character spelling, so the greedy scan can always reach it.
pub proof fn lemma_two_char_extends_one(c0: char, c1: char)
    ensures
        punct2_of(c0, c1) is Some ==> punct1_of(c0) is Some,
{
}

/// Keyword recognition takes priority over identifier
/// classification: a name run whose spelling is reserved is always a
/// keyword token, and any other name run is always an identifier
/// carrying exactly its characters.
pub proof fn lemma_keyword_precedence(s: Seq<char>)
    ensures
        keyword_of_spelling(s) is Some ==> name_token_of(s) == TokenModel::Keyword(
            keyword_of_spelling(s)->Some_0,
        ),
        keyword_of_spelling(s) is None ==> name_token_of(s) == TokenModel::Identifier(s),
{
}

/// The keyword spelling tables are bidirectional: looking up any
/// keyword's spelling finds that keyword again.
pub proof fn lemma_keyword_spelling_roundtrip(k: Keyword)
    ensures
        keyword_of_spelling(keyword_spelling(k)) == Some(k),
{
    reveal_strlit("if");
    reveal_strlit("elseif");
    reveal_strlit("else");
    reveal_strlit("while");
    reveal_strlit("return");
    reveal_strlit("true");
    reveal_strlit("false");
    reveal_strlit("nil");
    reveal_strlit("func");
    reveal_strlit("var");
}

/// The punctuation spelling tables are bidirectional: looking up any
/// symbol's spelling finds that symbol again.
pub proof fn lemma_punct_spelling_roundtrip(p: Punctuation)
    ensures
        punct_of_spelling(punct_spelling(p)) == Some(p),
{
    reveal_strlit("+");
    reveal_strlit("-");
    reveal_strlit("*");
    reveal_strlit("/");
    reveal_strlit("=");
    reveal_strlit("==");
    reveal_strlit("!=");
    reveal_strlit(">");
    reveal_strlit("<");
    reveal_strlit(">=");
    reveal_strlit("<=");
    reveal_strlit("&");
    reveal_strlit("|");
    reveal_strlit("&&");
    reveal_strlit("||");
    reveal_strlit("!");
    reveal_strlit("..");
    reveal_strlit(".");
    reveal_strlit(",");
    reveal_strlit("(");
    reveal_strlit(")");
    reveal_strlit("[");
    reveal_strlit("]");
    reveal_strlit("{");
    reveal_strlit("}");
    reveal_strlit(";");
}

/// The other direction of the keyword tables: a spelling that looks
/// up to a keyword is that keyword's own spelling.
pub proof fn lemma_keyword_spelling_injective(s: Seq<char>, k: Keyword)
    requires
        keyword_of_spelling(s) == Some(k),
    ensures
        s == keyword_spelling(k),
{
    reveal_strlit("if");
    reveal_strlit("elseif");
    reveal_strlit("else");
    reveal_strlit("while");
    reveal_strlit("return");
    reveal_strlit("true");
    reveal_strlit("false");
    reveal_strlit("nil");
    reveal_strlit("func");
    reveal_strlit("var");
    match k {
        Keyword::If => assert(s =~= "if"@),
        Keyword::ElseIf => assert(s =~= "elseif"@),
        Keyword::Else => assert(s =~= "else"@),
        Keyword::While => assert(s =~= "while"@),
        Keyword::Return => assert(s =~= "return"@),
        Keyword::True => assert(s =~= "true"@),
        Keyword::False => assert(s =~= "false"@),
        Keyword::Nil => assert(s =~= "nil"@),
        Keyword::Func => assert(s =~= "func"@),
        Keyword::Var => assert(s =~= "var"@),
    }
}

/// Trivia skipping reports an error — always the unfinished block
/// comment — only once the input is exhausted.
pub proof fn lemma_skip_trivia_fail_at_end(s: LexState)
    ensures
        ({
            let (early, post) = spec_skip_trivia(s);
            match early {
                Some(LexOutcome::Fail(k, l, c)) => k
                    == SyntaxErrorKindModel::UnfinishedMultilineComment && post.ended,
                _ => true,
            }
        }),
    decreases s.remaining.len(), (if s.ended { 0int } else { 1int }), 0int,
{
    if s.ended {
    } else if char_is_whitespace(s.current) {
        lemma_skip_trivia_fail_at_end(spec_advance(s));
    } else if s.current == '/' {
        let s1 = spec_advance(s);
        if s1.current == '/' {
            lemma_line_comment_fail_at_end(s1);
        } else if s1.current == '*' {
            lemma_block_comment_fail_at_end(s1, s.line, s.column);
        }
    }
}

/// A line comment can produce an error only through the skipping
/// that follows it, so only at the end of input.
pub proof fn lemma_line_comment_fail_at_end(s: LexState)
    ensures
        ({
            let (early, post) = spec_line_comment(s);
            match early {
                Some(LexOutcome::Fail(k, l, c)) => k
                    == SyntaxErrorKindModel::UnfinishedMultilineComment && post.ended,
                _ => true,
            }
        }),
    decreases s.remaining.len(), (if s.ended { 0int } else { 1int }), 1int,
{
    if s.ended || s.current == '\n' {
        lemma_skip_trivia_fail_at_end(s);
    } else {
        lemma_line_comment_fail_at_end(spec_advance(s));
    }
}

/// An unfinished block comment is reported only once the input is
/// exhausted.
pub proof fn lemma_block_comment_fail_at_end(s: LexState, anchor_line: int, anchor_column: int)
    ensures
        ({
            let (early, post) = spec_block_comment(s, anchor_line, anchor_column);
            match early {
                Some(LexOutcome::Fail(k, l, c)) => k
                    == SyntaxErrorKindModel::UnfinishedMultilineComment && post.ended,
                _ => true,
            }
        }),
    decreases s.remaining.len(), (if s.ended { 0int } else { 1int }), 1int,
{
    let s1 = spec_advance(s);
    if s1.current == '*' {
        let s2 = spec_advance(s1);
        if s2.current == '/' {
            lemma_skip_trivia_fail_at_end(spec_advance(s2));
        } else if !s2.ended {
            lemma_block_comment_fail_at_end(s2, anchor_line, anchor_column);
        }
    } else if !s1.ended {
        lemma_block_comment_fail_at_end(s1, anchor_line, anchor_column);
    }
}

/// An unfinished string is reported only once the input is
/// exhausted.
pub proof fn lemma_string_fail_at_end(s: LexState, acc: Seq<char>, anchor_line: int, anchor_column: int)
    ensures
        ({
            let n = spec_string_body(s, acc, anchor_line, anchor_column);
            match n.out {
                LexOutcome::Fail(k, l, c) => k == SyntaxErrorKindModel::UnfinishedString
                    && n.post.ended,
                _ => true,
            }
        }),
    decreases s.remaining.len(), (if s.ended { 0int } else { 1int }),
{
    if s.current != '"' {
        let s1 = spec_advance(s);
        if !s1.ended {
            lemma_string_fail_at_end(s1, acc.push(s.current), anchor_line, anchor_column);
        }
    }
}

/// The other direction of the punctuation tables: a spelling that
/// looks up to a symbol is that symbol's own spelling.
pub proof fn lemma_punct_spelling_injective(s: Seq<char>, p: Punctuation)
    requires
        punct_of_spelling(s) == Some(p),
    ensures
        s == punct_spelling(p),
{
    reveal_strlit("+");
    reveal_strlit("-");
    reveal_strlit("*");
    reveal_strlit("/");
    reveal_strlit("=");
    reveal_strlit("==");
    reveal_strlit("!=");
    reveal_strlit(">");
    reveal_strlit("<");
    reveal_strlit(">=");
    reveal_strlit("<=");
    reveal_strlit("&");
    reveal_strlit("|");
    reveal_strlit("&&");
    reveal_strlit("||");
    reveal_strlit("!");
    reveal_strlit("..");
    reveal_strlit(".");
    reveal_strlit(",");
    reveal_strlit("(");
    reveal_strlit(")");
    reveal_strlit("[");
    reveal_strlit("]");
    reveal_strlit("{");
    reveal_strlit("}");
    reveal_strlit(";");
    match p {
        Punctuation::Plus => assert(s =~= "+"@),
        Punctuation::Minus => assert(s =~= "-"@),
        Punctuation::Asterisk => assert(s =~= "*"@),
        Punctuation::Slash => assert(s =~= "/"@),
        Punctuation::Assign => assert(s =~= "="@),
        Punctuation::Equal => assert(s =~= "=="@),
        Punctuation::NotEqual => assert(s =~= "!="@),
        Punctuation::Greater => assert(s =~= ">"@),
        Punctuation::Less => assert(s =~= "<"@),
        Punctuation::GEqual => assert(s =~= ">="@),
        Punctuation::LEqual => assert(s =~= "<="@),
        Punctuation::And => assert(s =~= "&"@),
        Punctuation::Or => assert(s =~= "|"@),
        Punctuation::BooleanAnd => assert(s =~= "&&"@),
        Punctuation::BooleanOr => assert(s =~= "||"@),
        Punctuation::Exclamation => assert(s =~= "!"@),
        Punctuation::Concat => assert(s =~= ".."@),
        Punctuation::Dot => assert(s =~= "."@),
        Punctuation::Comma => assert(s =~= ","@),
        Punctuation::LParen => assert(s =~= "("@),
        Punctuation::RParen => assert(s =~= ")"@),
        Punctuation::LSquare => assert(s =~= "["@),
        Punctuation::RSquare => assert(s =~= "]"@),
        Punctuation::LCurly => assert(s =~= "{"@),
        Punctuation::RCurly => assert(s =~= "}"@),
        Punctuation::Semicolon => assert(s =~= ";"@),
    }
}

/// The only error a number scan can report is a malformed number.
pub proof fn lemma_number_fail_is_malformed(s: LexState, acc: Seq<char>, anchor_line: int, anchor_column: int)
    ensures
        ({
            let n = spec_number_body(s, acc, anchor_line, anchor_column);
            match n.out {
                LexOutcome::Fail(k, l, c) => k is MalformedNumber,
                _ => true,
            }
        }),
    decreases s.remaining.len(), (if s.ended { 0int } else { 1int }),
{
    if !s.ended && (is_digit_spec(s.current) || s.current == '.') {
        lemma_number_fail_is_malformed(
            spec_advance(s),
            acc.push(s.current),
            anchor_line,
            anchor_column,
        );
    }
}

/// A name scan always yields a token, never an error.
pub proof fn lemma_name_yields_token(s: LexState, acc: Seq<char>)
    ensures
        spec_name_body(s, acc).out is Tok,
    decreases s.remaining.len(), (if s.ended { 0int } else { 1int }),
{
    if !s.ended && is_name_char_spec(s.current) {
        lemma_name_yields_token(spec_advance(s), acc.push(s.current));
    }
}

/// Unterminated constructs occur only when the input is fully
/// exhausted: whenever `next` reports an unfinished string or an
/// unfinished block comment, the lexer stands at the end of input
/// and no further meaningful token can follow.
pub proof fn lemma_unterminated_means_end(s: LexState)
    ensures
        ({
            let n = spec_next(s);
            match n.out {
                LexOutcome::Fail(k, l, c) => (k == SyntaxErrorKindModel::UnfinishedString || k
                    == SyntaxErrorKindModel::UnfinishedMultilineComment) ==> n.post.ended,
                _ => true,
            }
        }),
{
    lemma_skip_trivia_fail_at_end(s);
    let (early, s0) = spec_skip_trivia(s);
    if early is None {
        let s1 = set_prev(s0);
        if !s1.ended {
            if s1.current == '"' {
                lemma_string_fail_at_end(spec_advance(s1), Seq::empty(), s1.line, s1.column);
            } else if is_digit_spec(s1.current) {
                lemma_number_fail_is_malformed(s1, Seq::empty(), s1.line, s1.column);
            } else if is_name_char_spec(s1.current) {
                lemma_name_yields_token(s1, Seq::empty());
            }
        }
    }
}

/// Idempotent end of input: once the input is exhausted, a call to
/// `next` yields the EOF token, only snapshots the token-start
/// position, and from then on every further call yields EOF again
/// and changes nothing at all.
pub proof fn lemma_eof_idempotent(s: LexState)
    requires
        s.ended,
    ensures
        spec_next(s).out == LexOutcome::Tok(TokenModel::EOF),
        spec_next(s).post == set_prev(s),
        spec_next(spec_next(s).post).out == LexOutcome::Tok(TokenModel::EOF),
        spec_next(spec_next(s).post).post == spec_next(s).post,
{
}

} // verus!

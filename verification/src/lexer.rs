use vstd::prelude::*;
use vstd::pervasive::unreached;
use crate::chars::{
    char_is_whitespace, is_digit_char, is_digit_spec, is_name_char, is_name_char_spec,
    is_whitespace_char,
};
use crate::position::Position;
use crate::syntax_error::{SyntaxError, SyntaxErrorKind, SyntaxErrorKindModel};
use crate::text::{chars_to_string, string_to_chars};
use crate::token::{
    keyword_from_chars, keyword_of_spelling, punct1_of, punct2_of, punct_double, punct_single,
    Punctuation, Token, TokenModel,
};

verus! {

/// A pull-based character source: one method that produces the next
/// character or signals exhaustion. Any backing store can implement
/// it; `remaining` is the sequence of characters it has yet to yield.
pub trait CharSource {
    spec fn remaining(&self) -> Seq<char>;

    fn next_char(&mut self) -> (r: Option<char>)
        ensures
            old(self).remaining().len() == 0 ==> r is None
                && final(self).remaining() == old(self).remaining(),
            old(self).remaining().len() > 0 ==> r == Some(old(self).remaining()[0])
                && final(self).remaining() == old(self).remaining().skip(1),
    ;
}

/// An in-memory character source over a vector of characters.
pub struct TextSource {
    chars: Vec<char>,
    index: usize,
}

impl TextSource {
    /// A source that yields the given characters in order.
    pub fn new(chars: Vec<char>) -> (r: TextSource)
        ensures
            r.remaining() == chars@,
    {
        let r = TextSource { chars, index: 0 };
        proof {
            assert(r.remaining() =~= r.chars@);
        }
        r
    }

    /// A source that yields the characters of the given text in order.
    pub fn from_text(s: &str) -> (r: TextSource)
        ensures
            r.remaining() == s@,
    {
        TextSource::new(string_to_chars(s))
    }
}

impl CharSource for TextSource {
    closed spec fn remaining(&self) -> Seq<char> {
        if self.index as int <= self.chars@.len() {
            self.chars@.skip(self.index as int)
        } else {
            Seq::empty()
        }
    }

    fn next_char(&mut self) -> (r: Option<char>) {
        if self.index < self.chars.len() {
            let c = self.chars[self.index];
            self.index = self.index + 1;
            proof {
                assert(final(self).remaining() =~= old(self).remaining().skip(1));
            }
            Some(c)
        } else {
            None
        }
    }
}

/// Mathematical model of a lexer's state: the characters not yet
/// read, the one-character lookahead, the end flag, and the current
/// and previous positions as unbounded integers.
pub ghost struct LexState {
    pub remaining: Seq<char>,
    pub current: char,
    pub ended: bool,
    pub line: int,
    pub column: int,
    pub prev_line: int,
    pub prev_column: int,
}

/// One character advance: column grows on every read, a newline
/// bumps the line and resets the column for the next character, and
/// reading past the end sets the end flag with a sentinel lookahead.
/// Advancing after the end changes nothing.
pub open spec fn spec_advance(s: LexState) -> LexState {
    if s.ended {
        s
    } else if s.remaining.len() == 0 {
        LexState { ended: true, current: '\0', column: s.column + 1, ..s }
    } else if s.remaining[0] == '\n' {
        LexState {
            remaining: s.remaining.skip(1),
            current: '\n',
            line: s.line + 1,
            column: 0,
            ..s
        }
    } else {
        LexState {
            remaining: s.remaining.skip(1),
            current: s.remaining[0],
            column: s.column + 1,
            ..s
        }
    }
}

/// Snapshots the current position as the start of the token about to
/// be produced.
pub open spec fn set_prev(s: LexState) -> LexState {
    LexState { prev_line: s.line, prev_column: s.column, ..s }
}

/// The state a fresh lexer is in before its constructor reads the
/// first character.
pub open spec fn initial_state(input: Seq<char>) -> LexState {
    LexState {
        remaining: input,
        current: '\0',
        ended: false,
        line: 0,
        column: 0,
        prev_line: 0,
        prev_column: 0,
    }
}

/// What one call to `next` produces: a token, or an error kind
/// anchored at a line and column.
pub ghost enum LexOutcome {
    Tok(TokenModel),
    Fail(SyntaxErrorKindModel, int, int),
}

/// The result of one lexing step: its outcome and the state left
/// behind.
pub ghost struct LexNext {
    pub out: LexOutcome,
    pub post: LexState,
}

/// Bound used to show that skipping trivia consumes input.
pub open spec fn trivia_measure(s: LexState) -> int {
    s.remaining.len() + if s.ended {
        0int
    } else {
        1int
    }
}

/// The whitespace-and-comment skipping phase. Whitespace characters
/// are consumed; a `/` is inspected one character further: a second
/// `/` opens a line comment, a `*` opens a block comment, and any
/// other character means the `/` was a lone division sign, which is
/// returned at once as a token. The phase ends at the first
/// non-trivia character or at the end of input.
pub open spec fn spec_skip_trivia(s: LexState) -> (Option<LexOutcome>, LexState)
    decreases s.remaining.len(), (if s.ended { 0int } else { 1int }), 0int,
{
    if s.ended {
        (None, s)
    } else if char_is_whitespace(s.current) {
        spec_skip_trivia(spec_advance(s))
    } else if s.current == '/' {
        let s1 = spec_advance(s);
        if s1.current == '/' {
            spec_line_comment(s1)
        } else if s1.current == '*' {
            spec_block_comment(s1, s.line, s.column)
        } else {
            (Some(LexOutcome::Tok(TokenModel::Punctuation(Punctuation::Slash))), s1)
        }
    } else {
        (None, s)
    }
}

/// A line comment: consumed through the next newline or the end of
/// input, after which trivia skipping resumes.
pub open spec fn spec_line_comment(s: LexState) -> (Option<LexOutcome>, LexState)
    decreases s.remaining.len(), (if s.ended { 0int } else { 1int }), 1int,
{
    if s.ended || s.current == '\n' {
        spec_skip_trivia(s)
    } else {
        spec_line_comment(spec_advance(s))
    }
}

/// A block comment: consumed through the closing `*/`, after which
/// trivia skipping resumes; reaching the end of input first fails
/// with an unfinished-comment error anchored at the opening `/`.
pub open spec fn spec_block_comment(s: LexState, anchor_line: int, anchor_column: int) -> (
    Option<LexOutcome>,
    LexState,
)
    decreases s.remaining.len(), (if s.ended { 0int } else { 1int }), 1int,
{
    let s1 = spec_advance(s);
    if s1.current == '*' {
        let s2 = spec_advance(s1);
        if s2.current == '/' {
            spec_skip_trivia(spec_advance(s2))
        } else if s2.ended {
            (
                Some(
                    LexOutcome::Fail(
                        SyntaxErrorKindModel::UnfinishedMultilineComment,
                        anchor_line,
                        anchor_column,
                    ),
                ),
                s2,
            )
        } else {
            spec_block_comment(s2, anchor_line, anchor_column)
        }
    } else if s1.ended {
        (
            Some(
                LexOutcome::Fail(
                    SyntaxErrorKindModel::UnfinishedMultilineComment,
                    anchor_line,
                    anchor_column,
                ),
            ),
            s1,
        )
    } else {
        spec_block_comment(s1, anchor_line, anchor_column)
    }
}

/// A string literal: raw accumulation of every character up to the
/// closing quote, with no escape processing; reaching the end of
/// input first fails with an unfinished-string error anchored at the
/// opening quote.
pub open spec fn spec_string_body(s: LexState, acc: Seq<char>, anchor_line: int, anchor_column: int) -> LexNext
    decreases s.remaining.len(), (if s.ended { 0int } else { 1int }),
{
    if s.current == '"' {
        LexNext { out: LexOutcome::Tok(TokenModel::StringLit(acc)), post: spec_advance(s) }
    } else {
        let s1 = spec_advance(s);
        if s1.ended {
            LexNext {
                out: LexOutcome::Fail(
                    SyntaxErrorKindModel::UnfinishedString,
                    anchor_line,
                    anchor_column,
                ),
                post: s1,
            }
        } else {
            spec_string_body(s1, acc.push(s.current), anchor_line, anchor_column)
        }
    }
}

/// The string-literal scan, entered at the opening quote.
pub open spec fn spec_string(s: LexState) -> LexNext {
    spec_string_body(spec_advance(s), Seq::empty(), s.line, s.column)
}

/// How many dots a character run holds.
pub open spec fn count_dots(s: Seq<char>) -> int
    decreases s.len(),
{
    if s.len() == 0 {
        0
    } else {
        count_dots(s.drop_last()) + if s.last() == '.' {
            1int
        } else {
            0int
        }
    }
}

/// A number literal's spelling is well formed when it holds at most
/// one dot; with its leading digit that makes it exactly the runs a
/// 64-bit floating-point parse accepts.
pub open spec fn number_well_formed(s: Seq<char>) -> bool {
    count_dots(s) <= 1
}

/// A number literal: the maximal run of digits and dots, yielding a
/// number token when well formed and a malformed-number error,
/// carrying the run, anchored at the first digit otherwise.
pub open spec fn spec_number_body(s: LexState, acc: Seq<char>, anchor_line: int, anchor_column: int) -> LexNext
    decreases s.remaining.len(), (if s.ended { 0int } else { 1int }),
{
    if !s.ended && (is_digit_spec(s.current) || s.current == '.') {
        spec_number_body(spec_advance(s), acc.push(s.current), anchor_line, anchor_column)
    } else {
        if number_well_formed(acc) {
            LexNext { out: LexOutcome::Tok(TokenModel::Number(acc)), post: s }
        } else {
            LexNext {
                out: LexOutcome::Fail(
                    SyntaxErrorKindModel::MalformedNumber(acc),
                    anchor_line,
                    anchor_column,
                ),
                post: s,
            }
        }
    }
}

/// The number scan, entered at the first digit.
pub open spec fn spec_number(s: LexState) -> LexNext {
    spec_number_body(s, Seq::empty(), s.line, s.column)
}

/// The classification of a name run: a keyword when its spelling is
/// reserved, an identifier otherwise. Keyword recognition always
/// takes priority.
pub open spec fn name_token_of(acc: Seq<char>) -> TokenModel {
    match keyword_of_spelling(acc) {
        Some(k) => TokenModel::Keyword(k),
        None => TokenModel::Identifier(acc),
    }
}

/// An identifier or keyword: the maximal run of name characters,
/// classified by spelling.
pub open spec fn spec_name_body(s: LexState, acc: Seq<char>) -> LexNext
    decreases s.remaining.len(), (if s.ended { 0int } else { 1int }),
{
    if !s.ended && is_name_char_spec(s.current) {
        spec_name_body(spec_advance(s), acc.push(s.current))
    } else {
        LexNext { out: LexOutcome::Tok(name_token_of(acc)), post: s }
    }
}

/// The name scan, entered at the first name character.
pub open spec fn spec_name(s: LexState) -> LexNext {
    spec_name_body(s, Seq::empty())
}

/// A punctuation token: greedy longest match. The one-character
/// spelling at the current character is extended to a two-character
/// spelling when the next character completes one (no spelling in the
/// table is longer); when extension fails the one-character token
/// stands and the failing character is left unconsumed.
pub open spec fn spec_punct(s: LexState) -> LexNext {
    let c0 = s.current;
    let s1 = spec_advance(s);
    if punct2_of(c0, s1.current) is Some {
        LexNext {
            out: LexOutcome::Tok(TokenModel::Punctuation(punct2_of(c0, s1.current)->Some_0)),
            post: spec_advance(s1),
        }
    } else {
        LexNext {
            out: LexOutcome::Tok(TokenModel::Punctuation(punct1_of(c0)->Some_0)),
            post: s1,
        }
    }
}

/// One full call to `next`: trivia skipping (which may itself produce
/// a division token or an unfinished-comment error), then the start
/// position is snapshotted, then end-of-input yields the EOF token,
/// and otherwise the first matching rule of string, number, name and
/// punctuation runs; any other character fails as unknown.
pub open spec fn spec_next(s: LexState) -> LexNext {
    let (early, s0) = spec_skip_trivia(s);
    if early is Some {
        LexNext { out: early->Some_0, post: s0 }
    } else {
        let s1 = set_prev(s0);
        if s1.ended {
            LexNext { out: LexOutcome::Tok(TokenModel::EOF), post: s1 }
        } else if s1.current == '"' {
            spec_string(s1)
        } else if is_digit_spec(s1.current) {
            spec_number(s1)
        } else if is_name_char_spec(s1.current) {
            spec_name(s1)
        } else if punct1_of(s1.current) is Some {
            spec_punct(s1)
        } else {
            LexNext {
                out: LexOutcome::Fail(
                    SyntaxErrorKindModel::UnknownCharacter(s1.current),
                    s1.line,
                    s1.column,
                ),
                post: s1,
            }
        }
    }
}

/// Well-formedness of a lexer state: positions are nonnegative, the
/// end flag pins the sentinel lookahead and an empty remainder, and
/// enough headroom remains below the position type's bound for every
/// advance still to come.
pub open spec fn state_wf(s: LexState) -> bool {
    &&& 0 <= s.line
    &&& 0 <= s.column
    &&& 0 <= s.prev_line
    &&& 0 <= s.prev_column
    &&& s.prev_line + s.prev_column + 1 <= i64::MAX
    &&& if s.ended {
        s.remaining.len() == 0 && s.current == '\0' && s.line + s.column + 1 <= i64::MAX
    } else {
        s.line + s.column + s.remaining.len() + 2 <= i64::MAX
    }
}

/// Whether an executable result agrees with a modelled outcome, with
/// errors carrying the lexer's source name.
pub open spec fn res_matches(r: Result<Token, SyntaxError>, out: LexOutcome, src: Seq<char>) -> bool {
    match out {
        LexOutcome::Tok(t) => r is Ok && r->Ok_0@ == t,
        LexOutcome::Fail(k, line, col) => r is Err && r->Err_0@.error == k && r->Err_0@.position.line
            == line && r->Err_0@.position.column == col && r->Err_0@.position.source_name == src,
    }
}

/// Whether an optional executable result agrees with an optional
/// modelled outcome.
pub open spec fn early_matches(
    r: Option<Result<Token, SyntaxError>>,
    early: Option<LexOutcome>,
    src: Seq<char>,
) -> bool {
    match early {
        Some(out) => r is Some && res_matches(r->Some_0, out, src),
        None => r is None,
    }
}

/// The lexical scanner: consumes a character source one character at
/// a time, keeps a one-character lookahead and the current position,
/// and produces one token or one error per call to `next`.
pub struct Lexer<S: CharSource> {
    source: S,
    source_name: String,
    position: Position,
    previous_position: Position,
    current_char: char,
    reached_end: bool,
}

impl<S: CharSource> Lexer<S> {
    /// The lexer's mathematical state.
    pub closed spec fn state(&self) -> LexState {
        LexState {
            remaining: self.source.remaining(),
            current: self.current_char,
            ended: self.reached_end,
            line: self.position.line as int,
            column: self.position.column as int,
            prev_line: self.previous_position.line as int,
            prev_column: self.previous_position.column as int,
        }
    }

    /// The source name the lexer tags tokens and errors with.
    pub closed spec fn src(&self) -> Seq<char> {
        self.source_name@
    }

    /// Well-formedness: the state is well formed and both stored
    /// positions carry the lexer's own source name.
    pub closed spec fn wf(&self) -> bool {
        &&& state_wf(self.state())
        &&& self.position.source_name@ == self.source_name@
        &&& self.previous_position.source_name@ == self.source_name@
    }

    /// A lexer over the given source, labelled with a source name for
    /// diagnostics. Construction performs exactly one character
    /// advance, so the first call to `next` sees the first character.
    pub fn new(source: S, source_name: String) -> (r: Lexer<S>)
        requires
            source.remaining().len() + 2 <= i64::MAX,
        ensures
            r.wf(),
            r.src() == source_name@,
            r.state() == spec_advance(initial_state(source.remaining())),
    {
        let mut l = Lexer {
            source,
            position: Position { line: 0, column: 0, source_name: source_name.clone() },
            previous_position: Position { line: 0, column: 0, source_name: source_name.clone() },
            source_name,
            current_char: '\0',
            reached_end: false,
        };
        l.advance_char();
        l
    }

    /// Reads one character from the source into the lookahead,
    /// advancing the position; at the end of input it sets the end
    /// flag instead, and after that it does nothing.
    fn advance_char(&mut self)
        requires
            old(self).wf(),
        ensures
            final(self).wf(),
            final(self).state() == spec_advance(old(self).state()),
            final(self).src() == old(self).src(),
    {
        if self.reached_end {
            return;
        }
        let c = self.source.next_char();
        self.position.column = self.position.column + 1;
        match c {
            None => {
                self.reached_end = true;
                self.current_char = '\0';
            },
            Some(c) => {
                if c == '\n' {
                    self.position.line = self.position.line + 1;
                    self.position.column = 0;
                }
                self.current_char = c;
            },
        }
    }

    /// Whether the end of input has been reached.
    pub fn reached_end(&self) -> (r: bool)
        ensures
            r == self.state().ended,
    {
        self.reached_end
    }

    /// The source name, as given at construction.
    pub fn source_name(&self) -> (r: String)
        ensures
            r@ == self.src(),
    {
        self.source_name.clone()
    }

    /// The position after the most recently consumed character.
    pub fn position(&self) -> (r: Position)
        requires
            self.wf(),
        ensures
            r@.line == self.state().line,
            r@.column == self.state().column,
            r@.source_name == self.src(),
    {
        self.position.duplicate()
    }

    /// The position at which the most recently returned token
    /// started.
    pub fn previous_position(&self) -> (r: Position)
        requires
            self.wf(),
        ensures
            r@.line == self.state().prev_line,
            r@.column == self.state().prev_column,
            r@.source_name == self.src(),
    {
        self.previous_position.duplicate()
    }

    /// Skips whitespace and comments; a lone `/` that opens no
    /// comment is returned at once as a division token, and an
    /// unterminated block comment is returned as an error.
    #[verifier::loop_isolation(false)]
    fn skip_trivia(&mut self) -> (r: Option<Result<Token, SyntaxError>>)
        requires
            old(self).wf(),
        ensures
            final(self).wf(),
            final(self).src() == old(self).src(),
            final(self).state() == spec_skip_trivia(old(self).state()).1,
            early_matches(r, spec_skip_trivia(old(self).state()).0, final(self).src()),
    {
        let ghost s0 = self.state();
        let ghost n0 = self.source_name@;
        let ghost target = spec_skip_trivia(s0);
        while !self.reached_end
            invariant
                self.wf(),
                self.source_name@ == n0,
                spec_skip_trivia(self.state()) == target,
            decreases trivia_measure(self.state()),
        {
            let ghost h = self.state();
            if is_whitespace_char(self.current_char) {
                self.advance_char();
            } else if self.current_char == '/' {
                let anchor_line = self.position.line;
                let anchor_column = self.position.column;
                self.advance_char();
                if self.current_char == '/' {
                    let ghost m1 = trivia_measure(self.state());
                    while !(self.current_char == '\n' || self.reached_end)
                        invariant
                            self.wf(),
                            self.source_name@ == n0,
                            spec_line_comment(self.state()) == target,
                            trivia_measure(self.state()) <= m1,
                            m1 < trivia_measure(h),
                        decreases trivia_measure(self.state()),
                    {
                        self.advance_char();
                    }
                } else if self.current_char == '*' {
                    let ghost m1 = trivia_measure(self.state());
                    let mut comment_closed = false;
                    while !comment_closed
                        invariant
                            self.wf(),
                            self.source_name@ == n0,
                            trivia_measure(self.state()) <= m1,
                            m1 < trivia_measure(h),
                            !comment_closed ==> !self.state().ended && spec_block_comment(
                                self.state(),
                                anchor_line as int,
                                anchor_column as int,
                            ) == target,
                            comment_closed ==> spec_skip_trivia(self.state()) == target,
                        decreases self.state().remaining.len(),
                    {
                        self.advance_char();
                        if self.current_char == '*' {
                            self.advance_char();
                            if self.current_char == '/' {
                                self.advance_char();
                                comment_closed = true;
                            }
                        }
                        if !comment_closed && self.reached_end {
                            return Some(
                                Err(
                                    SyntaxError {
                                        error: SyntaxErrorKind::UnfinishedMultilineComment,
                                        position: Position {
                                            line: anchor_line,
                                            column: anchor_column,
                                            source_name: self.source_name.clone(),
                                        },
                                    },
                                ),
                            );
                        }
                    }
                } else {
                    return Some(Ok(Token::Punctuation(Punctuation::Slash)));
                }
            } else {
                break;
            }
        }
        None
    }

    /// Scans a string literal, entered at the opening quote.
    #[verifier::loop_isolation(false)]
    fn scan_string(&mut self) -> (r: Result<Token, SyntaxError>)
        requires
            old(self).wf(),
            !old(self).state().ended,
            old(self).state().current == '"',
        ensures
            final(self).wf(),
            final(self).src() == old(self).src(),
            final(self).state() == spec_string(old(self).state()).post,
            res_matches(r, spec_string(old(self).state()).out, final(self).src()),
    {
        let ghost s0 = self.state();
        let ghost n0 = self.source_name@;
        let anchor_line = self.position.line;
        let anchor_column = self.position.column;
        let mut acc: Vec<char> = Vec::new();
        self.advance_char();
        loop
            invariant
                self.wf(),
                self.source_name@ == n0,
                spec_string_body(self.state(), acc@, anchor_line as int, anchor_column as int)
                    == spec_string(s0),
            decreases self.state().remaining.len() + (if self.state().ended { 0int } else { 1int }),
        {
            if self.current_char == '"' {
                self.advance_char();
                return Ok(Token::String(chars_to_string(acc)));
            }
            acc.push(self.current_char);
            self.advance_char();
            if self.reached_end {
                return Err(
                    SyntaxError {
                        error: SyntaxErrorKind::UnfinishedString,
                        position: Position {
                            line: anchor_line,
                            column: anchor_column,
                            source_name: self.source_name.clone(),
                        },
                    },
                );
            }
        }
    }

    /// Scans a number literal, entered at its first digit.
    #[verifier::loop_isolation(false)]
    fn scan_number(&mut self) -> (r: Result<Token, SyntaxError>)
        requires
            old(self).wf(),
            !old(self).state().ended,
            is_digit_spec(old(self).state().current),
        ensures
            final(self).wf(),
            final(self).src() == old(self).src(),
            final(self).state() == spec_number(old(self).state()).post,
            res_matches(r, spec_number(old(self).state()).out, final(self).src()),
    {
        let ghost s0 = self.state();
        let ghost n0 = self.source_name@;
        let anchor_line = self.position.line;
        let anchor_column = self.position.column;
        let mut acc: Vec<char> = Vec::new();
        let mut dots: usize = 0;
        loop
            invariant
                self.wf(),
                self.source_name@ == n0,
                dots <= acc@.len(),
                dots as int == count_dots(acc@),
                spec_number_body(self.state(), acc@, anchor_line as int, anchor_column as int)
                    == spec_number(s0),
            decreases self.state().remaining.len() + (if self.state().ended { 0int } else { 1int }),
        {
            let c = self.current_char;
            let continues = is_digit_char(c) || c == '.';
            if !continues {
                break;
            }
            let ghost a0 = acc@;
            acc.push(c);
            proof {
                assert(acc@.drop_last() =~= a0);
            }
            if c == '.' {
                let n = acc.len();
                proof {
                    assert(dots < n);
                }
                dots = dots + 1;
            }
            self.advance_char();
        }
        if dots <= 1 {
            Ok(Token::Number(chars_to_string(acc)))
        } else {
            Err(
                SyntaxError {
                    error: SyntaxErrorKind::MalformedNumber(chars_to_string(acc)),
                    position: Position {
                        line: anchor_line,
                        column: anchor_column,
                        source_name: self.source_name.clone(),
                    },
                },
            )
        }
    }

    /// Scans an identifier or keyword, entered at its first name
    /// character.
    #[verifier::loop_isolation(false)]
    fn scan_name(&mut self) -> (t: Token)
        requires
            old(self).wf(),
        ensures
            final(self).wf(),
            final(self).src() == old(self).src(),
            final(self).state() == spec_name(old(self).state()).post,
            spec_name(old(self).state()).out == LexOutcome::Tok(t@),
    {
        let ghost s0 = self.state();
        let ghost n0 = self.source_name@;
        let mut acc: Vec<char> = Vec::new();
        loop
            invariant
                self.wf(),
                self.source_name@ == n0,
                spec_name_body(self.state(), acc@) == spec_name(s0),
            decreases self.state().remaining.len() + (if self.state().ended { 0int } else { 1int }),
        {
            if self.reached_end {
                break;
            }
            let c = self.current_char;
            if !is_name_char(c) {
                break;
            }
            acc.push(c);
            self.advance_char();
        }
        match keyword_from_chars(&acc) {
            Some(k) => Token::Keyword(k),
            None => Token::Identifier(chars_to_string(acc)),
        }
    }

    /// Scans a punctuation token by greedy longest match, entered at
    /// a character that spells a punctuation symbol on its own.
    fn scan_punctuation(&mut self) -> (t: Token)
        requires
            old(self).wf(),
            !old(self).state().ended,
            punct1_of(old(self).state().current) is Some,
        ensures
            final(self).wf(),
            final(self).src() == old(self).src(),
            final(self).state() == spec_punct(old(self).state()).post,
            spec_punct(old(self).state()).out == LexOutcome::Tok(t@),
    {
        let c0 = self.current_char;
        let p1 = punct_single(c0);
        self.advance_char();
        match punct_double(c0, self.current_char) {
            Some(p) => {
                self.advance_char();
                Token::Punctuation(p)
            },
            None => match p1 {
                Some(p) => Token::Punctuation(p),
                None => unreached(),
            },
        }
    }

    /// Produces the next token, or an error terminal for this call.
    /// The whole behaviour — trivia skipping, the division-sign
    /// special case, end-of-input, string, number, name and
    /// punctuation scanning, position bookkeeping and error
    /// anchoring — is pinned down by `spec_next` on the lexer's
    /// modelled state. After the end of input every call returns the
    /// EOF token and leaves the state unchanged.
    pub fn next(&mut self) -> (r: Result<Token, SyntaxError>)
        requires
            old(self).wf(),
        ensures
            final(self).wf(),
            final(self).src() == old(self).src(),
            final(self).state() == spec_next(old(self).state()).post,
            res_matches(r, spec_next(old(self).state()).out, final(self).src()),
    {
        let early = self.skip_trivia();
        match early {
            Some(r) => {
                return r;
            },
            None => {},
        }
        let p = self.position.duplicate();
        self.previous_position = p;
        if self.reached_end {
            return Ok(Token::EOF);
        }
        let c = self.current_char;
        if c == '"' {
            self.scan_string()
        } else if is_digit_char(c) {
            self.scan_number()
        } else if is_name_char(c) {
            Ok(self.scan_name())
        } else {
            match punct_single(c) {
                Some(_) => Ok(self.scan_punctuation()),
                None => Err(
                    SyntaxError {
                        error: SyntaxErrorKind::UnknownCharacter(c),
                        position: Position {
                            line: self.position.line,
                            column: self.position.column,
                            source_name: self.source_name.clone(),
                        },
                    },
                ),
            }
        }
    }
}

} // verus!

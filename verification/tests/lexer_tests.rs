use lang_front::lexer::{Lexer, TextSource};
use lang_front::syntax_error::SyntaxErrorKind;
use lang_front::token::Keyword::{ElseIf, Else, False, Func, If, Nil, Return, True, Var, While};
use lang_front::token::Punctuation::{
    Assign, Asterisk, BooleanAnd, BooleanOr, Concat, Dot, Equal, GEqual, Greater, LCurly, LEqual,
    LParen, LSquare, Less, Minus, NotEqual, Plus, RCurly, RParen, RSquare, Slash,
};
use lang_front::token::Token;
use lang_front::token::Token::{Identifier, Keyword, Number, Punctuation, String, EOF};

fn lexer_for(code: &str) -> Lexer<TextSource> {
    Lexer::new(TextSource::from_text(code), "code".to_string())
}

fn tokens_of(code: &str) -> Vec<Token> {
    let mut lexer = lexer_for(code);
    let mut out = Vec::new();
    loop {
        match lexer.next() {
            Ok(Token::EOF) => break,
            Ok(t) => out.push(t),
            Err(e) => panic!("unexpected error: {}", e.render()),
        }
    }
    out
}

#[test]
fn test_lexer() {
    let expected_tokens = [
        Punctuation(Slash),
        Number("12.5".to_string()),
        Punctuation(Asterisk),
        Punctuation(LParen),
        Punctuation(RParen),
        Punctuation(Assign),
        Identifier("identW_ow".to_string()),
        Punctuation(Minus),
        Punctuation(Plus),
        Punctuation(LEqual),
        Number("69".to_string()),
        Punctuation(GEqual),
        Punctuation(Less),
        Punctuation(Greater),
        Punctuation(Equal),
        Punctuation(LCurly),
        Punctuation(Dot),
        Punctuation(RCurly),
        Punctuation(LSquare),
        Punctuation(RSquare),
        Keyword(If),
        String("wow a string verycool1231 ! !".to_string()),
        Keyword(If),
        Number("5.3654".to_string()),
        Identifier("_opopo1234".to_string()),
        Identifier("sdfg".to_string()),
        Keyword(True),
        Keyword(False),
        Punctuation(NotEqual),
    ];
    let test_code = "/ 12.5 * () =identW_ow- + <= 69 >= <> /*asdf asodfh asdufh asd f*/ == {.}[] if \"wow a string verycool1231 ! !\" if //wow comment lafdsfasd asdf \"\"<\n5.3654 /*asdf*/ _opopo1234 sdfg true false !=";
    let mut test_lexer = Lexer::new(TextSource::from_text(test_code), "code".to_string());
    for expected in expected_tokens.iter() {
        match test_lexer.next() {
            Ok(token) => {
                assert_eq!(*expected, token);
            }
            Err(_err) => {
                panic!();
            }
        }
    }
}

#[test]
fn number_tokens_parse_to_original_values() {
    let toks = tokens_of("/ 12.5 * 69 ; 5.3654");
    let values: Vec<f64> = toks
        .iter()
        .filter_map(|t| match t {
            Number(s) => Some(s.parse::<f64>().unwrap()),
            _ => None,
        })
        .collect();
    assert_eq!(values, vec![12.5, 69.0, 5.3654]);
}

#[test]
fn longest_valid_punctuation() {
    assert_eq!(tokens_of("<="), vec![Punctuation(LEqual)]);
    assert_eq!(tokens_of(">="), vec![Punctuation(GEqual)]);
    assert_eq!(tokens_of("=="), vec![Punctuation(Equal)]);
    assert_eq!(tokens_of("!="), vec![Punctuation(NotEqual)]);
    assert_eq!(tokens_of("&&"), vec![Punctuation(BooleanAnd)]);
    assert_eq!(tokens_of("||"), vec![Punctuation(BooleanOr)]);
    assert_eq!(tokens_of(".."), vec![Punctuation(Concat)]);
}

#[test]
fn no_false_merge() {
    assert_eq!(tokens_of("<>"), vec![Punctuation(Less), Punctuation(Greater)]);
}

#[test]
fn comment_vs_division() {
    assert_eq!(
        tokens_of("/ 12.5"),
        vec![Punctuation(Slash), Number("12.5".to_string())]
    );
    assert_eq!(tokens_of("// x\n5"), vec![Number("5".to_string())]);
    assert_eq!(tokens_of("/*a*/5"), vec![Number("5".to_string())]);
}

#[test]
fn lone_slash_edge_cases() {
    assert_eq!(tokens_of("/"), vec![Punctuation(Slash)]);
    assert_eq!(tokens_of("/ /"), vec![Punctuation(Slash), Punctuation(Slash)]);
}

#[test]
fn unfinished_string() {
    let mut lexer = lexer_for("\"abc");
    let err = lexer.next().unwrap_err();
    assert_eq!(err.error, SyntaxErrorKind::UnfinishedString);
}

#[test]
fn unfinished_multiline_comment() {
    let mut lexer = lexer_for("/* abc");
    let err = lexer.next().unwrap_err();
    assert_eq!(err.error, SyntaxErrorKind::UnfinishedMultilineComment);
}

#[test]
fn keyword_precedence_over_identifier() {
    assert_eq!(tokens_of("true"), vec![Keyword(True)]);
    assert_eq!(tokens_of("trueish"), vec![Identifier("trueish".to_string())]);
}

#[test]
fn all_keywords_recognised() {
    assert_eq!(
        tokens_of("if elseif else while return true false nil func var"),
        vec![
            Keyword(If),
            Keyword(ElseIf),
            Keyword(Else),
            Keyword(While),
            Keyword(Return),
            Keyword(True),
            Keyword(False),
            Keyword(Nil),
            Keyword(Func),
            Keyword(Var),
        ]
    );
}

#[test]
fn position_after_newline() {
    let mut lexer = lexer_for("a\nb");
    assert_eq!(lexer.next().unwrap(), Identifier("a".to_string()));
    let pos = lexer.position();
    assert_eq!(pos.line, 1);
    assert_eq!(pos.column, 0);
    assert_eq!(lexer.next().unwrap(), Identifier("b".to_string()));
}

#[test]
fn error_renders_one_based_line_zero_based_column() {
    let mut lexer = lexer_for("\n@");
    let err = lexer.next().unwrap_err();
    assert_eq!(err.error, SyntaxErrorKind::UnknownCharacter('@'));
    assert_eq!(err.position.line, 1);
    assert_eq!(err.position.column, 1);
    assert_eq!(err.render(), "code:2:1: Unknown character: '@'");
}

#[test]
fn idempotent_eof() {
    let mut lexer = lexer_for("");
    assert_eq!(lexer.next().unwrap(), EOF);
    assert!(lexer.reached_end());
    assert_eq!(lexer.next().unwrap(), EOF);
    assert_eq!(lexer.next().unwrap(), EOF);
}

#[test]
fn eof_after_tokens() {
    let mut lexer = lexer_for("nil");
    assert_eq!(lexer.next().unwrap(), Keyword(Nil));
    assert_eq!(lexer.next().unwrap(), EOF);
    assert_eq!(lexer.next().unwrap(), EOF);
}

#[test]
fn malformed_number() {
    let mut lexer = lexer_for("1.2.3");
    let err = lexer.next().unwrap_err();
    assert_eq!(err.error, SyntaxErrorKind::MalformedNumber("1.2.3".to_string()));
}

#[test]
fn trailing_dot_number_is_accepted() {
    assert_eq!(tokens_of("12."), vec![Number("12.".to_string())]);
}

#[test]
fn string_with_embedded_newline() {
    assert_eq!(tokens_of("\"a\nb\""), vec![String("a\nb".to_string())]);
}

#[test]
fn empty_string_literal() {
    assert_eq!(tokens_of("\"\""), vec![String("".to_string())]);
}

#[test]
fn unfinished_string_anchored_at_opening_quote() {
    let mut lexer = lexer_for("  \"ab");
    let err = lexer.next().unwrap_err();
    assert_eq!(err.error, SyntaxErrorKind::UnfinishedString);
    assert_eq!(err.position.line, 0);
    assert_eq!(err.position.column, 3);
}

#[test]
fn previous_position_marks_token_start() {
    let mut lexer = lexer_for("  ab");
    assert_eq!(lexer.next().unwrap(), Identifier("ab".to_string()));
    let pos = lexer.previous_position();
    assert_eq!(pos.line, 0);
    assert_eq!(pos.column, 3);
    assert_eq!(pos.source_name, "code".to_string());
}

#[test]
fn single_character_operators_stand_alone() {
    assert_eq!(
        tokens_of("& | ; , ! ="),
        vec![
            Punctuation(lang_front::token::Punctuation::And),
            Punctuation(lang_front::token::Punctuation::Or),
            Punctuation(lang_front::token::Punctuation::Semicolon),
            Punctuation(lang_front::token::Punctuation::Comma),
            Punctuation(lang_front::token::Punctuation::Exclamation),
            Punctuation(Assign),
        ]
    );
}

#[test]
fn block_comment_keeps_position_across_lines() {
    let mut lexer = lexer_for("/*a\nb*/c");
    assert_eq!(lexer.next().unwrap(), Identifier("c".to_string()));
    let pos = lexer.previous_position();
    assert_eq!(pos.line, 1);
    assert_eq!(pos.column, 4);
}

#[test]
fn source_name_accessor() {
    let lexer = lexer_for("x");
    assert_eq!(lexer.source_name(), "code".to_string());
    assert!(!lexer.reached_end());
}

#[test]
fn identifier_cannot_start_with_digit() {
    assert_eq!(
        tokens_of("1abc"),
        vec![Number("1".to_string()), Identifier("abc".to_string())]
    );
}

#[test]
fn unknown_character_is_not_consumed() {
    let mut lexer = lexer_for("@ x");
    let err = lexer.next().unwrap_err();
    assert_eq!(err.error, SyntaxErrorKind::UnknownCharacter('@'));
    // the offending character stays in the lookahead, so the call repeats
    let err2 = lexer.next().unwrap_err();
    assert_eq!(err2.error, SyntaxErrorKind::UnknownCharacter('@'));
}

use lang_front::position::Position;
use lang_front::syntax_error::{SyntaxError, SyntaxErrorKind};
use lang_front::token::{Keyword, Punctuation, Token};
use lang_front::tree::{Associativity, BinaryOperator, UnaryOperator};

#[test]
fn binary_operator_lookup() {
    let cases = [
        (Punctuation::Plus, BinaryOperator::Add),
        (Punctuation::Minus, BinaryOperator::Sub),
        (Punctuation::Asterisk, BinaryOperator::Mul),
        (Punctuation::Slash, BinaryOperator::Div),
        (Punctuation::Equal, BinaryOperator::Equal),
        (Punctuation::NotEqual, BinaryOperator::NotEqual),
        (Punctuation::Greater, BinaryOperator::Greater),
        (Punctuation::Less, BinaryOperator::Less),
        (Punctuation::GEqual, BinaryOperator::GEqual),
        (Punctuation::LEqual, BinaryOperator::LEqual),
        (Punctuation::BooleanAnd, BinaryOperator::BooleanAnd),
        (Punctuation::BooleanOr, BinaryOperator::BooleanOr),
        (Punctuation::Concat, BinaryOperator::Concat),
    ];
    for (p, op) in cases {
        assert_eq!(BinaryOperator::get_operator(&Token::Punctuation(p)), Some(op));
    }
}

#[test]
fn non_operator_tokens_map_to_nothing() {
    assert_eq!(BinaryOperator::get_operator(&Token::EOF), None);
    assert_eq!(
        BinaryOperator::get_operator(&Token::Identifier("x".to_string())),
        None
    );
    assert_eq!(
        BinaryOperator::get_operator(&Token::Punctuation(Punctuation::LParen)),
        None
    );
    assert_eq!(
        BinaryOperator::get_operator(&Token::Punctuation(Punctuation::Assign)),
        None
    );
}

#[test]
fn precedence_tiers() {
    assert_eq!(BinaryOperator::BooleanAnd.precedence(), 0);
    assert_eq!(BinaryOperator::BooleanOr.precedence(), 0);
    assert_eq!(BinaryOperator::Equal.precedence(), 1);
    assert_eq!(BinaryOperator::NotEqual.precedence(), 1);
    assert_eq!(BinaryOperator::Less.precedence(), 1);
    assert_eq!(BinaryOperator::Greater.precedence(), 1);
    assert_eq!(BinaryOperator::LEqual.precedence(), 1);
    assert_eq!(BinaryOperator::GEqual.precedence(), 1);
    assert_eq!(BinaryOperator::Add.precedence(), 2);
    assert_eq!(BinaryOperator::Sub.precedence(), 2);
    assert_eq!(BinaryOperator::Mul.precedence(), 3);
    assert_eq!(BinaryOperator::Div.precedence(), 3);
    assert_eq!(BinaryOperator::Concat.precedence(), 4);
}

#[test]
fn every_operator_is_left_associative() {
    let ops = [
        BinaryOperator::Add,
        BinaryOperator::Sub,
        BinaryOperator::Mul,
        BinaryOperator::Div,
        BinaryOperator::Equal,
        BinaryOperator::NotEqual,
        BinaryOperator::Less,
        BinaryOperator::Greater,
        BinaryOperator::LEqual,
        BinaryOperator::GEqual,
        BinaryOperator::BooleanAnd,
        BinaryOperator::BooleanOr,
        BinaryOperator::Concat,
    ];
    for op in ops {
        assert_eq!(op.associativity(), Associativity::Left);
    }
}

#[test]
fn unary_operator_lookup() {
    assert_eq!(
        UnaryOperator::get_operator(Punctuation::Minus),
        Some(UnaryOperator::Negate)
    );
    assert_eq!(
        UnaryOperator::get_operator(Punctuation::Exclamation),
        Some(UnaryOperator::Not)
    );
    assert_eq!(UnaryOperator::get_operator(Punctuation::Plus), None);
    assert_eq!(UnaryOperator::get_operator(Punctuation::Dot), None);
}

#[test]
fn keyword_spellings() {
    assert_eq!(Keyword::If.render(), "if");
    assert_eq!(Keyword::ElseIf.render(), "elseif");
    assert_eq!(Keyword::True.render(), "true");
    assert_eq!(Keyword::Var.render(), "var");
}

#[test]
fn punctuation_spellings() {
    assert_eq!(Punctuation::Plus.render(), "+");
    assert_eq!(Punctuation::LEqual.render(), "<=");
    assert_eq!(Punctuation::BooleanOr.render(), "||");
    assert_eq!(Punctuation::Concat.render(), "..");
    assert_eq!(Punctuation::Semicolon.render(), ";");
}

#[test]
fn token_rendering() {
    assert_eq!(Token::EOF.render(), "<EOF>");
    assert_eq!(Token::Number("12.5".to_string()).render(), "12.5");
    assert_eq!(Token::Identifier("abc".to_string()).render(), "abc");
    assert_eq!(Token::String("hi there".to_string()).render(), "hi there");
    assert_eq!(Token::Keyword(Keyword::Func).render(), "func");
    assert_eq!(Token::Punctuation(Punctuation::NotEqual).render(), "!=");
}

#[test]
fn error_kind_messages() {
    assert_eq!(
        SyntaxErrorKind::MalformedNumber("1.2.3".to_string()).message(),
        "Malformed number: '1.2.3'"
    );
    assert_eq!(
        SyntaxErrorKind::UnknownCharacter('@').message(),
        "Unknown character: '@'"
    );
    assert_eq!(SyntaxErrorKind::UnfinishedString.message(), "Unfinished string");
    assert_eq!(
        SyntaxErrorKind::UnfinishedMultilineComment.message(),
        "Unfinished multi-line comment"
    );
    assert_eq!(
        SyntaxErrorKind::ExpectedXButGotY {
            expected: Token::Punctuation(Punctuation::LParen),
            got: Token::EOF,
        }
        .message(),
        "Expected '(' but got '<EOF>'"
    );
    assert_eq!(
        SyntaxErrorKind::ExpectedIdentifierButGotX(Token::Keyword(Keyword::If)).message(),
        "Expected identifier but got 'if'"
    );
    assert_eq!(
        SyntaxErrorKind::UnexpectedToken(Token::Punctuation(Punctuation::Comma)).message(),
        "Did not expect ',' here"
    );
    assert_eq!(
        SyntaxErrorKind::DuplicateFunctionDefinition("main".to_string()).message(),
        "Function 'main' defined more than once"
    );
    assert_eq!(
        SyntaxErrorKind::MissingMainFunction.message(),
        "Program is missing main function"
    );
    assert_eq!(
        SyntaxErrorKind::UnresolvedName("foo".to_string()).message(),
        "Name not found: 'foo'"
    );
}

#[test]
fn error_rendering_format() {
    let err = SyntaxError {
        error: SyntaxErrorKind::UnresolvedName("foo".to_string()),
        position: Position {
            line: 41,
            column: 7,
            source_name: "main.script".to_string(),
        },
    };
    assert_eq!(err.render(), "main.script:42:7: Name not found: 'foo'");
}

#[test]
fn position_duplicate_copies_fields() {
    let p = Position {
        line: 3,
        column: 9,
        source_name: "code".to_string(),
    };
    let q = p.duplicate();
    assert_eq!(q.line, 3);
    assert_eq!(q.column, 9);
    assert_eq!(q.source_name, "code".to_string());
}

use bulloak::error::{Error, Formatter, Message};
use bulloak::span::{Position, Span};
use bulloak::utils::repeat_str;
use bulloak::{parser, semantics, tokenizer};

#[test]
fn test_notate() {
    let text = "hello\nworld\n";
    let span = Span::new(Position::new(0, 2, 1), Position::new(4, 2, 5));
    let kind = parser::ErrorKind::TokenUnexpected("world".to_owned());
    let formatter = Formatter {
        text,
        err: &kind,
        span: &span,
    };
    let notated = formatter.render();

    let mut expected = String::from("");
    expected.push_str(&repeat_str("•", 79));
    expected.push('\n');
    expected.push_str(format!("bulloak error: {}\n\n", kind.message()).as_str());
    expected.push_str("world\n");
    expected.push_str("^^^^^\n\n");
    expected.push_str(
        format!(
            "--- (line {}, column {}) ---\n",
            span.start.line, span.start.column
        )
        .as_str(),
    );
    assert_eq!(expected, notated);
}

#[test]
fn test_multiple_errors() {
    let text = r"test.sol
├── when 1
└── when 2"
        .to_owned();

    let errors = Error::from(vec![
        semantics::Error::new(
            semantics::ErrorKind::ConditionEmpty,
            text.clone(),
            Span::new(Position::new(9, 2, 1), Position::new(18, 2, 10)),
        ),
        semantics::Error::new(
            semantics::ErrorKind::ConditionEmpty,
            text.clone(),
            Span::new(Position::new(20, 3, 1), Position::new(29, 3, 10)),
        ),
    ]);
    let actual = errors.render();

    let expected = r"•••••••••••••••••••••••••••••••••••••••••••••••••••••••••••••••••••••••••••••••
bulloak error: found a condition with no children

├── when 1
^^^^^^^^^^

--- (line 2, column 1) ---
•••••••••••••••••••••••••••••••••••••••••••••••••••••••••••••••••••••••••••••••
bulloak error: found a condition with no children

└── when 2
^^^^^^^^^^

--- (line 3, column 1) ---
";

    assert_eq!(expected, actual);
}

#[test]
fn degenerate_span_renders_message_only() {
    let text = "hello\nworld\n";
    let span = Span::new(Position::new(0, 1, 1), Position::new(0, 1, 1));
    let err = parser::Error::new(
        parser::ErrorKind::TokenUnexpected("world".to_owned()),
        text.to_owned(),
        span,
    );
    let rendered = Error::from(err).render();

    let mut expected = repeat_str("•", 79);
    expected.push('\n');
    expected.push_str("bulloak error: unexpected token: world");
    assert_eq!(expected, rendered);
}

#[test]
fn span_past_last_line_renders_empty_frame() {
    let text = "hello\n";
    let span = Span::new(Position::new(3, 5, 2), Position::new(4, 5, 4));
    let err = tokenizer::Error::new(
        tokenizer::ErrorKind::CharUnexpected("~".to_owned()),
        text.to_owned(),
        span,
    );
    let rendered = Error::from(err).render();

    let mut expected = repeat_str("•", 79);
    expected.push('\n');
    expected.push_str("bulloak error: unexpected character: ~\n\n");
    expected.push('\n');
    expected.push_str("--- (line 5, column 2) ---\n");
    assert_eq!(expected, rendered);
}

#[test]
fn rendering_is_deterministic() {
    let text = "hello\nworld\n";
    let span = Span::new(Position::new(6, 2, 1), Position::new(10, 2, 5));
    let err = parser::Error::new(
        parser::ErrorKind::TokenUnexpected("world".to_owned()),
        text.to_owned(),
        span,
    );
    let aggregate = Error::from(err);
    let first = aggregate.render();
    let second = aggregate.render();
    assert_eq!(first, second);
}

#[test]
fn reversed_columns_render_one_caret() {
    let text = "abcdef\n";
    let span = Span::new(Position::new(2, 1, 3), Position::new(2, 1, 1));
    let kind = semantics::ErrorKind::ConditionEmpty;
    let formatter = Formatter {
        text,
        err: &kind,
        span: &span,
    };
    let rendered = formatter.render();

    let mut expected = repeat_str("•", 79);
    expected.push('\n');
    expected.push_str("bulloak error: found a condition with no children\n\n");
    expected.push_str("abcdef\n");
    expected.push_str("  ^\n\n");
    expected.push_str("--- (line 1, column 3) ---\n");
    assert_eq!(expected, rendered);
}

#[test]
fn tokenize_error_renders_one_block() {
    let text = "a ~ b";
    let span = Span::new(Position::new(2, 1, 3), Position::new(2, 1, 3));
    let err = tokenizer::Error::new(
        tokenizer::ErrorKind::CharUnexpected("~".to_owned()),
        text.to_owned(),
        span,
    );
    let rendered = Error::from(err).render();

    let mut expected = repeat_str("•", 79);
    expected.push('\n');
    expected.push_str("bulloak error: unexpected character: ~\n\n");
    expected.push_str("a ~ b\n");
    expected.push_str("  ^\n\n");
    expected.push_str("--- (line 1, column 3) ---\n");
    assert_eq!(expected, rendered);
}

use rowan::NodeOrToken;
use shin_asm::parser::lexer::{next_token, tokenize, Token};
use shin_asm::parser::syntax_kind::SyntaxKind;
use shin_asm::syntax::ast::{AstNode, SourceFile};
use shin_asm::syntax::parsing::parse_text;
use shin_asm::syntax::syntax_error::TextRange;
use shin_asm::syntax::syntax_node::SyntaxNode;

fn kinds(text: &str) -> Vec<(SyntaxKind, usize, usize)> {
    tokenize(text.as_bytes()).iter().map(|t| (t.kind, t.start, t.end)).collect()
}

fn raw(kind: SyntaxKind) -> rowan::SyntaxKind {
    rowan::SyntaxKind(kind.to_raw())
}

fn errors_of(text: &str) -> Vec<(String, u32, u32)> {
    SourceFile::parse(text)
        .errors()
        .iter()
        .map(|e| (e.message(), e.range().start, e.range().end))
        .collect()
}

#[test]
fn tokens_of_an_instruction() {
    assert_eq!(
        kinds("WAIT 1, $v0\n"),
        vec![
            (SyntaxKind::IDENT, 0, 4),
            (SyntaxKind::WHITESPACE, 4, 5),
            (SyntaxKind::INT_NUMBER, 5, 6),
            (SyntaxKind::COMMA, 6, 7),
            (SyntaxKind::WHITESPACE, 7, 8),
            (SyntaxKind::REGISTER, 8, 11),
            (SyntaxKind::NEWLINE, 11, 12),
        ]
    );
}

#[test]
fn tokens_of_punctuation_strings_and_comments() {
    assert_eq!(
        kinds("a=\"x y\"// c\n"),
        vec![
            (SyntaxKind::IDENT, 0, 1),
            (SyntaxKind::EQ, 1, 2),
            (SyntaxKind::STRING, 2, 7),
            (SyntaxKind::COMMENT, 7, 11),
            (SyntaxKind::NEWLINE, 11, 12),
        ]
    );
    assert_eq!(
        kinds("+-*/%&|^~!<>()[]{}:"),
        vec![
            (SyntaxKind::PLUS, 0, 1),
            (SyntaxKind::MINUS, 1, 2),
            (SyntaxKind::STAR, 2, 3),
            (SyntaxKind::SLASH, 3, 4),
            (SyntaxKind::PERCENT, 4, 5),
            (SyntaxKind::AMP, 5, 6),
            (SyntaxKind::PIPE, 6, 7),
            (SyntaxKind::CARET, 7, 8),
            (SyntaxKind::TILDE, 8, 9),
            (SyntaxKind::BANG, 9, 10),
            (SyntaxKind::L_ANGLE, 10, 11),
            (SyntaxKind::R_ANGLE, 11, 12),
            (SyntaxKind::L_PAREN, 12, 13),
            (SyntaxKind::R_PAREN, 13, 14),
            (SyntaxKind::L_BRACK, 14, 15),
            (SyntaxKind::R_BRACK, 15, 16),
            (SyntaxKind::L_CURLY, 16, 17),
            (SyntaxKind::R_CURLY, 17, 18),
            (SyntaxKind::COLON, 18, 19),
        ]
    );
}

#[test]
fn tokens_that_are_errors() {
    assert_eq!(
        kinds("$ \"ab\n#"),
        vec![
            (SyntaxKind::ERROR, 0, 1),
            (SyntaxKind::WHITESPACE, 1, 2),
            (SyntaxKind::ERROR, 2, 5),
            (SyntaxKind::NEWLINE, 5, 6),
            (SyntaxKind::ERROR, 6, 7),
        ]
    );
    // a character of three bytes is one token
    assert_eq!(kinds("\u{3042}x"), vec![(SyntaxKind::ERROR, 0, 3), (SyntaxKind::IDENT, 3, 4)]);
    // a string may hold any character
    assert_eq!(kinds("\"\u{3042}\""), vec![(SyntaxKind::STRING, 0, 5)]);
}

#[test]
fn tokens_cover_the_text() {
    for text in ["", " ", "\n\n", "a b c", "12ab $x $", "\"", "// only a comment", "\r\n\t x"] {
        let tokens = tokenize(text.as_bytes());
        let mut at = 0;
        for token in &tokens {
            assert_eq!(token.start, at);
            assert!(token.start < token.end);
            at = token.end;
        }
        assert_eq!(at, text.len());
    }
    assert!(tokenize(b"").is_empty());
}

#[test]
fn next_token_reads_one_token() {
    assert_eq!(
        next_token(b"ab12 c", 0),
        Token { kind: SyntaxKind::IDENT, start: 0, end: 4 }
    );
    assert_eq!(
        next_token(b"ab12 c", 4),
        Token { kind: SyntaxKind::WHITESPACE, start: 4, end: 5 }
    );
    assert_eq!(
        next_token(b"007", 0),
        Token { kind: SyntaxKind::INT_NUMBER, start: 0, end: 3 }
    );
    assert_eq!(next_token(b"/", 0), Token { kind: SyntaxKind::SLASH, start: 0, end: 1 });
}

#[test]
fn kinds_and_their_numbers() {
    for number in 0..=30u16 {
        let kind = SyntaxKind::from_raw(number).unwrap();
        assert_eq!(kind.to_raw(), number);
    }
    assert_eq!(SyntaxKind::from_raw(31), None);
    assert_eq!(SyntaxKind::from_raw(u16::MAX), None);
    assert_eq!(SyntaxKind::SOURCE_FILE.to_raw(), 30);
    assert!(SyntaxKind::WHITESPACE.is_trivia());
    assert!(SyntaxKind::COMMENT.is_trivia());
    assert!(!SyntaxKind::NEWLINE.is_trivia());
    assert!(!SyntaxKind::IDENT.is_trivia());
}

#[test]
fn empty_text_has_an_empty_tree() {
    let parse = SourceFile::parse("");
    assert!(parse.errors().is_empty());
    let green = parse.syntax_node().green();
    assert_eq!(green.kind(), raw(SyntaxKind::SOURCE_FILE));
    assert_eq!(green.children().count(), 0);
    assert_eq!(green.to_string(), "");
}

#[test]
fn tree_spells_out_the_text() {
    for text in [
        "WAIT 1, 2\n",
        "  MSGSET 12, 1, \"hello\" // greet\nNOP",
        "\n\n\n",
        "+ what\n$ \"unterminated\n\u{3042}\u{1F980} 99999999999",
        "\t\r\n",
        "a\nb\nc",
    ] {
        let parse = SourceFile::parse(text);
        let green = parse.syntax_node().green();
        assert_eq!(green.to_string(), text);
        assert_eq!(green.kind(), raw(SyntaxKind::SOURCE_FILE));
        assert_eq!(usize::from(green.text_len()), text.len());
    }
}

#[test]
fn lines_become_items() {
    let parse = SourceFile::parse("  WAIT 1 // c\n\n+ 2\nNOP");
    let green = parse.syntax_node().green();
    let children: Vec<(rowan::SyntaxKind, bool, String)> = green
        .children()
        .map(|child| match child {
            NodeOrToken::Node(node) => (node.kind(), true, node.to_string()),
            NodeOrToken::Token(token) => (token.kind(), false, token.text().to_string()),
        })
        .collect();
    assert_eq!(
        children,
        vec![
            (raw(SyntaxKind::WHITESPACE), false, "  ".to_string()),
            (raw(SyntaxKind::INSTRUCTION), true, "WAIT 1 // c".to_string()),
            (raw(SyntaxKind::NEWLINE), false, "\n".to_string()),
            (raw(SyntaxKind::NEWLINE), false, "\n".to_string()),
            (raw(SyntaxKind::ERROR), true, "+ 2".to_string()),
            (raw(SyntaxKind::NEWLINE), false, "\n".to_string()),
            (raw(SyntaxKind::INSTRUCTION), true, "NOP".to_string()),
        ]
    );
    let instruction = green.children().nth(1).unwrap().into_node().unwrap();
    let inside: Vec<rowan::SyntaxKind> = instruction.children().map(|c| c.kind()).collect();
    assert_eq!(
        inside,
        vec![
            raw(SyntaxKind::IDENT),
            raw(SyntaxKind::WHITESPACE),
            raw(SyntaxKind::INT_NUMBER),
            raw(SyntaxKind::WHITESPACE),
            raw(SyntaxKind::COMMENT),
        ]
    );
}

#[test]
fn well_formed_text_has_no_errors() {
    assert!(errors_of("WAIT 1, $v0\nMSGSET 1, \"text\" // comment\n").is_empty());
    assert!(errors_of("// nothing but a comment").is_empty());
    assert!(errors_of("NOP 4294967295").is_empty());
}

#[test]
fn errors_carry_their_ranges() {
    assert_eq!(
        errors_of("NOP #\n"),
        vec![("Unexpected character".to_string(), 4, 5)]
    );
    assert_eq!(
        errors_of("MSG \"abc\nNOP"),
        vec![(
            "Missing trailing `\"` symbol to terminate the string literal".to_string(),
            4,
            8
        )]
    );
    assert_eq!(
        errors_of("SET $, 1"),
        vec![("Expected a register name after `$`".to_string(), 4, 5)]
    );
    assert_eq!(
        errors_of("  12 NOP\n"),
        vec![("Expected an instruction".to_string(), 2, 4)]
    );
    assert_eq!(
        errors_of("\u{3042}"),
        vec![("Unexpected character".to_string(), 0, 3)]
    );
}

#[test]
fn validation_errors_follow_grammar_errors() {
    assert_eq!(
        errors_of("WAIT 4294967296\n#"),
        vec![
            ("Unexpected character".to_string(), 16, 17),
            ("Integer literal does not fit 32 bits".to_string(), 5, 15),
        ]
    );
    assert_eq!(
        errors_of("WAIT 99999999999999999999999999999999"),
        vec![("Integer literal does not fit 32 bits".to_string(), 5, 37)]
    );
    assert!(errors_of("WAIT 0000000000000000000000000001").is_empty());
}

#[test]
fn parsing_twice_gives_the_same() {
    for text in ["WAIT 1\n", "+ $ \"", "", "a b\nc d // e\n"] {
        let first = SourceFile::parse(text);
        let second = SourceFile::parse(text);
        assert_eq!(first.syntax_node().green(), second.syntax_node().green());
        assert_eq!(first.errors(), second.errors());
    }
}

#[test]
fn parse_text_gives_tree_and_grammar_errors() {
    let (green, errors) = parse_text("NOP 4294967296 #");
    assert_eq!(green.to_string(), "NOP 4294967296 #");
    assert_eq!(green.kind(), raw(SyntaxKind::SOURCE_FILE));
    assert_eq!(errors.len(), 1);
    assert_eq!(errors[0].message(), "Unexpected character");
    assert_eq!(errors[0].range(), TextRange::new(15, 16));
}

#[test]
fn root_can_be_viewed_as_what_it_is() {
    let parse = SourceFile::parse("NOP\n");
    let tree = parse.tree();
    assert_eq!(tree.syntax().kind(), SyntaxKind::SOURCE_FILE);
    assert_eq!(tree.syntax().green().to_string(), "NOP\n");
    let node = parse.syntax_node();
    assert_eq!(node.kind(), SyntaxKind::SOURCE_FILE);
    assert!(SourceFile::can_cast(SyntaxKind::SOURCE_FILE));
    assert!(!SourceFile::can_cast(SyntaxKind::INSTRUCTION));
    assert!(SyntaxNode::can_cast(SyntaxKind::ERROR));
    assert!(SourceFile::cast(node).is_some());
}

#[test]
fn cast_checks_the_kind_of_the_root() {
    let parse = SourceFile::parse("NOP #");
    let plain = parse.to_syntax();
    assert_eq!(plain.errors().len(), 1);
    let back = plain.cast::<SourceFile>();
    assert!(back.is_some());
    let back = back.unwrap();
    assert_eq!(back.errors().len(), 1);
    assert_eq!(back.syntax_node().green().to_string(), "NOP #");
    let again = back.to_syntax().cast::<SyntaxNode>();
    assert!(again.is_some());
}

#[test]
fn node_of_another_kind_is_not_a_source_file() {
    let green = SourceFile::parse("NOP").syntax_node().green();
    let instruction = green.children().next().unwrap().into_node().unwrap().to_owned();
    let node = SyntaxNode::new_root(instruction).unwrap();
    assert_eq!(node.kind(), SyntaxKind::INSTRUCTION);
    assert!(SourceFile::cast(node).is_none());
    let unknown = rowan::GreenNode::new(rowan::SyntaxKind(999), std::iter::empty());
    assert!(SyntaxNode::new_root(unknown).is_none());
}

#[test]
fn ok_tells_errors_from_none() {
    let good = SourceFile::parse("NOP\n").ok();
    assert!(good.is_ok());
    assert_eq!(good.unwrap().syntax().green().to_string(), "NOP\n");
    let bad = SourceFile::parse("NOP #\n").ok();
    match bad {
        Ok(_) => panic!("an error was expected"),
        Err(errors) => {
            assert_eq!(errors.len(), 1);
            assert_eq!(errors[0].message(), "Unexpected character");
        }
    }
}

#[test]
fn clone_shares_tree_and_errors() {
    let parse = SourceFile::parse("WAIT #\n");
    let copy = parse.clone();
    assert_eq!(copy.syntax_node().green(), parse.syntax_node().green());
    assert_eq!(copy.errors(), parse.errors());
    assert_eq!(copy.errors().len(), 1);
}

#[test]
fn ranges_have_a_length() {
    let range = TextRange::new(3, 10);
    assert_eq!(range.len(), 7);
    assert_eq!(TextRange::new(5, 5).len(), 0);
}

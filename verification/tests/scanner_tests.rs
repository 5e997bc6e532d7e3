use titania::error::{Error, ErrorTag, error_tag};
use titania::scanner::{Scanner, TokenTag};

fn identifier_tag(id: &str) -> TokenTag {
    TokenTag::Identifier(String::from(id))
}

fn integer_tag(n: &str) -> TokenTag {
    TokenTag::Integer(String::from(n))
}

fn next_tag(scanner: &mut Scanner) -> Result<TokenTag, Error> {
    Ok(scanner.next_token()?.tag)
}

#[test]
fn test_next_token_empty() -> Result<(), Error> {
    let mut scanner = Scanner::new("");
    assert_eq!(next_tag(&mut scanner)?, TokenTag::Eof);
    Ok(())
}

#[test]
fn test_skip_whitespace_comment() -> Result<(), Error> {
    let mut scanner = Scanner::new(" \t(* a comment \r\n*)\r\n  id");
    assert_eq!(next_tag(&mut scanner)?, identifier_tag("id"));
    Ok(())
}

#[test]
fn test_next_token_unclosed_comment() {
    let mut scanner = Scanner::new("(**");
    assert_eq!(
        error_tag(scanner.next_token()),
        Some(ErrorTag::UnterminatedComment)
    );
}

#[test]
fn test_next_token_identifier() -> Result<(), Error> {
    let mut scanner = Scanner::new("a anIdentifier abc123");
    assert_eq!(next_tag(&mut scanner)?, identifier_tag("a"));
    assert_eq!(next_tag(&mut scanner)?, identifier_tag("anIdentifier"));
    assert_eq!(next_tag(&mut scanner)?, identifier_tag("abc123"));
    Ok(())
}

#[test]
fn test_next_token() -> Result<(), Error> {
    let mut scanner = Scanner::new("1 1234");
    assert_eq!(next_tag(&mut scanner)?, integer_tag("1"));
    assert_eq!(next_tag(&mut scanner)?, integer_tag("1234"));
    assert_eq!(next_tag(&mut scanner)?, TokenTag::Eof);
    Ok(())
}

#[test]
fn test_next_token_keywords() -> Result<(), Error> {
    let mut scanner = Scanner::new("BEGIN END MODULE PROCEDURE RETURN");
    assert_eq!(next_tag(&mut scanner)?, TokenTag::Begin);
    assert_eq!(next_tag(&mut scanner)?, TokenTag::End);
    assert_eq!(next_tag(&mut scanner)?, TokenTag::Module);
    assert_eq!(next_tag(&mut scanner)?, TokenTag::Procedure);
    assert_eq!(next_tag(&mut scanner)?, TokenTag::Return);
    assert_eq!(next_tag(&mut scanner)?, TokenTag::Eof);
    Ok(())
}

#[test]
fn test_next_token_symbol() -> Result<(), Error> {
    let mut scanner = Scanner::new(": . ; *");
    assert_eq!(next_tag(&mut scanner)?, TokenTag::Colon);
    assert_eq!(next_tag(&mut scanner)?, TokenTag::Dot);
    assert_eq!(next_tag(&mut scanner)?, TokenTag::Semicolon);
    assert_eq!(next_tag(&mut scanner)?, TokenTag::Star);
    assert_eq!(next_tag(&mut scanner)?, TokenTag::Eof);
    Ok(())
}

#[test]
fn test_scanner_line_tracking() -> Result<(), Error> {
    let mut scanner = Scanner::new("a\nb\nc");
    let first = scanner.next_token()?;
    assert_eq!(first.tag, identifier_tag("a"));
    assert_eq!(first.line, 1);
    let second = scanner.next_token()?;
    assert_eq!(second.tag, identifier_tag("b"));
    assert_eq!(second.line, 2);
    let third = scanner.next_token()?;
    assert_eq!(third.tag, identifier_tag("c"));
    assert_eq!(third.line, 3);
    Ok(())
}

#[test]
fn test_unclosed_comment_line() {
    let mut scanner = Scanner::new("(*\n\n");
    match scanner.next_token() {
        Err(Error { tag: ErrorTag::UnterminatedComment, line }) => assert_eq!(line, 3),
        other => panic!("expected an unterminated comment error, got {:?}", other),
    }
}

#[test]
fn test_unexpected_character() {
    let mut scanner = Scanner::new("#");
    match scanner.next_token() {
        Err(Error { tag: ErrorTag::UnexpectedCharacter(c), line }) => {
            assert_eq!(c, '#');
            assert_eq!(line, 1);
        }
        other => panic!("expected an unexpected character error, got {:?}", other),
    }
}

#[test]
fn test_closed_comment_then_identifier() -> Result<(), Error> {
    let mut scanner = Scanner::new("(* x *) id");
    assert_eq!(next_tag(&mut scanner)?, identifier_tag("id"));
    assert_eq!(next_tag(&mut scanner)?, TokenTag::Eof);
    Ok(())
}

#[test]
fn test_comment_is_not_nested() {
    // A second `(*` inside a comment is not recognized: the first `*)`
    // closes the comment.
    let mut scanner = Scanner::new("(* (* x *) id");
    match next_tag(&mut scanner) {
        Ok(tag) => assert_eq!(tag, identifier_tag("id")),
        other => panic!("expected an identifier, got {:?}", other),
    }
}

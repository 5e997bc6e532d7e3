use titania::error::{Error, ErrorTag};
use titania::parser::Parser;
use titania::scanner::TokenTag;

fn is_at_eof(parser: &Parser) -> bool {
    parser.current().tag == TokenTag::Eof
}

#[test]
fn test_empty_module() -> Result<(), Error> {
    let mut parser = Parser::new("MODULE M; END.")?;
    let module = parser.module()?;
    assert_eq!(module.name, "M");
    assert_eq!(module.decls.len(), 0);
    assert!(is_at_eof(&parser));
    Ok(())
}

#[test]
fn test_module_procedure() -> Result<(), Error> {
    let mut parser = Parser::new("MODULE M; PROCEDURE P; END; END.")?;
    let module = parser.module()?;
    assert_eq!(module.decls.len(), 1);
    assert!(is_at_eof(&parser));
    Ok(())
}

#[test]
fn test_procedure_empty() -> Result<(), Error> {
    let mut parser = Parser::new("P; END")?;
    let decl_proc = parser.proc()?;
    assert_eq!(decl_proc.name, "P");
    assert_eq!(decl_proc.export, false);
    assert_eq!(decl_proc.tid_return, None);
    assert!(is_at_eof(&parser));
    Ok(())
}

#[test]
fn test_procedure_export() -> Result<(), Error> {
    let mut parser = Parser::new("P*; END")?;
    let decl_proc = parser.proc()?;
    assert_eq!(decl_proc.name, "P");
    assert_eq!(decl_proc.export, true);
    assert_eq!(decl_proc.tid_return, None);
    assert!(is_at_eof(&parser));
    Ok(())
}

#[test]
fn test_procedure_integer_return() -> Result<(), Error> {
    let mut parser = Parser::new("P*: INTEGER; END")?;
    let decl_proc = parser.proc()?;
    assert_eq!(decl_proc.name, "P");
    assert_eq!(decl_proc.export, true);
    assert_eq!(decl_proc.tid_return, Some("INTEGER".to_owned()));
    assert!(is_at_eof(&parser));
    Ok(())
}

#[test]
fn test_expected_token_error() {
    // A missing semicolon after the module name.
    let mut parser = Parser::new("MODULE M END.").expect("first token scans");
    match parser.module() {
        Err(Error { tag: ErrorTag::ExpectedToken { expected, got }, line }) => {
            assert_eq!(expected, TokenTag::Semicolon);
            assert_eq!(got, TokenTag::End);
            assert_eq!(line, 1);
        }
        other => panic!("expected a missing token error, got {:?}", other),
    }
}

#[test]
fn test_expected_identifier_error() {
    // A missing module name.
    let mut parser = Parser::new("MODULE ; END.").expect("first token scans");
    match parser.module() {
        Err(Error { tag: ErrorTag::ExpectedIdentifier { got }, line }) => {
            assert_eq!(got, TokenTag::Semicolon);
            assert_eq!(line, 1);
        }
        other => panic!("expected a missing identifier error, got {:?}", other),
    }
}

#[test]
fn test_declaration_line_recorded() -> Result<(), Error> {
    let mut parser = Parser::new("MODULE M;\nPROCEDURE P;\nEND;\nEND.")?;
    let module = parser.module()?;
    assert_eq!(module.decls.len(), 1);
    let titania::ast::Decl::Proc(proc) = &module.decls[0];
    assert_eq!(proc.name, "P");
    assert_eq!(proc.line, 2);
    Ok(())
}

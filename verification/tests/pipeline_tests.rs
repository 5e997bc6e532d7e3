//! End-to-end scenarios: source text through scanner, parser, compiler
//! and emitter.

use titania::compiler::compile;
use titania::emission::emit_module;
use titania::error::{Error, ErrorTag};
use titania::parser::Parser;
use titania::table::Table;
use titania::wat;

fn compile_source(source: &str) -> Result<wat::Module, Error> {
    let mut parser = Parser::new(source)?;
    let module = parser.module()?;
    compile(&module)
}

#[test]
fn test_pipeline_empty_module() -> Result<(), Error> {
    let module = compile_source("MODULE M; END.")?;
    assert_eq!(module.name, "M");
    assert_eq!(module.funcs.len(), 0);
    assert_eq!(module.exports.len(), 0);
    assert_eq!(emit_module(&module), "(module $M\n)\n");
    Ok(())
}

#[test]
fn test_pipeline_one_procedure() -> Result<(), Error> {
    let module = compile_source("MODULE M; PROCEDURE P; END; END.")?;
    assert_eq!(module.funcs.len(), 1);
    assert_eq!(module.funcs[0].name, "P");
    assert_eq!(module.funcs[0].result, None);
    assert_eq!(module.exports.len(), 0);
    assert_eq!(
        emit_module(&module),
        "(module $M\n    (func $P\n    )\n)\n"
    );
    Ok(())
}

#[test]
fn test_pipeline_exported_procedure() -> Result<(), Error> {
    let module = compile_source("MODULE M; PROCEDURE P*; END; END.")?;
    assert_eq!(module.funcs.len(), 1);
    assert_eq!(module.funcs[0].name, "P");
    assert_eq!(module.exports.len(), 1);
    assert_eq!(module.exports[0].name, "P");
    assert_eq!(
        emit_module(&module),
        "(module $M\n    (func $P\n    )\n    (export \"P\" (func $P))\n)\n"
    );
    Ok(())
}

#[test]
fn test_pipeline_integer_return() -> Result<(), Error> {
    let module = compile_source("MODULE M; PROCEDURE P*: INTEGER; END; END.")?;
    assert_eq!(module.funcs.len(), 1);
    assert_eq!(module.funcs[0].name, "P");
    assert_eq!(module.funcs[0].result, Some(wat::Type::I32));
    Ok(())
}

#[test]
fn test_pipeline_integer_return_signature_table() -> Result<(), Error> {
    // The resolved integer return type is recorded in the procedure
    // table, independent of whether the emitter renders it.
    let mut parser = Parser::new("P*: INTEGER; END")?;
    let proc = parser.proc()?;
    let table_type = titania::compiler::create_default_type_table();
    let mut table_proc = Table::new();
    titania::compiler::compile_proc(&table_type, &mut table_proc, &proc)?;
    let expected = titania::types::TypeProc::new(Some(titania::types::Type::new_int()));
    assert_eq!(table_proc.lookup("P"), Some(&expected));
    Ok(())
}

#[test]
fn test_pipeline_name_redefinition() {
    match compile_source("MODULE M; PROCEDURE P; END; PROCEDURE P; END; END.") {
        Err(Error {
            tag: ErrorTag::NameRedefinition(name),
            line,
        }) => {
            assert_eq!(name, "P");
            assert_eq!(line, 1);
        }
        other => panic!("expected a name redefinition error, got {:?}", other),
    }
}

#[test]
fn test_pipeline_name_redefinition_second_line() {
    // The error carries the line of the second declaration, never the
    // first one's.
    match compile_source("MODULE M;\nPROCEDURE P; END;\nPROCEDURE P; END;\nEND.") {
        Err(Error {
            tag: ErrorTag::NameRedefinition(name),
            line,
        }) => {
            assert_eq!(name, "P");
            assert_eq!(line, 3);
        }
        other => panic!("expected a name redefinition error, got {:?}", other),
    }
}

#[test]
fn test_pipeline_unexpected_character() {
    match compile_source("MODULE M; PROCEDURE P; END # END.") {
        Err(Error {
            tag: ErrorTag::UnexpectedCharacter(c),
            ..
        }) => assert_eq!(c, '#'),
        other => panic!("expected an unexpected character error, got {:?}", other),
    }
}

#[test]
fn test_pipeline_unknown_type() {
    match compile_source("MODULE M; PROCEDURE P: FOO; END; END.") {
        Err(Error {
            tag: ErrorTag::UnknownType(name),
            line,
        }) => {
            assert_eq!(name, "FOO");
            assert_eq!(line, 1);
        }
        other => panic!("expected an unknown type error, got {:?}", other),
    }
}

#[test]
fn test_table_shadowing_lookup() {
    // Pushing (name, v) then (name, w): lookup finds w, the entry for v
    // stays present, and the table grew to two entries.
    let mut table: Table<i32> = Table::new();
    table.push("x", 1);
    table.push("x", 2);
    assert_eq!(table.lookup("x"), Some(&2));
    assert_eq!(table.items.len(), 2);
    assert_eq!(table.items[0].name, "x");
    assert_eq!(table.items[0].value, 1);
    assert_eq!(table.lookup("y"), None);
}

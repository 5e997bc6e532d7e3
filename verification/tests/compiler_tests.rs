use titania::ast::BuilderModule;
use titania::ast::BuilderProc;
use titania::compiler::{compile, compile_decl, compile_proc, create_default_type_table};
use titania::error::{Error, ErrorTag};
use titania::table::Table;
use titania::types::{Type, TypeProc};
use titania::wat;
use titania::wat::BuilderFunc;

#[test]
fn test_module_empty() -> Result<(), Error> {
    let module_name = "M";
    let module = BuilderModule::new().set_name(module_name).build();
    let module = compile(&module)?;
    assert_eq!(module.name, module_name);
    Ok(())
}

#[test]
fn test_module_proc_empty() -> Result<(), Error> {
    let module_name = "M";
    let proc_name = "P";
    let module = BuilderModule::new()
        .set_name(module_name)
        .add_decl(BuilderProc::new().set_name(proc_name, 1).build_decl())
        .build();
    let module = compile(&module)?;
    assert_eq!(module.name, module_name);
    assert_eq!(module.funcs.len(), 1);
    Ok(())
}

#[test]
fn test_module_proc_export() -> Result<(), Error> {
    let module = BuilderModule::new()
        .set_name("M")
        .add_decl(
            BuilderProc::new()
                .set_name("P", 1)
                .set_export(true)
                .build_decl(),
        )
        .build();
    let module = compile(&module)?;
    assert_eq!(module.exports[0].name, "P");
    Ok(())
}

#[test]
fn test_compile_module_proc_name_redefinition() -> Result<(), Error> {
    let mut builder_decl_proc = BuilderProc::new();
    let module = BuilderModule::new()
        .set_name("M")
        .add_decl(builder_decl_proc.set_name("P", 2).build_decl())
        .add_decl(builder_decl_proc.set_name("P", 3).build_decl())
        .build();
    let compile_result = compile(&module);
    match compile_result {
        Err(Error {
            tag: ErrorTag::NameRedefinition(name),
            line,
        }) if name == "P" && line == 3 => Ok(()),
        _ => panic!("Expected name redefinition error."),
    }
}

#[test]
fn test_compile_proc() -> Result<(), Error> {
    let mut table_type = create_default_type_table();
    let mut table_proc = Table::new();
    let proc_name = "P";
    let t_proc = TypeProc::new(None);
    let proc = BuilderProc::new().set_name(proc_name, 1).build_decl();
    let (func, _) = compile_decl(&mut table_type, &mut table_proc, &proc)?;
    assert_eq!(func.name, proc_name);
    assert_eq!(table_proc.lookup(proc_name), Some(&t_proc));
    Ok(())
}

#[test]
fn test_compile_proc_with_result_i32() -> Result<(), Error> {
    let proc_name = "P";
    let proc = BuilderProc::new()
        .set_name(proc_name, 1)
        .set_tid_return("INTEGER")
        .build();
    let func = BuilderFunc::new()
        .set_name(proc_name)
        .set_result(Some(wat::Type::I32))
        .build();
    let t_proc = TypeProc::new(Some(Type::new_int()));

    let mut table_type = create_default_type_table();
    let mut table_proc = Table::new();
    let (func_compiled, _) = compile_proc(&mut table_type, &mut table_proc, &proc)?;

    assert_eq!(func, func_compiled);
    assert_eq!(table_proc.lookup(proc_name), Some(&t_proc));

    Ok(())
}

#[test]
fn test_compile_unknown_type() {
    let proc = BuilderProc::new()
        .set_name("P", 4)
        .set_tid_return("FLOAT")
        .build();
    let table_type = create_default_type_table();
    let mut table_proc = Table::new();
    match compile_proc(&table_type, &mut table_proc, &proc) {
        Err(Error {
            tag: ErrorTag::UnknownType(name),
            line,
        }) => {
            assert_eq!(name, "FLOAT");
            assert_eq!(line, 4);
        }
        other => panic!("expected an unknown type error, got {:?}", other),
    }
}

#[test]
fn test_exports_preserve_declaration_order() -> Result<(), Error> {
    // Three procedures, the first and third exported: the export list is
    // the order-preserving subsequence of the function list.
    let module = BuilderModule::new()
        .set_name("M")
        .add_decl(
            BuilderProc::new()
                .set_name("A", 1)
                .set_export(true)
                .build_decl(),
        )
        .add_decl(BuilderProc::new().set_name("B", 2).build_decl())
        .add_decl(
            BuilderProc::new()
                .set_name("C", 3)
                .set_export(true)
                .build_decl(),
        )
        .build();
    let module = compile(&module)?;
    assert_eq!(module.funcs.len(), 3);
    assert_eq!(module.funcs[0].name, "A");
    assert_eq!(module.funcs[1].name, "B");
    assert_eq!(module.funcs[2].name, "C");
    assert_eq!(module.exports.len(), 2);
    assert_eq!(module.exports[0].name, "A");
    assert_eq!(module.exports[1].name, "C");
    Ok(())
}

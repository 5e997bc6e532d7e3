//! The semantic pass: walks the source tree in declaration order,
//! rejects duplicate procedure names, resolves declared return types
//! against the builtin type table, and produces the target (WAT) tree
//! together with export records.
//!
//! [`sp_compile`] defines the pass mathematically; [`compile`] is proved
//! to follow it exactly. The laws at the end of the module state the
//! pass's shape: how many functions come out, which exports exist, and
//! which declaration a redefinition error blames.

use vstd::prelude::*;

use crate::ast::{Decl, DeclV, Module, ModuleV, Proc, ProcV};
use crate::error::{Error, ErrorTag, ErrorTagV, ErrorV};
use crate::table::{Table, lemma_lookup_push, tbl_lookup};
use crate::types::{Type, TypeProc, TypeTag};
use crate::wat;
use crate::wat::BuilderFunc;

verus! {

/// Result type for compiling functions.
pub type ResultCompile<T> = Result<T, Error>;

/// The builtin type environment every compilation starts from:
/// `INTEGER` bound to the integer type.
pub open spec fn builtin_types() -> Seq<(Seq<char>, Type)> {
    seq![("INTEGER"@, Type { tag: TypeTag::Int })]
}

/// The WAT result type of a resolved source type.
pub open spec fn sp_to_type_wat(t: Type) -> wat::Type {
    match t.tag {
        TypeTag::Int => wat::Type::I32,
    }
}

/// The name a declaration declares.
pub open spec fn decl_name(d: DeclV) -> Seq<char> {
    match d {
        DeclV::Proc(p) => p.name,
    }
}

/// The line a declaration sits on.
pub open spec fn decl_line(d: DeclV) -> nat {
    match d {
        DeclV::Proc(p) => p.line,
    }
}

/// Whether a declaration is marked exported.
pub open spec fn decl_export(d: DeclV) -> bool {
    match d {
        DeclV::Proc(p) => p.export,
    }
}

/// Whether a declaration's return type (if any) resolves in the type
/// environment `tt`.
pub open spec fn decl_resolvable(tt: Seq<(Seq<char>, Type)>, d: DeclV) -> bool {
    match d {
        DeclV::Proc(p) => match p.tid_return {
            None => true,
            Some(tid) => tbl_lookup(tt, tid) is Some,
        },
    }
}

/// Compiling one procedure declaration against the type environment `tt`
/// and the procedure table `pt`: a redefinition fails at the current
/// declaration's line; otherwise the declared return type is resolved,
/// the signature is registered, and a function (plus an export record
/// when marked) is produced.
pub open spec fn sp_compile_proc(
    tt: Seq<(Seq<char>, Type)>,
    pt: Seq<(Seq<char>, TypeProc)>,
    p: ProcV,
) -> Result<(wat::FuncV, Option<wat::ExportV>, Seq<(Seq<char>, TypeProc)>), ErrorV> {
    if tbl_lookup(pt, p.name) is Some {
        Err(ErrorV { tag: ErrorTagV::NameRedefinition(p.name), line: p.line })
    } else {
        match (match p.tid_return {
            None => Ok(None),
            Some(tid) => match tbl_lookup(tt, tid) {
                Some(t) => Ok(Some(t)),
                None => Err(ErrorV { tag: ErrorTagV::UnknownType(tid), line: p.line }),
            },
        }) {
            Err(e) => Err(e),
            Ok(t_return) => Ok(
                (
                    wat::FuncV {
                        name: p.name,
                        result: match t_return {
                            Some(t) => Some(sp_to_type_wat(t)),
                            None => None,
                        },
                    },
                    if p.export {
                        Some(wat::ExportV { name: p.name })
                    } else {
                        None
                    },
                    pt.push((p.name, TypeProc { t_return })),
                ),
            ),
        }
    }
}

/// Compiling one declaration: dispatch on its kind.
pub open spec fn sp_compile_decl(
    tt: Seq<(Seq<char>, Type)>,
    pt: Seq<(Seq<char>, TypeProc)>,
    d: DeclV,
) -> Result<(wat::FuncV, Option<wat::ExportV>, Seq<(Seq<char>, TypeProc)>), ErrorV> {
    match d {
        DeclV::Proc(p) => sp_compile_proc(tt, pt, p),
    }
}

/// Compiling the declarations from index `i` on, in source order,
/// growing the procedure table as each declaration registers itself.
pub open spec fn sp_compile_from(
    tt: Seq<(Seq<char>, Type)>,
    decls: Seq<DeclV>,
    i: int,
    pt: Seq<(Seq<char>, TypeProc)>,
) -> Result<(Seq<wat::FuncV>, Seq<wat::ExportV>), ErrorV>
    decreases decls.len() - i,
    when 0 <= i <= decls.len()
{
    if i == decls.len() {
        Ok((Seq::empty(), Seq::empty()))
    } else {
        match sp_compile_decl(tt, pt, decls[i]) {
            Err(e) => Err(e),
            Ok((f, eopt, pt2)) => match sp_compile_from(tt, decls, i + 1, pt2) {
                Err(e) => Err(e),
                Ok((fs, es)) => Ok(
                    (
                        seq![f] + fs,
                        (match eopt {
                            Some(e) => seq![e],
                            None => Seq::empty(),
                        }) + es,
                    ),
                ),
            },
        }
    }
}

/// The whole semantic pass over a source module.
pub open spec fn sp_compile(m: ModuleV) -> Result<wat::ModuleV, ErrorV> {
    match sp_compile_from(builtin_types(), m.decls, 0, Seq::empty()) {
        Err(e) => Err(e),
        Ok((fs, es)) => Ok(wat::ModuleV { name: m.name, funcs: fs, exports: es }),
    }
}

/// Translates a source AST to a WAT AST.
pub fn compile(module: &Module) -> (r: ResultCompile<wat::Module>)
    ensures
        match sp_compile(module@) {
            Ok(w) => r matches Ok(m) && m@ == w,
            Err(e) => r matches Err(err) && err@ == e,
        },
{
    let table_type = create_default_type_table();
    let mut table_proc = Table::<TypeProc>::new();

    let name = module.name.clone();
    let mut funcs: Vec<wat::Func> = Vec::new();
    let mut exports: Vec<wat::Export> = Vec::new();

    let ghost decls = module@.decls;

    let mut i: usize = 0;
    while i < module.decls.len()
        invariant
            i <= module.decls.len(),
            decls == module@.decls,
            decls.len() == module.decls.len(),
            table_type@ == builtin_types(),
            name@ == module@.name,
            match sp_compile_from(builtin_types(), decls, i as int, table_proc@) {
                Ok((fs, es)) => sp_compile_from(builtin_types(), decls, 0, Seq::empty())
                    == Ok::<(Seq<wat::FuncV>, Seq<wat::ExportV>), ErrorV>(
                    (
                        funcs@.map_values(|f: wat::Func| f@) + fs,
                        exports@.map_values(|e: wat::Export| e@) + es,
                    ),
                ),
                Err(e) => sp_compile_from(builtin_types(), decls, 0, Seq::empty()) == Err::<
                    (Seq<wat::FuncV>, Seq<wat::ExportV>),
                    ErrorV,
                >(e),
            },
        decreases module.decls.len() - i,
    {
        proof {
            assert(funcs@.map_values(|f: wat::Func| f@) + Seq::<wat::FuncV>::empty()
                =~= funcs@.map_values(|f: wat::Func| f@));
            assert(exports@.map_values(|e: wat::Export| e@) + Seq::<wat::ExportV>::empty()
                =~= exports@.map_values(|e: wat::Export| e@));
        }
        let ghost pre_pt = table_proc@;
        let ghost pre_funcs = funcs@.map_values(|f: wat::Func| f@);
        let ghost pre_exports = exports@.map_values(|e: wat::Export| e@);
        let decl = &module.decls[i];
        proof {
            assert(decl@ == decls[i as int]);
        }
        let (func, export) = match compile_decl(&table_type, &mut table_proc, decl) {
            Err(e) => {
                return Err(e);
            },
            Ok(p) => p,
        };
        let ghost fv = func@;
        if let Some(export) = export {
            let ghost ev = export@;
            exports.push(export);
            proof {
                assert(exports@.map_values(|e: wat::Export| e@) =~= pre_exports.push(ev));
            }
        }
        funcs.push(func);
        proof {
            assert(funcs@.map_values(|f: wat::Func| f@) =~= pre_funcs.push(fv));
            if let Ok((f2, eopt2, pt2)) = sp_compile_decl(builtin_types(), pre_pt, decls[i as int]) {
                if let Ok((fs2, es2)) = sp_compile_from(builtin_types(), decls, i + 1, pt2) {
                    assert(pre_funcs + (seq![f2] + fs2) =~= pre_funcs.push(f2) + fs2);
                    assert(pre_exports + ((match eopt2 {
                        Some(e) => seq![e],
                        None => Seq::<wat::ExportV>::empty(),
                    }) + es2) =~= (match eopt2 {
                        Some(e) => pre_exports.push(e),
                        None => pre_exports,
                    }) + es2);
                }
            }
        }
        i = i + 1;
    }

    proof {
        assert(funcs@.map_values(|f: wat::Func| f@) + Seq::<wat::FuncV>::empty()
            =~= funcs@.map_values(|f: wat::Func| f@));
        assert(exports@.map_values(|e: wat::Export| e@) + Seq::<wat::ExportV>::empty()
            =~= exports@.map_values(|e: wat::Export| e@));
    }

    Ok(wat::Module { name, funcs, exports })
}

/// Compiles one declaration against the type environment and the
/// procedure table, dispatching on its kind.
pub fn compile_decl(
    table_type: &Table<Type>,
    table_proc: &mut Table<TypeProc>,
    decl: &Decl,
) -> (r: ResultCompile<(wat::Func, Option<wat::Export>)>)
    ensures
        match sp_compile_decl(table_type@, old(table_proc)@, decl@) {
            Ok((f, eopt, pt2)) => r matches Ok(pair) && pair.0@ == f && (match pair.1 {
                Some(x) => eopt == Some(x@),
                None => eopt is None,
            }) && final(table_proc)@ == pt2,
            Err(ev) => r matches Err(err) && err@ == ev && final(table_proc)@ == old(table_proc)@,
        },
{
    match decl {
        Decl::Proc(decl_proc) => compile_proc(table_type, table_proc, decl_proc),
    }
}

/// Compiles one procedure declaration: checks for redefinition, resolves
/// the declared return type, registers the signature, and produces the
/// function and its export record.
pub fn compile_proc(
    table_type: &Table<Type>,
    table_proc: &mut Table<TypeProc>,
    decl_proc: &Proc,
) -> (r: ResultCompile<(wat::Func, Option<wat::Export>)>)
    ensures
        match sp_compile_proc(table_type@, old(table_proc)@, decl_proc@) {
            Ok((f, eopt, pt2)) => r matches Ok(pair) && pair.0@ == f && (match pair.1 {
                Some(x) => eopt == Some(x@),
                None => eopt is None,
            }) && final(table_proc)@ == pt2,
            Err(ev) => r matches Err(err) && err@ == ev && final(table_proc)@ == old(table_proc)@,
        },
{
    // Make sure the proc name isn't being re-defined.
    if let Some(_) = table_proc.lookup(decl_proc.name.as_str()) {
        return Error::name_redefinition(decl_proc.name.as_str(), decl_proc.line);
    }

    let mut builder = BuilderFunc::new();
    builder.set_name(decl_proc.name.as_str());

    let t_return: Option<Type> = match &decl_proc.tid_return {
        None => None,
        Some(tid) => Some(lookup_type(table_type, tid.as_str(), decl_proc.line)?),
    };
    let t_return_wat: Option<wat::Type> = match &t_return {
        None => None,
        Some(t) => Some(to_type_wat(t)?),
    };
    builder.set_result(t_return_wat);
    table_proc.push(decl_proc.name.as_str(), TypeProc::new(t_return));

    let func = builder.build();
    let export = if decl_proc.export {
        Some(wat::Export { name: decl_proc.name.clone() })
    } else {
        None
    };

    Ok((func, export))
}

/// Creates a type table with built-in types.
pub fn create_default_type_table() -> (t: Table<Type>)
    ensures
        t@ == builtin_types(),
{
    let mut t = Table::new();
    t.push("INTEGER", Type::new_int());
    proof {
        assert(t@ =~= builtin_types());
    }
    t
}

/// Looks up the type bound to the given identifier, failing with
/// `UnknownType` at `line` when the identifier resolves to nothing.
pub fn lookup_type(table_type: &Table<Type>, tid: &str, line: usize) -> (r: ResultCompile<Type>)
    ensures
        match tbl_lookup(table_type@, tid@) {
            Some(t) => r matches Ok(tt) && tt == t,
            None => r matches Err(e) && e@ == (ErrorV {
                tag: ErrorTagV::UnknownType(tid@),
                line: line as nat,
            }),
        },
{
    let Some(t) = table_type.lookup(tid) else {
        return Err(Error::new(ErrorTag::UnknownType(tid.to_owned()), line));
    };
    Ok(*t)
}

/// Converts a resolved type to its WAT result type. Every type of the
/// current closed type model has one; a future type without one would
/// fail with `UnsupportedType`.
pub fn to_type_wat(t: &Type) -> (r: ResultCompile<wat::Type>)
    ensures
        r matches Ok(w) && w == sp_to_type_wat(*t),
{
    match t.tag() {
        TypeTag::Int => Ok(wat::Type::I32),
    }
}

/// The export records of the declarations from index `i` on, in source
/// order: one per declaration marked exported, carrying its name.
pub open spec fn sp_exports_of(decls: Seq<DeclV>, i: int) -> Seq<wat::ExportV>
    decreases decls.len() - i,
    when 0 <= i <= decls.len()
{
    if i == decls.len() {
        Seq::empty()
    } else {
        (if decl_export(decls[i]) {
            seq![wat::ExportV { name: decl_name(decls[i]) }]
        } else {
            Seq::empty()
        }) + sp_exports_of(decls, i + 1)
    }
}

/// The names of the declarations from index `i` on, in source order.
pub open spec fn decl_names(decls: Seq<DeclV>, i: int) -> Seq<Seq<char>>
    decreases decls.len() - i,
    when 0 <= i <= decls.len()
{
    if i == decls.len() {
        Seq::empty()
    } else {
        seq![decl_name(decls[i])] + decl_names(decls, i + 1)
    }
}

/// Whether `a` is an order-preserving (not necessarily contiguous)
/// subsequence of `b`.
pub open spec fn is_subseq<T>(a: Seq<T>, b: Seq<T>) -> bool
    decreases a.len() + b.len(),
{
    if a.len() == 0 {
        true
    } else if b.len() == 0 {
        false
    } else {
        (a[0] == b[0] && is_subseq(a.drop_first(), b.drop_first())) || is_subseq(
            a,
            b.drop_first(),
        )
    }
}

/// `decl_names` lists exactly the declarations' names, by index.
pub proof fn lemma_decl_names_index(decls: Seq<DeclV>, i: int)
    requires
        0 <= i <= decls.len(),
    ensures
        decl_names(decls, i).len() == decls.len() - i,
        forall|k: int|
            0 <= k < decls.len() - i ==> #[trigger] decl_names(decls, i)[k] == decl_name(
                decls[i + k],
            ),
    decreases decls.len() - i,
{
    if i < decls.len() {
        lemma_decl_names_index(decls, i + 1);
    }
}

/// What a successful compilation of the declarations from index `i`
/// yields: one function per declaration under its name, the export
/// records of the exported declarations, and the fact that none of the
/// remaining names was already in the procedure table.
pub proof fn lemma_compile_from_ok(
    tt: Seq<(Seq<char>, Type)>,
    decls: Seq<DeclV>,
    i: int,
    pt: Seq<(Seq<char>, TypeProc)>,
)
    requires
        0 <= i <= decls.len(),
        sp_compile_from(tt, decls, i, pt) is Ok,
    ensures
        sp_compile_from(tt, decls, i, pt) matches Ok(r) && {
            &&& r.0.len() == decls.len() - i
            &&& forall|k: int|
                0 <= k < decls.len() - i ==> (#[trigger] r.0[k]).name == decl_name(decls[i + k])
            &&& r.1 == sp_exports_of(decls, i)
            &&& forall|k: int|
                i <= k < decls.len() ==> #[trigger] tbl_lookup(pt, decl_name(decls[k])) is None
        },
    decreases decls.len() - i,
{
    if i == decls.len() {
        assert(sp_exports_of(decls, i) =~= Seq::<wat::ExportV>::empty());
    } else {
        let DeclV::Proc(p) = decls[i];
        match sp_compile_decl(tt, pt, decls[i]) {
            Err(_) => {
                assert(false);
            },
            Ok((f, eopt, pt2)) => {
                lemma_compile_from_ok(tt, decls, i + 1, pt2);
                let v = pt2.last().1;
                assert(pt2 == pt.push((p.name, v)));
                assert forall|k: int|
                    i <= k < decls.len() implies #[trigger] tbl_lookup(
                    pt,
                    decl_name(decls[k]),
                ) is None by {
                    if k > i {
                        lemma_lookup_push(pt, p.name, v, decl_name(decls[k]));
                    }
                }
                match sp_compile_from(tt, decls, i + 1, pt2) {
                    Err(_) => {
                        assert(false);
                    },
                    Ok((fs2, es2)) => {
                        assert forall|k: int|
                            0 <= k < decls.len() - i implies (#[trigger] (seq![f] + fs2)[k]).name
                            == decl_name(decls[i + k]) by {
                            if k > 0 {
                                assert((seq![f] + fs2)[k] == fs2[k - 1]);
                            }
                        }
                    },
                }
            },
        }
    }
}

/// A run of declarations whose names are pairwise distinct, absent from
/// the procedure table, and whose return types resolve, compiles without
/// error.
pub proof fn lemma_compile_from_success(
    tt: Seq<(Seq<char>, Type)>,
    decls: Seq<DeclV>,
    i: int,
    pt: Seq<(Seq<char>, TypeProc)>,
)
    requires
        0 <= i <= decls.len(),
        forall|k: int| i <= k < decls.len() ==> #[trigger] decl_resolvable(tt, decls[k]),
        forall|k: int|
            i <= k < decls.len() ==> #[trigger] tbl_lookup(pt, decl_name(decls[k])) is None,
        forall|a: int, b: int|
            i <= a < b < decls.len() ==> decl_name(decls[a]) != decl_name(decls[b]),
    ensures
        sp_compile_from(tt, decls, i, pt) is Ok,
    decreases decls.len() - i,
{
    if i < decls.len() {
        let DeclV::Proc(p) = decls[i];
        assert(tbl_lookup(pt, decl_name(decls[i])) is None);
        assert(decl_resolvable(tt, decls[i]));
        match sp_compile_decl(tt, pt, decls[i]) {
            Err(_) => {
                assert(false);
            },
            Ok((f, eopt, pt2)) => {
                let v = pt2.last().1;
                assert(pt2 == pt.push((p.name, v)));
                assert forall|k: int|
                    i + 1 <= k < decls.len() implies #[trigger] tbl_lookup(
                    pt2,
                    decl_name(decls[k]),
                ) is None by {
                    lemma_lookup_push(pt, p.name, v, decl_name(decls[k]));
                    assert(decl_name(decls[i]) != decl_name(decls[k]));
                }
                lemma_compile_from_success(tt, decls, i + 1, pt2);
            },
        }
    }
}

/// The names of the export records from index `i` form an
/// order-preserving subsequence of the declarations' names from `i`.
pub proof fn lemma_exports_names_subseq(decls: Seq<DeclV>, i: int)
    requires
        0 <= i <= decls.len(),
    ensures
        is_subseq(
            sp_exports_of(decls, i).map_values(|e: wat::ExportV| e.name),
            decl_names(decls, i),
        ),
    decreases decls.len() - i,
{
    let a = sp_exports_of(decls, i).map_values(|e: wat::ExportV| e.name);
    let b = decl_names(decls, i);
    if i == decls.len() {
        assert(a =~= Seq::<Seq<char>>::empty());
    } else {
        lemma_exports_names_subseq(decls, i + 1);
        let rest_a = sp_exports_of(decls, i + 1).map_values(|e: wat::ExportV| e.name);
        let rest_b = decl_names(decls, i + 1);
        assert(b.drop_first() =~= rest_b);
        if decl_export(decls[i]) {
            assert(a.drop_first() =~= rest_a);
            assert(a[0] == decl_name(decls[i]));
        } else {
            assert(a =~= rest_a);
        }
    }
}

/// Round-trip shape law: a module whose procedure declarations carry
/// pairwise distinct names and resolvable return types compiles without
/// error, and the target module holds exactly one function per
/// declaration, under the same name and in the same order.
pub proof fn lemma_round_trip_shape(m: ModuleV)
    requires
        forall|a: int, b: int|
            0 <= a < b < m.decls.len() ==> decl_name(m.decls[a]) != decl_name(m.decls[b]),
        forall|k: int|
            0 <= k < m.decls.len() ==> #[trigger] decl_resolvable(builtin_types(), m.decls[k]),
    ensures
        sp_compile(m) matches Ok(w) && {
            &&& w.name == m.name
            &&& w.funcs.len() == m.decls.len()
            &&& forall|k: int|
                0 <= k < m.decls.len() ==> (#[trigger] w.funcs[k]).name == decl_name(m.decls[k])
        },
{
    let pt0 = Seq::<(Seq<char>, TypeProc)>::empty();
    assert forall|k: int|
        0 <= k < m.decls.len() implies #[trigger] tbl_lookup(
        pt0,
        decl_name(m.decls[k]),
    ) is None by {
        assert(pt0.len() == 0);
    }
    lemma_compile_from_success(builtin_types(), m.decls, 0, pt0);
    lemma_compile_from_ok(builtin_types(), m.decls, 0, pt0);
}

/// Export subset law: whenever compilation succeeds, a function exists
/// for each declaration and for nothing else; an export record exists
/// exactly for the declarations marked exported, in source order; and
/// the export names form an order-preserving subsequence of the
/// function names.
pub proof fn lemma_export_subset(m: ModuleV)
    requires
        sp_compile(m) is Ok,
    ensures
        sp_compile(m) matches Ok(w) && {
            &&& w.funcs.len() == m.decls.len()
            &&& forall|k: int|
                0 <= k < m.decls.len() ==> (#[trigger] w.funcs[k]).name == decl_name(m.decls[k])
            &&& w.exports == sp_exports_of(m.decls, 0)
            &&& is_subseq(
                w.exports.map_values(|e: wat::ExportV| e.name),
                w.funcs.map_values(|f: wat::FuncV| f.name),
            )
        },
{
    lemma_compile_from_ok(builtin_types(), m.decls, 0, Seq::empty());
    lemma_exports_names_subseq(m.decls, 0);
    lemma_decl_names_index(m.decls, 0);
    match sp_compile(m) {
        Err(_) => {
            assert(false);
        },
        Ok(w) => {
            assert(w.funcs.map_values(|f: wat::FuncV| f.name) =~= decl_names(m.decls, 0));
        },
    }
}

/// Redefinition law: when two procedure declarations carry the same name
/// at indices `i < j`, `j` being the first place any name repeats and
/// everything before it compiling cleanly, compilation fails with
/// `NameRedefinition` carrying the name and the line of the *later*
/// declaration, never the earlier one's.
pub proof fn lemma_redefinition_line(m: ModuleV, i: int, j: int)
    requires
        0 <= i < j < m.decls.len(),
        decl_name(m.decls[i]) == decl_name(m.decls[j]),
        forall|a: int, b: int| 0 <= a < b < j ==> decl_name(m.decls[a]) != decl_name(m.decls[b]),
        forall|k: int| 0 <= k < j ==> #[trigger] decl_resolvable(builtin_types(), m.decls[k]),
    ensures
        sp_compile(m) == Err::<wat::ModuleV, ErrorV>(
            ErrorV {
                tag: ErrorTagV::NameRedefinition(decl_name(m.decls[j])),
                line: decl_line(m.decls[j]),
            },
        ),
{
    let pt0 = Seq::<(Seq<char>, TypeProc)>::empty();
    assert forall|k: int| 0 <= k < j implies #[trigger] tbl_lookup(
        pt0,
        decl_name(m.decls[k]),
    ) is None by {
        assert(pt0.len() == 0);
    }
    assert(decl_name(m.decls[i]) == decl_name(m.decls[j]));
    lemma_compile_from_redef(builtin_types(), m.decls, 0, pt0, j);
}

/// Helper for the redefinition law: when every declaration before `j`
/// compiles cleanly and the name of `j` is already in the table or among
/// those declarations, compilation from `idx` fails with the
/// redefinition error of declaration `j`.
proof fn lemma_compile_from_redef(
    tt: Seq<(Seq<char>, Type)>,
    decls: Seq<DeclV>,
    idx: int,
    pt: Seq<(Seq<char>, TypeProc)>,
    j: int,
)
    requires
        0 <= idx <= j < decls.len(),
        forall|k: int| idx <= k < j ==> #[trigger] tbl_lookup(pt, decl_name(decls[k])) is None,
        forall|k: int| idx <= k < j ==> #[trigger] decl_resolvable(tt, decls[k]),
        forall|a: int, b: int| idx <= a < b < j ==> decl_name(decls[a]) != decl_name(decls[b]),
        tbl_lookup(pt, decl_name(decls[j])) is Some || exists|k: int|
            idx <= k < j && #[trigger] decl_name(decls[k]) == decl_name(decls[j]),
    ensures
        sp_compile_from(tt, decls, idx, pt) == Err::<(Seq<wat::FuncV>, Seq<wat::ExportV>), ErrorV>(
            ErrorV {
                tag: ErrorTagV::NameRedefinition(decl_name(decls[j])),
                line: decl_line(decls[j]),
            },
        ),
    decreases j - idx,
{
    let DeclV::Proc(pj) = decls[j];
    if idx == j {
        assert(tbl_lookup(pt, decl_name(decls[j])) is Some);
    } else {
        let DeclV::Proc(p) = decls[idx];
        assert(tbl_lookup(pt, decl_name(decls[idx])) is None);
        assert(decl_resolvable(tt, decls[idx]));
        match sp_compile_decl(tt, pt, decls[idx]) {
            Err(_) => {
                assert(false);
            },
            Ok((f, eopt, pt2)) => {
                let v = pt2.last().1;
                assert(pt2 == pt.push((p.name, v)));
                assert forall|k: int|
                    idx + 1 <= k < j implies #[trigger] tbl_lookup(
                    pt2,
                    decl_name(decls[k]),
                ) is None by {
                    lemma_lookup_push(pt, p.name, v, decl_name(decls[k]));
                    assert(decl_name(decls[idx]) != decl_name(decls[k]));
                }
                if tbl_lookup(pt, decl_name(decls[j])) is Some {
                    lemma_lookup_push(pt, p.name, v, decl_name(decls[j]));
                    assert(tbl_lookup(pt2, decl_name(decls[j])) is Some);
                } else {
                    let k0 = choose|k: int|
                        idx <= k < j && #[trigger] decl_name(decls[k]) == decl_name(decls[j]);
                    if k0 == idx {
                        lemma_lookup_push(pt, p.name, v, decl_name(decls[j]));
                        assert(tbl_lookup(pt2, decl_name(decls[j])) is Some);
                    }
                }
                lemma_compile_from_redef(tt, decls, idx + 1, pt2, j);
            },
        }
    }
}

} // verus!

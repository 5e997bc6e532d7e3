//! Code emission: a single deterministic traversal of the target tree,
//! serialized to the WebAssembly text format.
//!
//! [`sp_emit`] gives the output text as a mathematical function of the
//! module; [`emit_module`] is proved to produce exactly that text.

use vstd::prelude::*;
use vstd::string::StringExecFns;

use crate::wat;

verus! {

/// The text of one function: an S-expression with an empty body.
pub open spec fn sp_emit_func(f: wat::FuncV) -> Seq<char> {
    "    (func $"@ + f.name + "\n    )\n"@
}

/// The text of one export record.
pub open spec fn sp_emit_export(e: wat::ExportV) -> Seq<char> {
    "    (export \""@ + e.name + "\" (func $"@ + e.name + "))\n"@
}

/// The concatenated text of the functions from index `i` on.
pub open spec fn sp_emit_funcs(funcs: Seq<wat::FuncV>, i: int) -> Seq<char>
    decreases funcs.len() - i,
    when 0 <= i <= funcs.len()
{
    if i == funcs.len() {
        Seq::empty()
    } else {
        sp_emit_func(funcs[i]) + sp_emit_funcs(funcs, i + 1)
    }
}

/// The concatenated text of the export records from index `i` on.
pub open spec fn sp_emit_exports(exports: Seq<wat::ExportV>, i: int) -> Seq<char>
    decreases exports.len() - i,
    when 0 <= i <= exports.len()
{
    if i == exports.len() {
        Seq::empty()
    } else {
        sp_emit_export(exports[i]) + sp_emit_exports(exports, i + 1)
    }
}

/// The full module text: the module header, the functions in order, the
/// exports in order, and the closing parenthesis.
pub open spec fn sp_emit(m: wat::ModuleV) -> Seq<char> {
    "(module $"@ + m.name + "\n"@ + sp_emit_funcs(m.funcs, 0) + sp_emit_exports(m.exports, 0)
        + ")\n"@
}

/// Serializes a WAT module to WebAssembly text format.
pub fn emit_module(module: &wat::Module) -> (r: String)
    ensures
        r@ == sp_emit(module@),
{
    let ghost fv = module@.funcs;
    let ghost ev = module@.exports;

    let mut code = String::new();

    code.append("(module $");
    code.append(module.name.as_str());
    code.append("\n");

    let mut i: usize = 0;
    while i < module.funcs.len()
        invariant
            i <= module.funcs.len(),
            fv == module@.funcs,
            ev == module@.exports,
            fv.len() == module.funcs.len(),
            sp_emit(module@) == code@ + sp_emit_funcs(fv, i as int) + sp_emit_exports(ev, 0)
                + ")\n"@,
        decreases module.funcs.len() - i,
    {
        let ghost pre = code@;
        let func = &module.funcs[i];
        proof {
            assert(func@ == fv[i as int]);
        }
        code.append("    (func $");
        code.append(func.name.as_str());
        code.append("\n    )\n");
        proof {
            assert(code@ =~= pre + sp_emit_func(fv[i as int]));
            assert(pre + (sp_emit_func(fv[i as int]) + sp_emit_funcs(fv, i + 1))
                + sp_emit_exports(ev, 0) + ")\n"@ =~= code@ + sp_emit_funcs(fv, i + 1)
                + sp_emit_exports(ev, 0) + ")\n"@);
        }
        i = i + 1;
    }

    let mut j: usize = 0;
    while j < module.exports.len()
        invariant
            j <= module.exports.len(),
            ev == module@.exports,
            ev.len() == module.exports.len(),
            sp_emit(module@) == code@ + sp_emit_exports(ev, j as int) + ")\n"@,
        decreases module.exports.len() - j,
    {
        let ghost pre = code@;
        let export = &module.exports[j];
        proof {
            assert(export@ == ev[j as int]);
        }
        code.append("    (export \"");
        code.append(export.name.as_str());
        code.append("\" (func $");
        code.append(export.name.as_str());
        code.append("))\n");
        proof {
            assert(code@ =~= pre + sp_emit_export(ev[j as int]));
            assert(pre + (sp_emit_export(ev[j as int]) + sp_emit_exports(ev, j + 1)) + ")\n"@
                =~= code@ + sp_emit_exports(ev, j + 1) + ")\n"@);
        }
        j = j + 1;
    }

    code.append(")\n");

    proof {
        assert(code@ =~= sp_emit(module@));
    }

    code
}

} // verus!

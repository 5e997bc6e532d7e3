//! Abstract syntax tree types for the WebAssembly text format target.

use vstd::prelude::*;

verus! {

/// A WAT module.
#[derive(Debug)]
pub struct Module {
    /// The module's name.
    pub name: String,

    /// The module's functions, in declaration order.
    pub funcs: Vec<Func>,

    /// The module's exports, in declaration order.
    pub exports: Vec<Export>,
}

/// A WAT function.
#[derive(Debug, PartialEq)]
pub struct Func {
    /// The function's name.
    pub name: String,

    /// The function's result.
    pub result: Option<Type>,
}

/// Represents an export S-expression.
#[derive(Debug, PartialEq)]
pub struct Export {
    /// The export's name.
    pub name: String,
}

/// WAT types.
#[derive(Clone, Copy, Debug, PartialEq, Eq, Structural)]
pub enum Type {
    /// The `i32` type.
    I32,
}

/// Mathematical view of a [`Func`].
pub struct FuncV {
    pub name: Seq<char>,
    pub result: Option<Type>,
}

/// Mathematical view of an [`Export`].
pub struct ExportV {
    pub name: Seq<char>,
}

/// Mathematical view of a [`Module`].
pub struct ModuleV {
    pub name: Seq<char>,
    pub funcs: Seq<FuncV>,
    pub exports: Seq<ExportV>,
}

impl View for Func {
    type V = FuncV;

    open spec fn view(&self) -> FuncV {
        FuncV { name: self.name@, result: self.result }
    }
}

impl View for Export {
    type V = ExportV;

    open spec fn view(&self) -> ExportV {
        ExportV { name: self.name@ }
    }
}

impl View for Module {
    type V = ModuleV;

    open spec fn view(&self) -> ModuleV {
        ModuleV {
            name: self.name@,
            funcs: self.funcs@.map_values(|f: Func| f@),
            exports: self.exports@.map_values(|e: Export| e@),
        }
    }
}

/// The view of a function builder with all fields at their defaults.
pub open spec fn empty_func_v() -> FuncV {
    FuncV { name: Seq::empty(), result: None }
}

/// Accumulates the fields of a [`Func`] before it is finalized.
pub struct BuilderFunc {
    name: String,
    result: Option<Type>,
}

impl View for BuilderFunc {
    type V = FuncV;

    closed spec fn view(&self) -> FuncV {
        FuncV { name: self.name@, result: self.result }
    }
}

impl BuilderFunc {
    /// A builder with all fields at their defaults.
    pub fn new() -> (r: Self)
        ensures
            r@ == empty_func_v(),
    {
        Self { name: String::new(), result: None }
    }

    /// Sets the function's name.
    pub fn set_name(&mut self, name: &str) -> (r: &mut Self)
        ensures
            r@ == (FuncV { name: name@, ..old(self)@ }),
            *final(self) == *final(r),
    {
        self.name = name.to_owned();
        self
    }

    /// Sets the function's result type.
    pub fn set_result(&mut self, result: Option<Type>) -> (r: &mut Self)
        ensures
            r@ == (FuncV { result, ..old(self)@ }),
            *final(self) == *final(r),
    {
        self.result = result;
        self
    }

    /// Finalizes the function, moving the accumulated fields out and
    /// resetting the builder to its defaults.
    pub fn build(&mut self) -> (r: Func)
        ensures
            r@ == old(self)@,
            final(self)@ == empty_func_v(),
    {
        let mut name = String::new();
        let mut result: Option<Type> = None;
        core::mem::swap(&mut name, &mut self.name);
        core::mem::swap(&mut result, &mut self.result);
        Func { name, result }
    }
}

} // verus!

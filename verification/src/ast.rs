//! Abstract syntax tree types for the source language, with the builders
//! that accumulate node fields before finalizing each node.

use vstd::prelude::*;

verus! {

/// A module.
#[derive(Debug)]
pub struct Module {
    /// The module's name.
    pub name: String,

    /// The module's declaration list, in source order.
    pub decls: Vec<Decl>,
}

/// All possible declarations.
#[derive(Debug)]
pub enum Decl {
    /// A procedure declaration.
    Proc(Proc),
}

/// A procedure declaration.
#[derive(Debug)]
pub struct Proc {
    /// The procedure's name.
    pub name: String,

    /// The line the procedure is defined on.
    pub line: usize,

    /// Whether the procedure is exported.
    pub export: bool,

    /// Return type identifier, unresolved until compilation.
    pub tid_return: Option<String>,
}

/// Mathematical view of a [`Proc`].
pub struct ProcV {
    pub name: Seq<char>,
    pub line: nat,
    pub export: bool,
    pub tid_return: Option<Seq<char>>,
}

/// Mathematical view of a [`Decl`].
pub enum DeclV {
    Proc(ProcV),
}

/// Mathematical view of a [`Module`].
pub struct ModuleV {
    pub name: Seq<char>,
    pub decls: Seq<DeclV>,
}

impl View for Proc {
    type V = ProcV;

    open spec fn view(&self) -> ProcV {
        ProcV {
            name: self.name@,
            line: self.line as nat,
            export: self.export,
            tid_return: match self.tid_return {
                Some(ref tid) => Some(tid@),
                None => None,
            },
        }
    }
}

impl View for Decl {
    type V = DeclV;

    open spec fn view(&self) -> DeclV {
        match self {
            Decl::Proc(p) => DeclV::Proc(p@),
        }
    }
}

impl View for Module {
    type V = ModuleV;

    open spec fn view(&self) -> ModuleV {
        ModuleV { name: self.name@, decls: self.decls@.map_values(|d: Decl| d@) }
    }
}

/// Accumulates the fields of a [`Module`] before it is finalized.
pub struct BuilderModule {
    pub name: String,
    pub decls: Vec<Decl>,
}

impl View for BuilderModule {
    type V = ModuleV;

    open spec fn view(&self) -> ModuleV {
        ModuleV { name: self.name@, decls: self.decls@.map_values(|d: Decl| d@) }
    }
}

/// The view of a builder with all fields at their defaults.
pub open spec fn empty_module_v() -> ModuleV {
    ModuleV { name: Seq::empty(), decls: Seq::empty() }
}

impl BuilderModule {
    /// A builder with no name and no declarations.
    pub fn new() -> (r: Self)
        ensures
            r@ == empty_module_v(),
    {
        let r = Self { name: String::new(), decls: Vec::new() };
        proof {
            assert(r@.decls =~= Seq::<DeclV>::empty());
        }
        r
    }

    /// Sets the module's name.
    pub fn set_name(&mut self, name: &str) -> (r: &mut Self)
        ensures
            r@ == (ModuleV { name: name@, decls: old(self)@.decls }),
            *final(self) == *final(r),
    {
        self.name = name.to_owned();
        self
    }

    /// Appends a declaration.
    pub fn add_decl(&mut self, decl: Decl) -> (r: &mut Self)
        ensures
            r@ == (ModuleV { name: old(self)@.name, decls: old(self)@.decls.push(decl@) }),
            *final(self) == *final(r),
    {
        let ghost pre = self.decls@.map_values(|d: Decl| d@);
        let ghost dv = decl@;
        self.decls.push(decl);
        proof {
            assert(self.decls@.map_values(|d: Decl| d@) =~= pre.push(dv));
        }
        self
    }

    /// Finalizes the module, moving the accumulated fields out and
    /// resetting the builder to its defaults.
    pub fn build(&mut self) -> (r: Module)
        ensures
            r@ == old(self)@,
            final(self)@ == empty_module_v(),
    {
        let mut name = String::new();
        let mut decls: Vec<Decl> = Vec::new();
        core::mem::swap(&mut name, &mut self.name);
        core::mem::swap(&mut decls, &mut self.decls);
        proof {
            assert(self.decls@.map_values(|d: Decl| d@) =~= Seq::<DeclV>::empty());
        }
        Module { name, decls }
    }
}

/// The view of a procedure builder with all fields at their defaults.
pub open spec fn empty_proc_v() -> ProcV {
    ProcV { name: Seq::empty(), line: 0, export: false, tid_return: None }
}

/// Accumulates the fields of a [`Proc`] before it is finalized.
pub struct BuilderProc {
    name: String,
    line: usize,
    export: bool,
    tid_return: Option<String>,
}

impl View for BuilderProc {
    type V = ProcV;

    closed spec fn view(&self) -> ProcV {
        ProcV {
            name: self.name@,
            line: self.line as nat,
            export: self.export,
            tid_return: match self.tid_return {
                Some(ref tid) => Some(tid@),
                None => None,
            },
        }
    }
}

impl BuilderProc {
    /// A builder with all fields at their defaults.
    pub fn new() -> (r: Self)
        ensures
            r@ == empty_proc_v(),
    {
        Self { name: String::new(), line: 0, export: false, tid_return: None }
    }

    /// Sets the procedure's name and the line it is declared on.
    pub fn set_name(&mut self, name: &str, line: usize) -> (r: &mut Self)
        ensures
            r@ == (ProcV { name: name@, line: line as nat, ..old(self)@ }),
            *final(self) == *final(r),
    {
        self.name = name.to_owned();
        self.line = line;
        self
    }

    /// Sets whether the procedure is exported.
    pub fn set_export(&mut self, export: bool) -> (r: &mut Self)
        ensures
            r@ == (ProcV { export, ..old(self)@ }),
            *final(self) == *final(r),
    {
        self.export = export;
        self
    }

    /// Sets the procedure's declared return-type identifier.
    pub fn set_tid_return(&mut self, tid_return: &str) -> (r: &mut Self)
        ensures
            r@ == (ProcV { tid_return: Some(tid_return@), ..old(self)@ }),
            *final(self) == *final(r),
    {
        self.tid_return = Some(tid_return.to_owned());
        self
    }

    /// Finalizes the procedure, moving the accumulated fields out and
    /// resetting the builder to its defaults.
    pub fn build(&mut self) -> (r: Proc)
        ensures
            r@ == old(self)@,
            final(self)@ == empty_proc_v(),
    {
        let mut name = String::new();
        let mut line: usize = 0;
        let mut export = false;
        let mut tid_return: Option<String> = None;
        core::mem::swap(&mut name, &mut self.name);
        core::mem::swap(&mut line, &mut self.line);
        core::mem::swap(&mut export, &mut self.export);
        core::mem::swap(&mut tid_return, &mut self.tid_return);
        Proc { name, line, export, tid_return }
    }

    /// Finalizes the procedure as a declaration.
    pub fn build_decl(&mut self) -> (r: Decl)
        ensures
            r@ == DeclV::Proc(old(self)@),
            final(self)@ == empty_proc_v(),
    {
        let decl_proc = self.build();
        Decl::Proc(decl_proc)
    }
}

} // verus!

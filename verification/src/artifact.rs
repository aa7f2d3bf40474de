//! Compiled artifacts: the structured, immutable results of emission.

use vstd::prelude::*;
use crate::address::AccountAddress;
use crate::ast::tok_views;

verus! {

/// A compiled module: the address it was compiled for, its name, and the
/// modules it references, in order.
#[derive(Clone, Debug, PartialEq, Eq)]
pub struct CompiledModule {
    pub address: AccountAddress,
    pub name: Vec<u8>,
    pub calls: Vec<Vec<u8>>,
}

/// The mathematical value of a compiled module.
pub struct CompiledModuleV {
    pub address: Seq<u8>,
    pub name: Seq<u8>,
    pub calls: Seq<Seq<u8>>,
}

impl View for CompiledModule {
    type V = CompiledModuleV;

    open spec fn view(&self) -> CompiledModuleV {
        CompiledModuleV {
            address: self.address@,
            name: self.name@,
            calls: tok_views(self.calls),
        }
    }
}

impl CompiledModule {
    /// An identical fresh copy of the module.
    pub fn duplicate(&self) -> (r: Self)
        ensures
            r@ == self@,
    {
        let name = vstd::slice::slice_to_vec(self.name.as_slice());
        let mut calls: Vec<Vec<u8>> = Vec::new();
        let mut i: usize = 0;
        proof {
            assert(tok_views(calls) =~= tok_views(self.calls).take(0));
        }
        while i < self.calls.len()
            invariant
                0 <= i <= self.calls@.len(),
                tok_views(calls) == tok_views(self.calls).take(i as int),
            decreases self.calls@.len() - i,
        {
            let ghost c0 = tok_views(calls);
            calls.push(vstd::slice::slice_to_vec(self.calls[i].as_slice()));
            proof {
                assert(tok_views(calls) =~= c0.push(tok_views(self.calls)[i as int]));
                assert(c0.push(tok_views(self.calls)[i as int]) =~= tok_views(self.calls).take(
                    i as int + 1,
                ));
            }
            i += 1;
        }
        proof {
            assert(tok_views(self.calls).take(self.calls@.len() as int) =~= tok_views(self.calls));
        }
        CompiledModule { address: self.address, name, calls }
    }
}

/// A compiled script: the address it was compiled for and the modules it
/// references, in order.
#[derive(Clone, Debug, PartialEq, Eq)]
pub struct CompiledScript {
    pub address: AccountAddress,
    pub calls: Vec<Vec<u8>>,
}

/// The mathematical value of a compiled script.
pub struct CompiledScriptV {
    pub address: Seq<u8>,
    pub calls: Seq<Seq<u8>>,
}

impl View for CompiledScript {
    type V = CompiledScriptV;

    open spec fn view(&self) -> CompiledScriptV {
        CompiledScriptV { address: self.address@, calls: tok_views(self.calls) }
    }
}

/// The views of a vector of compiled modules, one value per element.
pub open spec fn compiled_views(v: Vec<CompiledModule>) -> Seq<CompiledModuleV> {
    Seq::new(v@.len(), |i: int| v@[i]@)
}

/// A compiled program: one script together with the modules compiled from
/// the same source unit, in source order.
#[derive(Clone, Debug, PartialEq, Eq)]
pub struct CompiledProgram {
    pub script: CompiledScript,
    pub modules: Vec<CompiledModule>,
}

/// The mathematical value of a compiled program.
pub struct CompiledProgramV {
    pub script: CompiledScriptV,
    pub modules: Seq<CompiledModuleV>,
}

impl View for CompiledProgram {
    type V = CompiledProgramV;

    open spec fn view(&self) -> CompiledProgramV {
        CompiledProgramV { script: self.script@, modules: compiled_views(self.modules) }
    }
}

/// A module that has passed bytecode verification.  Verification itself is
/// the verifier collaborator's job: this type only records its outcome, and
/// a value of it is never mutated.
#[derive(Clone, Debug)]
pub struct VerifiedModule {
    module: CompiledModule,
}

impl View for VerifiedModule {
    type V = CompiledModuleV;

    closed spec fn view(&self) -> CompiledModuleV {
        self.module@
    }
}

impl VerifiedModule {
    /// Wrap a module whose verification already succeeded.
    pub fn new(module: CompiledModule) -> (r: Self)
        ensures
            r@ == module@,
    {
        VerifiedModule { module }
    }

    /// The name the module was compiled under.
    pub fn name(&self) -> (r: &Vec<u8>)
        ensures
            r@ == self@.name,
    {
        &self.module.name
    }

    /// Give the underlying compiled module back.
    pub fn into_inner(self) -> (r: CompiledModule)
        ensures
            r@ == self@,
    {
        self.module
    }
}

/// The views of a vector of verified modules, one value per element.
pub open spec fn verified_views(v: Vec<VerifiedModule>) -> Seq<CompiledModuleV> {
    Seq::new(v@.len(), |i: int| v@[i]@)
}

} // verus!

//! Convenience entry points that compile scripts, modules and programs in
//! one call.  Each one builds a request, runs it, and hands the result back
//! directly, so each demands a source that its request compiles.

use vstd::prelude::*;
use vstd::string::StringSliceAdditionalSpecFns;
use crate::address::AccountAddress;
use crate::artifact::{CompiledModule, CompiledModuleV, VerifiedModule, verified_views};
use crate::compiler::{
    Compiler, ModuleOutcomeV, ProgramOutcomeV, spec_compile_module, spec_compile_program,
    spec_compile_program_forced,
};
use crate::codec::{spec_ser_module, spec_ser_modules, spec_ser_script};
use crate::stdlib::zero_address;
use crate::transaction::{Program, TransactionArgument, arg_views};

verus! {

/// The extras list of a request that supplies none.
pub open spec fn no_extras() -> Seq<CompiledModuleV> {
    Seq::empty()
}

fn code_bytes(code: &str) -> (r: Vec<u8>)
    ensures
        r@ == code.spec_bytes(),
{
    vstd::slice::slice_to_vec(code.as_bytes())
}

/// Compile source into serialized script bytes, with the zero address as
/// the sender and the baseline included.
pub fn compile_script(code: &str) -> (r: Vec<u8>)
    requires
        spec_compile_program(code.spec_bytes(), zero_address(), no_extras(), false)
            is Compiled,
    ensures
        spec_compile_program(code.spec_bytes(), zero_address(), no_extras(), false)
            matches ProgramOutcomeV::Compiled { program, .. } && r@ == spec_ser_script(
            program.script,
        ),
{
    let mut compiler = Compiler::default();
    compiler.code = code_bytes(code);
    match compiler.into_script_blob() {
        Ok(b) => b,
        Err(_) => {
            proof {
                assert(false);
            }
            Vec::new()
        },
    }
}

/// Compile source into serialized script bytes for the given sender.
pub fn compile_script_with_address(address: &AccountAddress, code: &str) -> (r: Vec<u8>)
    requires
        spec_compile_program(code.spec_bytes(), address@, no_extras(), false) is Compiled,
    ensures
        spec_compile_program(code.spec_bytes(), address@, no_extras(), false)
            matches ProgramOutcomeV::Compiled { program, .. } && r@ == spec_ser_script(
            program.script,
        ),
{
    let mut compiler = Compiler::default();
    compiler.address = *address;
    compiler.code = code_bytes(code);
    match compiler.into_script_blob() {
        Ok(b) => b,
        Err(_) => {
            proof {
                assert(false);
            }
            Vec::new()
        },
    }
}

/// Compile source and arguments into a transaction payload, with `address`
/// as the sender for any modules in the source.
pub fn compile_program_with_address(
    address: &AccountAddress,
    code: &str,
    args: Vec<TransactionArgument>,
) -> (r: Program)
    requires
        spec_compile_program(code.spec_bytes(), address@, no_extras(), false) is Compiled,
    ensures
        spec_compile_program(code.spec_bytes(), address@, no_extras(), false)
            matches ProgramOutcomeV::Compiled { program, .. } && r@.code == spec_ser_script(
            program.script,
        ) && r@.modules == spec_ser_modules(program.modules) && r@.args == arg_views(args),
{
    let mut compiler = Compiler::default();
    compiler.address = *address;
    compiler.code = code_bytes(code);
    match compiler.into_program(args) {
        Ok(p) => p,
        Err(_) => {
            proof {
                assert(false);
            }
            crate::codec::build_payload(Vec::new(), Vec::new(), Vec::new())
        },
    }
}

/// As `compile_program_with_address`, but also return the dependency set
/// that was linked against and the structured modules.
pub fn compile_program_with_address_return_deps(
    address: &AccountAddress,
    code: &str,
    args: Vec<TransactionArgument>,
) -> (r: (Program, Vec<VerifiedModule>, Vec<CompiledModule>))
    requires
        spec_compile_program(code.spec_bytes(), address@, no_extras(), false) is Compiled,
    ensures
        spec_compile_program(code.spec_bytes(), address@, no_extras(), false)
            matches ProgramOutcomeV::Compiled { program, deps } && r.0@.code == spec_ser_script(
            program.script,
        ) && r.0@.modules == spec_ser_modules(program.modules) && r.0@.args == arg_views(args)
            && verified_views(r.1) == deps && crate::artifact::compiled_views(r.2)
            == program.modules,
{
    let mut compiler = Compiler::default();
    compiler.address = *address;
    compiler.code = code_bytes(code);
    match compiler.into_program_and_deps(args) {
        Ok(t) => t,
        Err(_) => {
            proof {
                assert(false);
            }
            (
                crate::codec::build_payload(Vec::new(), Vec::new(), Vec::new()),
                Vec::new(),
                Vec::new(),
            )
        },
    }
}

/// Compile source and arguments into a transaction payload, wrapping the
/// first of `deps` as a verified extra dependency and resolving under the
/// forced-merge policy.
pub fn compile_program_with_address_with_deps(
    address: &AccountAddress,
    code: &str,
    args: Vec<TransactionArgument>,
    deps: Vec<CompiledModule>,
) -> (r: Program)
    requires
        deps@.len() > 0,
        spec_compile_program_forced(code.spec_bytes(), address@, seq![deps@[0]@])
            is Compiled,
    ensures
        spec_compile_program_forced(code.spec_bytes(), address@, seq![deps@[0]@])
            matches ProgramOutcomeV::Compiled { program, .. } && r@.code == spec_ser_script(
            program.script,
        ) && r@.modules == spec_ser_modules(program.modules) && r@.args == arg_views(args),
{
    let depsv = VerifiedModule::new(deps[0].duplicate());
    let mut extra_deps: Vec<VerifiedModule> = Vec::new();
    extra_deps.push(depsv);
    let mut compiler = Compiler::default();
    compiler.address = *address;
    compiler.code = code_bytes(code);
    compiler.extra_deps = extra_deps;
    proof {
        assert(verified_views(compiler.extra_deps) =~= seq![deps@[0]@]);
    }
    match compiler.into_program_2(args, deps) {
        Ok(p) => p,
        Err(_) => {
            proof {
                assert(false);
            }
            crate::codec::build_payload(Vec::new(), Vec::new(), Vec::new())
        },
    }
}

/// Compile source and arguments into a transaction payload with the zero
/// address as the sender.  Supports a script and modules defined in the
/// same source unit.
pub fn compile_program(code: &str, args: Vec<TransactionArgument>) -> (r: Program)
    requires
        spec_compile_program(code.spec_bytes(), zero_address(), no_extras(), false)
            is Compiled,
    ensures
        spec_compile_program(code.spec_bytes(), zero_address(), no_extras(), false)
            matches ProgramOutcomeV::Compiled { program, .. } && r@.code == spec_ser_script(
            program.script,
        ) && r@.modules == spec_ser_modules(program.modules) && r@.args == arg_views(args),
{
    let mut compiler = Compiler::default();
    compiler.code = code_bytes(code);
    match compiler.into_program(args) {
        Ok(p) => p,
        Err(_) => {
            proof {
                assert(false);
            }
            crate::codec::build_payload(Vec::new(), Vec::new(), Vec::new())
        },
    }
}

/// Compile source into serialized module bytes, with the zero address as
/// the sender.
pub fn compile_module(code: &str) -> (r: Vec<u8>)
    requires
        spec_compile_module(code.spec_bytes(), zero_address(), no_extras(), false)
            is Compiled,
    ensures
        spec_compile_module(code.spec_bytes(), zero_address(), no_extras(), false)
            matches ModuleOutcomeV::Compiled { module, .. } && r@ == spec_ser_module(module),
{
    let mut compiler = Compiler::default();
    compiler.code = code_bytes(code);
    match compiler.into_module_blob() {
        Ok(b) => b,
        Err(_) => {
            proof {
                assert(false);
            }
            Vec::new()
        },
    }
}

/// Compile source into serialized module bytes for the given sender.
pub fn compile_module_with_address(address: &AccountAddress, code: &str) -> (r: Vec<u8>)
    requires
        spec_compile_module(code.spec_bytes(), address@, no_extras(), false) is Compiled,
    ensures
        spec_compile_module(code.spec_bytes(), address@, no_extras(), false)
            matches ModuleOutcomeV::Compiled { module, .. } && r@ == spec_ser_module(module),
{
    let mut compiler = Compiler::default();
    compiler.address = *address;
    compiler.code = code_bytes(code);
    match compiler.into_module_blob() {
        Ok(b) => b,
        Err(_) => {
            proof {
                assert(false);
            }
            Vec::new()
        },
    }
}

} // verus!

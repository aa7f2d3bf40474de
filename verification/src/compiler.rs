//! The pipeline driver: one compilation request, its configuration surface,
//! and the entry points that consume it.
//!
//! A `Compiler` value describes one request.  Every `into_*` entry point
//! takes the value by move and may therefore be called only once per
//! request: a configuration cannot be resolved twice.

use vstd::prelude::*;
use crate::address::AccountAddress;
use crate::artifact::{
    CompiledModule, CompiledModuleV, CompiledProgram, CompiledProgramV, CompiledScript,
    VerifiedModule, compiled_views, verified_views,
};
use crate::ast::{SourceUnitV, spec_parse, parse_unit};
use crate::codec::{
    serialize_module, serialize_modules, serialize_script, spec_ser_module, spec_ser_modules,
    spec_ser_script,
};
use crate::emitter::{dep_names, emit_module, emit_program, spec_emit_module, spec_emit_program};
use crate::errors::CompilerError;
use crate::resolver::{
    resolve_default, resolve_forced_merge, spec_resolve_default, spec_resolve_forced,
};
use crate::transaction::{Program, TransactionArgument, arg_views};

verus! {

/// What one program-compilation request comes to, at the specification
/// level: the pipeline is parse, then dependency resolution, then emission,
/// and the first failing stage ends it.
pub enum ProgramOutcomeV {
    /// The source text is malformed.
    ParseFailed,
    /// Emission could not resolve the named symbol.
    Unresolved { symbol: Seq<u8> },
    /// The compiled program together with the dependency set it was linked
    /// against.
    Compiled { program: CompiledProgramV, deps: Seq<CompiledModuleV> },
}

/// What one module-compilation request comes to, at the specification level.
pub enum ModuleOutcomeV {
    /// The source text is malformed.
    ParseFailed,
    /// The unit does not define exactly one module; `found` is how many it
    /// defines.
    WrongArity { found: nat },
    /// Emission could not resolve the named symbol.
    Unresolved { symbol: Seq<u8> },
    /// The compiled module together with the dependency set it was linked
    /// against.
    Compiled { module: CompiledModuleV, deps: Seq<CompiledModuleV> },
}

/// The outcome of compiling a program from `code` for `addr`, with the
/// dependency set resolved from `extras` under the default policy.
pub open spec fn spec_compile_program(
    code: Seq<u8>,
    addr: Seq<u8>,
    extras: Seq<CompiledModuleV>,
    skip_baseline: bool,
) -> ProgramOutcomeV {
    match spec_parse(code) {
        Option::None => ProgramOutcomeV::ParseFailed,
        Option::Some(u) => {
            let deps = spec_resolve_default(extras, skip_baseline);
            match spec_emit_program(addr, u, dep_names(deps)) {
                Result::Err(s) => ProgramOutcomeV::Unresolved { symbol: s },
                Result::Ok(p) => ProgramOutcomeV::Compiled { program: p, deps },
            }
        },
    }
}

/// The outcome of compiling a program with the dependency set resolved
/// under the forced-merge policy, whatever the skip flag says.
pub open spec fn spec_compile_program_forced(
    code: Seq<u8>,
    addr: Seq<u8>,
    extras: Seq<CompiledModuleV>,
) -> ProgramOutcomeV {
    match spec_parse(code) {
        Option::None => ProgramOutcomeV::ParseFailed,
        Option::Some(u) => {
            let deps = spec_resolve_forced(extras);
            match spec_emit_program(addr, u, dep_names(deps)) {
                Result::Err(s) => ProgramOutcomeV::Unresolved { symbol: s },
                Result::Ok(p) => ProgramOutcomeV::Compiled { program: p, deps },
            }
        },
    }
}

/// The outcome of compiling a single module from `code` for `addr`.
pub open spec fn spec_compile_module(
    code: Seq<u8>,
    addr: Seq<u8>,
    extras: Seq<CompiledModuleV>,
    skip_baseline: bool,
) -> ModuleOutcomeV {
    match spec_parse(code) {
        Option::None => ModuleOutcomeV::ParseFailed,
        Option::Some(u) => {
            if u.modules.len() != 1 {
                ModuleOutcomeV::WrongArity { found: u.modules.len() }
            } else {
                let deps = spec_resolve_default(extras, skip_baseline);
                match spec_emit_module(addr, u.modules[0], dep_names(deps)) {
                    Result::Err(s) => ModuleOutcomeV::Unresolved { symbol: s },
                    Result::Ok(m) => ModuleOutcomeV::Compiled { module: m, deps },
                }
            }
        },
    }
}

/// One compilation request.  Built once, consumed exactly once by one of
/// the `into_*` entry points.
#[derive(Clone, Debug)]
pub struct Compiler {
    /// The address used as the sender for the compilation.
    pub address: AccountAddress,
    /// The source text to compile, as UTF-8 bytes.
    pub code: Vec<u8>,
    /// Skip the standard-library baseline if true.
    pub skip_stdlib_deps: bool,
    /// An address hint for the standard library, kept for callers; the
    /// baseline modules carry their own fixed address.
    pub stdlib_address: AccountAddress,
    /// Extra dependencies to compile with.
    pub extra_deps: Vec<VerifiedModule>,
}

/// The program outcome a request stands for.
pub open spec fn spec_program_outcome(c: Compiler) -> ProgramOutcomeV {
    spec_compile_program(c.code@, c.address@, verified_views(c.extra_deps), c.skip_stdlib_deps)
}

/// The forced-merge program outcome a request stands for.
pub open spec fn spec_program_outcome_forced(c: Compiler) -> ProgramOutcomeV {
    spec_compile_program_forced(c.code@, c.address@, verified_views(c.extra_deps))
}

/// The module outcome a request stands for.
pub open spec fn spec_module_outcome(c: Compiler) -> ModuleOutcomeV {
    spec_compile_module(c.code@, c.address@, verified_views(c.extra_deps), c.skip_stdlib_deps)
}

impl Default for Compiler {
    /// The default request: zero sender address, empty source, baseline
    /// included, no extra dependencies.
    fn default() -> (r: Self)
        ensures
            r.address@ == crate::stdlib::zero_address(),
            r.code@ == Seq::<u8>::empty(),
            !r.skip_stdlib_deps,
            r.stdlib_address@ == crate::stdlib::zero_address(),
            verified_views(r.extra_deps) == Seq::<CompiledModuleV>::empty(),
    {
        let r = Compiler {
            address: AccountAddress::zero(),
            code: Vec::new(),
            skip_stdlib_deps: false,
            stdlib_address: AccountAddress::zero(),
            extra_deps: Vec::new(),
        };
        proof {
            assert(r.code@ =~= Seq::<u8>::empty());
            assert(verified_views(r.extra_deps) =~= Seq::<CompiledModuleV>::empty());
        }
        r
    }
}

impl Compiler {
    /// Replace the extra-dependency list wholesale.
    pub fn add_deps(&mut self, deps: Vec<VerifiedModule>)
        ensures
            final(self).address == old(self).address,
            final(self).code == old(self).code,
            final(self).skip_stdlib_deps == old(self).skip_stdlib_deps,
            final(self).stdlib_address == old(self).stdlib_address,
            final(self).extra_deps == deps,
    {
        self.extra_deps = deps;
    }

    /// Merge a dependency list with the standard-library baseline under the
    /// forced-merge policy; the request itself is left untouched.
    pub fn add_std_deps(&mut self, deps2: Vec<VerifiedModule>) -> (r: Vec<VerifiedModule>)
        ensures
            *final(self) == *old(self),
            verified_views(r) == spec_resolve_forced(verified_views(deps2)),
    {
        resolve_forced_merge(deps2)
    }

    fn compile_impl(self) -> (r: Result<(CompiledProgram, Vec<VerifiedModule>), CompilerError>)
        ensures
            match r {
                Ok(pd) => spec_program_outcome(self) == (ProgramOutcomeV::Compiled {
                    program: pd.0@,
                    deps: verified_views(pd.1),
                }),
                Err(e) => match e {
                    CompilerError::ParseError => spec_program_outcome(self)
                        is ParseFailed,
                    CompilerError::CompileError { symbol } => spec_program_outcome(self)
                        == (ProgramOutcomeV::Unresolved { symbol: symbol@ }),
                    _ => false,
                },
            },
    {
        let Compiler { address, code, skip_stdlib_deps, stdlib_address: _, extra_deps } = self;
        let unit = match parse_unit(code.as_slice()) {
            Ok(u) => u,
            Err(e) => {
                return Err(e);
            },
        };
        let deps = resolve_default(extra_deps, skip_stdlib_deps);
        let program = match emit_program(&address, &unit, &deps) {
            Ok(p) => p,
            Err(e) => {
                return Err(e);
            },
        };
        Ok((program, deps))
    }

    fn compile_mod(self) -> (r: Result<(CompiledModule, Vec<VerifiedModule>), CompilerError>)
        ensures
            match r {
                Ok(md) => spec_module_outcome(self) == (ModuleOutcomeV::Compiled {
                    module: md.0@,
                    deps: verified_views(md.1),
                }),
                Err(e) => match e {
                    CompilerError::ParseError => spec_module_outcome(self) is ParseFailed,
                    CompilerError::ArityError { found } => spec_module_outcome(self)
                        == (ModuleOutcomeV::WrongArity { found: found as nat }),
                    CompilerError::CompileError { symbol } => spec_module_outcome(self)
                        == (ModuleOutcomeV::Unresolved { symbol: symbol@ }),
                    _ => false,
                },
            },
    {
        let Compiler { address, code, skip_stdlib_deps, stdlib_address: _, extra_deps } = self;
        let unit = match parse_unit(code.as_slice()) {
            Ok(u) => u,
            Err(e) => {
                return Err(e);
            },
        };
        if unit.modules.len() != 1 {
            return Err(CompilerError::ArityError { found: unit.modules.len() });
        }
        let deps = resolve_default(extra_deps, skip_stdlib_deps);
        let module = match emit_module(&address, &unit.modules[0], &deps) {
            Ok(m) => m,
            Err(e) => {
                return Err(e);
            },
        };
        Ok((module, deps))
    }

    /// Compile into a structured program, the bytecode not yet serialized.
    pub fn into_compiled_program(self) -> (r: Result<CompiledProgram, CompilerError>)
        ensures
            match r {
                Ok(p) => spec_program_outcome(self) matches ProgramOutcomeV::Compiled {
                    program,
                    ..
                } && program == p@,
                Err(e) => match e {
                    CompilerError::ParseError => spec_program_outcome(self) is ParseFailed,
                    CompilerError::CompileError { symbol } => spec_program_outcome(self)
                        == (ProgramOutcomeV::Unresolved { symbol: symbol@ }),
                    _ => false,
                },
            },
    {
        match self.compile_impl() {
            Ok(pd) => Ok(pd.0),
            Err(e) => Err(e),
        }
    }

    /// Compile into a structured program and also return the dependency set
    /// that was linked against.
    pub fn into_compiled_program_and_deps(self) -> (r: Result<
        (CompiledProgram, Vec<VerifiedModule>),
        CompilerError,
    >)
        ensures
            match r {
                Ok(pd) => spec_program_outcome(self) == (ProgramOutcomeV::Compiled {
                    program: pd.0@,
                    deps: verified_views(pd.1),
                }),
                Err(e) => match e {
                    CompilerError::ParseError => spec_program_outcome(self) is ParseFailed,
                    CompilerError::CompileError { symbol } => spec_program_outcome(self)
                        == (ProgramOutcomeV::Unresolved { symbol: symbol@ }),
                    _ => false,
                },
            },
    {
        self.compile_impl()
    }

    /// Compile into the program's script alone.
    pub fn into_script(self) -> (r: Result<CompiledScript, CompilerError>)
        ensures
            match r {
                Ok(s) => spec_program_outcome(self) matches ProgramOutcomeV::Compiled {
                    program,
                    ..
                } && program.script == s@,
                Err(e) => match e {
                    CompilerError::ParseError => spec_program_outcome(self) is ParseFailed,
                    CompilerError::CompileError { symbol } => spec_program_outcome(self)
                        == (ProgramOutcomeV::Unresolved { symbol: symbol@ }),
                    _ => false,
                },
            },
    {
        match self.compile_impl() {
            Ok(pd) => Ok(pd.0.script),
            Err(e) => Err(e),
        }
    }

    /// Compile the script into its canonical serialized form.
    pub fn into_script_blob(self) -> (r: Result<Vec<u8>, CompilerError>)
        ensures
            match r {
                Ok(b) => spec_program_outcome(self) matches ProgramOutcomeV::Compiled {
                    program,
                    ..
                } && b@ == spec_ser_script(program.script),
                Err(e) => match e {
                    CompilerError::ParseError => spec_program_outcome(self) is ParseFailed,
                    CompilerError::CompileError { symbol } => spec_program_outcome(self)
                        == (ProgramOutcomeV::Unresolved { symbol: symbol@ }),
                    _ => false,
                },
            },
    {
        match self.compile_impl() {
            Ok(pd) => Ok(serialize_script(&pd.0.script)),
            Err(e) => Err(e),
        }
    }

    /// Compile the unit's single module.
    pub fn into_compiled_module(self) -> (r: Result<CompiledModule, CompilerError>)
        ensures
            match r {
                Ok(m) => spec_module_outcome(self) matches ModuleOutcomeV::Compiled {
                    module,
                    ..
                } && module == m@,
                Err(e) => match e {
                    CompilerError::ParseError => spec_module_outcome(self) is ParseFailed,
                    CompilerError::ArityError { found } => spec_module_outcome(self)
                        == (ModuleOutcomeV::WrongArity { found: found as nat }),
                    CompilerError::CompileError { symbol } => spec_module_outcome(self)
                        == (ModuleOutcomeV::Unresolved { symbol: symbol@ }),
                    _ => false,
                },
            },
    {
        match self.compile_mod() {
            Ok(md) => Ok(md.0),
            Err(e) => Err(e),
        }
    }

    /// Compile the unit's single module into its canonical serialized form.
    pub fn into_module_blob(self) -> (r: Result<Vec<u8>, CompilerError>)
        ensures
            match r {
                Ok(b) => spec_module_outcome(self) matches ModuleOutcomeV::Compiled {
                    module,
                    ..
                } && b@ == spec_ser_module(module),
                Err(e) => match e {
                    CompilerError::ParseError => spec_module_outcome(self) is ParseFailed,
                    CompilerError::ArityError { found } => spec_module_outcome(self)
                        == (ModuleOutcomeV::WrongArity { found: found as nat }),
                    CompilerError::CompileError { symbol } => spec_module_outcome(self)
                        == (ModuleOutcomeV::Unresolved { symbol: symbol@ }),
                    _ => false,
                },
            },
    {
        match self.compile_mod() {
            Ok(md) => Ok(serialize_module(&md.0)),
            Err(e) => Err(e),
        }
    }

    /// Compile code and arguments into a transaction payload, and also
    /// return the dependency set and the structured modules.
    pub fn into_program_and_deps(self, args: Vec<TransactionArgument>) -> (r: Result<
        (Program, Vec<VerifiedModule>, Vec<CompiledModule>),
        CompilerError,
    >)
        ensures
            match r {
                Ok(t) => spec_program_outcome(self) matches ProgramOutcomeV::Compiled {
                    program,
                    deps,
                } && t.0@.code == spec_ser_script(program.script) && t.0@.modules
                    == spec_ser_modules(program.modules) && t.0@.args == arg_views(args)
                    && verified_views(t.1) == deps && compiled_views(t.2) == program.modules,
                Err(e) => match e {
                    CompilerError::ParseError => spec_program_outcome(self) is ParseFailed,
                    CompilerError::CompileError { symbol } => spec_program_outcome(self)
                        == (ProgramOutcomeV::Unresolved { symbol: symbol@ }),
                    _ => false,
                },
            },
    {
        match self.compile_impl() {
            Ok(pd) => {
                let (program, deps) = pd;
                let serialized_script = serialize_script(&program.script);
                let serialized_modules = serialize_modules(&program.modules);
                let payload = Program::new(serialized_script, serialized_modules, args);
                Ok((payload, deps, program.modules))
            },
            Err(e) => Err(e),
        }
    }

    /// Compile code and arguments into a transaction payload: the bytecode
    /// is serialized.
    pub fn into_program(self, args: Vec<TransactionArgument>) -> (r: Result<
        Program,
        CompilerError,
    >)
        ensures
            match r {
                Ok(p) => spec_program_outcome(self) matches ProgramOutcomeV::Compiled {
                    program,
                    ..
                } && p@.code == spec_ser_script(program.script) && p@.modules == spec_ser_modules(
                    program.modules,
                ) && p@.args == arg_views(args),
                Err(e) => match e {
                    CompilerError::ParseError => spec_program_outcome(self) is ParseFailed,
                    CompilerError::CompileError { symbol } => spec_program_outcome(self)
                        == (ProgramOutcomeV::Unresolved { symbol: symbol@ }),
                    _ => false,
                },
            },
    {
        match self.compile_impl() {
            Ok(pd) => {
                let (program, _deps) = pd;
                let serialized_script = serialize_script(&program.script);
                let serialized_modules = serialize_modules(&program.modules);
                Ok(Program::new(serialized_script, serialized_modules, args))
            },
            Err(e) => Err(e),
        }
    }

    /// Compile code and arguments into a transaction payload, resolving the
    /// dependency set from the request's extras under the forced-merge
    /// policy.  Supports a session where modules compiled earlier, not yet
    /// part of the baseline, are handed back in as extras.
    #[allow(unused_variables)]
    pub fn into_program_2(self, args: Vec<TransactionArgument>, deps: Vec<CompiledModule>) -> (r:
        Result<Program, CompilerError>)
        ensures
            match r {
                Ok(p) => spec_program_outcome_forced(self) matches ProgramOutcomeV::Compiled {
                    program,
                    ..
                } && p@.code == spec_ser_script(program.script) && p@.modules == spec_ser_modules(
                    program.modules,
                ) && p@.args == arg_views(args),
                Err(e) => match e {
                    CompilerError::ParseError => spec_program_outcome_forced(self)
                        is ParseFailed,
                    CompilerError::CompileError { symbol } => spec_program_outcome_forced(self)
                        == (ProgramOutcomeV::Unresolved { symbol: symbol@ }),
                    _ => false,
                },
            },
    {
        let Compiler { address, code, skip_stdlib_deps: _, stdlib_address: _, extra_deps } = self;
        let unit = match parse_unit(code.as_slice()) {
            Ok(u) => u,
            Err(e) => {
                return Err(e);
            },
        };
        let merged = resolve_forced_merge(extra_deps);
        let program = match emit_program(&address, &unit, &merged) {
            Ok(p) => p,
            Err(e) => {
                return Err(e);
            },
        };
        let serialized_script = serialize_script(&program.script);
        let serialized_modules = serialize_modules(&program.modules);
        Ok(Program::new(serialized_script, serialized_modules, args))
    }
}

/// Determinism: two requests with identical source, sender, extra
/// dependencies and skip flag have identical outcomes, under either
/// resolution policy; serialized output is a function of the outcome, so it
/// is byte-identical as well.
pub proof fn lemma_compile_deterministic(c1: Compiler, c2: Compiler)
    requires
        c1.code@ == c2.code@,
        c1.address@ == c2.address@,
        verified_views(c1.extra_deps) == verified_views(c2.extra_deps),
        c1.skip_stdlib_deps == c2.skip_stdlib_deps,
    ensures
        spec_program_outcome(c1) == spec_program_outcome(c2),
        spec_module_outcome(c1) == spec_module_outcome(c2),
        spec_program_outcome_forced(c1) == spec_program_outcome_forced(c2),
        (match (spec_program_outcome(c1), spec_program_outcome(c2)) {
            (
                ProgramOutcomeV::Compiled { program: p1, .. },
                ProgramOutcomeV::Compiled { program: p2, .. },
            ) => spec_ser_script(p1.script) == spec_ser_script(p2.script) && spec_ser_modules(
                p1.modules,
            ) == spec_ser_modules(p2.modules),
            _ => true,
        }),
        (match (spec_module_outcome(c1), spec_module_outcome(c2)) {
            (
                ModuleOutcomeV::Compiled { module: m1, .. },
                ModuleOutcomeV::Compiled { module: m2, .. },
            ) => spec_ser_module(m1) == spec_ser_module(m2),
            _ => true,
        }),
{
}

/// Baseline exclusion, script side: with the baseline skipped and no extras
/// supplied, a unit whose script references a name that no unit module bears
/// — a baseline name, for one — fails with an unresolved symbol.
pub proof fn lemma_baseline_exclusion_script(c: Compiler, u: SourceUnitV, j: int)
    requires
        spec_parse(c.code@) == Option::Some(u),
        c.skip_stdlib_deps,
        verified_views(c.extra_deps) == Seq::<CompiledModuleV>::empty(),
        0 <= j < crate::emitter::script_calls(u).len(),
        !crate::emitter::unit_module_names(u.modules).contains(
            crate::emitter::script_calls(u)[j],
        ),
    ensures
        spec_program_outcome(c) is Unresolved,
{
    let dn = dep_names(Seq::<CompiledModuleV>::empty());
    let names = crate::emitter::unit_module_names(u.modules);
    assert(dn + names =~= names);
    if crate::emitter::check_modules(u.modules, dn, 0) is None {
        crate::emitter::lemma_check_calls_none(crate::emitter::script_calls(u), dn + names);
        assert(!(crate::emitter::check_calls(crate::emitter::script_calls(u), dn + names)
            is None)) by {
            if crate::emitter::check_calls(crate::emitter::script_calls(u), dn + names)
                is None {
                assert((dn + names).contains(crate::emitter::script_calls(u)[j]));
            }
        }
    }
}

/// Baseline exclusion, module side: with the baseline skipped and no extras
/// supplied, a unit one of whose modules references a name that none of the
/// modules up to and including it bears fails with an unresolved symbol.
pub proof fn lemma_baseline_exclusion_module(c: Compiler, u: SourceUnitV, k: int, j: int)
    requires
        spec_parse(c.code@) == Option::Some(u),
        c.skip_stdlib_deps,
        verified_views(c.extra_deps) == Seq::<CompiledModuleV>::empty(),
        0 <= k < u.modules.len(),
        0 <= j < u.modules[k].calls.len(),
        !crate::emitter::unit_module_names(u.modules).take(k + 1).contains(u.modules[k].calls[j]),
    ensures
        spec_program_outcome(c) is Unresolved,
{
    let dn = dep_names(Seq::<CompiledModuleV>::empty());
    let scope_k = dn + crate::emitter::unit_module_names(u.modules).take(k + 1);
    assert(scope_k =~= crate::emitter::unit_module_names(u.modules).take(k + 1));
    crate::emitter::lemma_check_modules_none(u.modules, dn, 0);
    crate::emitter::lemma_check_calls_none(u.modules[k].calls, scope_k);
    assert(!(crate::emitter::check_calls(u.modules[k].calls, scope_k) is None)) by {
        if crate::emitter::check_calls(u.modules[k].calls, scope_k) is None {
            assert(scope_k.contains(u.modules[k].calls[j]));
        }
    }
    assert(crate::emitter::check_modules(u.modules, dn, 0) is Some) by {
        if crate::emitter::check_modules(u.modules, dn, 0) is None {
            assert(crate::emitter::check_calls(u.modules[k].calls, scope_k) is None);
        }
    }
}

/// Baseline exclusion, single-module compile: with the baseline skipped and
/// no extras supplied, a one-module unit whose module references any name
/// other than its own fails with an unresolved symbol.
pub proof fn lemma_baseline_exclusion_single_module(c: Compiler, u: SourceUnitV, j: int)
    requires
        spec_parse(c.code@) == Option::Some(u),
        c.skip_stdlib_deps,
        verified_views(c.extra_deps) == Seq::<CompiledModuleV>::empty(),
        u.modules.len() == 1,
        0 <= j < u.modules[0].calls.len(),
        u.modules[0].calls[j] != u.modules[0].name,
    ensures
        spec_module_outcome(c) is Unresolved,
{
    let dn = dep_names(Seq::<CompiledModuleV>::empty());
    let scope = dn + seq![u.modules[0].name];
    assert(scope =~= seq![u.modules[0].name]);
    crate::emitter::lemma_check_calls_none(u.modules[0].calls, scope);
    assert(!(crate::emitter::check_calls(u.modules[0].calls, scope) is None)) by {
        if crate::emitter::check_calls(u.modules[0].calls, scope) is None {
            assert(scope.contains(u.modules[0].calls[j]));
            let w = choose|w: int| 0 <= w < scope.len() && scope[w] == u.modules[0].calls[j];
            assert(scope[w] == u.modules[0].name);
        }
    }
}

/// Arity enforcement: a unit that parses with any module count other than
/// one is reported as a wrong-arity failure carrying that count, whatever
/// the address, the extras and the skip flag.
pub proof fn lemma_arity_enforcement(c: Compiler, u: SourceUnitV)
    requires
        spec_parse(c.code@) == Option::Some(u),
        u.modules.len() != 1,
    ensures
        spec_module_outcome(c) == (ModuleOutcomeV::WrongArity { found: u.modules.len() }),
{
}

} // verus!

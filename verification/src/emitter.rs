//! The bytecode emitter: checks that every reference of a parsed unit
//! resolves against the dependency set and the unit's own modules, and
//! shapes the compiled artifacts.
//!
//! A module may reference the dependencies, the modules defined before it in
//! the unit, and itself.  The script may reference the dependencies and all
//! of the unit's modules.  The first reference that resolves nowhere aborts
//! emission and is reported as the offending symbol.

use vstd::prelude::*;
use crate::address::AccountAddress;
use crate::artifact::{
    CompiledModule, CompiledModuleV, CompiledProgram, CompiledProgramV, CompiledScript,
    CompiledScriptV, VerifiedModule, compiled_views, verified_views,
};
use crate::ast::{SourceModule, SourceModuleV, SourceUnit, SourceUnitV, tok_views};
use crate::errors::CompilerError;

verus! {

/// The names of a sequence of dependency modules, in order.
pub open spec fn dep_names(deps: Seq<CompiledModuleV>) -> Seq<Seq<u8>> {
    Seq::new(deps.len(), |i: int| deps[i].name)
}

/// The names of a unit's module definitions, in order.
pub open spec fn unit_module_names(mods: Seq<SourceModuleV>) -> Seq<Seq<u8>> {
    Seq::new(mods.len(), |i: int| mods[i].name)
}

/// The first of `calls` that is not among `scope`, if any.
pub open spec fn check_calls(calls: Seq<Seq<u8>>, scope: Seq<Seq<u8>>) -> Option<Seq<u8>>
    decreases calls.len(),
{
    if calls.len() == 0 {
        Option::None
    } else if !scope.contains(calls[0]) {
        Option::Some(calls[0])
    } else {
        check_calls(calls.drop_first(), scope)
    }
}

/// The first unresolved reference of the modules from index `i` on.  Module
/// `k` resolves against the dependency names and the names of modules
/// `0 ..= k`.
pub open spec fn check_modules(mods: Seq<SourceModuleV>, deps: Seq<Seq<u8>>, i: int) -> Option<
    Seq<u8>,
>
    decreases mods.len() - i,
    when 0 <= i <= mods.len()
{
    if i >= mods.len() {
        Option::None
    } else {
        match check_calls(mods[i].calls, deps + unit_module_names(mods).take(i + 1)) {
            Option::Some(s) => Option::Some(s),
            Option::None => check_modules(mods, deps, i + 1),
        }
    }
}

/// The references of a unit's script: none when the unit defines no script,
/// in which case the empty default script is emitted.
pub open spec fn script_calls(unit: SourceUnitV) -> Seq<Seq<u8>> {
    match unit.script {
        Option::Some(c) => c,
        Option::None => Seq::empty(),
    }
}

/// The program an address and a unit compile to, once every reference is
/// known to resolve.
pub open spec fn program_of(addr: Seq<u8>, unit: SourceUnitV) -> CompiledProgramV {
    CompiledProgramV {
        script: CompiledScriptV { address: addr, calls: script_calls(unit) },
        modules: Seq::new(unit.modules.len(), |i: int| CompiledModuleV {
            address: addr,
            name: unit.modules[i].name,
            calls: unit.modules[i].calls,
        }),
    }
}

/// Emission of a whole unit: the compiled program, or the first reference
/// that resolves nowhere.
pub open spec fn spec_emit_program(addr: Seq<u8>, unit: SourceUnitV, deps: Seq<Seq<u8>>) -> Result<
    CompiledProgramV,
    Seq<u8>,
> {
    match check_modules(unit.modules, deps, 0) {
        Option::Some(s) => Result::Err(s),
        Option::None => match check_calls(
            script_calls(unit),
            deps + unit_module_names(unit.modules),
        ) {
            Option::Some(s) => Result::Err(s),
            Option::None => Result::Ok(program_of(addr, unit)),
        },
    }
}

/// Emission of one module definition on its own: it resolves against the
/// dependency names and its own name.
pub open spec fn spec_emit_module(addr: Seq<u8>, m: SourceModuleV, deps: Seq<Seq<u8>>) -> Result<
    CompiledModuleV,
    Seq<u8>,
> {
    match check_calls(m.calls, deps + seq![m.name]) {
        Option::Some(s) => Result::Err(s),
        Option::None => Result::Ok(
            CompiledModuleV { address: addr, name: m.name, calls: m.calls },
        ),
    }
}

/// `check_calls` finds nothing exactly when every reference is in scope.
pub proof fn lemma_check_calls_none(calls: Seq<Seq<u8>>, scope: Seq<Seq<u8>>)
    ensures
        (check_calls(calls, scope) is None) <==> (forall|j: int|
            0 <= j < calls.len() ==> scope.contains(calls[j])),
    decreases calls.len(),
{
    if calls.len() == 0 {
    } else {
        let tail = calls.drop_first();
        lemma_check_calls_none(tail, scope);
        if scope.contains(calls[0]) {
            if check_calls(calls, scope) is None {
                assert forall|j: int| 0 <= j < calls.len() implies scope.contains(calls[j]) by {
                    if j > 0 {
                        assert(calls[j] == tail[j - 1]);
                    }
                }
            }
            if forall|j: int| 0 <= j < calls.len() ==> scope.contains(calls[j]) {
                assert forall|j: int| 0 <= j < tail.len() implies scope.contains(tail[j]) by {
                    assert(tail[j] == calls[j + 1]);
                }
            }
        } else {
            assert(check_calls(calls, scope) is Some);
            assert(!(forall|j: int| 0 <= j < calls.len() ==> scope.contains(calls[j]))) by {
                assert(0 <= 0 < calls.len() && !scope.contains(calls[0]));
            }
        }
    }
}

/// `check_modules` finds nothing exactly when every module's references all
/// resolve in that module's scope.
pub proof fn lemma_check_modules_none(mods: Seq<SourceModuleV>, deps: Seq<Seq<u8>>, i: int)
    requires
        0 <= i <= mods.len(),
    ensures
        (check_modules(mods, deps, i) is None) <==> (forall|k: int|
            i <= k < mods.len() ==> check_calls(
                mods[k].calls,
                deps + unit_module_names(mods).take(k + 1),
            ) is None),
    decreases mods.len() - i,
{
    if i == mods.len() {
    } else {
        lemma_check_modules_none(mods, deps, i + 1);
        let own = check_calls(mods[i].calls, deps + unit_module_names(mods).take(i + 1));
        if own is Some {
            assert(check_modules(mods, deps, i) is Some);
            assert(!(forall|k: int|
                i <= k < mods.len() ==> check_calls(
                    mods[k].calls,
                    deps + unit_module_names(mods).take(k + 1),
                ) is None)) by {
                assert(i <= i < mods.len() && !(check_calls(
                    mods[i].calls,
                    deps + unit_module_names(mods).take(i + 1),
                ) is None));
            }
        } else {
            if check_modules(mods, deps, i) is None {
                assert forall|k: int| i <= k < mods.len() implies check_calls(
                    mods[k].calls,
                    deps + unit_module_names(mods).take(k + 1),
                ) is None by {
                    if k > i {
                        assert(check_modules(mods, deps, i + 1) is None);
                    }
                }
            }
            if forall|k: int|
                i <= k < mods.len() ==> check_calls(
                    mods[k].calls,
                    deps + unit_module_names(mods).take(k + 1),
                ) is None {
                assert(check_modules(mods, deps, i + 1) is None);
            }
        }
    }
}

fn bytes_eq(a: &[u8], b: &[u8]) -> (r: bool)
    ensures
        r == (a@ == b@),
{
    if a.len() != b.len() {
        return false;
    }
    let mut i: usize = 0;
    while i < a.len()
        invariant
            0 <= i <= a@.len(),
            a@.len() == b@.len(),
            forall|j: int| 0 <= j < i ==> a@[j] == b@[j],
        decreases a@.len() - i,
    {
        if a[i] != b[i] {
            return false;
        }
        i += 1;
    }
    proof {
        assert(a@ =~= b@);
    }
    true
}

fn scope_contains(scope: &Vec<Vec<u8>>, name: &[u8]) -> (r: bool)
    ensures
        r == tok_views(*scope).contains(name@),
{
    let mut i: usize = 0;
    while i < scope.len()
        invariant
            0 <= i <= scope@.len(),
            forall|j: int| 0 <= j < i ==> tok_views(*scope)[j] != name@,
        decreases scope@.len() - i,
    {
        if bytes_eq(scope[i].as_slice(), name) {
            proof {
                assert(tok_views(*scope)[i as int] == name@);
            }
            return true;
        }
        i += 1;
    }
    proof {
        assert(forall|j: int| 0 <= j < tok_views(*scope).len() ==> tok_views(*scope)[j] != name@);
    }
    false
}

fn check_calls_exec(calls: &Vec<Vec<u8>>, scope: &Vec<Vec<u8>>) -> (r: Option<Vec<u8>>)
    ensures
        match r {
            Option::Some(s) => check_calls(tok_views(*calls), tok_views(*scope))
                == Option::Some(s@),
            Option::None => check_calls(tok_views(*calls), tok_views(*scope)) is None,
        },
{
    let ghost cv = tok_views(*calls);
    let ghost sv = tok_views(*scope);
    let mut i: usize = 0;
    proof {
        assert(cv.skip(0) =~= cv);
    }
    while i < calls.len()
        invariant
            0 <= i <= calls@.len(),
            cv == tok_views(*calls),
            sv == tok_views(*scope),
            check_calls(cv, sv) == check_calls(cv.skip(i as int), sv),
        decreases calls@.len() - i,
    {
        let c: &Vec<u8> = &calls[i];
        proof {
            assert(cv.skip(i as int)[0] == cv[i as int]);
            assert(c@ == cv[i as int]);
        }
        if !scope_contains(scope, c.as_slice()) {
            return Option::Some(vstd::slice::slice_to_vec(c.as_slice()));
        }
        proof {
            assert(cv.skip(i as int).drop_first() =~= cv.skip(i as int + 1));
        }
        i += 1;
    }
    proof {
        assert(cv.skip(calls@.len() as int) =~= Seq::<Seq<u8>>::empty());
    }
    Option::None
}

fn copy_bytes(v: &Vec<u8>) -> (r: Vec<u8>)
    ensures
        r@ == v@,
{
    vstd::slice::slice_to_vec(v.as_slice())
}

fn copy_calls(v: &Vec<Vec<u8>>) -> (r: Vec<Vec<u8>>)
    ensures
        tok_views(r) == tok_views(*v),
{
    let mut r: Vec<Vec<u8>> = Vec::new();
    let mut i: usize = 0;
    proof {
        assert(tok_views(r) =~= tok_views(*v).take(0));
    }
    while i < v.len()
        invariant
            0 <= i <= v@.len(),
            tok_views(r) == tok_views(*v).take(i as int),
        decreases v@.len() - i,
    {
        let ghost r0 = tok_views(r);
        r.push(copy_bytes(&v[i]));
        proof {
            assert(tok_views(r) =~= r0.push(tok_views(*v)[i as int]));
            assert(r0.push(tok_views(*v)[i as int]) =~= tok_views(*v).take(i as int + 1));
        }
        i += 1;
    }
    proof {
        assert(tok_views(*v).take(v@.len() as int) =~= tok_views(*v));
    }
    r
}

/// Emit a whole unit as a compiled program.  Succeeds with exactly the
/// program `spec_emit_program` gives, and fails with a `CompileError`
/// naming exactly the symbol it reports.
pub fn emit_program(address: &AccountAddress, unit: &SourceUnit, deps: &Vec<VerifiedModule>) -> (r:
    Result<CompiledProgram, CompilerError>)
    ensures
        match r {
            Ok(p) => spec_emit_program(address@, unit@, dep_names(verified_views(*deps)))
                == Result::<CompiledProgramV, Seq<u8>>::Ok(p@),
            Err(e) => match e {
                CompilerError::CompileError { symbol } => spec_emit_program(
                    address@,
                    unit@,
                    dep_names(verified_views(*deps)),
                ) == Result::<CompiledProgramV, Seq<u8>>::Err(symbol@),
                _ => false,
            },
        },
{
    let ghost dv = dep_names(verified_views(*deps));
    let ghost uv = unit@;
    // The scope grows as modules are checked: dependency names first, then
    // the names of the modules already seen.
    let mut scope: Vec<Vec<u8>> = Vec::new();
    let mut i: usize = 0;
    while i < deps.len()
        invariant
            0 <= i <= deps@.len(),
            dv == dep_names(verified_views(*deps)),
            tok_views(scope) == dv.take(i as int),
        decreases deps@.len() - i,
    {
        let ghost s0 = tok_views(scope);
        scope.push(copy_bytes(deps[i].name()));
        proof {
            assert(tok_views(scope) =~= s0.push(dv[i as int]));
            assert(s0.push(dv[i as int]) =~= dv.take(i as int + 1));
        }
        i += 1;
    }
    proof {
        assert(dv.take(deps@.len() as int) =~= dv);
    }
    let mut compiled: Vec<CompiledModule> = Vec::new();
    let mut k: usize = 0;
    while k < unit.modules.len()
        invariant
            0 <= k <= unit.modules@.len(),
            uv == unit@,
            dv == dep_names(verified_views(*deps)),
            uv.modules.len() == unit.modules@.len(),
            tok_views(scope) == dv + unit_module_names(uv.modules).take(k as int),
            check_modules(uv.modules, dv, 0) == check_modules(uv.modules, dv, k as int),
            compiled_views(compiled) == program_of(address@, uv).modules.take(k as int),
        decreases unit.modules@.len() - k,
    {
        let m: &SourceModule = &unit.modules[k];
        proof {
            assert(m@ == uv.modules[k as int]);
        }
        let ghost scope0 = tok_views(scope);
        scope.push(copy_bytes(&m.name));
        proof {
            assert(tok_views(scope) =~= scope0.push(uv.modules[k as int].name));
            assert(scope0.push(uv.modules[k as int].name) =~= dv + unit_module_names(
                uv.modules,
            ).take(k as int + 1));
        }
        match check_calls_exec(&m.calls, &scope) {
            Option::Some(s) => {
                proof {
                    assert(check_modules(uv.modules, dv, k as int) == Option::Some(s@));
                }
                return Err(CompilerError::CompileError { symbol: s });
            },
            Option::None => {},
        }
        let ghost c0 = compiled_views(compiled);
        let cm = CompiledModule {
            address: *address,
            name: copy_bytes(&m.name),
            calls: copy_calls(&m.calls),
        };
        proof {
            assert(cm@ == program_of(address@, uv).modules[k as int]);
        }
        compiled.push(cm);
        proof {
            assert(compiled_views(compiled) =~= c0.push(program_of(address@, uv).modules[
                k as int
            ]));
            assert(c0.push(program_of(address@, uv).modules[k as int]) =~= program_of(
                address@,
                uv,
            ).modules.take(k as int + 1));
        }
        k += 1;
    }
    proof {
        assert(unit_module_names(uv.modules).take(uv.modules.len() as int) =~= unit_module_names(
            uv.modules,
        ));
        assert(program_of(address@, uv).modules.take(uv.modules.len() as int) =~= program_of(
            address@,
            uv,
        ).modules);
    }
    // The script resolves against the dependencies and all unit modules.
    let script_refs: Vec<Vec<u8>> = match &unit.script {
        Option::Some(c) => copy_calls(c),
        Option::None => Vec::new(),
    };
    proof {
        assert(tok_views(script_refs) =~= script_calls(uv));
    }
    match check_calls_exec(&script_refs, &scope) {
        Option::Some(s) => {
            return Err(CompilerError::CompileError { symbol: s });
        },
        Option::None => {},
    }
    let script = CompiledScript { address: *address, calls: script_refs };
    let p = CompiledProgram { script, modules: compiled };
    proof {
        assert(p@.modules =~= program_of(address@, uv).modules);
        assert(p@ == program_of(address@, uv));
    }
    Ok(p)
}

/// Emit one module definition on its own.  Succeeds with exactly the module
/// `spec_emit_module` gives, and fails with a `CompileError` naming exactly
/// the symbol it reports.
pub fn emit_module(address: &AccountAddress, m: &SourceModule, deps: &Vec<VerifiedModule>) -> (r:
    Result<CompiledModule, CompilerError>)
    ensures
        match r {
            Ok(c) => spec_emit_module(address@, m@, dep_names(verified_views(*deps)))
                == Result::<CompiledModuleV, Seq<u8>>::Ok(c@),
            Err(e) => match e {
                CompilerError::CompileError { symbol } => spec_emit_module(
                    address@,
                    m@,
                    dep_names(verified_views(*deps)),
                ) == Result::<CompiledModuleV, Seq<u8>>::Err(symbol@),
                _ => false,
            },
        },
{
    let ghost dv = dep_names(verified_views(*deps));
    let mut scope: Vec<Vec<u8>> = Vec::new();
    let mut i: usize = 0;
    while i < deps.len()
        invariant
            0 <= i <= deps@.len(),
            dv == dep_names(verified_views(*deps)),
            tok_views(scope) == dv.take(i as int),
        decreases deps@.len() - i,
    {
        let ghost s0 = tok_views(scope);
        scope.push(copy_bytes(deps[i].name()));
        proof {
            assert(tok_views(scope) =~= s0.push(dv[i as int]));
            assert(s0.push(dv[i as int]) =~= dv.take(i as int + 1));
        }
        i += 1;
    }
    proof {
        assert(dv.take(deps@.len() as int) =~= dv);
    }
    let ghost sfull = tok_views(scope);
    scope.push(copy_bytes(&m.name));
    proof {
        assert(tok_views(scope) =~= sfull.push(m@.name));
        assert(sfull.push(m@.name) =~= dv + seq![m@.name]);
    }
    match check_calls_exec(&m.calls, &scope) {
        Option::Some(s) => Err(CompilerError::CompileError { symbol: s }),
        Option::None => {
            let c = CompiledModule {
                address: *address,
                name: copy_bytes(&m.name),
                calls: copy_calls(&m.calls),
            };
            proof {
                assert(c@ == (CompiledModuleV {
                    address: address@,
                    name: m@.name,
                    calls: m@.calls,
                }));
            }
            Ok(c)
        },
    }
}

} // verus!

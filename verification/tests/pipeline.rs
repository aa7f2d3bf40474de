//! End-to-end behavior of the compilation pipeline.

use compiler::address::AccountAddress;
use compiler::artifact::VerifiedModule;
use compiler::codec::{build_payload, deserialize_module, serialize_module, serialize_modules};
use compiler::compile::{
    compile_module, compile_module_with_address, compile_program, compile_program_with_address,
    compile_program_with_address_return_deps, compile_program_with_address_with_deps,
    compile_script, compile_script_with_address,
};
use compiler::compiler::Compiler;
use compiler::errors::CompilerError;
use compiler::resolver::{resolve_default, resolve_forced_merge};
use compiler::stdlib::stdlib_modules;
use compiler::transaction::TransactionArgument;

fn addr(last: u8) -> AccountAddress {
    let mut bytes = [0u8; 32];
    bytes[31] = last;
    AccountAddress::new(bytes)
}

#[test]
fn minimal_script_links_whole_baseline() {
    // A minimal valid script referencing nothing external, zero address,
    // baseline included: the resolved dependency set is exactly the baseline.
    let (program, deps, modules) = compile_program_with_address_return_deps(
        &AccountAddress::zero(),
        "script",
        vec![],
    );
    assert_eq!(deps.len(), stdlib_modules().len());
    assert_eq!(deps.len(), 3);
    assert!(modules.is_empty());
    assert!(program.modules().is_empty());
    assert!(!program.code().is_empty());
}

#[test]
fn two_modules_fail_module_compile_arity() {
    let mut c = Compiler::default();
    c.code = b"module alpha module beta".to_vec();
    let err = c.into_compiled_module().unwrap_err();
    assert_eq!(err, CompilerError::ArityError { found: 2 });
}

#[test]
fn zero_modules_fail_module_compile_arity() {
    let mut c = Compiler::default();
    c.code = b"script".to_vec();
    let err = c.into_compiled_module().unwrap_err();
    assert_eq!(err, CompilerError::ArityError { found: 0 });
}

#[test]
fn baseline_symbol_unresolved_when_baseline_skipped() {
    // A module calling a baseline function compiles with the baseline...
    let mut with_baseline = Compiler::default();
    with_baseline.code = b"module alpha call hash".to_vec();
    assert!(with_baseline.into_compiled_module().is_ok());
    // ...and fails without it, naming the unresolved baseline symbol.
    let mut skipped = Compiler::default();
    skipped.code = b"module alpha call hash".to_vec();
    skipped.skip_stdlib_deps = true;
    let err = skipped.into_compiled_module().unwrap_err();
    assert_eq!(err, CompilerError::CompileError { symbol: b"hash".to_vec() });
}

#[test]
fn script_baseline_symbol_unresolved_when_baseline_skipped() {
    let mut skipped = Compiler::default();
    skipped.code = b"script call coin".to_vec();
    skipped.skip_stdlib_deps = true;
    let err = skipped.into_compiled_program().unwrap_err();
    assert_eq!(err, CompilerError::CompileError { symbol: b"coin".to_vec() });
}

#[test]
fn identical_requests_give_identical_bytes() {
    // Determinism: same source, address and dependency set twice.
    let a = addr(9);
    let one = compile_module_with_address(&a, "module alpha call hash call coin");
    let two = compile_module_with_address(&a, "module alpha call hash call coin");
    assert_eq!(one, two);
    let p1 = compile_program_with_address(&a, "module alpha script call alpha", vec![]);
    let p2 = compile_program_with_address(&a, "module alpha script call alpha", vec![]);
    assert_eq!(p1.code(), p2.code());
    assert_eq!(p1.modules(), p2.modules());
}

#[test]
fn serialized_module_round_trips() {
    let mut c = Compiler::default();
    c.address = addr(5);
    c.code = b"module alpha call hash call account".to_vec();
    let module = c.into_compiled_module().unwrap();
    let bytes = serialize_module(&module);
    let back = deserialize_module(&bytes).unwrap();
    assert_eq!(back, module);
    assert_eq!(back.address, addr(5));
    assert_eq!(back.name, b"alpha".to_vec());
    assert_eq!(back.calls, vec![b"hash".to_vec(), b"account".to_vec()]);
}

#[test]
fn malformed_bytes_are_rejected() {
    assert_eq!(
        deserialize_module(&[]).unwrap_err(),
        CompilerError::SerializationError
    );
    // A valid encoding with a trailing byte is rejected too.
    let mut c = Compiler::default();
    c.code = b"module alpha".to_vec();
    let module = c.into_compiled_module().unwrap();
    let mut bytes = serialize_module(&module);
    bytes.push(0);
    assert_eq!(
        deserialize_module(&bytes).unwrap_err(),
        CompilerError::SerializationError
    );
}

#[test]
fn payload_preserves_order_and_arguments() {
    let script_bytes = vec![1u8, 2, 3];
    let module_bytes = vec![vec![9u8, 9], vec![7u8], vec![8u8, 8, 8]];
    let args = vec![
        TransactionArgument::U64(42),
        TransactionArgument::Address(addr(1)),
        TransactionArgument::ByteArray(vec![0xAB, 0xCD]),
    ];
    let payload = build_payload(script_bytes.clone(), module_bytes.clone(), args.clone());
    assert_eq!(payload.code(), &script_bytes);
    assert_eq!(payload.modules(), &module_bytes);
    assert_eq!(payload.args(), &args);
}

#[test]
fn serialize_modules_keeps_input_order() {
    let mut c = Compiler::default();
    c.code = b"module alpha module beta call alpha".to_vec();
    let program = c.into_compiled_program().unwrap();
    let blobs = serialize_modules(&program.modules);
    assert_eq!(blobs.len(), 2);
    assert_eq!(blobs[0], serialize_module(&program.modules[0]));
    assert_eq!(blobs[1], serialize_module(&program.modules[1]));
    assert_eq!(program.modules[0].name, b"alpha".to_vec());
    assert_eq!(program.modules[1].name, b"beta".to_vec());
}

#[test]
fn parse_errors_are_reported() {
    for bad in [
        "call alpha",            // reference before any definition
        "module",                // missing module name
        "module script",         // keyword where a name is expected
        "script script",         // second script definition
        "alpha",                 // bare name in definition position
        "module alpha call",     // missing reference name
    ] {
        let mut c = Compiler::default();
        c.code = bad.as_bytes().to_vec();
        let err = c.into_compiled_program().unwrap_err();
        assert_eq!(err, CompilerError::ParseError, "source: {bad}");
    }
}

#[test]
fn later_module_may_call_earlier_one_not_vice_versa() {
    let mut forward = Compiler::default();
    forward.code = b"module alpha module beta call alpha".to_vec();
    assert!(forward.into_compiled_program().is_ok());

    let mut backward = Compiler::default();
    backward.code = b"module beta call alpha module alpha".to_vec();
    let err = backward.into_compiled_program().unwrap_err();
    assert_eq!(err, CompilerError::CompileError { symbol: b"alpha".to_vec() });
}

#[test]
fn resolver_policies() {
    let base = stdlib_modules();
    let extra = {
        let mut c = Compiler::default();
        c.code = b"module extra".to_vec();
        VerifiedModule::new(c.into_compiled_module().unwrap())
    };

    // Default policy, baseline kept: baseline first, extras after.
    let merged = resolve_default(vec![extra.clone()], false);
    assert_eq!(merged.len(), base.len() + 1);
    for (i, b) in base.iter().enumerate() {
        assert_eq!(merged[i].name(), b.name());
    }
    assert_eq!(merged[base.len()].name(), &b"extra".to_vec());

    // Default policy, baseline skipped: the extras alone.
    let skipped = resolve_default(vec![extra.clone()], true);
    assert_eq!(skipped.len(), 1);
    assert_eq!(skipped[0].name(), &b"extra".to_vec());

    // Forced merge ignores no flag: always baseline plus extras.
    let forced = resolve_forced_merge(vec![extra]);
    assert_eq!(forced.len(), base.len() + 1);
}

#[test]
fn forced_merge_session_compiles_against_earlier_module() {
    // Compile a module, then a script that calls it, handing the module back
    // in as a dependency of the later request.
    let a = addr(3);
    let mut c = Compiler::default();
    c.address = a;
    c.code = b"module alpha call hash".to_vec();
    let module = c.into_compiled_module().unwrap();
    let payload = compile_program_with_address_with_deps(
        &a,
        "script call alpha",
        vec![TransactionArgument::U64(1)],
        vec![module],
    );
    assert!(!payload.code().is_empty());
    assert!(payload.modules().is_empty());
    assert_eq!(payload.args().len(), 1);
}

#[test]
fn add_deps_replaces_wholesale_and_add_std_deps_merges() {
    let mut c = Compiler::default();
    let extra = {
        let mut m = Compiler::default();
        m.code = b"module extra".to_vec();
        VerifiedModule::new(m.into_compiled_module().unwrap())
    };
    c.add_deps(vec![extra]);
    assert_eq!(c.extra_deps.len(), 1);
    let merged = c.add_std_deps(vec![]);
    assert_eq!(merged.len(), stdlib_modules().len());
}

#[test]
fn script_helpers_agree() {
    let blob_default = compile_script("script call hash");
    let blob_zero = compile_script_with_address(&AccountAddress::zero(), "script call hash");
    assert_eq!(blob_default, blob_zero);
    let blob_other = compile_script_with_address(&addr(2), "script call hash");
    assert_ne!(blob_default, blob_other);
}

#[test]
fn program_helper_compiles_script_and_modules_together() {
    let payload = compile_program(
        "module alpha script call alpha",
        vec![TransactionArgument::U64(7)],
    );
    assert_eq!(payload.modules().len(), 1);
    assert_eq!(payload.args(), &vec![TransactionArgument::U64(7)]);
    let module_blob = compile_module("module alpha");
    assert!(!module_blob.is_empty());
}

#[test]
fn module_may_call_itself() {
    let mut c = Compiler::default();
    c.code = b"module alpha call alpha".to_vec();
    c.skip_stdlib_deps = true;
    let module = c.into_compiled_module().unwrap();
    assert_eq!(module.calls, vec![b"alpha".to_vec()]);
}

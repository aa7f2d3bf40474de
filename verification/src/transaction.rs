//! Transaction payloads: the submission-ready bundle of serialized script,
//! serialized modules, and typed arguments.

use vstd::prelude::*;
use crate::address::AccountAddress;
use crate::ast::tok_views;

verus! {

/// A typed argument carried through to the runtime.  This core never
/// inspects one: payload assembly passes them on unchanged.
#[derive(Clone, Debug, PartialEq, Eq)]
pub enum TransactionArgument {
    U64(u64),
    Address(AccountAddress),
    ByteArray(Vec<u8>),
}

/// The mathematical value of a typed argument.
pub enum TransactionArgumentV {
    U64(u64),
    Address(Seq<u8>),
    ByteArray(Seq<u8>),
}

impl View for TransactionArgument {
    type V = TransactionArgumentV;

    open spec fn view(&self) -> TransactionArgumentV {
        match self {
            TransactionArgument::U64(n) => TransactionArgumentV::U64(*n),
            TransactionArgument::Address(a) => TransactionArgumentV::Address(a@),
            TransactionArgument::ByteArray(b) => TransactionArgumentV::ByteArray(b@),
        }
    }
}

/// The views of a vector of typed arguments, one value per element.
pub open spec fn arg_views(v: Vec<TransactionArgument>) -> Seq<TransactionArgumentV> {
    Seq::new(v@.len(), |i: int| v@[i]@)
}

/// A transaction payload: serialized script bytes, the serialized modules in
/// order, and the arguments in order.  Assembled once from already-serialized
/// parts; this core validates nothing further about it.
pub struct Program {
    code: Vec<u8>,
    modules: Vec<Vec<u8>>,
    args: Vec<TransactionArgument>,
}

/// The mathematical value of a transaction payload.
pub struct ProgramV {
    pub code: Seq<u8>,
    pub modules: Seq<Seq<u8>>,
    pub args: Seq<TransactionArgumentV>,
}

impl View for Program {
    type V = ProgramV;

    closed spec fn view(&self) -> ProgramV {
        ProgramV {
            code: self.code@,
            modules: tok_views(self.modules),
            args: arg_views(self.args),
        }
    }
}

impl Program {
    /// Assemble a payload: pure assembly, no reordering and no validation.
    /// The module-byte list is exactly the input list in the same order, and
    /// the arguments are passed through unchanged.
    pub fn new(code: Vec<u8>, modules: Vec<Vec<u8>>, args: Vec<TransactionArgument>) -> (r: Self)
        ensures
            r@.code == code@,
            r@.modules == tok_views(modules),
            r@.args == arg_views(args),
    {
        Program { code, modules, args }
    }

    /// The serialized script bytes.
    pub fn code(&self) -> (r: &Vec<u8>)
        ensures
            r@ == self@.code,
    {
        &self.code
    }

    /// The serialized modules, in assembly order.
    pub fn modules(&self) -> (r: &Vec<Vec<u8>>)
        ensures
            tok_views(*r) == self@.modules,
    {
        &self.modules
    }

    /// The typed arguments, in assembly order.
    pub fn args(&self) -> (r: &Vec<TransactionArgument>)
        ensures
            arg_views(*r) == self@.args,
    {
        &self.args
    }
}

} // verus!

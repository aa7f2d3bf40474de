//! The standard-library baseline: the fixed set of pre-verified modules that
//! every compilation may link against unless it explicitly skips them.
//!
//! The baseline is identical across all requests: `stdlib_modules` returns
//! the one value `spec_stdlib` describes every time it is called.

use vstd::prelude::*;
use crate::address::AccountAddress;
use crate::artifact::{CompiledModule, CompiledModuleV, VerifiedModule, verified_views};

verus! {

/// The zero address that the baseline modules are published under.
pub open spec fn zero_address() -> Seq<u8> {
    Seq::<u8>::new(32, |i: int| 0u8)
}

/// The name of the baseline `account` module.
pub open spec fn name_account() -> Seq<u8> {
    seq![97u8, 99u8, 99u8, 111u8, 117u8, 110u8, 116u8]
}

/// The name of the baseline `coin` module.
pub open spec fn name_coin() -> Seq<u8> {
    seq![99u8, 111u8, 105u8, 110u8]
}

/// The name of the baseline `hash` module.
pub open spec fn name_hash() -> Seq<u8> {
    seq![104u8, 97u8, 115u8, 104u8]
}

/// The names of the baseline modules, in the order they are resolved in.
pub open spec fn baseline_names() -> Seq<Seq<u8>> {
    seq![name_account(), name_coin(), name_hash()]
}

/// The baseline modules themselves: published under the zero address,
/// referencing nothing.
pub open spec fn spec_stdlib() -> Seq<CompiledModuleV> {
    Seq::new(baseline_names().len(), |i: int| CompiledModuleV {
        address: zero_address(),
        name: baseline_names()[i],
        calls: Seq::empty(),
    })
}

fn make_baseline(name: Vec<u8>) -> (r: VerifiedModule)
    ensures
        r@ == (CompiledModuleV { address: zero_address(), name: name@, calls: Seq::empty() }),
{
    let calls: Vec<Vec<u8>> = Vec::new();
    let m = CompiledModule { address: AccountAddress::zero(), name, calls };
    proof {
        assert(m@.calls =~= Seq::<Seq<u8>>::empty());
    }
    VerifiedModule::new(m)
}

/// The standard-library baseline, as fresh verified-module values.  Every
/// call returns the same modules, in the same order.
pub fn stdlib_modules() -> (r: Vec<VerifiedModule>)
    ensures
        verified_views(r) == spec_stdlib(),
{
    let mut n_account: Vec<u8> = Vec::new();
    n_account.push(97);
    n_account.push(99);
    n_account.push(99);
    n_account.push(111);
    n_account.push(117);
    n_account.push(110);
    n_account.push(116);
    proof {
        assert(n_account@ =~= name_account());
    }
    let mut n_coin: Vec<u8> = Vec::new();
    n_coin.push(99);
    n_coin.push(111);
    n_coin.push(105);
    n_coin.push(110);
    proof {
        assert(n_coin@ =~= name_coin());
    }
    let mut n_hash: Vec<u8> = Vec::new();
    n_hash.push(104);
    n_hash.push(97);
    n_hash.push(115);
    n_hash.push(104);
    proof {
        assert(n_hash@ =~= name_hash());
    }
    let mut r: Vec<VerifiedModule> = Vec::new();
    r.push(make_baseline(n_account));
    r.push(make_baseline(n_coin));
    r.push(make_baseline(n_hash));
    proof {
        assert(verified_views(r) =~= spec_stdlib());
    }
    r
}

} // verus!

//! Resolution of the bytecodes a block references.

use vstd::prelude::*;
use crate::input::BuildError;
use crate::types::U256;

verus! {

broadcast use vstd::seq_lib::lemma_seq_contains_after_push;

/// Whether `h` occurs in `v`.
pub fn contains_hash(v: &Vec<U256>, h: U256) -> (r: bool)
    ensures
        r == v@.contains(h),
{
    let mut i: usize = 0;
    while i < v.len()
        invariant
            i <= v@.len(),
            forall|k: int| 0 <= k < i ==> v@[k] != h,
        decreases v@.len() - i,
    {
        if v[i] == h {
            assert(v@[i as int] == h);
            return true;
        }
        i = i + 1;
    }
    false
}

/// The hashes to fetch: each hash of `used` that is not in `excluded`, once.
pub fn requested_bytecode_hashes(used: &Vec<U256>, excluded: &Vec<U256>) -> (r: Vec<U256>)
    ensures
        r@.no_duplicates(),
        forall|h: U256| r@.contains(h) <==> (used@.contains(h) && !excluded@.contains(h)),
{
    let mut r: Vec<U256> = Vec::new();
    let mut i: usize = 0;
    while i < used.len()
        invariant
            i <= used@.len(),
            r@.no_duplicates(),
            forall|h: U256| r@.contains(h) <==> (used@.take(i as int).contains(h) && !excluded@.contains(h)),
        decreases used@.len() - i,
    {
        let h = used[i];
        assert(used@.take(i as int + 1) =~= used@.take(i as int).push(h));
        if !contains_hash(excluded, h) && !contains_hash(&r, h) {
            r.push(h);
        }
        i = i + 1;
    }
    assert(used@.take(used@.len() as int) =~= used@);
    r
}

/// Content that storage returned for `h`; a later row wins over an earlier one.
pub open spec fn lookup(fetched: Seq<(U256, Vec<u8>)>, h: U256) -> Option<Seq<u8>>
    decreases fetched.len(),
{
    if fetched.len() == 0 {
        None
    } else if fetched.last().0 == h {
        Some(fetched.last().1@)
    } else {
        lookup(fetched.drop_last(), h)
    }
}

/// Content a requested hash resolves to: the default account's code for its
/// own hash, else what storage returned.
pub open spec fn resolved_content(
    h: U256,
    fetched: Seq<(U256, Vec<u8>)>,
    account_hash: U256,
    account_code: Seq<u8>,
) -> Option<Seq<u8>> {
    if h == account_hash {
        Some(account_code)
    } else {
        lookup(fetched, h)
    }
}

/// Number of requested hashes that resolve to nothing.
pub open spec fn missing_count(
    requested: Seq<U256>,
    fetched: Seq<(U256, Vec<u8>)>,
    account_hash: U256,
    account_code: Seq<u8>,
) -> nat
    decreases requested.len(),
{
    if requested.len() == 0 {
        0
    } else {
        missing_count(requested.drop_last(), fetched, account_hash, account_code) + if resolved_content(
            requested.last(),
            fetched,
            account_hash,
            account_code,
        ) is None {
            1nat
        } else {
            0nat
        }
    }
}

/// A copy of `v`.
pub(crate) fn copy_bytes(v: &Vec<u8>) -> (r: Vec<u8>)
    ensures
        r@ == v@,
{
    let mut r: Vec<u8> = Vec::new();
    let mut i: usize = 0;
    while i < v.len()
        invariant
            i <= v@.len(),
            r@ == v@.take(i as int),
        decreases v@.len() - i,
    {
        r.push(v[i]);
        i = i + 1;
        assert(r@ =~= v@.take(i as int));
    }
    assert(v@.take(v@.len() as int) =~= v@);
    r
}

/// Looks `h` up in what storage returned.
pub fn find_fetched(fetched: &Vec<(U256, Vec<u8>)>, h: U256) -> (r: Option<Vec<u8>>)
    ensures
        r matches Some(c) ==> lookup(fetched@, h) == Some(c@),
        r is None ==> lookup(fetched@, h) is None,
{
    let mut i: usize = fetched.len();
    assert(fetched@.take(fetched@.len() as int) =~= fetched@);
    while i > 0
        invariant
            i <= fetched@.len(),
            lookup(fetched@, h) == lookup(fetched@.take(i as int), h),
        decreases i,
    {
        assert(fetched@.take(i as int).drop_last() =~= fetched@.take(i as int - 1));
        if fetched[i - 1].0 == h {
            return Some(copy_bytes(&fetched[i - 1].1));
        }
        i = i - 1;
    }
    None
}

/// Resolves every requested hash, in order. Succeeds exactly when each one
/// resolves, with one entry per requested hash; otherwise reports how many
/// did not.
pub fn resolve_bytecodes(
    requested: &Vec<U256>,
    fetched: &Vec<(U256, Vec<u8>)>,
    account_hash: U256,
    account_code: &Vec<u8>,
) -> (r: Result<Vec<(U256, Vec<u8>)>, BuildError>)
    ensures
        r is Ok <==> forall|k: int| 0 <= k < requested@.len()
            ==> #[trigger] resolved_content(requested@[k], fetched@, account_hash, account_code@) is Some,
        r matches Ok(v) ==> {
            &&& v@.len() == requested@.len()
            &&& forall|k: int| 0 <= k < v@.len() ==> (#[trigger] v@[k]).0 == requested@[k]
                && resolved_content(requested@[k], fetched@, account_hash, account_code@) == Some(v@[k].1@)
        },
        r matches Err(e) ==> e == (BuildError::MissingBytecodes {
            missing: missing_count(requested@, fetched@, account_hash, account_code@) as usize,
        }),
{
    let mut out: Vec<(U256, Vec<u8>)> = Vec::new();
    let mut missing: usize = 0;
    let mut i: usize = 0;
    while i < requested.len()
        invariant
            i <= requested@.len(),
            missing <= i,
            missing == missing_count(requested@.take(i as int), fetched@, account_hash, account_code@),
            (missing == 0) <==> forall|k: int| 0 <= k < i
                ==> #[trigger] resolved_content(requested@[k], fetched@, account_hash, account_code@) is Some,
            missing == 0 ==> out@.len() == i,
            missing == 0 ==> forall|k: int| 0 <= k < out@.len() ==> (#[trigger] out@[k]).0 == requested@[k]
                && resolved_content(requested@[k], fetched@, account_hash, account_code@) == Some(out@[k].1@),
        decreases requested@.len() - i,
    {
        let h = requested[i];
        assert(requested@.take(i as int + 1).drop_last() =~= requested@.take(i as int));
        let content = if h == account_hash {
            Some(copy_bytes(account_code))
        } else {
            find_fetched(fetched, h)
        };
        match content {
            Some(c) => {
                if missing == 0 {
                    out.push((h, c));
                }
            },
            None => {
                missing = missing + 1;
            },
        }
        i = i + 1;
    }
    assert(requested@.take(requested@.len() as int) =~= requested@);
    if missing == 0 {
        Ok(out)
    } else {
        Err(BuildError::MissingBytecodes { missing })
    }
}

} // verus!

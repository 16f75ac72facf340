//! Derivation paths: the tenant's segment first, the caller's segments after it.

use vstd::prelude::*;

verus! {

/// The path that a request derives along: the tenant, then the extra segments.
pub open spec fn tenant_path(tenant: Seq<u8>, extra: Seq<Seq<u8>>) -> Seq<Seq<u8>> {
    seq![tenant] + extra
}

/// The tenant of a public-key query: the override where one is given, else the caller.
pub open spec fn tenant_of(canister_id: Option<Seq<u8>>, caller: Seq<u8>) -> Seq<u8> {
    match canister_id {
        Some(id) => id,
        None => caller,
    }
}

/// The segments of `path` as sequences of bytes.
pub open spec fn segments(path: Vec<Vec<u8>>) -> Seq<Seq<u8>> {
    Seq::new(path@.len(), |i: int| path@[i]@)
}

/// Copies a byte string.
pub fn copy_bytes(bytes: &Vec<u8>) -> (copy: Vec<u8>)
    ensures
        copy@ == bytes@,
{
    let mut copy: Vec<u8> = Vec::new();
    let mut i: usize = 0;
    while i < bytes.len()
        invariant
            i <= bytes.len(),
            copy@ == bytes@.subrange(0, i as int),
        decreases bytes.len() - i,
    {
        copy.push(bytes[i]);
        i += 1;
    }
    copy
}

/// Builds the derivation path of a request: `tenant` first, then each segment
/// of `extra` in order.
pub fn derivation_path(tenant: &Vec<u8>, extra: &Vec<Vec<u8>>) -> (path: Vec<Vec<u8>>)
    ensures
        segments(path) == tenant_path(tenant@, segments(*extra)),
{
    let mut path: Vec<Vec<u8>> = Vec::new();
    path.push(copy_bytes(tenant));
    let mut i: usize = 0;
    while i < extra.len()
        invariant
            i <= extra.len(),
            path@.len() == i + 1,
            path@[0]@ == tenant@,
            forall|j: int| 0 <= j < i ==> (#[trigger] path@[j + 1])@ == extra@[j]@,
        decreases extra.len() - i,
    {
        path.push(copy_bytes(&extra[i]));
        i += 1;
    }
    assert(segments(path) =~= tenant_path(tenant@, segments(*extra))) by {
        assert forall|k: int| 0 <= k < segments(path).len() implies segments(path)[k]
            == tenant_path(tenant@, segments(*extra))[k] by {
            if k > 0 {
                assert(path@[(k - 1) + 1]@ == extra@[k - 1]@);
            }
        }
    }
    path
}

/// Picks the tenant of a public-key query.
pub fn tenant(canister_id: &Option<Vec<u8>>, caller: &Vec<u8>) -> (tenant: Vec<u8>)
    ensures
        tenant@ == tenant_of(
            match *canister_id {
                Some(id) => Some(id@),
                None => None,
            },
            caller@,
        ),
{
    match canister_id {
        Some(id) => copy_bytes(id),
        None => copy_bytes(caller),
    }
}

/// The tenant is always the first segment of a path, and the extra segments
/// follow it unchanged.
pub proof fn lemma_tenant_first(tenant: Seq<u8>, extra: Seq<Seq<u8>>)
    ensures
        tenant_path(tenant, extra).len() == extra.len() + 1,
        tenant_path(tenant, extra)[0] == tenant,
        tenant_path(tenant, extra).skip(1) == extra,
{
    assert(tenant_path(tenant, extra).skip(1) =~= extra);
}

/// Two tenants never share a path: with different tenants the paths differ,
/// whatever the extra segments are.
pub proof fn lemma_tenants_have_distinct_paths(
    t1: Seq<u8>,
    t2: Seq<u8>,
    extra1: Seq<Seq<u8>>,
    extra2: Seq<Seq<u8>>,
)
    requires
        t1 != t2,
    ensures
        tenant_path(t1, extra1) != tenant_path(t2, extra2),
{
    assert(tenant_path(t1, extra1)[0] == t1);
    assert(tenant_path(t2, extra2)[0] == t2);
}

} // verus!

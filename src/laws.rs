//! Properties that hold across several registry operations.

use vstd::prelude::*;
use crate::ids::UserId;
use crate::registry::{delete_outcome, forget_outcome, register_outcome, sign_outcome, AppState, RegistryError, User};

verus! {

/// Registering one seed twice gives two different identifiers with the
/// same verifying key, and any message signed under either identifier
/// gives the same signature.
pub proof fn lemma_same_seed_twice(
    s0: AppState,
    s1: AppState,
    s2: AppState,
    seed: Seq<u8>,
    r1: Result<User, RegistryError>,
    r2: Result<User, RegistryError>,
    message: Seq<u8>,
)
    requires
        s0.wf(),
        s0@.len() + 2 <= s0.spec_capacity(),
        register_outcome(s0, s1, seed, r1),
        register_outcome(s1, s2, seed, r2),
    ensures
        r1 is Ok,
        r2 is Ok,
        r1->Ok_0.id != r2->Ok_0.id,
        r1->Ok_0.verifying_key == r2->Ok_0.verifying_key,
        s2.signature_for(r1->Ok_0.id, message) is Some,
        s2.signature_for(r1->Ok_0.id, message) == s2.signature_for(r2->Ok_0.id, message),
{
    let id1 = r1->Ok_0.id;
    let id2 = r2->Ok_0.id;
    s0.lemma_finite();
    s1.lemma_finite();
    assert(s1@.contains_key(id1));
    assert(s1@.len() == s0@.len() + 1);
    assert(s2@.contains_key(id1));
    assert(s2@[id1] == s1@[id1]);
    assert(s2@[id1]@ == s2@[id2]@);
    assert(r1->Ok_0.verifying_key@ == r2->Ok_0.verifying_key@);
    assert(r1->Ok_0.verifying_key =~= r2->Ok_0.verifying_key);
}

/// Signing is deterministic: two signings of one message for one
/// identifier in one registry give the same result.
pub proof fn lemma_signing_repeatable(
    s: AppState,
    id: UserId,
    message: Seq<u8>,
    r1: Result<[u8; 64], RegistryError>,
    r2: Result<[u8; 64], RegistryError>,
)
    requires
        sign_outcome(s, id, message, r1),
        sign_outcome(s, id, message, r2),
    ensures
        r1 == r2,
{
    if r1 is Ok && r2 is Ok {
        assert(r1->Ok_0 =~= r2->Ok_0);
    }
}

/// Signing after a forget: once an identifier is forgotten, signing any
/// message for it fails with `NotFound`.
pub proof fn lemma_forgotten_cannot_sign(
    s0: AppState,
    s1: AppState,
    id: UserId,
    message: Seq<u8>,
    r: Result<[u8; 64], RegistryError>,
)
    requires
        forget_outcome(s0, s1, id),
        sign_outcome(s1, id, message, r),
    ensures
        r == Err::<[u8; 64], RegistryError>(RegistryError::NotFound),
{
}

/// The same through identifier texts: once the user a text names is
/// forgotten, nothing can be signed for that text.
pub proof fn lemma_deleted_text_cannot_sign(
    s0: AppState,
    s1: AppState,
    user_id: Seq<char>,
    message: Seq<u8>,
)
    requires
        delete_outcome(s0, s1, user_id),
    ensures
        s1.text_signature_for(user_id, message) is None,
{
}

/// Forgetting an identifier that is not live, never registered or already
/// forgotten, leaves the registry as it was; so forgetting twice is the
/// same as forgetting once.
pub proof fn lemma_forget_idempotent(s0: AppState, s1: AppState, s2: AppState, id: UserId)
    requires
        forget_outcome(s0, s1, id),
        forget_outcome(s1, s2, id),
    ensures
        !s0@.contains_key(id) ==> s1@ == s0@,
        s2@ == s1@,
{
    assert(s2@ =~= s1@);
    if !s0@.contains_key(id) {
        assert(s1@ =~= s0@);
    }
}

/// The number of users after `i` registrations into an empty registry of
/// capacity `n`, for `i` up to `n`.
proof fn lemma_fill_count(
    states: Seq<AppState>,
    seeds: Seq<Seq<u8>>,
    results: Seq<Result<User, RegistryError>>,
    n: nat,
    i: nat,
)
    requires
        states.len() == n + 2,
        seeds.len() == n + 1,
        results.len() == n + 1,
        states[0]@ == Map::<UserId, [u8; 32]>::empty(),
        states[0].spec_capacity() == n,
        forall|j: int|
            0 <= j <= n ==> #[trigger] register_outcome(
                states[j],
                states[j + 1],
                seeds[j],
                results[j],
            ),
        i <= n,
    ensures
        states[i as int]@.len() == i,
        states[i as int]@.dom().finite(),
        states[i as int].spec_capacity() == n,
    decreases i,
{
    states[i as int].lemma_finite();
    if i > 0 {
        let j = (i - 1) as int;
        lemma_fill_count(states, seeds, results, n, (i - 1) as nat);
        assert(register_outcome(states[j], states[j + 1], seeds[j], results[j]));
    }
}

/// Into an empty registry of capacity `n`, `n + 1` registrations in a row:
/// the first `n` succeed and the last is refused with `CapacityExceeded`.
pub proof fn lemma_capacity_bound(
    states: Seq<AppState>,
    seeds: Seq<Seq<u8>>,
    results: Seq<Result<User, RegistryError>>,
    n: nat,
)
    requires
        states.len() == n + 2,
        seeds.len() == n + 1,
        results.len() == n + 1,
        states[0]@ == Map::<UserId, [u8; 32]>::empty(),
        states[0].spec_capacity() == n,
        forall|j: int|
            0 <= j <= n ==> #[trigger] register_outcome(
                states[j],
                states[j + 1],
                seeds[j],
                results[j],
            ),
    ensures
        forall|j: int| 0 <= j < n ==> (#[trigger] results[j]) is Ok,
        results[n as int] == Err::<User, RegistryError>(RegistryError::CapacityExceeded),
{
    assert forall|j: int| 0 <= j < n implies (#[trigger] results[j]) is Ok by {
        lemma_fill_count(states, seeds, results, n, j as nat);
        assert(register_outcome(states[j], states[j + 1], seeds[j], results[j]));
    }
    lemma_fill_count(states, seeds, results, n, n);
    assert(register_outcome(states[n as int], states[n + 1 as int], seeds[n as int], results[n as int]));
}

} // verus!

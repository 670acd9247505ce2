//! The bounded registry of users and the signing engine over it.

use std::collections::HashMap;
use vstd::prelude::*;
use vstd::string::StringSliceAdditionalSpecFns;
use crate::crypto::{ed25519_sign, ed25519_signature};
use crate::derivation::{derived_public, derived_secret, KeyDerivation};
use crate::ids::{parsed_uuid, random_uuid, UserId};

verus! {

broadcast use vstd::std_specs::hash::group_hash_axioms;

/// How many users a registry made by [`AppState::new`] holds at most.
pub const MAX_USERS: usize = 1000;

/// Why a registry operation did not succeed.
#[derive(Debug, Clone, Copy, PartialEq, Eq, Structural)]
pub enum RegistryError {
    /// No live user has the identifier, or the identifier is malformed.
    NotFound,
    /// The registry already holds as many users as it may.
    CapacityExceeded,
}

/// What a registration hands back: the new identifier and the public half
/// of the derived key pair. The secret key stays in the registry.
#[derive(Debug, Clone, Copy)]
pub struct User {
    pub id: UserId,
    pub verifying_key: [u8; 32],
}

/// A registry of users, each holding the secret key derived from the seed
/// it was registered with, bounded by a fixed capacity.
pub struct AppState {
    users: HashMap<UserId, [u8; 32]>,
    capacity: usize,
    keys: KeyDerivation,
}

impl View for AppState {
    type V = Map<UserId, [u8; 32]>;

    /// The live users and their secret keys.
    closed spec fn view(&self) -> Map<UserId, [u8; 32]> {
        self.users@
    }
}

/// The state after a registration of `seed` and its result: a full
/// registry refuses and stays as it was; otherwise one user with an
/// identifier not yet in use and the key derived from `seed` is added.
pub open spec fn register_outcome(
    pre: AppState,
    post: AppState,
    seed: Seq<u8>,
    r: Result<User, RegistryError>,
) -> bool {
    &&& post.spec_capacity() == pre.spec_capacity()
    &&& post.master() == pre.master()
    &&& if pre@.len() >= pre.spec_capacity() {
        &&& r == Err::<User, RegistryError>(RegistryError::CapacityExceeded)
        &&& post@ == pre@
    } else {
        &&& r is Ok
        &&& !pre@.contains_key(r->Ok_0.id)
        &&& post@ == pre@.insert(r->Ok_0.id, post@[r->Ok_0.id])
        &&& post@[r->Ok_0.id]@ == derived_secret(pre.master(), seed)
        &&& r->Ok_0.verifying_key@ == derived_public(pre.master(), seed)
    }
}

/// The result of signing `message` for `id`: the signature under the key
/// of `id` when `id` is live, `NotFound` otherwise.
pub open spec fn sign_outcome(
    s: AppState,
    id: UserId,
    message: Seq<u8>,
    r: Result<[u8; 64], RegistryError>,
) -> bool {
    match r {
        Ok(sig) => s.signature_for(id, message) == Some(sig@),
        Err(e) => e == RegistryError::NotFound && s.signature_for(id, message) is None,
    }
}

/// The state after forgetting `id`: the user is gone if it was there, and
/// nothing else changes.
pub open spec fn forget_outcome(pre: AppState, post: AppState, id: UserId) -> bool {
    &&& post.spec_capacity() == pre.spec_capacity()
    &&& post.master() == pre.master()
    &&& post@ == pre@.remove(id)
}

/// The state after forgetting the user whose identifier text is `user_id`:
/// that user is gone if the text parses, and nothing changes otherwise.
pub open spec fn delete_outcome(pre: AppState, post: AppState, user_id: Seq<char>) -> bool {
    match parsed_uuid(user_id) {
        Some(id) => forget_outcome(pre, post, id),
        None => {
            &&& post.spec_capacity() == pre.spec_capacity()
            &&& post.master() == pre.master()
            &&& post@ == pre@
        },
    }
}

/// The value `j` steps after `start`, wrapping round at the top.
spec fn probe(start: UserId, j: int) -> UserId {
    ((start + j) % (u128::MAX + 1)) as UserId
}

impl AppState {
    /// The most users the registry may hold.
    pub closed spec fn spec_capacity(&self) -> nat {
        self.capacity as nat
    }

    /// The master secret the registry derives keys under.
    pub closed spec fn master(&self) -> Seq<u8> {
        self.keys.master()
    }

    /// The registry never holds more users than its capacity.
    pub open spec fn wf(&self) -> bool {
        self@.len() <= self.spec_capacity()
    }

    /// A registry holds finitely many users.
    pub proof fn lemma_finite(&self)
        ensures
            self@.dom().finite(),
    {
    }

    /// The signature of `message` under the key of `id`, if `id` is live.
    pub open spec fn signature_for(&self, id: UserId, message: Seq<u8>) -> Option<Seq<u8>> {
        if self@.contains_key(id) {
            Some(ed25519_signature(self@[id]@, message))
        } else {
            None
        }
    }

    /// An empty registry deriving under `master_secret` and holding at
    /// most `capacity` users.
    pub fn with_master_secret(master_secret: Vec<u8>, capacity: usize) -> (r: AppState)
        ensures
            r.wf(),
            r@ == Map::<UserId, [u8; 32]>::empty(),
            r.spec_capacity() == capacity,
            r.master() == master_secret@,
    {
        AppState { users: HashMap::new(), capacity, keys: KeyDerivation::new(master_secret) }
    }

    /// An empty registry holding at most [`MAX_USERS`] users, deriving under
    /// a master secret drawn at random for this registry.
    pub fn new() -> (r: AppState)
        ensures
            r.wf(),
            r@ == Map::<UserId, [u8; 32]>::empty(),
            r.spec_capacity() == MAX_USERS,
    {
        let master: [u8; 32] = rand::random();
        AppState::with_master_secret(vstd::slice::slice_to_vec(master.as_slice()), MAX_USERS)
    }

    /// The number of live users.
    pub fn len(&self) -> (r: usize)
        requires
            self.wf(),
        ensures
            r == self@.len(),
    {
        self.users.len()
    }

    /// The most users the registry may hold.
    pub fn capacity(&self) -> (r: usize)
        ensures
            r == self.spec_capacity(),
    {
        self.capacity
    }

    /// Whether `id` names a live user.
    pub fn contains(&self, id: UserId) -> (r: bool)
        ensures
            r == self@.contains_key(id),
    {
        self.users.contains_key(&id)
    }

    /// An identifier that no live user has: a random one, or, should that
    /// be taken, the next free value after it.
    fn fresh_id(&self) -> (r: UserId)
        requires
            self.wf(),
        ensures
            !self@.contains_key(r),
    {
        let start = random_uuid();
        let mut id = start;
        let ghost mut seen: Set<UserId> = Set::empty();
        let ghost mut k: int = 0;
        while self.users.contains_key(&id)
            invariant
                self.wf(),
                seen.finite(),
                seen.len() == k,
                seen.subset_of(self.users@.dom()),
                0 <= k <= self.users@.len(),
                id == probe(start, k),
                forall|x: UserId| #[trigger]
                    seen.contains(x) ==> exists|j: int|
                        0 <= j < k && x == probe(start, j),
            decreases self.users@.len() - k,
        {
            proof {
                assert(!seen.contains(id)) by {
                    if seen.contains(id) {
                        let j = choose|j: int|
                            0 <= j < k && id == probe(start, j);
                        assert(false);
                    }
                }
                seen = seen.insert(id);
                k = k + 1;
                vstd::set_lib::lemma_len_subset(seen, self.users@.dom());
            }
            id = id.wrapping_add(1);
        }
        id
    }

    /// Registers a user for `seed`: draws a fresh identifier, derives the
    /// key for `seed` and stores it, and returns the identifier with the
    /// verifying key. A full registry refuses with `CapacityExceeded`.
    pub fn register_user(&mut self, seed: &[u8]) -> (r: Result<User, RegistryError>)
        requires
            old(self).wf(),
        ensures
            final(self).wf(),
            register_outcome(*old(self), *final(self), seed@, r),
    {
        if self.users.len() >= self.capacity {
            return Err(RegistryError::CapacityExceeded);
        }
        let id = self.fresh_id();
        let secret = self.keys.derive(seed);
        let verifying_key = crate::crypto::ed25519_verifying_key(&secret);
        self.users.insert(id, secret);
        proof {
            assert(self.users@ == old(self).users@.insert(id, secret));
        }
        Ok(User { id, verifying_key })
    }

    /// The secret key of `id`, if `id` is live.
    fn user(&self, id: UserId) -> (r: Option<[u8; 32]>)
        ensures
            r == (if self@.contains_key(id) {
                Some(self@[id])
            } else {
                None::<[u8; 32]>
            }),
    {
        match self.users.get(&id) {
            Some(secret) => Some(*secret),
            None => None,
        }
    }

    /// Signs `message` with the key of `id`; `NotFound` when `id` is not live.
    pub fn sign(&self, id: UserId, message: &[u8]) -> (r: Result<[u8; 64], RegistryError>)
        ensures
            sign_outcome(*self, id, message@, r),
    {
        match self.user(id) {
            Some(secret) => Ok(ed25519_sign(&secret, message)),
            None => Err(RegistryError::NotFound),
        }
    }

    /// Removes `id` if it is live; forgetting an absent identifier succeeds
    /// and changes nothing.
    pub fn forget(&mut self, id: UserId)
        requires
            old(self).wf(),
        ensures
            final(self).wf(),
            forget_outcome(*old(self), *final(self), id),
    {
        self.users.remove(&id);
        proof {
            vstd::set_lib::lemma_len_subset(self.users@.dom(), old(self).users@.dom());
        }
    }

    /// The signature for a user given by its identifier text: `None` when
    /// the text is malformed or names no live user.
    pub open spec fn text_signature_for(&self, user_id: Seq<char>, message: Seq<u8>) -> Option<
        Seq<u8>,
    > {
        match parsed_uuid(user_id) {
            Some(id) => self.signature_for(id, message),
            None => None,
        }
    }

    /// Signs the bytes of `message` for the user whose identifier text is
    /// `user_id`; `NotFound` when the text is malformed or names no live
    /// user.
    pub fn sign_message(&self, user_id: &str, message: &str) -> (r: Result<Vec<u8>, RegistryError>)
        ensures
            match r {
                Ok(sig) => self.text_signature_for(user_id@, message.spec_bytes()) == Some(sig@),
                Err(e) => e == RegistryError::NotFound && self.text_signature_for(
                    user_id@,
                    message.spec_bytes(),
                ) is None,
            },
    {
        match crate::ids::parse_user_id(user_id) {
            Some(id) => match self.sign(id, message.as_bytes()) {
                Ok(sig) => Ok(vstd::slice::slice_to_vec(sig.as_slice())),
                Err(e) => Err(e),
            },
            None => Err(RegistryError::NotFound),
        }
    }

    /// Forgets the user whose identifier text is `user_id`. A malformed
    /// text, or one that names no live user, changes nothing: forgetting
    /// always succeeds.
    pub fn delete_user(&mut self, user_id: &str)
        requires
            old(self).wf(),
        ensures
            final(self).wf(),
            delete_outcome(*old(self), *final(self), user_id@),
    {
        match crate::ids::parse_user_id(user_id) {
            Some(id) => self.forget(id),
            None => {},
        }
    }
}

} // verus!

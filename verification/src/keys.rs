//! The identity provider's published signing keys: a set of public keys,
//! each carrying a key identifier (`kid`), looked up during token validation.

use vstd::prelude::*;

verus! {

/// One public signing key as published by the identity provider: key id,
/// key type, intended algorithm, and the RSA modulus and exponent in
/// base64url form. Immutable once fetched.
#[derive(Clone, Debug)]
pub struct JWK {
    pub kid: String,
    pub kty: String,
    pub alg: String,
    pub n: String,
    pub e: String,
}

/// The published key set. Replaced wholesale on refresh, never mutated
/// key by key; lookups are by `kid`.
#[derive(Clone, Debug)]
pub struct JWKS {
    pub keys: Vec<JWK>,
}

/// A key-set fetch failed and no previously fetched set exists: without
/// keys the gateway cannot authenticate anything, so this is fatal at
/// startup.
#[derive(Clone, Copy, Debug, PartialEq, Eq, Structural)]
pub struct KeySetFetchError;

/// The cache's replacement policy: a freshly fetched set replaces the
/// held one wholesale; a failed fetch keeps serving the stale set
/// (degraded mode) and is an error only when no set was ever held.
pub fn refresh_keyset(current: Option<JWKS>, fetched: Option<JWKS>) -> (r: Result<
    JWKS,
    KeySetFetchError,
>)
    ensures
        match fetched {
            Some(f) => r == Ok::<JWKS, KeySetFetchError>(f),
            None => match current {
                Some(c) => r == Ok::<JWKS, KeySetFetchError>(c),
                None => r == Err::<JWKS, KeySetFetchError>(KeySetFetchError),
            },
        },
{
    match fetched {
        Some(f) => Ok(f),
        None => match current {
            Some(c) => Ok(c),
            None => Err(KeySetFetchError),
        },
    }
}

/// The first key in `keys` whose id reads `kid`, if any.
pub open spec fn spec_find_key(keys: Seq<JWK>, kid: Seq<char>) -> Option<JWK>
    decreases keys.len(),
{
    if keys.len() == 0 {
        None
    } else if keys[0].kid@ == kid {
        Some(keys[0])
    } else {
        spec_find_key(keys.skip(1), kid)
    }
}

proof fn lemma_find_key_prefix(keys: Seq<JWK>, kid: Seq<char>, i: int)
    requires
        0 <= i <= keys.len(),
        forall|j: int| 0 <= j < i ==> keys[j].kid@ != kid,
    ensures
        spec_find_key(keys, kid) == spec_find_key(keys.skip(i), kid),
    decreases i,
{
    if i > 0 {
        assert(keys.skip(i - 1).skip(1) =~= keys.skip(i));
        lemma_find_key_prefix(keys, kid, i - 1);
    } else {
        assert(keys.skip(0) =~= keys);
    }
}

/// Relates a successful lookup to the index it found.
proof fn lemma_find_key_at(keys: Seq<JWK>, kid: Seq<char>, i: int)
    requires
        0 <= i < keys.len(),
        forall|j: int| 0 <= j < i ==> keys[j].kid@ != kid,
        keys[i].kid@ == kid,
    ensures
        spec_find_key(keys, kid) == Some(keys[i]),
{
    lemma_find_key_prefix(keys, kid, i);
    assert(keys.skip(i)[0] == keys[i]);
}

impl JWKS {
    /// Every key id occurs at most once in the set.
    pub open spec fn wf(&self) -> bool {
        forall|i: int, j: int|
            0 <= i < j < self.keys@.len() ==> self.keys@[i].kid@ != self.keys@[j].kid@
    }

    /// Builds a key set from the keys of a fetched key-set document.
    pub fn new(keys: Vec<JWK>) -> (r: JWKS)
        ensures
            r.keys == keys,
    {
        JWKS { keys }
    }

    /// Looks up the key for a `kid`; absence is a hard validation failure
    /// for the caller, never a fallback to an unauthenticated path.
    pub fn find_key<'a>(&'a self, kid: &String) -> (r: Option<&'a JWK>)
        ensures
            match r {
                Some(k) => spec_find_key(self.keys@, kid@) == Some(*k),
                None => spec_find_key(self.keys@, kid@) is None,
            },
    {
        let n = self.keys.len();
        for i in 0..n
            invariant
                n == self.keys@.len(),
                forall|j: int| 0 <= j < i ==> self.keys@[j].kid@ != kid@,
        {
            if self.keys[i].kid == *kid {
                proof {
                    lemma_find_key_at(self.keys@, kid@, i as int);
                }
                return Some(&self.keys[i]);
            }
        }
        proof {
            lemma_find_key_prefix(self.keys@, kid@, n as int);
        }
        None
    }

    /// True when no key id repeats: the well-formedness the gateway
    /// requires of a freshly fetched set.
    pub fn kids_unique(&self) -> (r: bool)
        ensures
            r == self.wf(),
    {
        let n = self.keys.len();
        for i in 0..n
            invariant
                n == self.keys@.len(),
                forall|p: int, q: int| 0 <= p < q < i ==> self.keys@[p].kid@ != self.keys@[q].kid@,
                forall|p: int, q: int| 0 <= p < i && p < q < n ==> self.keys@[p].kid@ != self.keys@[q].kid@,
        {
            for j in (i + 1)..n
                invariant
                    n == self.keys@.len(),
                    i < n,
                    forall|q: int| i < q < j ==> self.keys@[i as int].kid@ != self.keys@[q].kid@,
            {
                if self.keys[i].kid == self.keys[j].kid {
                    return false;
                }
            }
        }
        true
    }
}

} // verus!

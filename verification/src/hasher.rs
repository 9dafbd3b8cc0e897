//! The two operations of the service: creating a record for a secret, and
//! verifying a secret against a record.

use vstd::prelude::*;

use argon2rs::verifier::constant_eq;

use crate::codec::decode_verify_request;
use crate::codec::lemma_decode_encode;
use crate::codec::spec_decode;
use crate::codec::spec_encode_record;
use crate::codec::spec_be_u16;
use crate::codec::HashRecord;
use crate::codec::VerifyRequest;
use crate::codec::VerifyRequestView;
use crate::codec::TAG_LEN;
use crate::engine::bytes_view;
use crate::engine::derive_hash;
use crate::engine::derive_new;
use crate::engine::refusal;
use crate::engine::spec_derive_hash;
use crate::engine::MAX_KEY_LEN;
use crate::error::HashError;
use crate::error::InputError;
use crate::error::SystemError;
use crate::memset::zeros;
use crate::memset::SecureBuffer;
use crate::params::cur;
use crate::params::v0;
use crate::params::ParameterRegistry;
use crate::params::ParameterSet;
use crate::service::route;
use crate::service::spec_hash_reply;
use crate::service::spec_hash_result;
use crate::service::spec_route;
use crate::service::spec_unrouted_reply;
use crate::service::spec_verify_reply;
use crate::service::path_view;
use crate::service::Endpoint;
use crate::service::Reply;
use crate::service::ReplyView;

verus! {

/// Compares two byte strings in time that does not depend on where, or
/// whether, they differ.
///
/// Trusted: this gives `argon2rs::verifier::constant_eq` its contract. The
/// function returns `false` for slices of different lengths; for slices of
/// one length it folds the exclusive-or of each pair of bytes into one byte
/// and returns whether that byte is zero, which is whether the slices are
/// equal. That it takes the same time either way is a property of its code
/// that the contract does not state.
pub assume_specification[ argon2rs::verifier::constant_eq ](xs: &[u8], ys: &[u8]) -> (equal: bool)
    ensures
        equal == (xs@ == ys@),
;

/// What a verification found.
#[derive(Clone, Copy, Debug, PartialEq, Eq, Structural)]
pub struct VerifyOutcome {
    /// Whether the secret is the one the record was made for.
    pub matched: bool,
    /// Whether the record should be replaced by one of the current version.
    /// It is the flag of the record's parameter set, whatever `matched` is.
    pub should_rehash: bool,
}

/// The outcome of checking a decoded request: the hash of its secret under
/// its salt and parameter set is derived and compared with its hash.
pub open spec fn spec_check(request: VerifyRequestView, key: Seq<u8>, ad: Seq<u8>) -> Result<
    VerifyOutcome,
    HashError,
> {
    match spec_derive_hash(request.params, request.secret, key, ad, request.salt) {
        Err(e) => Err(e),
        Ok(actual) => Ok(
            VerifyOutcome {
                matched: actual == request.hash,
                should_rehash: request.params.needs_rehash,
            },
        ),
    }
}

/// The outcome of verifying `body` against the registered sets in `table`.
/// A body that does not decode is refused before the key is looked at.
pub open spec fn spec_verify(
    table: Map<u16, ParameterSet>,
    body: Seq<u8>,
    key: Seq<u8>,
    ad: Seq<u8>,
) -> Result<VerifyOutcome, HashError> {
    match spec_decode(table, body) {
        Err(e) => Err(HashError::Input(e)),
        Ok(request) => spec_check(request, key, ad),
    }
}

/// Whether `record` is a record of `secret` under `params`: it has the
/// set's version tag, a salt and a hash of the set's lengths, and the hash is
/// the one derived from the secret under that salt.
pub open spec fn spec_is_record(
    params: ParameterSet,
    record: Seq<u8>,
    secret: Seq<u8>,
    key: Seq<u8>,
    ad: Seq<u8>,
) -> bool {
    let salt_end = TAG_LEN + params.salt_len;
    let hash_end = salt_end + params.hash_len;
    let salt = record.subrange(TAG_LEN as int, salt_end);
    let hash = record.subrange(salt_end, hash_end);
    &&& record.len() == hash_end
    &&& record == spec_encode_record(params.version, salt, hash)
    &&& spec_derive_hash(params, secret, key, ad, salt) == Ok::<_, HashError>(hash)
}

/// Whether `r` is a possible result of creating a record of `secret` under
/// `params`: the refusal if the request is refused; else either the failure
/// to draw a salt, or a record of the secret.
pub open spec fn is_fresh_record(
    r: Result<Seq<u8>, HashError>,
    params: ParameterSet,
    secret: Seq<u8>,
    key: Seq<u8>,
    ad: Seq<u8>,
) -> bool {
    match refusal(params, secret.len(), key.len(), ad.len(), params.salt_len as nat) {
        Some(e) => r == Err::<Seq<u8>, _>(e),
        None => match r {
            Ok(record) => spec_is_record(params, record, secret, key, ad),
            Err(e) => e == HashError::System(SystemError::EntropyUnavailable),
        },
    }
}

/// Whether `reply` is a possible answer to a request, given the registered
/// sets in `table` and the current set. A request that is not routed to an
/// operation is answered by its status alone. A request to verify has one
/// answer. A request to create a record, whose body is the secret, is
/// answered by what a possible result of the creation is turned into.
pub open spec fn is_reply(
    reply: ReplyView,
    table: Map<u16, ParameterSet>,
    current: ParameterSet,
    path: Option<Seq<char>>,
    is_post: bool,
    key: Seq<u8>,
    ad: Seq<u8>,
    body: Seq<u8>,
) -> bool {
    match spec_route(path, is_post) {
        Err(status) => reply == spec_unrouted_reply(status),
        Ok(Endpoint::Verify) => reply == spec_verify_reply(spec_verify(table, body, key, ad)),
        Ok(Endpoint::Hash) => {
            &&& reply == spec_hash_reply(spec_hash_result(reply))
            &&& is_fresh_record(spec_hash_result(reply), current, body, key, ad)
        },
    }
}

/// Checks a decoded request: derives the hash of its secret and compares it
/// with the hash it holds, in constant time.
pub fn check(request: &VerifyRequest<'_>, key: &[u8], ad: &[u8]) -> (r: Result<
    VerifyOutcome,
    HashError,
>)
    ensures
        r == spec_check(request@, key@, ad@),
{
    match derive_hash(&request.params, request.secret, key, ad, request.salt) {
        Err(e) => Err(e),
        Ok(actual) => Ok(
            VerifyOutcome {
                matched: constant_eq(actual.as_slice(), request.hash),
                should_rehash: request.params.needs_rehash,
            },
        ),
    }
}

/// The hashing service: a registry of parameter sets and the operations on
/// it. It holds no other state, so one value serves any number of callers.
#[derive(Debug)]
pub struct Hasher {
    registry: ParameterRegistry,
}

impl Hasher {
    /// The registry that the service works with.
    pub closed spec fn registry(&self) -> ParameterRegistry {
        self.registry
    }

    /// The invariant: the registry is well formed.
    pub open spec fn wf(&self) -> bool {
        self.registry().wf()
    }

    /// The service of this release: version 0 is registered and current.
    pub fn new() -> (hasher: Hasher)
        ensures
            hasher.wf(),
            hasher.registry().table() == Map::<u16, ParameterSet>::empty().insert(
                v0::VERSION,
                v0::spec_parameter_set(),
            ),
            hasher.registry().current_version() == cur::VERSION,
    {
        Hasher { registry: ParameterRegistry::standard() }
    }

    /// A service over the given registry.
    pub fn with_registry(registry: ParameterRegistry) -> (hasher: Hasher)
        requires
            registry.wf(),
        ensures
            hasher.wf(),
            hasher.registry() == registry,
    {
        Hasher { registry }
    }

    /// The registry of parameter sets that the service works with.
    pub fn params(&self) -> (registry: &ParameterRegistry)
        ensures
            *registry == self.registry(),
    {
        &self.registry
    }

    /// Creates a record of `secret` under the current parameter set, with a
    /// fresh salt. The secret is wiped before the function returns, whatever
    /// it returns. An oversized key is refused before anything else happens.
    pub fn hash(&self, secret: &mut SecureBuffer, key: &[u8], ad: &[u8]) -> (r: Result<
        Vec<u8>,
        HashError,
    >)
        requires
            self.wf(),
        ensures
            is_fresh_record(
                bytes_view(r),
                self.registry().spec_current(),
                old(secret)@,
                key@,
                ad@,
            ),
            key@.len() > MAX_KEY_LEN ==> r == Err::<Vec<u8>, _>(
                HashError::Input(InputError::KeyTooLong),
            ),
            final(secret)@ == zeros(old(secret)@.len()),
    {
        let params = self.registry.current();
        match derive_new(&params, secret, key, ad) {
            Err(e) => Err(e),
            Ok((salt, hash)) => {
                let record = HashRecord { version: params.version, salt, hash };
                let bytes = record.encode();
                proof {
                    let salt_end = TAG_LEN + params.salt_len;
                    let hash_end = salt_end + params.hash_len;
                    assert(bytes@.subrange(TAG_LEN as int, salt_end) =~= record@.salt);
                    assert(bytes@.subrange(salt_end, hash_end) =~= record@.hash);
                }
                Ok(bytes)
            },
        }
    }

    /// Verifies the secret at the end of `body` against the record at its
    /// start. The whole body is wiped before the function returns, whatever
    /// it returns.
    pub fn verify(&self, body: &mut SecureBuffer, key: &[u8], ad: &[u8]) -> (r: Result<
        VerifyOutcome,
        HashError,
    >)
        requires
            self.wf(),
        ensures
            r == spec_verify(self.registry().table(), old(body)@, key@, ad@),
            key@.len() > MAX_KEY_LEN ==> r matches Err(HashError::Input(_)),
            final(body)@ == zeros(old(body)@.len()),
    {
        let r = match decode_verify_request(&self.registry, body.as_slice()) {
            Err(e) => Err(HashError::Input(e)),
            Ok(request) => check(&request, key, ad),
        };
        body.wipe();
        r
    }

    /// Answers one request. `path` is `None` where the request's target is
    /// not an absolute path; `body` is the request's body, which is wiped
    /// before the function returns, whatever the answer is.
    pub fn handle(
        &self,
        path: Option<&str>,
        is_post: bool,
        key: &[u8],
        ad: &[u8],
        body: &mut SecureBuffer,
    ) -> (reply: Reply)
        requires
            self.wf(),
        ensures
            is_reply(
                reply@,
                self.registry().table(),
                self.registry().spec_current(),
                path_view(path),
                is_post,
                key@,
                ad@,
                old(body)@,
            ),
            final(body)@ == zeros(old(body)@.len()),
    {
        match route(path, is_post) {
            Err(status) => {
                body.wipe();
                Reply::unrouted(status)
            },
            Ok(Endpoint::Hash) => Reply::of_hash(self.hash(body, key, ad)),
            Ok(Endpoint::Verify) => Reply::of_verify(self.verify(body, key, ad)),
        }
    }
}

/// Round trip: whenever creating a record for a secret succeeds, the record
/// followed by the secret verifies under the same key and associated data:
/// the secret matches, and nothing asks for a rehash.
pub proof fn lemma_round_trip(
    registry: ParameterRegistry,
    record: Seq<u8>,
    secret: Seq<u8>,
    key: Seq<u8>,
    ad: Seq<u8>,
)
    requires
        registry.wf(),
        is_fresh_record(Ok(record), registry.spec_current(), secret, key, ad),
    ensures
        spec_verify(registry.table(), record + secret, key, ad) == Ok::<_, HashError>(
            VerifyOutcome { matched: true, should_rehash: false },
        ),
{
    let params = registry.spec_current();
    let salt_end = TAG_LEN + params.salt_len;
    let hash_end = salt_end + params.hash_len;
    let salt = record.subrange(TAG_LEN as int, salt_end);
    let hash = record.subrange(salt_end, hash_end);
    registry.lemma_invariant();
    lemma_decode_encode(registry.table(), params, salt, hash, secret);
}

/// Determinism: two results of [`crate::engine::recompute`], or of
/// [`derive_hash`], under the same parameter set from the same secret, key,
/// associated data and salt are equal.
pub proof fn lemma_derive_deterministic(
    params: ParameterSet,
    secret: Seq<u8>,
    key: Seq<u8>,
    ad: Seq<u8>,
    salt: Seq<u8>,
    first: Result<Vec<u8>, HashError>,
    second: Result<Vec<u8>, HashError>,
)
    requires
        bytes_view(first) == spec_derive_hash(params, secret, key, ad, salt),
        bytes_view(second) == spec_derive_hash(params, secret, key, ad, salt),
    ensures
        bytes_view(first) == bytes_view(second),
{
}

/// Rejection: with a key of more than [`MAX_KEY_LEN`] bytes, creating a
/// record fails with the input error for the key, and verifying fails with
/// an input error, whatever the other arguments are.
pub proof fn lemma_long_key_rejected(
    registry: ParameterRegistry,
    created: Result<Seq<u8>, HashError>,
    secret: Seq<u8>,
    body: Seq<u8>,
    key: Seq<u8>,
    ad: Seq<u8>,
)
    requires
        key.len() > MAX_KEY_LEN,
        is_fresh_record(created, registry.spec_current(), secret, key, ad),
    ensures
        created == Err::<Seq<u8>, _>(HashError::Input(InputError::KeyTooLong)),
        spec_verify(registry.table(), body, key, ad) matches Err(HashError::Input(_)),
{
}

/// Rehash flag: what a verification reports as `should_rehash` is the flag
/// of the set that the body's version tag names, whether or not the secret
/// matched; for the current version it is `false`.
pub proof fn lemma_rehash_flag(
    registry: ParameterRegistry,
    body: Seq<u8>,
    key: Seq<u8>,
    ad: Seq<u8>,
)
    requires
        registry.wf(),
    ensures
        spec_verify(registry.table(), body, key, ad) matches Ok(outcome) ==> {
            let version = spec_be_u16(body[0], body[1]);
            &&& body.len() >= TAG_LEN
            &&& registry.table().dom().contains(version)
            &&& outcome.should_rehash == registry.table()[version].needs_rehash
            &&& version == registry.current_version() ==> !outcome.should_rehash
        },
{
    registry.lemma_invariant();
}

} // verus!

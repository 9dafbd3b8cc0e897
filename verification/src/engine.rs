//! Deriving a hash from a secret under a parameter set.
//!
//! The derivation itself is Argon2 as the `argon2rs` crate computes it, and
//! fresh salts come from the operating system through the `rand` crate. What
//! this module adds is the order of the checks made before either is called,
//! and the wiping of the secret afterwards.

use vstd::prelude::*;

use argon2rs::Argon2;
use argon2rs::ParamErr;
use rand::OsRng;
use rand::Rng;

use crate::error::HashError;
use crate::error::InputError;
use crate::error::SystemError;
use crate::memset::zeros;
use crate::memset::SecureBuffer;
use crate::params::ParameterSet;
use crate::params::Variant;

verus! {

/// The longest key that is accepted, in bytes.
pub const MAX_KEY_LEN: usize = 32;

/// The longest secret, salt, associated data or hash that Argon2 is defined
/// for, in bytes.
pub const MAX_INPUT_LEN: usize = 0xffff_ffff;

/// The shortest salt that Argon2 is defined for, in bytes.
pub const MIN_SALT_LEN: usize = 8;

/// The shortest hash that Argon2 is defined for, in bytes.
pub const MIN_HASH_LEN: usize = 4;

/// The largest number of lanes that Argon2 is defined for.
pub const MAX_LANES: u32 = 0x00ff_ffff;

/// Makes `argon2rs::ParamErr` known as an opaque type: the reason for which
/// `Argon2::new` turned its cost factors down.
#[verifier::external_type_specification]
#[verifier::external_body]
pub struct ExParamErr(argon2rs::ParamErr);

/// Makes `rand::OsRng` known as an opaque type: a handle on the operating
/// system's random number generator.
#[verifier::external_type_specification]
#[verifier::external_body]
pub struct ExOsRng(rand::OsRng);

/// The hash that `argon2rs` computes: `Argon2::hash`, on an `Argon2` made by
/// `Argon2::new` from the first four arguments, writing `hash_len` bytes.
/// The variant is Argon2i where `data_independent` holds, else Argon2d.
pub uninterp spec fn argon2_digest(
    passes: u32,
    lanes: u32,
    memory_kb: u32,
    data_independent: bool,
    hash_len: usize,
    secret: Seq<u8>,
    salt: Seq<u8>,
    key: Seq<u8>,
    ad: Seq<u8>,
) -> Seq<u8>;

/// The cost factors that `Argon2::new` accepts: at least one pass, between
/// one and [`MAX_LANES`] lanes, and at least 8 KiB of memory for each lane.
pub open spec fn cost_accepted(passes: u32, lanes: u32, memory_kb: u32) -> bool {
    &&& passes >= 1
    &&& 1 <= lanes <= MAX_LANES
    &&& memory_kb >= 8 * lanes
}

/// Runs Argon2.
///
/// Trusted: the body calls `argon2rs::Argon2::new` and, on the value it
/// returns, `argon2rs::Argon2::hash` with an output buffer of `hash_len`
/// bytes. The contract claims of `new` that it fails exactly on the cost
/// factors that [`cost_accepted`] leaves out, which are the four tests it
/// makes. Of `hash` it claims that it returns under the length limits
/// required here, which are the ones it asserts, and that what it writes is
/// a function of the arguments alone, named [`argon2_digest`]. `hash`
/// allocates `memory_kb` KiB and starts `lanes` threads; it does not return
/// on a machine that cannot provide them, which no contract can rule out.
#[verifier::external_body]
fn argon2_hash(
    passes: u32,
    lanes: u32,
    memory_kb: u32,
    data_independent: bool,
    hash_len: usize,
    secret: &[u8],
    salt: &[u8],
    key: &[u8],
    ad: &[u8],
) -> (r: Result<Vec<u8>, ParamErr>)
    requires
        MIN_HASH_LEN <= hash_len <= MAX_INPUT_LEN,
        secret@.len() <= MAX_INPUT_LEN,
        MIN_SALT_LEN <= salt@.len() <= MAX_INPUT_LEN,
        key@.len() <= MAX_KEY_LEN,
        ad@.len() <= MAX_INPUT_LEN,
    ensures
        r is Ok <==> cost_accepted(passes, lanes, memory_kb),
        r matches Ok(hash) ==> hash@.len() == hash_len,
        r matches Ok(hash) ==> hash@ == argon2_digest(
            passes,
            lanes,
            memory_kb,
            data_independent,
            hash_len,
            secret@,
            salt@,
            key@,
            ad@,
        ),
{
    let variant = if data_independent {
        argon2rs::Variant::Argon2i
    } else {
        argon2rs::Variant::Argon2d
    };
    let argon = Argon2::new(passes, lanes, memory_kb, variant)?;
    let mut hash = vec![0u8; hash_len];
    argon.hash(&mut hash, secret, salt, key, ad);
    Ok(hash)
}

/// Opens the operating system's random number generator.
///
/// Trusted: the body calls `rand::OsRng::new`. Whether it succeeds depends on
/// the machine, so nothing is claimed of the result.
#[verifier::external_body]
fn os_rng_new() -> (r: Result<OsRng, std::io::Error>) {
    OsRng::new()
}

/// Draws `len` random bytes.
///
/// Trusted: the body calls `rand::Rng::fill_bytes` for `OsRng` on a buffer of
/// `len` bytes. The contract claims only that the buffer keeps its length;
/// the bytes are whatever the operating system hands out. The call does not
/// return if the operating system fails while handing them out.
#[verifier::external_body]
fn os_rng_fill(rng: &mut OsRng, len: usize) -> (bytes: Vec<u8>)
    ensures
        bytes@.len() == len,
{
    let mut bytes = vec![0u8; len];
    rng.fill_bytes(&mut bytes);
    bytes
}

/// Whether Argon2 is defined, and computed, under `params` with a salt of
/// `salt_len` bytes. The hybrid variant is not computed.
pub open spec fn computable(params: ParameterSet, salt_len: nat) -> bool {
    &&& params.variant != Variant::Argon2id
    &&& cost_accepted(params.passes, params.lanes, params.memory_kb)
    &&& MIN_HASH_LEN <= params.hash_len <= MAX_INPUT_LEN
    &&& MIN_SALT_LEN <= salt_len <= MAX_INPUT_LEN
}

/// The error with which a derivation is refused before anything is computed,
/// if it is refused. It depends on the parameter set and on the lengths of
/// the inputs, not on what they hold, and an oversized key comes first.
pub open spec fn refusal(
    params: ParameterSet,
    secret_len: nat,
    key_len: nat,
    ad_len: nat,
    salt_len: nat,
) -> Option<HashError> {
    if key_len > MAX_KEY_LEN {
        Some(HashError::Input(InputError::KeyTooLong))
    } else if secret_len > MAX_INPUT_LEN || ad_len > MAX_INPUT_LEN {
        Some(HashError::Input(InputError::InputTooLong))
    } else if !computable(params, salt_len) {
        Some(HashError::System(SystemError::ComputeFailure))
    } else {
        None
    }
}

/// The result of a derivation: the refusal if there is one, else the digest.
pub open spec fn spec_derive_hash(
    params: ParameterSet,
    secret: Seq<u8>,
    key: Seq<u8>,
    ad: Seq<u8>,
    salt: Seq<u8>,
) -> Result<Seq<u8>, HashError> {
    match refusal(params, secret.len(), key.len(), ad.len(), salt.len()) {
        Some(e) => Err(e),
        None => Ok(
            argon2_digest(
                params.passes,
                params.lanes,
                params.memory_kb,
                params.variant == Variant::Argon2i,
                params.hash_len,
                secret,
                salt,
                key,
                ad,
            ),
        ),
    }
}

/// A result that holds bytes, seen as a result that holds their sequence.
pub open spec fn bytes_view(r: Result<Vec<u8>, HashError>) -> Result<Seq<u8>, HashError> {
    match r {
        Ok(bytes) => Ok(bytes@),
        Err(e) => Err(e),
    }
}

/// Decides whether a derivation is refused, from the parameter set and the
/// lengths of the inputs.
pub fn check_request(
    params: &ParameterSet,
    secret_len: usize,
    key_len: usize,
    ad_len: usize,
    salt_len: usize,
) -> (refused: Option<HashError>)
    ensures
        refused == refusal(
            *params,
            secret_len as nat,
            key_len as nat,
            ad_len as nat,
            salt_len as nat,
        ),
{
    if key_len > MAX_KEY_LEN {
        return Some(HashError::Input(InputError::KeyTooLong));
    }
    if secret_len > MAX_INPUT_LEN || ad_len > MAX_INPUT_LEN {
        return Some(HashError::Input(InputError::InputTooLong));
    }
    let variant_ok = match params.variant {
        Variant::Argon2i | Variant::Argon2d => true,
        Variant::Argon2id => false,
    };
    let lanes_ok = 1 <= params.lanes && params.lanes <= MAX_LANES;
    let cost_ok = params.passes >= 1 && lanes_ok && params.memory_kb / 8 >= params.lanes;
    let hash_ok = MIN_HASH_LEN <= params.hash_len && params.hash_len <= MAX_INPUT_LEN;
    let salt_ok = MIN_SALT_LEN <= salt_len && salt_len <= MAX_INPUT_LEN;
    if !(variant_ok && cost_ok && hash_ok && salt_ok) {
        return Some(HashError::System(SystemError::ComputeFailure));
    }
    None
}

/// Derives the hash of `secret` under `params` with the given salt. The
/// secret is only read.
pub fn derive_hash(params: &ParameterSet, secret: &[u8], key: &[u8], ad: &[u8], salt: &[u8]) -> (r:
    Result<Vec<u8>, HashError>)
    ensures
        bytes_view(r) == spec_derive_hash(*params, secret@, key@, ad@, salt@),
        r matches Ok(hash) ==> hash@.len() == params.hash_len,
{
    match check_request(params, secret.len(), key.len(), ad.len(), salt.len()) {
        Some(e) => Err(e),
        None => match argon2_hash(
            params.passes,
            params.lanes,
            params.memory_kb,
            matches!(params.variant, Variant::Argon2i),
            params.hash_len,
            secret,
            salt,
            key,
            ad,
        ) {
            Ok(hash) => Ok(hash),
            Err(_) => Err(HashError::System(SystemError::ComputeFailure)),
        },
    }
}

/// Derives the hash of `secret` under `params` with the given salt, then
/// wipes the secret, whether or not a hash was derived.
pub fn recompute(
    params: &ParameterSet,
    secret: &mut SecureBuffer,
    key: &[u8],
    ad: &[u8],
    salt: &[u8],
) -> (r: Result<Vec<u8>, HashError>)
    ensures
        bytes_view(r) == spec_derive_hash(*params, old(secret)@, key@, ad@, salt@),
        r matches Ok(hash) ==> hash@.len() == params.hash_len,
        final(secret)@ == zeros(old(secret)@.len()),
{
    let r = derive_hash(params, secret.as_slice(), key, ad, salt);
    secret.wipe();
    r
}

/// Draws `len` bytes from the operating system's random number generator.
/// Whether it succeeds is up to the machine; when it does, the salt has the
/// length asked for.
pub fn fresh_salt(len: usize) -> (r: Result<Vec<u8>, SystemError>)
    ensures
        r matches Ok(salt) ==> salt@.len() == len,
        r matches Err(e) ==> e == SystemError::EntropyUnavailable,
{
    match os_rng_new() {
        Ok(mut rng) => Ok(os_rng_fill(&mut rng, len)),
        Err(_) => Err(SystemError::EntropyUnavailable),
    }
}

/// Whether `r` is a possible result of deriving a hash of `secret` under a
/// fresh salt: the refusal if the request is refused; else either the
/// failure to draw a salt, or a salt of the set's length with the digest
/// under that salt.
pub open spec fn is_fresh_derivation(
    r: Result<(Vec<u8>, Vec<u8>), HashError>,
    params: ParameterSet,
    secret: Seq<u8>,
    key: Seq<u8>,
    ad: Seq<u8>,
) -> bool {
    match refusal(params, secret.len(), key.len(), ad.len(), params.salt_len as nat) {
        Some(e) => r == Err::<(Vec<u8>, Vec<u8>), _>(e),
        None => match r {
            Ok((salt, hash)) => {
                &&& salt@.len() == params.salt_len
                &&& hash@.len() == params.hash_len
                &&& spec_derive_hash(params, secret, key, ad, salt@) == Ok::<_, HashError>(hash@)
            },
            Err(e) => e == HashError::System(SystemError::EntropyUnavailable),
        },
    }
}

/// Draws a fresh salt of the set's length and derives the hash of `secret`
/// under it, then wipes the secret. A request that is refused is refused
/// before a salt is drawn; the secret is wiped all the same.
pub fn derive_new(params: &ParameterSet, secret: &mut SecureBuffer, key: &[u8], ad: &[u8]) -> (r:
    Result<(Vec<u8>, Vec<u8>), HashError>)
    ensures
        is_fresh_derivation(r, *params, old(secret)@, key@, ad@),
        final(secret)@ == zeros(old(secret)@.len()),
{
    let refused = check_request(params, secret.len(), key.len(), ad.len(), params.salt_len);
    if let Some(e) = refused {
        secret.wipe();
        return Err(e);
    }
    match fresh_salt(params.salt_len) {
        Err(e) => {
            secret.wipe();
            Err(HashError::System(e))
        },
        Ok(salt) => match recompute(params, secret, key, ad, salt.as_slice()) {
            Ok(hash) => Ok((salt, hash)),
            Err(e) => Err(e),
        },
    }
}

} // verus!

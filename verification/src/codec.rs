//! The binary formats exchanged with clients.
//!
//! A record is a two-byte version tag in big-endian order, then the salt,
//! then the hash, with nothing in between: the lengths are those of the
//! parameter set that the version names. The body of a verification request
//! is a record followed by the raw secret, which runs to the end of the body.

use vstd::prelude::*;
use vstd::slice::slice_subrange;

use byteorder::BigEndian;
use byteorder::ReadBytesExt;

use crate::error::InputError;
use crate::params::ParameterRegistry;
use crate::params::ParameterSet;

verus! {

/// The length of the version tag, in bytes.
pub const TAG_LEN: usize = 2;

/// The number whose big-endian encoding is `hi`, `lo`.
pub open spec fn spec_be_u16(hi: u8, lo: u8) -> u16 {
    (hi as int * 256 + lo as int) as u16
}

/// The big-endian encoding of `version`.
pub open spec fn spec_version_tag(version: u16) -> Seq<u8> {
    seq![(version / 256) as u8, (version % 256) as u8]
}

/// The record of `salt` and `hash` under `version`.
pub open spec fn spec_encode_record(version: u16, salt: Seq<u8>, hash: Seq<u8>) -> Seq<u8> {
    spec_version_tag(version) + salt + hash
}

/// What a record holds, with its salt and hash as sequences.
pub struct HashRecordView {
    pub version: u16,
    pub salt: Seq<u8>,
    pub hash: Seq<u8>,
}

/// A record: the salt drawn for a secret and the hash derived under it, with
/// the version of the parameter set that both were made under.
#[derive(Debug)]
pub struct HashRecord {
    pub version: u16,
    pub salt: Vec<u8>,
    pub hash: Vec<u8>,
}

impl View for HashRecord {
    type V = HashRecordView;

    open spec fn view(&self) -> HashRecordView {
        HashRecordView { version: self.version, salt: self.salt@, hash: self.hash@ }
    }
}

impl HashRecord {
    /// The bytes that go to the client.
    pub fn encode(&self) -> (bytes: Vec<u8>)
        ensures
            bytes@ == spec_encode_record(self@.version, self@.salt, self@.hash),
    {
        encode_record(self.version, self.salt.as_slice(), self.hash.as_slice())
    }
}

/// The parts of a verification request, as sequences.
pub struct VerifyRequestView {
    pub params: ParameterSet,
    pub salt: Seq<u8>,
    pub hash: Seq<u8>,
    pub secret: Seq<u8>,
}

/// The parts of a verification request, borrowed from its body.
#[derive(Debug)]
pub struct VerifyRequest<'a> {
    /// The parameter set that the version tag names.
    pub params: ParameterSet,
    pub salt: &'a [u8],
    /// The hash that the client holds for the secret.
    pub hash: &'a [u8],
    pub secret: &'a [u8],
}

impl<'a> View for VerifyRequest<'a> {
    type V = VerifyRequestView;

    open spec fn view(&self) -> VerifyRequestView {
        VerifyRequestView {
            params: self.params,
            salt: self.salt@,
            hash: self.hash@,
            secret: self.secret@,
        }
    }
}

/// What a body decodes to against the registered sets in `table`.
///
/// A body too short to hold a version tag is refused like one whose tag
/// names no set. A body that names a set holds that set's salt and hash, and
/// all that follows them is the secret.
pub open spec fn spec_decode(table: Map<u16, ParameterSet>, body: Seq<u8>) -> Result<
    VerifyRequestView,
    InputError,
> {
    if body.len() < TAG_LEN {
        Err(InputError::UnsupportedVersion)
    } else if !table.dom().contains(spec_be_u16(body[0], body[1])) {
        Err(InputError::UnsupportedVersion)
    } else {
        let params = table[spec_be_u16(body[0], body[1])];
        let salt_end = TAG_LEN + params.salt_len;
        let hash_end = salt_end + params.hash_len;
        if body.len() < hash_end {
            Err(InputError::TruncatedBody)
        } else {
            Ok(
                VerifyRequestView {
                    params,
                    salt: body.subrange(TAG_LEN as int, salt_end),
                    hash: body.subrange(salt_end, hash_end),
                    secret: body.subrange(hash_end, body.len() as int),
                },
            )
        }
    }
}

/// A decoded request, seen through the views of its parts.
pub open spec fn request_view(r: Result<VerifyRequest<'_>, InputError>) -> Result<
    VerifyRequestView,
    InputError,
> {
    match r {
        Ok(request) => Ok(request@),
        Err(e) => Err(e),
    }
}

/// Reads the version tag at the start of `body`.
///
/// Trusted: the body calls `byteorder::ReadBytesExt::read_u16` with
/// `BigEndian` on the slice as a reader. The contract claims what that
/// function's source shows: it reads exactly two bytes, fails if the reader
/// ends before them, and else returns the first byte times 256 plus the
/// second.
#[verifier::external_body]
fn read_version(body: &[u8]) -> (r: Result<u16, std::io::Error>)
    ensures
        r is Ok <==> body@.len() >= TAG_LEN,
        r matches Ok(version) ==> version == spec_be_u16(body@[0], body@[1]),
{
    let mut reader = body;
    reader.read_u16::<BigEndian>()
}

/// Encodes the record of `salt` and `hash` under `version`.
pub fn encode_record(version: u16, salt: &[u8], hash: &[u8]) -> (record: Vec<u8>)
    ensures
        record@ == spec_encode_record(version, salt@, hash@),
{
    let mut record: Vec<u8> = Vec::new();
    record.push((version / 256) as u8);
    record.push((version % 256) as u8);
    record.extend_from_slice(salt);
    record.extend_from_slice(hash);
    assert(record@ =~= spec_encode_record(version, salt@, hash@));
    record
}

/// Decodes the body of a verification request against `registry`.
pub fn decode_verify_request<'a>(registry: &ParameterRegistry, body: &'a [u8]) -> (r: Result<
    VerifyRequest<'a>,
    InputError,
>)
    requires
        registry.wf(),
    ensures
        request_view(r) == spec_decode(registry.table(), body@),
{
    let version = match read_version(body) {
        Ok(version) => version,
        Err(_) => {
            return Err(InputError::UnsupportedVersion);
        },
    };
    let params = match registry.lookup(version) {
        Some(params) => params,
        None => {
            return Err(InputError::UnsupportedVersion);
        },
    };
    let rest = body.len() - TAG_LEN;
    if rest < params.salt_len || rest - params.salt_len < params.hash_len {
        return Err(InputError::TruncatedBody);
    }
    let salt_end = TAG_LEN + params.salt_len;
    let hash_end = salt_end + params.hash_len;
    Ok(
        VerifyRequest {
            params,
            salt: slice_subrange(body, TAG_LEN, salt_end),
            hash: slice_subrange(body, salt_end, hash_end),
            secret: slice_subrange(body, hash_end, body.len()),
        },
    )
}

/// The version tag reads back as the version it encodes.
pub proof fn lemma_version_tag(version: u16)
    ensures
        spec_version_tag(version).len() == TAG_LEN,
        spec_be_u16(spec_version_tag(version)[0], spec_version_tag(version)[1]) == version,
{
}

/// Decoding inverts encoding: a record made under a registered set, with a
/// salt and a hash of that set's lengths, followed by any secret, decodes to
/// that set, salt, hash and secret.
pub proof fn lemma_decode_encode(
    table: Map<u16, ParameterSet>,
    params: ParameterSet,
    salt: Seq<u8>,
    hash: Seq<u8>,
    secret: Seq<u8>,
)
    requires
        table.dom().contains(params.version),
        table[params.version] == params,
        salt.len() == params.salt_len,
        hash.len() == params.hash_len,
    ensures
        spec_decode(table, spec_encode_record(params.version, salt, hash) + secret) == Ok::<
            _,
            InputError,
        >(VerifyRequestView { params, salt, hash, secret }),
{
    let body = spec_encode_record(params.version, salt, hash) + secret;
    lemma_version_tag(params.version);
    let salt_end = TAG_LEN + params.salt_len;
    let hash_end = salt_end + params.hash_len;
    assert(body[0] == spec_version_tag(params.version)[0]);
    assert(body[1] == spec_version_tag(params.version)[1]);
    assert(body.subrange(TAG_LEN as int, salt_end) =~= salt);
    assert(body.subrange(salt_end, hash_end) =~= hash);
    assert(body.subrange(hash_end, body.len() as int) =~= secret);
}

} // verus!

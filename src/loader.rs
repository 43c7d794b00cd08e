//! The package container: a fixed header, a metadata block and the guest
//! module's bytes.
//!
//! | offset | size | field                                      |
//! |--------|------|--------------------------------------------|
//! | 0      | 4    | magic tag `WAPP`                           |
//! | 4      | 4    | format version, little-endian (1)          |
//! | 8      | 4    | metadata block length N, little-endian     |
//! | 12     | N    | metadata block (see `metadata`)            |
//! | 12 + N | rest | WebAssembly module, starting with `\0asm`  |
use vstd::prelude::*;
use vstd::utf8::{valid_utf8, decode_utf8, encode_utf8};
use vstd::string::StringSliceAdditionalSpecFns;
use vstd::slice::{slice_subrange, slice_to_vec};
use crate::metadata::{Scanner, parse_fields, encode_fields, encode_metadata_block, lemma_fields_round_trip};

verus! {

/// Magic tag at the start of every package: `WAPP`.
pub const WAPP_MAGIC: [u8; 4] = [0x57, 0x41, 0x50, 0x50];

/// The one format version this host reads.
pub const WAPP_VERSION: u32 = 0x01;

/// Length of the fixed header: magic, version, metadata length.
pub const HEADER_LEN: usize = 12;

/// Why a package was refused.
#[derive(PartialEq, Eq, Structural, Clone, Copy, Debug)]
pub enum LoadError {
    /// Shorter than the fixed header.
    TruncatedHeader,
    /// The magic tag is not `WAPP`.
    BadMagic,
    /// The format version is not the one this host reads.
    UnsupportedVersion,
    /// The metadata block reaches past the end of the package.
    TruncatedMetadata,
    /// The metadata block is not a metadata object of UTF-8 strings.
    InvalidMetadata,
    /// The payload does not start with the WebAssembly magic.
    InvalidPayload,
}

/// Metadata of a package.
#[derive(Debug, Clone, Default)]
pub struct WappMetadata {
    /// Application name.
    pub name: String,
    /// Application description.
    pub description: String,
}

/// Bytes of the magic tag `WAPP`.
pub open spec fn wapp_magic() -> Seq<u8> {
    seq![0x57u8, 0x41u8, 0x50u8, 0x50u8]
}

/// Bytes of the WebAssembly magic `\0asm`.
pub open spec fn wasm_magic() -> Seq<u8> {
    seq![0x00u8, 0x61u8, 0x73u8, 0x6du8]
}

/// The little-endian integer in the four bytes of `b` at `i`.
pub open spec fn le_u32(b: Seq<u8>, i: int) -> int {
    b[i] + b[i + 1] * 256 + b[i + 2] * 65536 + b[i + 3] * 16777216
}

/// The four little-endian bytes of `n`.
pub open spec fn le_bytes(n: u32) -> Seq<u8> {
    seq![
        (n % 256) as u8,
        ((n / 256) % 256) as u8,
        ((n / 65536) % 256) as u8,
        (n / 16777216) as u8,
    ]
}

/// The name and description held by a metadata block, as text.
pub open spec fn parse_metadata(block: Seq<u8>) -> Option<(Seq<char>, Seq<char>)> {
    match parse_fields(block) {
        Some((n, d)) => if valid_utf8(n) && valid_utf8(d) {
            Some((decode_utf8(n), decode_utf8(d)))
        } else {
            None
        },
        None => None,
    }
}

/// Whether `payload` starts with the WebAssembly magic.
pub open spec fn is_wasm_payload(payload: Seq<u8>) -> bool {
    payload.len() >= 4 && payload.subrange(0, 4) == wasm_magic()
}

/// What loading the package `data` gives: the payload, the name and the
/// description, or the first check that fails, in the order of the layout.
pub open spec fn load_spec(data: Seq<u8>) -> Result<(Seq<u8>, Seq<char>, Seq<char>), LoadError> {
    if data.len() < 12 {
        Err(LoadError::TruncatedHeader)
    } else if data.subrange(0, 4) != wapp_magic() {
        Err(LoadError::BadMagic)
    } else if le_u32(data, 4) != 1 {
        Err(LoadError::UnsupportedVersion)
    } else if 12 + le_u32(data, 8) > data.len() {
        Err(LoadError::TruncatedMetadata)
    } else {
        let n = le_u32(data, 8);
        match parse_metadata(data.subrange(12, 12 + n)) {
            None => Err(LoadError::InvalidMetadata),
            Some((name, description)) => {
                let payload = data.subrange(12 + n, data.len() as int);
                if is_wasm_payload(payload) {
                    Ok((payload, name, description))
                } else {
                    Err(LoadError::InvalidPayload)
                }
            },
        }
    }
}

/// The abstract value of what loading returned.
pub open spec fn loaded_view(r: Result<(Vec<u8>, WappMetadata), LoadError>) -> Result<
    (Seq<u8>, Seq<char>, Seq<char>),
    LoadError,
> {
    match r {
        Ok((payload, meta)) => Ok((payload@, meta.name@, meta.description@)),
        Err(e) => Err(e),
    }
}

/// The package made of a metadata block and a payload.
pub open spec fn container_bytes(block: Seq<u8>, payload: Seq<u8>) -> Seq<u8> {
    wapp_magic() + le_bytes(1) + le_bytes(block.len() as u32) + block + payload
}

/// The metadata block written for a name and a description.
pub open spec fn metadata_block(name: Seq<char>, description: Seq<char>) -> Seq<u8> {
    encode_fields(encode_utf8(name), encode_utf8(description))
}

/// Relies on `String::from_utf8`: it succeeds exactly on valid UTF-8 and then
/// holds the characters that the bytes encode.
#[verifier::external_body]
fn string_from_utf8(bytes: Vec<u8>) -> (r: Option<String>)
    ensures
        r is Some <==> valid_utf8(bytes@),
        r matches Some(s) ==> s@ == decode_utf8(bytes@),
{
    String::from_utf8(bytes).ok()
}

fn read_le_u32(b: &[u8], i: usize) -> (r: u32)
    requires
        i + 4 <= b@.len(),
    ensures
        r == le_u32(b@, i as int),
{
    (b[i] as u32) + (b[i + 1] as u32) * 256 + (b[i + 2] as u32) * 65536 + (b[i + 3] as u32)
        * 16777216
}

fn push_le_u32(out: &mut Vec<u8>, n: u32)
    ensures
        final(out)@ == old(out)@ + le_bytes(n),
{
    out.push((n % 256) as u8);
    out.push(((n / 256) % 256) as u8);
    out.push(((n / 65536) % 256) as u8);
    out.push((n / 16777216) as u8);
    assert(final(out)@ =~= old(out)@ + le_bytes(n));
}

proof fn lemma_le_round_trip(n: u32)
    ensures
        le_u32(le_bytes(n), 0) == n,
{
    let b = le_bytes(n);
    assert(b[0] == n % 256);
    assert(b[1] == (n / 256) % 256);
    assert(b[2] == (n / 65536) % 256);
    assert(b[3] == n / 16777216);
    assert((n % 256) + ((n / 256) % 256) * 256 + ((n / 65536) % 256) * 65536 + (n / 16777216)
        * 16777216 == n) by (nonlinear_arith);
}

/// Load a package from its bytes: the guest module's bytes and the metadata,
/// or the first check that fails.
pub fn load_wapp(data: &[u8]) -> (r: Result<(Vec<u8>, WappMetadata), LoadError>)
    ensures
        loaded_view(r) == load_spec(data@),
{
    let len = data.len();
    if len < HEADER_LEN {
        return Err(LoadError::TruncatedHeader);
    }
    if !(data[0] == 0x57 && data[1] == 0x41 && data[2] == 0x50 && data[3] == 0x50) {
        assert(data@.subrange(0, 4) != wapp_magic()) by {
            if data@.subrange(0, 4) == wapp_magic() {
                assert(data@.subrange(0, 4)[1] == data@[1]);
            }
        }
        return Err(LoadError::BadMagic);
    }
    assert(data@.subrange(0, 4) =~= wapp_magic());
    if read_le_u32(data, 4) != WAPP_VERSION {
        return Err(LoadError::UnsupportedVersion);
    }
    let n = read_le_u32(data, 8) as usize;
    if n > len - HEADER_LEN {
        return Err(LoadError::TruncatedMetadata);
    }
    let end = HEADER_LEN + n;
    let mut scanner = Scanner::new();
    scanner.feed(data, HEADER_LEN, end);
    if !scanner.is_done() {
        return Err(LoadError::InvalidMetadata);
    }
    let (name_bytes, description_bytes) = scanner.into_fields();
    let name = match string_from_utf8(name_bytes) {
        Some(s) => s,
        None => {
            return Err(LoadError::InvalidMetadata);
        },
    };
    let description = match string_from_utf8(description_bytes) {
        Some(s) => s,
        None => {
            return Err(LoadError::InvalidMetadata);
        },
    };
    let payload = slice_to_vec(slice_subrange(data, end, len));
    if !(payload.len() >= 4 && payload[0] == 0x00 && payload[1] == 0x61 && payload[2] == 0x73
        && payload[3] == 0x6d) {
        assert(!is_wasm_payload(payload@)) by {
            if is_wasm_payload(payload@) {
                assert(payload@.subrange(0, 4)[1] == payload@[1]);
            }
        }
        return Err(LoadError::InvalidPayload);
    }
    assert(payload@.subrange(0, 4) =~= wasm_magic());
    Ok((payload, WappMetadata { name, description }))
}

/// Write a package holding `meta` and `payload`; `None` when the metadata
/// block would not fit its 32-bit length field.
pub fn write_wapp(meta: &WappMetadata, payload: &[u8]) -> (r: Option<Vec<u8>>)
    ensures
        r is Some <==> metadata_block(meta.name@, meta.description@).len() <= u32::MAX,
        r matches Some(bytes) ==> bytes@ == container_bytes(
            metadata_block(meta.name@, meta.description@),
            payload@,
        ),
{
    let block = encode_metadata_block(meta.name.as_str().as_bytes(), meta.description.as_str().as_bytes());
    if block.len() > 0xffff_ffffusize {
        return None;
    }
    let mut out: Vec<u8> = Vec::new();
    out.push(0x57);
    out.push(0x41);
    out.push(0x50);
    out.push(0x50);
    push_le_u32(&mut out, WAPP_VERSION);
    push_le_u32(&mut out, block.len() as u32);
    out.extend_from_slice(block.as_slice());
    out.extend_from_slice(payload);
    assert(out@ =~= container_bytes(metadata_block(meta.name@, meta.description@), payload@));
    Some(out)
}

/// A package shorter than the fixed header is refused as truncated,
/// whatever its bytes.
pub proof fn lemma_short_package_is_truncated(data: Seq<u8>)
    requires
        data.len() < 12,
    ensures
        load_spec(data) == Err::<(Seq<u8>, Seq<char>, Seq<char>), _>(LoadError::TruncatedHeader),
{
}

/// A package with a valid magic and version whose metadata length `N` has
/// `12 + N` past the end of the package is refused as truncated metadata.
pub proof fn lemma_long_metadata_is_truncated(data: Seq<u8>)
    requires
        data.len() >= 12,
        data.subrange(0, 4) == wapp_magic(),
        le_u32(data, 4) == 1,
        12 + le_u32(data, 8) > data.len(),
    ensures
        load_spec(data) == Err::<(Seq<u8>, Seq<char>, Seq<char>), _>(LoadError::TruncatedMetadata),
{
}

/// Writing a package and loading it back gives the same payload and
/// metadata, for every payload that starts with the WebAssembly magic and
/// every metadata whose block fits its 32-bit length field.
pub proof fn lemma_container_round_trip(name: Seq<char>, description: Seq<char>, payload: Seq<u8>)
    requires
        is_wasm_payload(payload),
        metadata_block(name, description).len() <= u32::MAX,
    ensures
        load_spec(container_bytes(metadata_block(name, description), payload)) == Ok::<_, LoadError>(
            (payload, name, description),
        ),
{
    let block = metadata_block(name, description);
    let data = container_bytes(block, payload);
    let n = block.len() as u32;
    lemma_le_round_trip(1);
    lemma_le_round_trip(n);
    assert(data.subrange(0, 4) =~= wapp_magic());
    assert(le_u32(data, 4) == le_u32(le_bytes(1), 0));
    assert(le_u32(data, 8) == le_u32(le_bytes(n), 0));
    assert(data.subrange(12, 12 + n) =~= block);
    assert(data.subrange(12 + n, data.len() as int) =~= payload);
    lemma_fields_round_trip(encode_utf8(name), encode_utf8(description));
    vstd::utf8::encode_utf8_valid_utf8(name);
    vstd::utf8::encode_utf8_valid_utf8(description);
    vstd::utf8::encode_utf8_decode_utf8(name);
    vstd::utf8::encode_utf8_decode_utf8(description);
}

} // verus!

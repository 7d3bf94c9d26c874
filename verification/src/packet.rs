//! Packets that a server writes before any connection state exists: version
//! negotiation and stateless retry.

use rand_core::RngCore;
use vstd::prelude::*;

use crate::error::Error;
use crate::octets::{be32, lemma_u32_roundtrip, put_bytes, put_u32, u32_be, write_prefix};

verus! {

/// The current QUIC wire version.
pub const PROTOCOL_VERSION: u32 = PROTOCOL_VERSION_DRAFT25;

/// The QUIC wire versions of drafts 25, 24 and 23.
pub const PROTOCOL_VERSION_DRAFT25: u32 = 0xff00_0019;

pub const PROTOCOL_VERSION_DRAFT24: u32 = 0xff00_0018;

pub const PROTOCOL_VERSION_DRAFT23: u32 = 0xff00_0017;

/// The maximum length of a connection ID.
pub const MAX_CONN_ID_LEN: usize = 20;

/// The minimum length of Initial packets sent by a client.
pub const MIN_CLIENT_INITIAL_LEN: usize = 1200;

/// The bit of the first byte that marks a long header.
pub const FORM_BIT: u8 = 0x80;

/// The versions that this endpoint speaks.
pub open spec fn is_supported_version(version: u32) -> bool {
    version == PROTOCOL_VERSION_DRAFT25 || version == PROTOCOL_VERSION_DRAFT24 || version
        == PROTOCOL_VERSION_DRAFT23
}

/// Exactly three versions are supported: 0xff000019 (draft 25, the
/// current one), 0xff000018 (draft 24) and 0xff000017 (draft 23).
pub proof fn lemma_supported_versions(v: u32)
    ensures
        is_supported_version(v) <==> (v == 0xff00_0019u32 || v == 0xff00_0018u32 || v
            == 0xff00_0017u32),
        PROTOCOL_VERSION == 0xff00_0019u32,
{
}

/// Returns true if the given protocol version is supported.
pub fn version_is_supported(version: u32) -> (res: bool)
    ensures
        res == is_supported_version(version),
{
    version == PROTOCOL_VERSION_DRAFT25 || version == PROTOCOL_VERSION_DRAFT24 || version
        == PROTOCOL_VERSION_DRAFT23
}

/// A version negotiation packet with first byte `first`: the long header
/// form bit set in `first`, version 0, the connection IDs (each after its
/// length in one byte; `scid` first, as the destination of the reply), then
/// the supported versions.
pub open spec fn version_negotiation_bytes(first: u8, scid: Seq<u8>, dcid: Seq<u8>) -> Seq<u8> {
    seq![first | FORM_BIT] + u32_be(0) + seq![scid.len() as u8] + scid + seq![dcid.len() as u8]
        + dcid + u32_be(PROTOCOL_VERSION_DRAFT25) + u32_be(PROTOCOL_VERSION_DRAFT24) + u32_be(
        PROTOCOL_VERSION_DRAFT23,
    )
}

/// The size of a version negotiation packet for these connection IDs.
pub open spec fn version_negotiation_len(scid: Seq<u8>, dcid: Seq<u8>) -> nat {
    19 + scid.len() + dcid.len()
}

/// Writes a version negotiation packet whose first byte is `first` with the
/// long header bit set. Returns its length, or `BufferTooShort`, leaving
/// `out` as it was, when it does not fit in `out`.
pub fn write_version_negotiation(first: u8, scid: &[u8], dcid: &[u8], out: &mut [u8]) -> (res:
    Result<usize, Error>)
    ensures
        match res {
            Ok(n) => n == version_negotiation_len(scid@, dcid@) && n <= old(out)@.len()
                && final(out)@ == version_negotiation_bytes(first, scid@, dcid@) + old(
                out,
            )@.skip(n as int),
            Err(e) => e == Error::BufferTooShort && old(out)@.len() < version_negotiation_len(
                scid@,
                dcid@,
            ) && final(out)@ == old(out)@,
        },
{
    let mut b: Vec<u8> = Vec::new();
    b.push(first | FORM_BIT);
    put_u32(&mut b, 0);
    b.push(scid.len() as u8);
    put_bytes(&mut b, scid);
    b.push(dcid.len() as u8);
    put_bytes(&mut b, dcid);
    put_u32(&mut b, PROTOCOL_VERSION_DRAFT25);
    put_u32(&mut b, PROTOCOL_VERSION_DRAFT24);
    put_u32(&mut b, PROTOCOL_VERSION_DRAFT23);
    assert(b@ =~= version_negotiation_bytes(first, scid@, dcid@));
    write_prefix(out, b.as_slice())
}

/// A version negotiation packet is a long header packet of version 0, and
/// every version that it advertises after the connection IDs is one that
/// `version_is_supported` accepts, the current version first.
pub proof fn lemma_version_negotiation_advertises_supported(first: u8, scid: Seq<u8>, dcid: Seq<u8>)
    ensures
        ({
            let pkt = version_negotiation_bytes(first, scid, dcid);
            let off = 7 + scid.len() + dcid.len() as int;
            &&& pkt.len() == version_negotiation_len(scid, dcid)
            &&& pkt[0] & FORM_BIT == FORM_BIT
            &&& be32(pkt.subrange(1, 5)) == 0
            &&& be32(pkt.subrange(off, off + 4)) == PROTOCOL_VERSION
            &&& forall|k: int|
                0 <= k < 3 ==> is_supported_version(#[trigger] be32(pkt.subrange(off + 4 * k, off + 4 * k + 4)))
        }),
{
    let pkt = version_negotiation_bytes(first, scid, dcid);
    let off = 7 + scid.len() + dcid.len() as int;
    assert((first | 0x80u8) & 0x80u8 == 0x80u8) by (bit_vector);
    lemma_u32_roundtrip(0);
    lemma_u32_roundtrip(PROTOCOL_VERSION_DRAFT25);
    lemma_u32_roundtrip(PROTOCOL_VERSION_DRAFT24);
    lemma_u32_roundtrip(PROTOCOL_VERSION_DRAFT23);
    assert(pkt.subrange(1, 5) =~= u32_be(0));
    assert(pkt.subrange(off, off + 4) =~= u32_be(PROTOCOL_VERSION_DRAFT25));
    assert(pkt.subrange(off + 4, off + 8) =~= u32_be(PROTOCOL_VERSION_DRAFT24));
    assert(pkt.subrange(off + 8, off + 12) =~= u32_be(PROTOCOL_VERSION_DRAFT23));
    assert forall|k: int| 0 <= k < 3 implies is_supported_version(
        #[trigger] be32(pkt.subrange(off + 4 * k, off + 4 * k + 4)),
    ) by {
        if k == 0 {
        } else if k == 1 {
        } else {
        }
    }
}

/// One byte from the operating system's random source, through
/// `rand_core::OsRng::try_fill_bytes`, or `None` when the source fails.
/// Nothing is stated of the byte, which is random.
#[verifier::external_body]
fn random_byte() -> (res: Option<u8>) {
    let mut b = [0u8; 1];
    match rand_core::OsRng.try_fill_bytes(&mut b) {
        Ok(()) => Some(b[0]),
        Err(_) => None,
    }
}

/// Writes a version negotiation packet.
///
/// The `scid` and `dcid` parameters are the source connection ID and the
/// destination connection ID extracted from the received client's Initial
/// packet that advertises an unsupported version. The low bits of the first
/// byte are random. Returns the packet's length, `BufferTooShort` when it
/// does not fit in `out`, or `CryptoFail` when no random byte could be had;
/// on an error `out` is left as it was.
pub fn negotiate_version(scid: &[u8], dcid: &[u8], out: &mut [u8]) -> (res: Result<usize, Error>)
    ensures
        match res {
            Ok(n) => n == version_negotiation_len(scid@, dcid@) && n <= old(out)@.len()
                && final(out)@[0] & FORM_BIT == FORM_BIT && final(out)@ == version_negotiation_bytes(
                final(out)@[0],
                scid@,
                dcid@,
            ) + old(out)@.skip(n as int),
            Err(e) => (e == Error::BufferTooShort <==> old(out)@.len()
                < version_negotiation_len(scid@, dcid@)) && (e == Error::BufferTooShort
                || e == Error::CryptoFail) && final(out)@ == old(out)@,
        },
{
    if out.len() < 19 || out.len() - 19 < scid.len() || out.len() - 19 - scid.len() < dcid.len() {
        return Err(Error::BufferTooShort);
    }
    let first = match random_byte() {
        Some(b) => b,
        None => return Err(Error::CryptoFail),
    };
    let res = write_version_negotiation(first, scid, dcid, out);
    if let Ok(n) = res {
        let f = first | FORM_BIT;
        assert(f & FORM_BIT == FORM_BIT && f | FORM_BIT == f) by (bit_vector)
            requires
                f == first | 0x80u8,
        ;
        assert(final(out)@[0] == f);
        assert(version_negotiation_bytes(f, scid@, dcid@) =~= version_negotiation_bytes(
            first,
            scid@,
            dcid@,
        ));
    }
    res
}

/// The header of a Retry packet: the first byte (long header, Retry type),
/// the current version, the destination and source connection IDs (each
/// after its length in one byte), then the token.
pub open spec fn retry_header_bytes(dcid: Seq<u8>, scid: Seq<u8>, token: Seq<u8>) -> Seq<u8> {
    seq![0xf0u8] + u32_be(PROTOCOL_VERSION) + seq![dcid.len() as u8] + dcid + seq![
        scid.len() as u8,
    ] + scid + token
}

/// The data that the Retry integrity tag authenticates: the original
/// destination connection ID after its length in one byte, then the Retry
/// packet's header.
pub open spec fn retry_pseudo_packet(odcid: Seq<u8>, header: Seq<u8>) -> Seq<u8> {
    seq![odcid.len() as u8] + odcid + header
}

/// The key of the Retry integrity tag.
pub open spec fn retry_integrity_key() -> Seq<u8> {
    seq![
        0x4du8,
        0x32u8,
        0xecu8,
        0xdbu8,
        0x2au8,
        0x21u8,
        0x33u8,
        0xc8u8,
        0x41u8,
        0xe4u8,
        0x04u8,
        0x3du8,
        0xf2u8,
        0x7du8,
        0x44u8,
        0x30u8,
    ]
}

/// The nonce of the Retry integrity tag.
pub open spec fn retry_integrity_nonce() -> Seq<u8> {
    seq![
        0x4du8,
        0x16u8,
        0x11u8,
        0xd0u8,
        0x55u8,
        0x13u8,
        0xa5u8,
        0x52u8,
        0xc5u8,
        0x87u8,
        0xd5u8,
        0x75u8,
    ]
}

/// The AES-128-GCM authentication tag of an empty message with additional
/// data `aad`, under `key` and `nonce`.
pub uninterp spec fn aes128_gcm_tag(key: Seq<u8>, nonce: Seq<u8>, aad: Seq<u8>) -> Seq<u8>;

/// The Retry integrity tag of a Retry packet with header `header`, sent in
/// reply to a packet whose destination connection ID was `odcid`.
pub open spec fn retry_integrity_tag(odcid: Seq<u8>, header: Seq<u8>) -> Seq<u8> {
    aes128_gcm_tag(retry_integrity_key(), retry_integrity_nonce(), retry_pseudo_packet(odcid, header))
}

/// Seals an empty message with AES-128-GCM through `ring::aead`
/// (`UnboundKey::new` with `AES_128_GCM`, then
/// `LessSafeKey::seal_in_place_separate_tag`) and returns the tag. Stated:
/// the call succeeds, and the tag has 16 bytes and is `aes128_gcm_tag` of
/// the key, nonce and additional data. Ring refuses a key only for a length
/// other than 16 bytes, which the key's type rules out, and a seal only for
/// a message past its input limit, which an empty one never reaches.
#[verifier::external_body]
fn aes128_gcm_seal_empty(key: &[u8; 16], nonce: [u8; 12], aad: &[u8]) -> (res: Result<
    Vec<u8>,
    ring::error::Unspecified,
>)
    ensures
        res is Ok,
        res matches Ok(t) ==> t@ == aes128_gcm_tag(key@, nonce@, aad@) && t@.len() == 16,
{
    let unbound = ring::aead::UnboundKey::new(&ring::aead::AES_128_GCM, key)?;
    let key = ring::aead::LessSafeKey::new(unbound);
    let nonce = ring::aead::Nonce::assume_unique_for_key(nonce);
    let tag = key.seal_in_place_separate_tag(nonce, ring::aead::Aad::from(aad), &mut [])?;
    Ok(tag.as_ref().to_vec())
}

/// The header of a Retry packet that echoes the client's `scid` as its
/// destination and gives `new_scid` as the server's new source ID.
fn retry_header(scid: &[u8], new_scid: &[u8], token: &[u8]) -> (b: Vec<u8>)
    ensures
        b@ == retry_header_bytes(scid@, new_scid@, token@),
{
    let mut b: Vec<u8> = Vec::new();
    b.push(0xf0u8);
    put_u32(&mut b, PROTOCOL_VERSION);
    b.push(scid.len() as u8);
    put_bytes(&mut b, scid);
    b.push(new_scid.len() as u8);
    put_bytes(&mut b, new_scid);
    put_bytes(&mut b, token);
    assert(b@ =~= retry_header_bytes(scid@, new_scid@, token@));
    b
}

/// Writes a Retry packet whose integrity tag is `tag`: the header for
/// `scid`, `new_scid` and `token`, then the tag. Returns its length, or
/// `BufferTooShort`, leaving `out` as it was, when it does not fit.
pub fn write_retry(scid: &[u8], new_scid: &[u8], token: &[u8], tag: &[u8], out: &mut [u8]) -> (res:
    Result<usize, Error>)
    ensures
        ({
            let pkt = retry_header_bytes(scid@, new_scid@, token@) + tag@;
            match res {
                Ok(n) => n == pkt.len() && n <= old(out)@.len() && final(out)@ == pkt + old(
                    out,
                )@.skip(n as int),
                Err(e) => e == Error::BufferTooShort && old(out)@.len() < pkt.len() && final(out)@
                    == old(out)@,
            }
        }),
{
    let mut b = retry_header(scid, new_scid, token);
    put_bytes(&mut b, tag);
    write_prefix(out, b.as_slice())
}

/// Writes a stateless retry packet.
///
/// The `scid` and `dcid` parameters are the source connection ID and the
/// destination connection ID extracted from the received client's Initial
/// packet, while `new_scid` is the server's new source connection ID and
/// `token` is the address validation token the client needs to echo back.
/// The packet ends with the integrity tag computed over `dcid` and the
/// header. Returns the packet's length, or `BufferTooShort`, leaving `out`
/// as it was, when the packet does not fit in `out`.
pub fn retry(scid: &[u8], dcid: &[u8], new_scid: &[u8], token: &[u8], out: &mut [u8]) -> (res:
    Result<usize, Error>)
    ensures
        ({
            let hdr = retry_header_bytes(scid@, new_scid@, token@);
            match res {
                Ok(n) => n == hdr.len() + 16 && n <= old(out)@.len() && retry_integrity_tag(
                    dcid@,
                    hdr,
                ).len() == 16 && final(out)@ == hdr + retry_integrity_tag(dcid@, hdr) + old(
                    out,
                )@.skip(n as int),
                Err(e) => e == Error::BufferTooShort && old(out)@.len() < hdr.len() + 16
                    && final(out)@ == old(out)@,
            }
        }),
{
    let hdr = retry_header(scid, new_scid, token);
    if out.len() < 16 || out.len() - 16 < hdr.len() {
        return Err(Error::BufferTooShort);
    }
    let mut pseudo: Vec<u8> = Vec::new();
    pseudo.push(dcid.len() as u8);
    put_bytes(&mut pseudo, dcid);
    put_bytes(&mut pseudo, hdr.as_slice());
    assert(pseudo@ =~= retry_pseudo_packet(dcid@, hdr@));
    let key: [u8; 16] = [
        0x4d,
        0x32,
        0xec,
        0xdb,
        0x2a,
        0x21,
        0x33,
        0xc8,
        0x41,
        0xe4,
        0x04,
        0x3d,
        0xf2,
        0x7d,
        0x44,
        0x30,
    ];
    let nonce: [u8; 12] = [0x4d, 0x16, 0x11, 0xd0, 0x55, 0x13, 0xa5, 0x52, 0xc5, 0x87, 0xd5, 0x75];
    assert(key@ =~= retry_integrity_key());
    assert(nonce@ =~= retry_integrity_nonce());
    let tag = match aes128_gcm_seal_empty(&key, nonce, pseudo.as_slice()) {
        Ok(t) => t,
        Err(_) => return Err(Error::CryptoFail),
    };
    let mut b = hdr;
    put_bytes(&mut b, tag.as_slice());
    write_prefix(out, b.as_slice())
}

} // verus!

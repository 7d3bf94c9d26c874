use quiche::octets::{get_varint, put_varint, varint_len};
use quiche::packet::{write_retry, write_version_negotiation};
use quiche::{negotiate_version, retry, version_is_supported, Error, Shutdown};

#[test]
fn error_wire_codes() {
    assert_eq!(Error::Done.to_wire(), 0x0);
    assert_eq!(Error::InvalidFrame.to_wire(), 0x7);
    assert_eq!(Error::InvalidStreamState.to_wire(), 0x5);
    assert_eq!(Error::InvalidTransportParam.to_wire(), 0x8);
    assert_eq!(Error::CryptoFail.to_wire(), 0x100);
    assert_eq!(Error::TlsFail.to_wire(), 0x100);
    assert_eq!(Error::FlowControl.to_wire(), 0x3);
    assert_eq!(Error::StreamLimit.to_wire(), 0x4);
    assert_eq!(Error::FinalSize.to_wire(), 0x6);
    assert_eq!(Error::BufferTooShort.to_wire(), 0xa);
    assert_eq!(Error::SchedulerType.to_wire(), 0xa);
}

#[test]
fn error_c_codes() {
    assert_eq!(Error::Done.to_c(), -1);
    assert_eq!(Error::BufferTooShort.to_c(), -2);
    assert_eq!(Error::UnknownVersion.to_c(), -3);
    assert_eq!(Error::InvalidTransportParam.to_c(), -8);
    assert_eq!(Error::CongestionControl.to_c(), -14);
    assert_eq!(Error::SchedulerType.to_c(), -15);
}

#[test]
fn shutdown_directions_differ() {
    assert_ne!(Shutdown::Read, Shutdown::Write);
}

#[test]
fn supported_versions() {
    assert!(version_is_supported(quiche::PROTOCOL_VERSION));
    assert!(version_is_supported(0xff00_0018));
    assert!(version_is_supported(0xff00_0017));
    assert!(!version_is_supported(0xff00_0016));
    assert!(!version_is_supported(0xbabababa));
    assert!(!version_is_supported(1));
}

#[test]
fn varint_examples() {
    // One example of each size.
    let cases: [(u64, &[u8]); 4] = [
        (37, &[0x25]),
        (15_293, &[0x7b, 0xbd]),
        (494_878_333, &[0x9d, 0x7f, 0x3e, 0x7d]),
        (151_288_809_941_952_652, &[0xc2, 0x19, 0x7c, 0x5e, 0xff, 0x14, 0xe8, 0x8c]),
    ];
    for (v, bytes) in cases.iter() {
        let mut out = Vec::new();
        put_varint(&mut out, *v);
        assert_eq!(&out[..], *bytes);
        assert_eq!(varint_len(*v), bytes.len());
        assert_eq!(get_varint(bytes, 0, bytes.len()), Ok((*v, bytes.len())));
    }
}

#[test]
fn varint_truncated() {
    let bytes = [0x7b];
    assert_eq!(get_varint(&bytes, 0, 1), Err(Error::BufferTooShort));
    assert_eq!(get_varint(&bytes, 1, 1), Err(Error::BufferTooShort));
    // A one-byte value in the middle of a buffer.
    let bytes = [0xff, 0x05, 0xff];
    assert_eq!(get_varint(&bytes, 1, 2), Ok((5, 1)));
}

#[test]
fn version_negotiation_layout() {
    let scid = [1u8, 2, 3];
    let dcid = [9u8, 8];
    let mut out = [0xaa_u8; 40];
    let n = write_version_negotiation(0x01, &scid, &dcid, &mut out).unwrap();
    assert_eq!(n, 24);
    let expected: [u8; 24] = [
        0x81, 0, 0, 0, 0, 3, 1, 2, 3, 2, 9, 8, 0xff, 0, 0, 0x19, 0xff, 0, 0, 0x18, 0xff, 0, 0,
        0x17,
    ];
    assert_eq!(&out[..n], &expected[..]);
    assert!(out[n..].iter().all(|b| *b == 0xaa));
}

#[test]
fn negotiate_version_random_first_byte() {
    let scid = [0xba_u8; 16];
    let dcid = [0x11_u8; 8];
    let mut out = [0u8; 512];
    let n = negotiate_version(&scid, &dcid, &mut out).unwrap();
    assert_eq!(n, 19 + 16 + 8);
    assert_eq!(out[0] & 0x80, 0x80);
    let mut expected = vec![0u8; n];
    write_version_negotiation(out[0], &scid, &dcid, &mut expected).unwrap();
    assert_eq!(&out[..n], &expected[..]);
}

#[test]
fn negotiate_version_short_buffer() {
    let scid = [0xba_u8; 16];
    let dcid = [0x11_u8; 8];
    let mut out = [7u8; 42];
    assert_eq!(
        negotiate_version(&scid, &dcid, &mut out),
        Err(Error::BufferTooShort)
    );
    assert!(out.iter().all(|b| *b == 7));
}

#[test]
fn retry_layout_with_given_tag() {
    let scid = [1u8, 2];
    let new_scid = [3u8];
    let token = b"tok";
    let tag = [0x5a_u8; 16];
    let mut out = [0u8; 64];
    let n = write_retry(&scid, &new_scid, token, &tag, &mut out).unwrap();
    let mut expected = vec![0xf0, 0xff, 0x00, 0x00, 0x19, 2, 1, 2, 1, 3, b't', b'o', b'k'];
    expected.extend_from_slice(&tag);
    assert_eq!(n, expected.len());
    assert_eq!(&out[..n], &expected[..]);
    let mut small = [0u8; 28];
    assert_eq!(
        write_retry(&scid, &new_scid, token, &tag, &mut small),
        Err(Error::BufferTooShort)
    );
}

fn expected_retry_tag(odcid: &[u8], header: &[u8]) -> Vec<u8> {
    let key = ring::aead::LessSafeKey::new(
        ring::aead::UnboundKey::new(
            &ring::aead::AES_128_GCM,
            &[
                0x4d, 0x32, 0xec, 0xdb, 0x2a, 0x21, 0x33, 0xc8, 0x41, 0xe4, 0x04, 0x3d, 0xf2,
                0x7d, 0x44, 0x30,
            ],
        )
        .unwrap(),
    );
    let nonce = ring::aead::Nonce::assume_unique_for_key([
        0x4d, 0x16, 0x11, 0xd0, 0x55, 0x13, 0xa5, 0x52, 0xc5, 0x87, 0xd5, 0x75,
    ]);
    let mut pseudo = vec![odcid.len() as u8];
    pseudo.extend_from_slice(odcid);
    pseudo.extend_from_slice(header);
    let tag = key
        .seal_in_place_separate_tag(nonce, ring::aead::Aad::from(&pseudo), &mut [])
        .unwrap();
    tag.as_ref().to_vec()
}

#[test]
fn retry_packet_and_integrity_tag() {
    let scid = [0x01_u8; 8];
    let dcid = [0x02_u8; 8];
    let new_scid = [0x03_u8; 20];
    let token = b"quiche test retry token";
    let mut out = [0u8; 512];
    let n = retry(&scid, &dcid, &new_scid, token, &mut out).unwrap();
    let hdr_len = 1 + 4 + 1 + 8 + 1 + 20 + token.len();
    assert_eq!(n, hdr_len + 16);
    assert_eq!(out[0], 0xf0);
    assert_eq!(&out[1..5], &[0xff, 0x00, 0x00, 0x19]);
    assert_eq!(out[5], 8);
    assert_eq!(&out[6..14], &scid[..]);
    assert_eq!(out[14], 20);
    assert_eq!(&out[15..35], &new_scid[..]);
    assert_eq!(&out[35..hdr_len], &token[..]);
    let tag = expected_retry_tag(&dcid, &out[..hdr_len]);
    assert_eq!(&out[hdr_len..n], &tag[..]);
    // The tag depends on the original destination connection ID.
    let other = expected_retry_tag(&scid, &out[..hdr_len]);
    assert_ne!(tag, other);
}

#[test]
fn retry_short_buffer() {
    let scid = [0x01_u8; 8];
    let dcid = [0x02_u8; 8];
    let new_scid = [0x03_u8; 20];
    let token = b"quiche test retry token";
    let mut out = [9u8; 73];
    assert_eq!(
        retry(&scid, &dcid, &new_scid, token, &mut out),
        Err(Error::BufferTooShort)
    );
    assert!(out.iter().all(|b| *b == 9));
}

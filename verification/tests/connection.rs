use quiche::connection::{
    accept_peer_params, amplification_credit, amplification_debit, amplification_limit,
    bytes_equal, highest_supported_version, select_version, select_write_epoch, Level,
    EPOCH_APPLICATION, EPOCH_HANDSHAKE, EPOCH_INITIAL, NO_APPLICATION_PROTOCOL,
};
use quiche::transport_params::TransportParams;
use quiche::{Error, PROTOCOL_VERSION};

fn client_params(odcid: Option<Vec<u8>>) -> TransportParams {
    TransportParams {
        original_connection_id: odcid,
        max_idle_timeout: 30,
        stateless_reset_token: Some(vec![0xba; 16]),
        max_packet_size: 1350,
        initial_max_data: 1_000,
        initial_max_stream_data_bidi_local: 100,
        initial_max_stream_data_bidi_remote: 100,
        initial_max_stream_data_uni: 100,
        initial_max_streams_bidi: 3,
        initial_max_streams_uni: 3,
        ack_delay_exponent: 3,
        max_ack_delay: 25,
        disable_active_migration: false,
        active_conn_id_limit: 2,
    }
}

fn encoded(tp: &TransportParams) -> Vec<u8> {
    let mut raw = [0; 256];
    let len = TransportParams::encode(tp, true, &mut raw).unwrap();
    raw[..len].to_vec()
}

#[test]
fn peer_params_without_alpn() {
    let raw = encoded(&client_params(None));
    assert_eq!(
        accept_peer_params(b"", &raw, false, None),
        Err((Error::TlsFail, Some(NO_APPLICATION_PROTOCOL)))
    );
    assert_eq!(NO_APPLICATION_PROTOCOL, 0x178);
}

#[test]
fn peer_params_accepted() {
    let tp = client_params(Some(vec![1, 2, 3]));
    let raw = encoded(&tp);
    assert_eq!(
        accept_peer_params(b"h3", &raw, false, Some(&[1, 2, 3])),
        Ok(tp)
    );

    let tp = client_params(None);
    let raw = encoded(&tp);
    assert_eq!(accept_peer_params(b"h3", &raw, false, None), Ok(tp));
}

#[test]
fn peer_params_odcid_mismatch() {
    let raw = encoded(&client_params(Some(vec![1, 2, 3])));
    assert_eq!(
        accept_peer_params(b"h3", &raw, false, Some(&[1, 2, 4])),
        Err((Error::InvalidTransportParam, None))
    );
    assert_eq!(
        accept_peer_params(b"h3", &raw, false, None),
        Err((Error::InvalidTransportParam, None))
    );

    let raw = encoded(&client_params(None));
    assert_eq!(
        accept_peer_params(b"h3", &raw, false, Some(&[1])),
        Err((Error::InvalidTransportParam, None))
    );
}

#[test]
fn peer_params_undecodable() {
    assert_eq!(
        accept_peer_params(b"h3", &[0], false, None),
        Err((Error::BufferTooShort, None))
    );
}

#[test]
fn bytes_equality() {
    assert!(bytes_equal(b"abc", b"abc"));
    assert!(!bytes_equal(b"abc", b"abd"));
    assert!(!bytes_equal(b"abc", b"ab"));
    assert!(bytes_equal(b"", b""));
}

#[test]
fn highest_version() {
    assert_eq!(
        highest_supported_version(&[0xff00_0017, 0x1a2a_3a4a, 0xff00_0019, 0xff00_0018]),
        Ok(0xff00_0019)
    );
    assert_eq!(
        highest_supported_version(&[0xff00_0017]),
        Ok(0xff00_0017)
    );
    assert_eq!(
        highest_supported_version(&[0xbaba_baba, 1]),
        Err(Error::UnknownVersion)
    );
    assert_eq!(highest_supported_version(&[]), Err(Error::UnknownVersion));
}

#[test]
fn version_negotiation_choice() {
    let scid = [1, 2, 3];
    let dcid = [4, 5, 6];
    let offered = [0xbaba_baba, PROTOCOL_VERSION];

    assert_eq!(
        select_version(false, &scid, &dcid, &scid, &dcid, Some(&offered)),
        Ok(PROTOCOL_VERSION)
    );
    // Already negotiated.
    assert_eq!(
        select_version(true, &scid, &dcid, &scid, &dcid, Some(&offered)),
        Err(Error::Done)
    );
    // Connection IDs that are not ours.
    assert_eq!(
        select_version(false, &dcid, &dcid, &scid, &dcid, Some(&offered)),
        Err(Error::Done)
    );
    assert_eq!(
        select_version(false, &scid, &scid, &scid, &dcid, Some(&offered)),
        Err(Error::Done)
    );
    // No version list.
    assert_eq!(
        select_version(false, &scid, &dcid, &scid, &dcid, None),
        Err(Error::InvalidPacket)
    );
    // Nothing supported.
    assert_eq!(
        select_version(false, &scid, &dcid, &scid, &dcid, Some(&[0xbaba_baba])),
        Err(Error::UnknownVersion)
    );
}

#[test]
fn write_epoch_on_error() {
    let none = [false; 3];
    assert_eq!(
        select_write_epoch(true, Level::Initial, false, none, none, none, false),
        Ok(EPOCH_INITIAL)
    );
    assert_eq!(
        select_write_epoch(true, Level::Handshake, true, none, none, none, false),
        Ok(EPOCH_HANDSHAKE)
    );
    assert_eq!(
        select_write_epoch(true, Level::OneRTT, true, none, none, none, false),
        Ok(EPOCH_APPLICATION)
    );
    // Downgraded while the handshake is not complete.
    assert_eq!(
        select_write_epoch(true, Level::OneRTT, false, none, none, none, false),
        Ok(EPOCH_HANDSHAKE)
    );
}

#[test]
fn write_epoch_order() {
    let none = [false; 3];
    assert_eq!(
        select_write_epoch(false, Level::Initial, true, [true, true, true], none, none, true),
        Ok(EPOCH_INITIAL)
    );
    assert_eq!(
        select_write_epoch(false, Level::Initial, true, none, [false, true, true], none, false),
        Ok(EPOCH_HANDSHAKE)
    );
    assert_eq!(
        select_write_epoch(false, Level::Initial, true, none, none, [false, false, true], false),
        Ok(EPOCH_APPLICATION)
    );
    // The application space waits for the handshake.
    assert_eq!(
        select_write_epoch(false, Level::Initial, false, [false, false, true], none, none, true),
        Err(Error::Done)
    );
    assert_eq!(
        select_write_epoch(false, Level::Initial, true, none, none, none, true),
        Ok(EPOCH_APPLICATION)
    );
    assert_eq!(
        select_write_epoch(false, Level::Initial, true, none, none, none, false),
        Err(Error::Done)
    );
}

#[test]
fn amplification() {
    // An unverified client sent 1200 bytes: the server may send 3600.
    let credit = amplification_credit(0, false, 1200);
    assert_eq!(credit, 3600);
    assert_eq!(amplification_credit(credit, true, 1200), 3600);

    assert_eq!(amplification_limit(65_000, false, true, credit), 3600);
    assert_eq!(amplification_limit(1000, false, true, credit), 1000);
    assert_eq!(amplification_limit(65_000, true, true, credit), 65_000);
    assert_eq!(amplification_limit(65_000, false, false, credit), 65_000);

    let credit = amplification_debit(credit, 1350);
    assert_eq!(credit, 2250);
    assert_eq!(amplification_debit(credit, 5000), 0);
}

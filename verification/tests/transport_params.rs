use quiche::transport_params::TransportParams;

#[test]
fn transport_params() {
    let tp = TransportParams {
        original_connection_id: None,
        max_idle_timeout: 30,
        stateless_reset_token: Some(vec![0xba; 16]),
        max_packet_size: 23_421,
        initial_max_data: 424_645_563,
        initial_max_stream_data_bidi_local: 154_323_123,
        initial_max_stream_data_bidi_remote: 6_587_456,
        initial_max_stream_data_uni: 2_461_234,
        initial_max_streams_bidi: 12_231,
        initial_max_streams_uni: 18_473,
        ack_delay_exponent: 20,
        max_ack_delay: 2_u64.pow(14) - 1,
        disable_active_migration: true,
        active_conn_id_limit: 8,
    };

    let mut raw_params = [42; 256];
    let len = TransportParams::encode(&tp, true, &mut raw_params).unwrap();
    assert_eq!(len, 101);

    let new_tp = TransportParams::decode(&mut raw_params[..len], false).unwrap();

    assert_eq!(new_tp, tp);
}

fn sample() -> TransportParams {
    TransportParams {
        original_connection_id: Some(vec![1, 2, 3, 4]),
        max_idle_timeout: 30_000,
        stateless_reset_token: Some(vec![7; 16]),
        max_packet_size: 1350,
        initial_max_data: 10_000_000,
        initial_max_stream_data_bidi_local: 1_000_000,
        initial_max_stream_data_bidi_remote: 1_000_000,
        initial_max_stream_data_uni: 1_000_000,
        initial_max_streams_bidi: 100,
        initial_max_streams_uni: 100,
        ack_delay_exponent: 3,
        max_ack_delay: 25,
        disable_active_migration: false,
        active_conn_id_limit: 2,
    }
}

#[test]
fn default_transport_params() {
    let tp = TransportParams::default();
    assert_eq!(tp.original_connection_id, None);
    assert_eq!(tp.max_idle_timeout, 0);
    assert_eq!(tp.stateless_reset_token, None);
    assert_eq!(tp.max_packet_size, 65527);
    assert_eq!(tp.initial_max_data, 0);
    assert_eq!(tp.ack_delay_exponent, 3);
    assert_eq!(tp.max_ack_delay, 25);
    assert!(!tp.disable_active_migration);
    assert_eq!(tp.active_conn_id_limit, 0);
}

#[test]
fn transport_params_exact_encoding() {
    let mut tp = TransportParams::default();
    tp.max_idle_timeout = 30;
    tp.disable_active_migration = true;
    let mut out = [0u8; 32];
    let n = TransportParams::encode(&tp, false, &mut out).unwrap();
    // max_idle_timeout, max_packet_size (65527 takes 4 bytes), ack_delay_exponent,
    // max_ack_delay, disable_active_migration.
    let expected: [u8; 29] = [
        0x00, 27, // length of the parameters
        0x00, 0x01, 0x00, 0x01, 30, // max_idle_timeout
        0x00, 0x03, 0x00, 0x04, 0x80, 0x00, 0xff, 0xf7, // max_packet_size
        0x00, 0x0a, 0x00, 0x01, 3, // ack_delay_exponent
        0x00, 0x0b, 0x00, 0x01, 25, // max_ack_delay
        0x00, 0x0c, 0x00, 0x00, // disable_active_migration
    ];
    assert_eq!(n, 29);
    assert_eq!(&out[..n], &expected[..]);
    assert_eq!(&out[n..], &[0, 0, 0]);
}

#[test]
fn transport_params_roundtrip_server_to_client() {
    let tp = sample();
    let mut out = [0u8; 256];
    let n = TransportParams::encode(&tp, true, &mut out).unwrap();
    // Bytes after the parameters are ignored.
    assert_eq!(TransportParams::decode(&out, false), Ok(tp));
    assert!(n < out.len());
}

#[test]
fn transport_params_roundtrip_client_to_server() {
    let mut tp = sample();
    tp.original_connection_id = None;
    tp.stateless_reset_token = None;
    let mut out = [0u8; 256];
    let n = TransportParams::encode(&tp, true, &mut out).unwrap();
    assert_eq!(TransportParams::decode(&out[..n], true), Ok(tp.clone()));
    // A client leaves the server-only parameters out.
    let mut client = sample();
    let m = TransportParams::encode(&client, false, &mut out).unwrap();
    client.original_connection_id = None;
    client.stateless_reset_token = None;
    assert_eq!(m, n);
    assert_eq!(TransportParams::decode(&out[..m], true), Ok(client));
}

#[test]
fn transport_params_encode_short_buffer() {
    let tp = sample();
    let mut out = [5u8; 20];
    assert_eq!(
        TransportParams::encode(&tp, true, &mut out),
        Err(quiche::Error::BufferTooShort)
    );
    // The length of the parameters has been written, nothing more.
    assert_eq!(&out[..2], &[0, 101]);
    assert!(out[2..].iter().all(|b| *b == 5));
    // No room for the length: nothing is written.
    let mut tiny = [5u8; 1];
    assert_eq!(
        TransportParams::encode(&tp, true, &mut tiny),
        Err(quiche::Error::BufferTooShort)
    );
    assert_eq!(tiny, [5]);
}

#[test]
fn transport_params_encode_over_capacity() {
    let mut tp = TransportParams::default();
    tp.original_connection_id = Some(vec![1; 200]);
    let mut out = [0u8; 512];
    assert_eq!(
        TransportParams::encode(&tp, true, &mut out),
        Err(quiche::Error::BufferTooShort)
    );
    // A client does not send it, so the rest fits.
    assert!(TransportParams::encode(&tp, false, &mut out).is_ok());
}

#[test]
fn transport_params_decode_errors() {
    // Too short for the length.
    assert_eq!(TransportParams::decode(&[0], false), Err(quiche::Error::BufferTooShort));
    // Length past the end.
    assert_eq!(TransportParams::decode(&[0, 5, 0, 1], false), Err(quiche::Error::BufferTooShort));
    // A server refuses the original connection ID.
    assert_eq!(
        TransportParams::decode(&[0, 5, 0, 0, 0, 1, 9], true),
        Err(quiche::Error::InvalidTransportParam)
    );
    // ... which a client accepts.
    let tp = TransportParams::decode(&[0, 5, 0, 0, 0, 1, 9], false).unwrap();
    assert_eq!(tp.original_connection_id, Some(vec![9]));
    // max_packet_size below 1200.
    assert_eq!(
        TransportParams::decode(&[0, 6, 0, 3, 0, 2, 0x44, 0xaf], false),
        Err(quiche::Error::InvalidTransportParam)
    );
    // initial_max_streams_bidi above 2^60.
    assert_eq!(
        TransportParams::decode(
            &[0, 12, 0, 8, 0, 8, 0xd0, 0, 0, 0, 0, 0, 0, 1],
            false
        ),
        Err(quiche::Error::StreamLimit)
    );
    // ack_delay_exponent above 20.
    assert_eq!(
        TransportParams::decode(&[0, 5, 0, 0x0a, 0, 1, 21], false),
        Err(quiche::Error::InvalidTransportParam)
    );
    // max_ack_delay of 2^14.
    assert_eq!(
        TransportParams::decode(&[0, 8, 0, 0x0b, 0, 4, 0x80, 0, 0x40, 0], false),
        Err(quiche::Error::InvalidTransportParam)
    );
    // A reset token shorter than 16 bytes.
    assert_eq!(
        TransportParams::decode(&[0, 6, 0, 2, 0, 2, 1, 2], false),
        Err(quiche::Error::BufferTooShort)
    );
    // A varint value that runs past its parameter.
    assert_eq!(
        TransportParams::decode(&[0, 5, 0, 4, 0, 1, 0x40], false),
        Err(quiche::Error::BufferTooShort)
    );
    // A truncated parameter header.
    assert_eq!(TransportParams::decode(&[0, 3, 0, 4, 0], false), Err(quiche::Error::BufferTooShort));
}

#[test]
fn transport_params_unknown_ignored() {
    let tp = TransportParams::decode(&[0, 7, 0x1f, 0x00, 0, 3, 1, 2, 3], true).unwrap();
    assert_eq!(tp, TransportParams::default());
    // preferred_address is accepted by a client and ignored.
    let tp = TransportParams::decode(&[0, 5, 0, 0x0d, 0, 1, 0], false).unwrap();
    assert_eq!(tp, TransportParams::default());
    assert_eq!(
        TransportParams::decode(&[0, 5, 0, 0x0d, 0, 1, 0], true),
        Err(quiche::Error::InvalidTransportParam)
    );
}

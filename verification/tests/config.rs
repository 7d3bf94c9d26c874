use quiche::config::parse_application_protos;
use quiche::{Config, CongestionControlAlgorithm, Error, SchedulerType, PROTOCOL_VERSION};

#[test]
fn config_new_is_ok() {
    assert!(Config::new(PROTOCOL_VERSION).is_ok());
    assert!(Config::new(0xbabababa).is_ok());
}

#[test]
fn config_set_gmssl() {
    let mut config = Config::new(PROTOCOL_VERSION).unwrap();
    assert_eq!(config.set_gmssl(1), 1);
    assert_eq!(config.set_gmssl(0), 1);
    assert_eq!(config.set_gmssl(2), 0);
    assert_eq!(config.set_gmssl(u64::MAX), 0);
}

#[test]
fn config_set_application_protos() {
    let mut config = Config::new(PROTOCOL_VERSION).unwrap();
    assert_eq!(config.set_application_protos(b"\x08http/1.1\x08http/0.9"), Ok(()));
    assert_eq!(config.set_application_protos(b"\x06proto1\x06proto2"), Ok(()));
    assert_eq!(config.set_application_protos(b""), Ok(()));
    // A length running past the end stops the list.
    assert_eq!(config.set_application_protos(b"\x06proto1\x09abc"), Ok(()));
}

#[test]
fn config_setters() {
    let mut config = Config::new(PROTOCOL_VERSION).unwrap();
    config.grease(false);
    config.set_max_idle_timeout(5000);
    config.set_max_packet_size(1350);
    config.set_initial_max_data(30);
    config.set_initial_max_stream_data_bidi_local(15);
    config.set_initial_max_stream_data_bidi_remote(15);
    config.set_initial_max_stream_data_uni(10);
    config.set_initial_max_streams_bidi(3);
    config.set_initial_max_streams_uni(3);
    config.set_ack_delay_exponent(8);
    config.set_max_ack_delay(50);
    config.set_disable_active_migration(true);
    config.set_data_ack_ratio(2);
}

#[test]
fn application_protos_parsing() {
    assert_eq!(
        parse_application_protos(b"\x08http/1.1\x08http/0.9"),
        vec![b"http/1.1".to_vec(), b"http/0.9".to_vec()]
    );
    assert_eq!(
        parse_application_protos(b"\x06proto1\x06proto2"),
        vec![b"proto1".to_vec(), b"proto2".to_vec()]
    );
    assert_eq!(parse_application_protos(b""), Vec::<Vec<u8>>::new());
    // The list ends at a length that runs past the end.
    assert_eq!(
        parse_application_protos(b"\x06proto1\x09abc"),
        vec![b"proto1".to_vec()]
    );
    // A zero length gives an empty protocol.
    assert_eq!(
        parse_application_protos(b"\x00\x01a"),
        vec![Vec::new(), b"a".to_vec()]
    );
}

#[test]
fn application_protos_roundtrip() {
    let list = vec![b"h3-25".to_vec(), vec![7u8; 255], b"hq".to_vec()];
    let mut wire = Vec::new();
    for p in &list {
        wire.push(p.len() as u8);
        wire.extend_from_slice(p);
    }
    assert_eq!(parse_application_protos(&wire), list);
}

#[test]
fn config_set_cc_algorithm_name() {
    let mut config = Config::new(PROTOCOL_VERSION).unwrap();

    assert_eq!(config.set_cc_algorithm_name("reno"), Ok(()));

    // Unknown name.
    assert_eq!(
        config.set_cc_algorithm_name("???"),
        Err(Error::CongestionControl)
    );
}

#[test]
fn cc_algorithm_from_name() {
    assert_eq!(
        CongestionControlAlgorithm::from_name("reno"),
        Ok(CongestionControlAlgorithm::Reno)
    );
    assert_eq!(
        CongestionControlAlgorithm::from_name("Reno"),
        Err(Error::CongestionControl)
    );
    assert_eq!(
        CongestionControlAlgorithm::from_name(""),
        Err(Error::CongestionControl)
    );
}

#[test]
fn scheduler_from_name() {
    for name in ["Basic", "basic"] {
        assert_eq!(SchedulerType::from_name(name), Ok(SchedulerType::Basic));
    }
    for name in ["DTP", "Dtp", "dtp"] {
        assert_eq!(SchedulerType::from_name(name), Ok(SchedulerType::DTP));
    }
    for name in ["C", "c"] {
        assert_eq!(SchedulerType::from_name(name), Ok(SchedulerType::C));
    }
    for name in ["Dynamic", "dynamic", "dyn", "Dyn"] {
        assert_eq!(SchedulerType::from_name(name), Ok(SchedulerType::Dynamic));
    }
    for name in ["", "BASIC", "dT", "cc", "dynamo", "fifo"] {
        assert_eq!(SchedulerType::from_name(name), Err(Error::SchedulerType));
    }
}

#[test]
fn config_set_scheduler() {
    let mut config = Config::new(PROTOCOL_VERSION).unwrap();

    assert_eq!(config.set_scheduler_by_name("dtp"), Ok(()));
    assert_eq!(config.set_scheduler_by_name("Dyn"), Ok(()));
    assert_eq!(
        config.set_scheduler_by_name("round-robin"),
        Err(Error::SchedulerType)
    );
    config.set_scheduler_type(SchedulerType::Basic);
}

use smart_gw::broker::{is_prefix, Broker};
use smart_gw::demux::Demux;
use smart_gw::driver::{compute_rssi, compute_snr, crc_error_flagged};
use smart_gw::gateway::gateway_configs;
use smart_gw::msg::Msg;
use smart_gw::opcodes::SpreadingFactor;
use smart_gw::vdctrl::{device_topic, VirtDevCtrl};

#[test]
fn prefix_match_is_exact() {
    assert!(is_prefix(&b"".to_vec(), &b"0000000a".to_vec()));
    assert!(is_prefix(&b"0000000".to_vec(), &b"0000000a".to_vec()));
    assert!(is_prefix(&b"0000000a".to_vec(), &b"0000000a".to_vec()));
    assert!(!is_prefix(&b"0000000b".to_vec(), &b"0000000a".to_vec()));
    assert!(!is_prefix(&b"000000a1".to_vec(), &b"0000000a".to_vec()));
    assert!(!is_prefix(&b"0000000a1".to_vec(), &b"0000000a".to_vec()));
}

#[test]
fn publish_delivers_to_prefix_subscriptions_only() {
    let mut broker = Broker::new();
    let all = broker.subscribe(Vec::new());
    let dev_a = broker.subscribe(b"0000000a".to_vec());
    let _dev_b = broker.subscribe(b"0000000b".to_vec());
    let _other = broker.subscribe(b"000000a1".to_vec());
    let short = broker.subscribe(b"0000000".to_vec());
    let msg = Msg { addr: 0xa, fcnt: 1, payload: vec![1, 2, 3] };
    let dels = broker.publish(&b"0000000a".to_vec(), &msg);
    let channels: Vec<u64> = dels.iter().map(|d| d.channel).collect();
    assert_eq!(channels, vec![all, dev_a, short]);
    let expected = msg.serialize().unwrap();
    for d in &dels {
        assert_eq!(d.bytes, expected);
    }
}

#[test]
fn device_topics_are_padded_lowercase_hex() {
    assert_eq!(device_topic(0xa), b"0000000a".to_vec());
    assert_eq!(device_topic(0), b"00000000".to_vec());
    assert_eq!(device_topic(0xDEADBEEF), b"deadbeef".to_vec());
    assert_eq!(device_topic(0x1_0000_0000), b"100000000".to_vec());
    assert_eq!(device_topic(u64::MAX), b"ffffffffffffffff".to_vec());
}

#[test]
fn ensure_is_idempotent_per_address() {
    let mut broker = Broker::new();
    let mut ctrl = VirtDevCtrl::new();
    let first = ctrl.instantiate_if_new(&mut broker, 0xa);
    let req = first.expect("first contact must request a spawn");
    assert_eq!(req.deveui, 0xa);
    assert_eq!(ctrl.device_count(), 1);
    assert!(ctrl.has_device(0xa));
    let second = ctrl.instantiate_if_new(&mut broker, 0xa);
    assert!(second.is_none());
    assert_eq!(ctrl.device_count(), 1);
}

#[test]
fn ensure_creates_independent_entries_per_address() {
    let mut broker = Broker::new();
    let mut ctrl = VirtDevCtrl::new();
    let ra = ctrl.instantiate_if_new(&mut broker, 0xa).unwrap();
    let rb = ctrl.instantiate_if_new(&mut broker, 0xb).unwrap();
    assert_eq!(ctrl.device_count(), 2);
    assert!(ctrl.has_device(0xa));
    assert!(ctrl.has_device(0xb));
    assert_ne!(ra.channel, rb.channel);
}

#[test]
fn dispatch_creates_then_reuses_the_executor() {
    let mut demux = Demux::new(Broker::new(), VirtDevCtrl::new());
    let msg = Msg { addr: 0xa, fcnt: 1, payload: vec![42] };
    let (spawn, dels) = demux.dispatch(&msg);
    let req = spawn.expect("first dispatch must request a spawn");
    assert_eq!(req.deveui, 0xa);
    // the fresh subscription is owed this first message too
    assert!(dels.iter().any(|d| d.channel == req.channel));
    let (spawn2, dels2) = demux.dispatch(&msg);
    assert!(spawn2.is_none());
    assert!(dels2.iter().any(|d| d.channel == req.channel));
}

#[test]
fn telemetry_decoding_matches_the_datasheet_arithmetic() {
    // sign bit clear: divide by four
    assert_eq!(compute_snr(0x04), 1);
    assert_eq!(compute_snr(0x7F), 31);
    // sign bit set: two's complement, divide by four, negate
    assert_eq!(compute_snr(0x80), -32);
    assert_eq!(compute_snr(0xF8), -2);
    assert_eq!(compute_snr(0xFF), 0);
    // correction constant plus raw register; no adjustment for positive
    assert_eq!(compute_rssi(100, 1), -57);
    assert_eq!(compute_rssi(100, 0), -57);
    // a quarter of a negative estimate is added
    assert_eq!(compute_rssi(100, -4), -58);
    assert_eq!(compute_rssi(0, 0), -157);
}

#[test]
fn crc_error_flag_detection() {
    assert!(crc_error_flagged(0x20));
    assert!(crc_error_flagged(0xFF));
    assert!(!crc_error_flagged(0xDF));
    assert!(!crc_error_flagged(0x00));
}

#[test]
fn gateway_configuration_follows_the_spreading_factor() {
    let c7 = gateway_configs(SpreadingFactor::SF7, 868_100_000);
    assert_eq!(c7.sync_word, 0x12);
    assert_eq!(c7.frf.freq, 868_100_000);
    assert_eq!(c7.symb_timeout_lsb, 8);
    assert!(!c7.modem_config3.low_data_rate_optimize);
    assert_eq!(c7.max_payload, 128);
    let c11 = gateway_configs(SpreadingFactor::SF11, 868_100_000);
    assert_eq!(c11.symb_timeout_lsb, 5);
    assert!(c11.modem_config3.low_data_rate_optimize);
    let c10 = gateway_configs(SpreadingFactor::SF10, 868_100_000);
    assert_eq!(c10.symb_timeout_lsb, 5);
    assert!(!c10.modem_config3.low_data_rate_optimize);
}

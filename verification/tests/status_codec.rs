use iroh_start::status::{decode_status, encode_status, RunStatus, STATUS_TAG};

#[test]
fn round_trip_default_port() {
    let bytes = encode_status(4919);
    assert_eq!(decode_status(&Some(bytes)), RunStatus::Running(4919));
}

#[test]
fn round_trip_port_bounds() {
    for port in [0u16, 1, 255, 256, 65535] {
        let bytes = encode_status(port);
        assert_eq!(decode_status(&Some(bytes)), RunStatus::Running(port));
    }
}

#[test]
fn encode_is_tag_then_big_endian_port() {
    assert_eq!(encode_status(4919), vec![STATUS_TAG, 0x13, 0x37]);
    assert_eq!(encode_status(0), vec![STATUS_TAG, 0x00, 0x00]);
    assert_eq!(encode_status(65535), vec![STATUS_TAG, 0xff, 0xff]);
}

#[test]
fn missing_record_reads_stopped() {
    assert_eq!(decode_status(&None), RunStatus::Stopped);
}

#[test]
fn malformed_record_reads_stopped() {
    assert_eq!(decode_status(&Some(vec![])), RunStatus::Stopped);
    assert_eq!(decode_status(&Some(vec![STATUS_TAG])), RunStatus::Stopped);
    assert_eq!(decode_status(&Some(vec![STATUS_TAG, 0x13])), RunStatus::Stopped);
    assert_eq!(
        decode_status(&Some(vec![STATUS_TAG, 0x13, 0x37, 0x00])),
        RunStatus::Stopped
    );
    assert_eq!(decode_status(&Some(vec![0x00, 0x13, 0x37])), RunStatus::Stopped);
    assert_eq!(decode_status(&Some(vec![0xff, 0xff, 0xff])), RunStatus::Stopped);
}

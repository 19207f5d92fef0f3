use jarvis::device::Device;
use jarvis::device::Status;
use jarvis::device::build_discovery_frame;
use jarvis::device::checksum_error;
use jarvis::device::create_buffer_from_device;
use jarvis::device::data_recieve_error;
use jarvis::device::get_checksum;
use jarvis::device::get_device_from_bytes;
use jarvis::device::set_up_command_broadcast;
use jarvis::device::validate_checksum;

#[test]
fn test_validate_checksum() {
    assert_eq!(
        validate_checksum(&[165, 9, 15, 1, 0, 0, 0, 0x95, 0x1c, 0x82, 0xcb]),
        Ok(())
    );
    assert_eq!(
        validate_checksum(&[165, 9, 15, 1, 0, 0, 0, 0x95, 0x1c, 0x82, 0xcb, 0, 0, 0, 0, 23]),
        Ok(())
    );
    assert_eq!(
        validate_checksum(&[165, 9, 19, 1, 0, 0, 0, 0x95, 0x1C, 0x82, 0xCB])
            .expect_err("Matching checksum"),
        checksum_error::mismatch
    );
}

#[test]
fn test_get_device_from_bytes() {
    assert_eq!(
        get_device_from_bytes(&[]).expect_err("should expect protocol error"),
        data_recieve_error::empty_buffer
    );
    assert_eq!(
        get_device_from_bytes(&[00, 9, 15, 1, 0, 0, 0, 0x95, 0x1C, 0x82, 0xCB])
            .expect_err("should expect protocol error"),
        data_recieve_error::protocol_error
    );
    assert_eq!(
        get_device_from_bytes(&[165, 9, 15, 1, 0, 0, 0, 0, 0, 0, 0])
            .expect_err("expected corrupted data"),
        data_recieve_error::mismatch_checksum
    );
    assert_eq!(
        get_device_from_bytes(&[165, 9, 15, 1, 0, 0, 0, 0x95, 0x1C, 0x82, 0xCB])
            .expect("expected device")
            .device_id,
        15
    );
}

#[test]
fn checksum_of_known_frame_head() {
    assert_eq!(get_checksum(&[165, 9, 15, 1, 0, 0, 0]), 0x951c82cb);
    assert_eq!(get_checksum(&[]), 0);
}

#[test]
fn decoded_device_is_on() {
    let device = get_device_from_bytes(&[165, 9, 15, 1, 0, 0, 0, 0x95, 0x1C, 0x82, 0xCB])
        .expect("expected device");
    assert_eq!(
        device,
        Device {
            device_id: 15,
            status: Status::on
        }
    );
}

#[test]
fn single_bit_corruption_is_caught() {
    let frame: [u8; 11] = [165, 9, 15, 1, 0, 0, 0, 0x95, 0x1c, 0x82, 0xcb];
    assert_eq!(validate_checksum(&frame), Ok(()));
    for index in 0..7 {
        for bit in 0..8 {
            let mut corrupt = frame;
            corrupt[index] ^= 1u8 << bit;
            assert_eq!(
                validate_checksum(&corrupt).expect_err("corruption must be caught"),
                checksum_error::mismatch
            );
        }
    }
}

#[test]
fn short_and_ill_declared_buffers_mismatch() {
    assert_eq!(
        validate_checksum(&[]).expect_err("too short"),
        checksum_error::mismatch
    );
    assert_eq!(
        validate_checksum(&[165, 9, 15, 1]).expect_err("too short"),
        checksum_error::mismatch
    );
    // The declared span (255 + 2 bytes) cannot fit in an 11-byte buffer.
    assert_eq!(
        validate_checksum(&[165, 255, 15, 1, 0, 0, 0, 0x95, 0x1c, 0x82, 0xcb])
            .expect_err("span does not fit"),
        checksum_error::mismatch
    );
    // The declared span (0 + 2 bytes) is too short to hold a trailer.
    assert_eq!(
        validate_checksum(&[165, 0, 15, 1, 0, 0, 0, 0x95, 0x1c, 0x82, 0xcb])
            .expect_err("span too short"),
        checksum_error::mismatch
    );
}

#[test]
fn too_short_buffer_holds_no_device() {
    assert_eq!(create_buffer_from_device(&[165, 9]), None);
    assert_eq!(
        create_buffer_from_device(&[165, 9, 42]),
        Some(Device {
            device_id: 42,
            status: Status::on
        })
    );
}

#[test]
fn built_frame_shape_and_trailer() {
    let frame = build_discovery_frame(12, 30, 45);
    assert_eq!(frame.len(), 11);
    assert_eq!(&frame[0..7], &[165, 9, 0, 0, 12, 30, 45]);
    let checksum = get_checksum(&frame[0..7]);
    assert_eq!(frame[7], (checksum >> 24) as u8);
    assert_eq!(frame[8], (checksum >> 16) as u8);
    assert_eq!(frame[9], (checksum >> 8) as u8);
    // The protocol's quirk: the low checksum byte is OR'ed with 0xFF.
    assert_eq!(frame[10], 0xff);
}

#[test]
fn broadcast_command_carries_time_of_day() {
    let frame = set_up_command_broadcast();
    assert_eq!(frame.len(), 11);
    assert_eq!(frame[0], 165);
    assert_eq!(frame[1], 9);
    assert_eq!(frame[2], 0);
    assert_eq!(frame[3], 0);
    assert!(frame[4] < 24);
    assert!(frame[5] < 60);
    assert!(frame[6] < 60);
    let checksum = get_checksum(&frame[0..7]);
    assert_eq!(frame[7], (checksum >> 24) as u8);
    assert_eq!(frame[10], 0xff);
}

#[test]
fn padding_beyond_declared_span_is_ignored() {
    // A frame whose trailer is its true CRC-32, padded out to the 256-byte
    // receive buffer with zeros, still validates and decodes.
    let mut buffer = [0u8; 256];
    let head = [165u8, 9, 15, 1, 0, 0, 0, 0x95, 0x1c, 0x82, 0xcb];
    buffer[..11].copy_from_slice(&head);
    assert_eq!(validate_checksum(&buffer), Ok(()));
    let device = get_device_from_bytes(&buffer).expect("expected device");
    assert_eq!(device.device_id, 15);
}

use jarvis::device::Device;
use jarvis::device::Status;
use jarvis::device::device_error;
use jarvis::discovery::DeviceDiscovery;

const VALID_FRAME: [u8; 11] = [165, 9, 15, 1, 0, 0, 0, 0x95, 0x1c, 0x82, 0xcb];

#[test]
fn failed_connect_fails_the_run() {
    let mut run = DeviceDiscovery::new();
    run.on_connect(false);
    assert!(run.finished());
    assert_eq!(
        run.into_result(),
        Err(device_error::could_not_send_setup_command)
    );
}

#[test]
fn failed_send_fails_the_run() {
    let mut run = DeviceDiscovery::new();
    run.on_connect(true);
    run.on_send(false);
    assert!(run.finished());
    assert_eq!(run.into_result(), Err(device_error::could_not_setup_devices));
}

#[test]
fn first_receive_failure_is_a_hard_error() {
    let mut run = DeviceDiscovery::new();
    run.on_connect(true);
    run.on_send(true);
    assert!(!run.finished());
    run.on_datagram(None);
    assert!(run.finished());
    assert_eq!(
        run.into_result(),
        Err(device_error::could_not_recieve_device_packet)
    );
}

#[test]
fn first_decode_failure_is_a_hard_error() {
    let mut run = DeviceDiscovery::new();
    run.on_connect(true);
    run.on_send(true);
    run.on_datagram(Some(&[0, 1, 2]));
    assert!(run.finished());
    assert_eq!(
        run.into_result(),
        Err(device_error::could_not_unserialize_device_packet)
    );
}

#[test]
fn later_receive_failure_yields_partial_result() {
    let mut run = DeviceDiscovery::new();
    run.on_connect(true);
    run.on_send(true);
    run.on_datagram(Some(&VALID_FRAME));
    assert!(!run.finished());
    run.on_datagram(None);
    assert!(run.finished());
    assert_eq!(
        run.into_result(),
        Ok(vec![Device {
            device_id: 15,
            status: Status::on
        }])
    );
}

#[test]
fn later_decode_failure_yields_partial_result() {
    let mut run = DeviceDiscovery::new();
    run.on_connect(true);
    run.on_send(true);
    run.on_datagram(Some(&VALID_FRAME));
    run.on_datagram(Some(&VALID_FRAME));
    run.on_datagram(Some(&[165, 9, 15, 1, 0, 0, 0, 0, 0, 0, 0]));
    assert!(run.finished());
    let devices = run.into_result().expect("collection ends in success");
    assert_eq!(devices.len(), 2);
    assert_eq!(devices[0].device_id, 15);
    assert_eq!(devices[1].device_id, 15);
}

use rtmidi::api::RtMidiApi;
use rtmidi::bindings::{Direction, NativeSystem};
use rtmidi::error::RtMidiError;
use rtmidi::midi::{
    cancel_callback, close_port, create, current_api, destroy, ignore_types, open_port,
    open_virtual_port, port_count, port_name, receive_message, send_message, set_callback,
};

fn system_with_ports(ports: Vec<Vec<u8>>) -> NativeSystem {
    NativeSystem {
        compiled_api: RtMidiApi::LinuxALSA,
        backend_available: true,
        virtual_ports_supported: true,
        ports,
        live_handles: 0,
    }
}

#[test]
fn create_then_destroy_leaves_no_resources() {
    let mut sys = system_with_ports(vec![b"Port A".to_vec()]);
    assert_eq!(sys.live_handles, 0);
    let dev = create(&mut sys, Direction::Output, RtMidiApi::Unspecified, "client", 100).unwrap();
    assert_eq!(sys.live_handles, 1);
    destroy(&mut sys, dev);
    assert_eq!(sys.live_handles, 0);
}

#[test]
fn create_without_backend_fails_and_allocates_nothing() {
    let mut sys = system_with_ports(vec![]);
    sys.backend_available = false;
    let r = create(&mut sys, Direction::Output, RtMidiApi::Unspecified, "client", 100);
    assert!(matches!(r, Err(RtMidiError::CreationError)));
    assert_eq!(sys.live_handles, 0);
}

#[test]
fn create_rejects_client_name_with_embedded_null() {
    let mut sys = system_with_ports(vec![]);
    let r = create(&mut sys, Direction::Output, RtMidiApi::Unspecified, "cli\0ent", 100);
    assert!(matches!(r, Err(RtMidiError::EncodingError)));
    assert_eq!(sys.live_handles, 0);
}

#[test]
fn unspecified_selector_binds_to_compiled_backend() {
    let mut sys = system_with_ports(vec![]);
    let dev = create(&mut sys, Direction::Output, RtMidiApi::Unspecified, "client", 100).unwrap();
    assert_eq!(current_api(&dev), RtMidiApi::LinuxALSA);
    destroy(&mut sys, dev);
}

#[test]
fn explicit_selector_is_kept() {
    let mut sys = system_with_ports(vec![]);
    let dev = create(&mut sys, Direction::Output, RtMidiApi::UnixJack, "client", 100).unwrap();
    assert_eq!(current_api(&dev), RtMidiApi::UnixJack);
    destroy(&mut sys, dev);
}

#[test]
fn port_count_reports_enumerated_ports() {
    let mut sys = system_with_ports(vec![b"Port A".to_vec(), b"Port B".to_vec()]);
    let mut dev = create(&mut sys, Direction::Input, RtMidiApi::Unspecified, "client", 100).unwrap();
    assert_eq!(port_count(&mut dev), Ok(2));
    destroy(&mut sys, dev);
}

#[test]
fn port_name_decodes_the_native_name() {
    let mut sys = system_with_ports(vec![b"Port A".to_vec()]);
    let mut dev = create(&mut sys, Direction::Input, RtMidiApi::Unspecified, "client", 100).unwrap();
    assert_eq!(port_name(&mut dev, 0), Ok("Port A".to_string()));
    destroy(&mut sys, dev);
}

#[test]
fn port_name_out_of_range_is_invalid_port() {
    let mut sys = system_with_ports(vec![b"Port A".to_vec()]);
    let mut dev = create(&mut sys, Direction::Input, RtMidiApi::Unspecified, "client", 100).unwrap();
    let count = port_count(&mut dev).unwrap();
    assert_eq!(port_name(&mut dev, count), Err(RtMidiError::InvalidPort));
    assert_eq!(port_name(&mut dev, count + 7), Err(RtMidiError::InvalidPort));
    destroy(&mut sys, dev);
}

#[test]
fn port_name_with_undecodable_native_name_is_decoding_error() {
    let mut sys = system_with_ports(vec![vec![0xFF, 0xFE]]);
    let mut dev = create(&mut sys, Direction::Input, RtMidiApi::Unspecified, "client", 100).unwrap();
    assert_eq!(port_name(&mut dev, 0), Err(RtMidiError::DecodingError));
    destroy(&mut sys, dev);
}

#[test]
fn length_query_is_idempotent() {
    let mut sys = system_with_ports(vec![b"Port A".to_vec()]);
    let mut dev = create(&mut sys, Direction::Input, RtMidiApi::Unspecified, "client", 100).unwrap();
    let first = dev.native_port_name_length(0);
    let second = dev.native_port_name_length(0);
    assert_eq!(first, second);
    assert_eq!(first, (0, 7));
    destroy(&mut sys, dev);
}

#[test]
fn open_port_rejects_name_with_embedded_null() {
    let mut sys = system_with_ports(vec![b"Port A".to_vec()]);
    let mut dev = create(&mut sys, Direction::Output, RtMidiApi::Unspecified, "client", 100).unwrap();
    assert_eq!(open_port(&mut dev, 0, "te\0st"), Err(RtMidiError::EncodingError));
    destroy(&mut sys, dev);
}

#[test]
fn open_port_out_of_range_is_native_failure() {
    let mut sys = system_with_ports(vec![b"Port A".to_vec()]);
    let mut dev = create(&mut sys, Direction::Output, RtMidiApi::Unspecified, "client", 100).unwrap();
    assert!(matches!(
        open_port(&mut dev, 5, "test"),
        Err(RtMidiError::NativeFailure(_))
    ));
    destroy(&mut sys, dev);
}

#[test]
fn opening_twice_is_native_failure() {
    let mut sys = system_with_ports(vec![b"Port A".to_vec()]);
    let mut dev = create(&mut sys, Direction::Output, RtMidiApi::Unspecified, "client", 100).unwrap();
    assert_eq!(open_port(&mut dev, 0, "test"), Ok(()));
    assert!(matches!(
        open_port(&mut dev, 0, "test"),
        Err(RtMidiError::NativeFailure(_))
    ));
    destroy(&mut sys, dev);
}

#[test]
fn open_virtual_port_unsupported_backend_fails() {
    let mut sys = system_with_ports(vec![]);
    sys.virtual_ports_supported = false;
    let mut dev = create(&mut sys, Direction::Output, RtMidiApi::Unspecified, "client", 100).unwrap();
    assert!(matches!(
        open_virtual_port(&mut dev, "virtual"),
        Err(RtMidiError::NativeFailure(_))
    ));
    destroy(&mut sys, dev);
}

#[test]
fn open_virtual_port_succeeds_when_supported() {
    let mut sys = system_with_ports(vec![]);
    let mut dev = create(&mut sys, Direction::Output, RtMidiApi::Unspecified, "client", 100).unwrap();
    assert_eq!(open_virtual_port(&mut dev, "virtual"), Ok(()));
    destroy(&mut sys, dev);
}

#[test]
fn output_scenario_open_send_close_close() {
    let mut sys = system_with_ports(vec![b"test".to_vec()]);
    let mut dev = create(&mut sys, Direction::Output, RtMidiApi::Unspecified, "client", 100).unwrap();
    let count = port_count(&mut dev).unwrap();
    assert!(count >= 1);
    assert_eq!(open_port(&mut dev, 0, "test"), Ok(()));
    assert_eq!(send_message(&mut dev, &vec![0x90, 0x3C, 0x64]), Ok(()));
    assert_eq!(dev.sent, vec![vec![0x90, 0x3C, 0x64]]);
    assert_eq!(close_port(&mut dev), Ok(()));
    assert!(matches!(
        close_port(&mut dev),
        Err(RtMidiError::NativeFailure(_))
    ));
    destroy(&mut sys, dev);
}

#[test]
fn send_without_open_port_is_native_failure_and_sends_nothing() {
    let mut sys = system_with_ports(vec![b"Port A".to_vec()]);
    let mut dev = create(&mut sys, Direction::Output, RtMidiApi::Unspecified, "client", 100).unwrap();
    assert!(matches!(
        send_message(&mut dev, &vec![0x90]),
        Err(RtMidiError::NativeFailure(_))
    ));
    assert!(dev.sent.is_empty());
    destroy(&mut sys, dev);
}

#[test]
fn oversized_send_is_message_too_large_and_sends_nothing() {
    let mut sys = system_with_ports(vec![b"Port A".to_vec()]);
    let mut dev = create(&mut sys, Direction::Output, RtMidiApi::Unspecified, "client", 100).unwrap();
    assert_eq!(open_port(&mut dev, 0, "test"), Ok(()));
    let oversized = vec![0u8; 0x8000_0000];
    assert_eq!(send_message(&mut dev, &oversized), Err(RtMidiError::MessageTooLarge));
    assert!(dev.sent.is_empty());
    destroy(&mut sys, dev);
}

#[test]
fn receive_on_empty_queue_is_zero_timestamp_and_empty_buffer() {
    let mut sys = system_with_ports(vec![b"Port A".to_vec()]);
    let mut dev = create(&mut sys, Direction::Input, RtMidiApi::Unspecified, "client", 100).unwrap();
    assert_eq!(receive_message(&mut dev, 1024), Ok((0, Vec::new())));
    destroy(&mut sys, dev);
}

#[test]
fn receive_hands_out_queued_messages_oldest_first() {
    let mut sys = system_with_ports(vec![b"Port A".to_vec()]);
    let mut dev = create(&mut sys, Direction::Input, RtMidiApi::Unspecified, "client", 100).unwrap();
    dev.native_deliver(3, vec![0x90, 0x3C, 0x64]);
    dev.native_deliver(5, vec![0x80, 0x3C, 0x00]);
    assert_eq!(receive_message(&mut dev, 1024), Ok((3, vec![0x90, 0x3C, 0x64])));
    assert_eq!(receive_message(&mut dev, 1024), Ok((5, vec![0x80, 0x3C, 0x00])));
    assert_eq!(receive_message(&mut dev, 1024), Ok((0, Vec::new())));
    destroy(&mut sys, dev);
}

#[test]
fn receive_truncates_to_the_callers_buffer_size() {
    let mut sys = system_with_ports(vec![b"Port A".to_vec()]);
    let mut dev = create(&mut sys, Direction::Input, RtMidiApi::Unspecified, "client", 100).unwrap();
    dev.native_deliver(1, vec![1, 2, 3, 4]);
    assert_eq!(receive_message(&mut dev, 2), Ok((1, vec![1, 2])));
    destroy(&mut sys, dev);
}

#[test]
fn queue_limit_drops_overflowing_messages() {
    let mut sys = system_with_ports(vec![b"Port A".to_vec()]);
    let mut dev = create(&mut sys, Direction::Input, RtMidiApi::Unspecified, "client", 1).unwrap();
    dev.native_deliver(1, vec![0x90]);
    dev.native_deliver(2, vec![0x80]);
    assert_eq!(receive_message(&mut dev, 16), Ok((1, vec![0x90])));
    assert_eq!(receive_message(&mut dev, 16), Ok((0, Vec::new())));
    destroy(&mut sys, dev);
}

#[test]
fn second_callback_registration_fails() {
    let mut sys = system_with_ports(vec![b"Port A".to_vec()]);
    let mut dev = create(&mut sys, Direction::Input, RtMidiApi::Unspecified, "client", 100).unwrap();
    assert_eq!(set_callback(&mut dev), Ok(()));
    assert!(matches!(
        set_callback(&mut dev),
        Err(RtMidiError::NativeFailure(_))
    ));
    assert_eq!(cancel_callback(&mut dev), Ok(()));
    assert_eq!(set_callback(&mut dev), Ok(()));
    destroy(&mut sys, dev);
}

#[test]
fn cancel_without_registration_is_success() {
    let mut sys = system_with_ports(vec![b"Port A".to_vec()]);
    let mut dev = create(&mut sys, Direction::Input, RtMidiApi::Unspecified, "client", 100).unwrap();
    assert_eq!(cancel_callback(&mut dev), Ok(()));
    destroy(&mut sys, dev);
}

#[test]
fn registered_callback_consumes_messages_instead_of_the_queue() {
    let mut sys = system_with_ports(vec![b"Port A".to_vec()]);
    let mut dev = create(&mut sys, Direction::Input, RtMidiApi::Unspecified, "client", 100).unwrap();
    assert_eq!(set_callback(&mut dev), Ok(()));
    dev.native_deliver(1, vec![0x90]);
    assert_eq!(receive_message(&mut dev, 16), Ok((0, Vec::new())));
    assert_eq!(cancel_callback(&mut dev), Ok(()));
    dev.native_deliver(2, vec![0x80]);
    assert_eq!(receive_message(&mut dev, 16), Ok((2, vec![0x80])));
    destroy(&mut sys, dev);
}

#[test]
fn ignore_types_affects_only_later_messages() {
    let mut sys = system_with_ports(vec![b"Port A".to_vec()]);
    let mut dev = create(&mut sys, Direction::Input, RtMidiApi::Unspecified, "client", 100).unwrap();
    dev.native_deliver(1, vec![0xF0, 0x7E]);
    assert_eq!(ignore_types(&mut dev, true, true, true), Ok(()));
    dev.native_deliver(2, vec![0xF0, 0x7D]);
    dev.native_deliver(3, vec![0xF8]);
    dev.native_deliver(4, vec![0xFE]);
    dev.native_deliver(5, vec![0x90, 0x40, 0x40]);
    assert_eq!(receive_message(&mut dev, 16), Ok((1, vec![0xF0, 0x7E])));
    assert_eq!(receive_message(&mut dev, 16), Ok((5, vec![0x90, 0x40, 0x40])));
    assert_eq!(receive_message(&mut dev, 16), Ok((0, Vec::new())));
    destroy(&mut sys, dev);
}

#[test]
fn api_codes_round_trip() {
    let apis = [
        RtMidiApi::Unspecified,
        RtMidiApi::MacOSXCore,
        RtMidiApi::LinuxALSA,
        RtMidiApi::UnixJack,
        RtMidiApi::WindowsMM,
        RtMidiApi::RtMidiDummy,
    ];
    for (i, api) in apis.iter().enumerate() {
        assert_eq!(api.code(), i as i32);
        assert_eq!(RtMidiApi::from(i as i32), *api);
        assert_eq!(RtMidiApi::try_from_code(i as i32), Some(*api));
    }
    assert_eq!(RtMidiApi::try_from_code(6), None);
    assert_eq!(RtMidiApi::try_from_code(-1), None);
}

use usb_echo::control::{
    ControlHandler, ControlRequest, InResponse, InterfaceNumber, OutResponse, Recipient,
    RequestType, COMMAND_REQUEST, COMMAND_VALUE, CONTROL_BUFFER_SIZE, GREETING, GREETING_LEN,
    GREETING_REQUEST, GREETING_VALUE,
};

fn handler(if_num: u8) -> ControlHandler {
    ControlHandler { if_num: InterfaceNumber(if_num) }
}

fn vendor_request(request: u8, value: u16, index: u16, length: u16) -> ControlRequest {
    ControlRequest {
        request_type: RequestType::Vendor,
        recipient: Recipient::Interface,
        request,
        value,
        index,
        length,
    }
}

#[test]
fn constants_have_the_documented_values() {
    assert_eq!(COMMAND_REQUEST, 100);
    assert_eq!(COMMAND_VALUE, 200);
    assert_eq!(GREETING_REQUEST, 101);
    assert_eq!(GREETING_VALUE, 201);
    assert_eq!(GREETING_LEN, 5);
    assert_eq!(CONTROL_BUFFER_SIZE, 64);
    assert_eq!(&GREETING, b"hello");
}

#[test]
fn control_out_accepts_the_command() {
    let r = handler(0).control_out(vendor_request(100, 200, 0, 0), &[]);
    assert_eq!(r, Some(OutResponse::Accepted));
}

#[test]
fn control_out_accepts_the_command_on_another_interface_number() {
    let r = handler(7).control_out(vendor_request(100, 200, 7, 0), &[]);
    assert_eq!(r, Some(OutResponse::Accepted));
}

#[test]
fn control_out_takes_no_notice_of_the_data() {
    let h = handler(0);
    let req = vendor_request(100, 200, 0, 3);
    assert_eq!(h.control_out(req, &[1, 2, 3]), Some(OutResponse::Accepted));
    let other = vendor_request(1, 2, 0, 3);
    assert_eq!(h.control_out(other, &[1, 2, 3]), Some(OutResponse::Rejected));
    assert_eq!(h.control_out(other, &[]), Some(OutResponse::Rejected));
}

#[test]
fn control_out_rejects_other_codes_and_values() {
    let h = handler(0);
    assert_eq!(h.control_out(vendor_request(101, 200, 0, 0), &[]), Some(OutResponse::Rejected));
    assert_eq!(h.control_out(vendor_request(100, 201, 0, 0), &[]), Some(OutResponse::Rejected));
    assert_eq!(h.control_out(vendor_request(99, 200, 0, 0), &[]), Some(OutResponse::Rejected));
    assert_eq!(h.control_out(vendor_request(100, 199, 0, 0), &[]), Some(OutResponse::Rejected));
    assert_eq!(h.control_out(vendor_request(0, 0, 0, 0), &[]), Some(OutResponse::Rejected));
    assert_eq!(h.control_out(vendor_request(255, 65535, 0, 0), &[]), Some(OutResponse::Rejected));
    assert_eq!(h.control_out(vendor_request(101, 201, 0, 5), &[]), Some(OutResponse::Rejected));
}

#[test]
fn control_out_rejects_every_other_code_with_the_right_value() {
    let h = handler(0);
    for request in 0..=255u8 {
        let expected = if request == 100 { OutResponse::Accepted } else { OutResponse::Rejected };
        assert_eq!(h.control_out(vendor_request(request, 200, 0, 0), &[]), Some(expected));
    }
}

#[test]
fn control_out_declines_other_request_types() {
    let h = handler(0);
    for request_type in [RequestType::Standard, RequestType::Class, RequestType::Reserved] {
        let req = ControlRequest { request_type, ..vendor_request(100, 200, 0, 0) };
        assert_eq!(h.control_out(req, &[]), None);
    }
}

#[test]
fn control_out_declines_other_recipients() {
    let h = handler(0);
    for recipient in
        [Recipient::Device, Recipient::Endpoint, Recipient::Other, Recipient::Reserved]
    {
        let req = ControlRequest { recipient, ..vendor_request(100, 200, 0, 0) };
        assert_eq!(h.control_out(req, &[]), None);
    }
}

#[test]
fn control_out_declines_other_interfaces() {
    assert_eq!(handler(0).control_out(vendor_request(100, 200, 1, 0), &[]), None);
    assert_eq!(handler(1).control_out(vendor_request(100, 200, 0, 0), &[]), None);
    assert_eq!(handler(3).control_out(vendor_request(1, 2, 4, 0), &[]), None);
}

#[test]
fn control_out_compares_the_whole_index() {
    // An index whose low byte alone is the interface number names another interface.
    assert_eq!(handler(0).control_out(vendor_request(100, 200, 0x0100, 0), &[]), None);
    assert_eq!(handler(2).control_out(vendor_request(100, 200, 0x0302, 0), &[]), None);
    assert_eq!(
        handler(255).control_out(vendor_request(100, 200, 255, 0), &[]),
        Some(OutResponse::Accepted)
    );
    assert_eq!(handler(255).control_out(vendor_request(100, 200, 0xffff, 0), &[]), None);
}

#[test]
fn control_in_answers_hello() {
    let mut buf = [0u8; 64];
    let r = handler(0).control_in(vendor_request(101, 201, 0, 5), &mut buf);
    assert_eq!(r, Some(InResponse::Accepted(b"hello")));
}

#[test]
fn control_in_payload_has_five_bytes() {
    let mut buf = [0u8; 64];
    match handler(0).control_in(vendor_request(101, 201, 0, 5), &mut buf) {
        Some(InResponse::Accepted(data)) => {
            assert_eq!(data.len(), 5);
            assert_eq!(data, &[0x68, 0x65, 0x6c, 0x6c, 0x6f]);
        }
        other => panic!("unexpected answer {:?}", other),
    }
}

#[test]
fn control_in_writes_only_the_front_of_the_buffer() {
    let mut buf = [0xaau8; 64];
    let _ = handler(0).control_in(vendor_request(101, 201, 0, 5), &mut buf);
    assert_eq!(&buf[..5], b"hello");
    assert!(buf[5..].iter().all(|&b| b == 0xaa));
}

#[test]
fn control_in_answers_into_a_buffer_of_five_bytes() {
    let mut buf = [0u8; 5];
    let r = handler(9).control_in(vendor_request(101, 201, 9, 5), &mut buf);
    assert_eq!(r, Some(InResponse::Accepted(b"hello")));
    assert_eq!(&buf, b"hello");
}

#[test]
fn control_in_rejects_other_lengths() {
    let h = handler(0);
    for length in [0u16, 1, 4, 6, 64, 65535] {
        let mut buf = [0x55u8; 64];
        let r = h.control_in(vendor_request(101, 201, 0, length), &mut buf);
        assert_eq!(r, Some(InResponse::Rejected));
        assert_eq!(buf, [0x55u8; 64]);
    }
}

#[test]
fn control_in_rejects_other_codes_and_values() {
    let h = handler(0);
    for (request, value) in [(100u8, 201u16), (101, 200), (102, 201), (101, 202), (100, 200), (0, 0)]
    {
        let mut buf = [0x55u8; 64];
        let r = h.control_in(vendor_request(request, value, 0, 5), &mut buf);
        assert_eq!(r, Some(InResponse::Rejected));
        assert_eq!(buf, [0x55u8; 64]);
    }
}

#[test]
fn control_in_rejects_into_a_short_buffer() {
    let mut buf = [0u8; 2];
    let r = handler(0).control_in(vendor_request(101, 201, 0, 4), &mut buf);
    assert_eq!(r, Some(InResponse::Rejected));
    let mut empty: [u8; 0] = [];
    let r = handler(0).control_in(vendor_request(7, 7, 0, 0), &mut empty);
    assert_eq!(r, Some(InResponse::Rejected));
}

#[test]
fn control_in_declines_other_request_types() {
    let h = handler(0);
    for request_type in [RequestType::Standard, RequestType::Class, RequestType::Reserved] {
        let mut buf = [0x55u8; 64];
        let req = ControlRequest { request_type, ..vendor_request(101, 201, 0, 5) };
        assert_eq!(h.control_in(req, &mut buf), None);
        assert_eq!(buf, [0x55u8; 64]);
    }
}

#[test]
fn control_in_declines_other_recipients() {
    let h = handler(0);
    for recipient in
        [Recipient::Device, Recipient::Endpoint, Recipient::Other, Recipient::Reserved]
    {
        let mut buf = [0x55u8; 64];
        let req = ControlRequest { recipient, ..vendor_request(101, 201, 0, 5) };
        assert_eq!(h.control_in(req, &mut buf), None);
        assert_eq!(buf, [0x55u8; 64]);
    }
}

#[test]
fn control_in_declines_other_interfaces() {
    let mut buf = [0x55u8; 64];
    assert_eq!(handler(0).control_in(vendor_request(101, 201, 1, 5), &mut buf), None);
    assert_eq!(handler(1).control_in(vendor_request(101, 201, 0, 5), &mut buf), None);
    assert_eq!(handler(0).control_in(vendor_request(101, 201, 0x0100, 5), &mut buf), None);
    assert_eq!(buf, [0x55u8; 64]);
}

#[test]
fn control_in_declines_into_an_empty_buffer() {
    let mut empty: [u8; 0] = [];
    assert_eq!(handler(0).control_in(vendor_request(101, 201, 1, 5), &mut empty), None);
}

#[test]
fn is_owner_of_goes_by_type_recipient_and_index() {
    let h = handler(4);
    assert!(h.is_owner_of(&vendor_request(0, 0, 4, 0)));
    assert!(h.is_owner_of(&vendor_request(100, 200, 4, 0)));
    assert!(!h.is_owner_of(&vendor_request(100, 200, 5, 0)));
    assert!(!h.is_owner_of(&vendor_request(100, 200, 0x0104, 0)));
    let class = ControlRequest { request_type: RequestType::Class, ..vendor_request(100, 200, 4, 0) };
    assert!(!h.is_owner_of(&class));
    let device = ControlRequest { recipient: Recipient::Device, ..vendor_request(100, 200, 4, 0) };
    assert!(!h.is_owner_of(&device));
}

#[test]
fn wants_greeting_only_for_the_greeting_request() {
    let h = handler(4);
    assert!(h.wants_greeting(&vendor_request(101, 201, 4, 5)));
    assert!(!h.wants_greeting(&vendor_request(101, 201, 4, 6)));
    assert!(!h.wants_greeting(&vendor_request(101, 200, 4, 5)));
    assert!(!h.wants_greeting(&vendor_request(100, 201, 4, 5)));
    assert!(!h.wants_greeting(&vendor_request(101, 201, 3, 5)));
    let standard =
        ControlRequest { request_type: RequestType::Standard, ..vendor_request(101, 201, 4, 5) };
    assert!(!h.wants_greeting(&standard));
}

#[test]
fn two_handlers_never_both_answer() {
    let first = handler(0);
    let second = handler(1);
    for index in 0..4u16 {
        for (request, value, length) in [(100u8, 200u16, 0u16), (101, 201, 5), (1, 1, 1)] {
            let req = vendor_request(request, value, index, length);
            let out = (first.control_out(req, &[]), second.control_out(req, &[]));
            assert!(out.0.is_none() || out.1.is_none());
            let mut a = [0u8; 64];
            let mut b = [0u8; 64];
            let handled_by_first = first.control_in(req, &mut a).is_some();
            let handled_by_second = second.control_in(req, &mut b).is_some();
            assert!(!(handled_by_first && handled_by_second));
            assert_eq!(handled_by_first, index == 0);
            assert_eq!(handled_by_second, index == 1);
        }
    }
}

#[test]
fn both_transfers_have_the_same_owner() {
    let h = handler(2);
    for index in 0..4u16 {
        for request_type in
            [RequestType::Standard, RequestType::Class, RequestType::Vendor, RequestType::Reserved]
        {
            for recipient in [
                Recipient::Device,
                Recipient::Interface,
                Recipient::Endpoint,
                Recipient::Other,
                Recipient::Reserved,
            ] {
                let req = ControlRequest {
                    request_type,
                    recipient,
                    request: 100,
                    value: 200,
                    index,
                    length: 0,
                };
                let mut buf = [0u8; 64];
                let owned = request_type == RequestType::Vendor
                    && recipient == Recipient::Interface
                    && index == 2;
                assert_eq!(h.control_out(req, &[]).is_some(), owned);
                assert_eq!(h.control_in(req, &mut buf).is_some(), owned);
                assert_eq!(h.is_owner_of(&req), owned);
            }
        }
    }
}

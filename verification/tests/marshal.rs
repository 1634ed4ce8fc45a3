use gears_bridge::marshal::{marshal, MarshalError};
use gears_bridge::reply::{
    format_attribute, reply_type_attribute, GuestValue, HostReply, ReplyKind,
};
use gears_bridge::text::{decode_text, joined, owned};

fn text(s: &str, kind: ReplyKind) -> GuestValue {
    GuestValue::Text { text: s.to_string(), kind, format: None }
}

#[test]
fn status_reply_is_tagged_status() {
    let got = marshal(HostReply::Status("OK".to_string()), true);
    assert_eq!(got, Ok(text("OK", ReplyKind::Status)));
    match got {
        Ok(GuestValue::Text { text, kind, format }) => {
            assert_eq!(text, "OK");
            assert_eq!(kind, ReplyKind::Status);
            assert_eq!(kind.tag(), "status");
            assert_eq!(format, None);
        }
        _ => panic!("a status reply marshals to a tagged string"),
    }
}

#[test]
fn status_reply_ignores_decoding_mode() {
    assert_eq!(
        marshal(HostReply::Status("OK".to_string()), false),
        Ok(text("OK", ReplyKind::Status))
    );
}

#[test]
fn bulk_reply_is_tagged_bulk_string() {
    assert_eq!(
        marshal(HostReply::Bulk("value".to_string()), true),
        Ok(text("value", ReplyKind::BulkString))
    );
}

#[test]
fn big_number_reply_is_tagged_big_number() {
    assert_eq!(
        marshal(HostReply::BigNumber("12345678901234567890123".to_string()), true),
        Ok(text("12345678901234567890123", ReplyKind::BigNumber))
    );
}

#[test]
fn verbatim_reply_keeps_its_format() {
    assert_eq!(
        marshal(HostReply::Verbatim("txt".to_string(), "hello".to_string()), true),
        Ok(GuestValue::Text {
            text: "hello".to_string(),
            kind: ReplyKind::Verbatim,
            format: Some("txt".to_string()),
        })
    );
}

#[test]
fn error_reply_raises_the_host_message() {
    assert_eq!(
        marshal(HostReply::Error("ERR unknown command".to_string()), true),
        Err(vec![MarshalError::Host("ERR unknown command".to_string())])
    );
}

#[test]
fn scalars_pass_through() {
    assert_eq!(marshal(HostReply::Integer(-7), true), Ok(GuestValue::Integer(-7)));
    assert_eq!(
        marshal(HostReply::Double(1.5f64.to_bits()), true),
        Ok(GuestValue::Double(1.5f64.to_bits()))
    );
    assert_eq!(marshal(HostReply::Bool(true), false), Ok(GuestValue::Bool(true)));
    assert_eq!(marshal(HostReply::Null, true), Ok(GuestValue::Null));
}

#[test]
fn buffer_decodes_to_bulk_string_when_text_is_asked() {
    assert_eq!(
        marshal(HostReply::Buffer("héllo".as_bytes().to_vec()), true),
        Ok(text("héllo", ReplyKind::BulkString))
    );
}

#[test]
fn buffer_stays_binary_when_raw_is_asked() {
    assert_eq!(
        marshal(HostReply::Buffer(vec![0xff, 0x00, 0x41]), false),
        Ok(GuestValue::Buffer(vec![0xff, 0x00, 0x41]))
    );
}

#[test]
fn invalid_buffer_stays_binary_when_text_is_asked() {
    assert_eq!(
        marshal(HostReply::Buffer(vec![0xff, 0xfe]), true),
        Ok(GuestValue::Buffer(vec![0xff, 0xfe]))
    );
}

#[test]
fn array_marshals_every_element_in_order() {
    let reply = HostReply::Array(vec![
        HostReply::Integer(1),
        HostReply::Status("OK".to_string()),
        HostReply::Array(vec![HostReply::Null]),
    ]);
    assert_eq!(
        marshal(reply, true),
        Ok(GuestValue::Array(vec![
            GuestValue::Integer(1),
            text("OK", ReplyKind::Status),
            GuestValue::Array(vec![GuestValue::Null]),
        ]))
    );
}

#[test]
fn empty_array_marshals_to_empty_array() {
    assert_eq!(marshal(HostReply::Array(vec![]), true), Ok(GuestValue::Array(vec![])));
}

#[test]
fn array_with_failures_raises_all_of_them_in_order() {
    let reply = HostReply::Array(vec![
        HostReply::Error("first".to_string()),
        HostReply::Integer(1),
        HostReply::Members(vec![vec![0xff]]),
        HostReply::Error("last".to_string()),
    ]);
    assert_eq!(
        marshal(reply, true),
        Err(vec![
            MarshalError::Host("first".to_string()),
            MarshalError::InvalidText,
            MarshalError::Host("last".to_string()),
        ])
    );
}

#[test]
fn mapping_becomes_object_with_text_keys() {
    let reply = HostReply::Mapping(vec![
        (b"name".to_vec(), HostReply::Bulk("Ada".to_string())),
        (b"age".to_vec(), HostReply::Integer(36)),
    ]);
    assert_eq!(
        marshal(reply, true),
        Ok(GuestValue::Object(vec![
            ("name".to_string(), text("Ada", ReplyKind::BulkString)),
            ("age".to_string(), GuestValue::Integer(36)),
        ]))
    );
}

#[test]
fn mapping_with_invalid_key_fails() {
    let reply = HostReply::Mapping(vec![
        (b"ok".to_vec(), HostReply::Integer(1)),
        (vec![0xc3, 0x28], HostReply::Integer(2)),
        (b"later".to_vec(), HostReply::Error("never reached".to_string())),
    ]);
    assert_eq!(marshal(reply, true), Err(vec![MarshalError::InvalidText]));
}

#[test]
fn mapping_stops_at_first_failing_value() {
    let reply = HostReply::Mapping(vec![
        (b"a".to_vec(), HostReply::Error("boom".to_string())),
        (b"b".to_vec(), HostReply::Error("never reached".to_string())),
    ]);
    assert_eq!(marshal(reply, true), Err(vec![MarshalError::Host("boom".to_string())]));
}

#[test]
fn mapping_in_raw_mode_fails_on_its_first_key() {
    let reply = HostReply::Mapping(vec![(b"k".to_vec(), HostReply::Integer(1))]);
    assert_eq!(marshal(reply, false), Err(vec![MarshalError::BinaryMapKey]));
}

#[test]
fn empty_mapping_marshals_in_raw_mode() {
    assert_eq!(marshal(HostReply::Mapping(vec![]), false), Ok(GuestValue::Object(vec![])));
}

#[test]
fn set_becomes_guest_set_of_texts() {
    let reply = HostReply::Members(vec![b"a".to_vec(), "ß".as_bytes().to_vec()]);
    assert_eq!(
        marshal(reply, true),
        Ok(GuestValue::Members(vec!["a".to_string(), "ß".to_string()]))
    );
}

#[test]
fn set_with_invalid_member_fails() {
    let reply = HostReply::Members(vec![b"a".to_vec(), vec![0x80]]);
    assert_eq!(marshal(reply, true), Err(vec![MarshalError::InvalidText]));
}

#[test]
fn set_in_raw_mode_fails_on_its_first_member() {
    let reply = HostReply::Members(vec![b"a".to_vec()]);
    assert_eq!(marshal(reply, false), Err(vec![MarshalError::BinarySetMember]));
}

#[test]
fn invalid_key_deep_inside_fails_the_whole_reply() {
    let reply = HostReply::Array(vec![
        HostReply::Integer(1),
        HostReply::Mapping(vec![(
            b"outer".to_vec(),
            HostReply::Members(vec![vec![0xff]]),
        )]),
    ]);
    assert_eq!(marshal(reply, true), Err(vec![MarshalError::InvalidText]));
}

#[test]
fn decode_text_decodes_valid_utf8() {
    assert_eq!(decode_text(vec![0xe2, 0x82, 0xac]), Ok("€".to_string()));
    assert_eq!(decode_text(vec![]), Ok(String::new()));
}

#[test]
fn decode_text_rejects_invalid_utf8() {
    assert_eq!(decode_text(vec![0xe2, 0x82]), Err(vec![0xe2, 0x82]));
    assert_eq!(decode_text(vec![0xed, 0xa0, 0x80]), Err(vec![0xed, 0xa0, 0x80]));
}

#[test]
fn decoded_text_encodes_back_to_the_bytes() {
    let bytes = "naïve — text".as_bytes().to_vec();
    let text = decode_text(bytes.clone()).unwrap();
    assert_eq!(text.as_bytes(), &bytes[..]);
}

#[test]
fn string_helpers_build_the_expected_text() {
    assert_eq!(owned("abc"), "abc");
    assert_eq!(joined("Can not lock Redis, ", "busy"), "Can not lock Redis, busy");
}

#[test]
fn reply_kinds_have_their_tags() {
    assert_eq!(ReplyKind::Status.tag(), "status");
    assert_eq!(ReplyKind::BulkString.tag(), "bulk_string");
    assert_eq!(ReplyKind::BigNumber.tag(), "big_number");
    assert_eq!(ReplyKind::Verbatim.tag(), "verbatim");
    assert_eq!(reply_type_attribute(), "__reply_type");
    assert_eq!(format_attribute(), "__ext");
}

#[test]
fn marshal_error_messages() {
    assert_eq!(MarshalError::Host("WRONGTYPE x".to_string()).message(), "WRONGTYPE x");
    assert_eq!(MarshalError::InvalidText.message(), "Could not decode value as string");
    assert_eq!(MarshalError::BinaryMapKey.message(), "Binary map key is not supported");
    assert_eq!(MarshalError::BinarySetMember.message(), "Binary set element is not supported");
}

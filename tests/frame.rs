use skystreamer::frame::{decode_frame, decode_header, Frame, FrameError, FrameHeader, MessageFrame};

fn serialized_data(s: &str) -> Vec<u8> {
    assert!(s.len() % 2 == 0);
    let b2u = |b: u8| match b {
        b'0'..=b'9' => b - b'0',
        b'a'..=b'f' => b - b'a' + 10,
        _ => unreachable!(),
    };
    s.as_bytes()
        .chunks(2)
        .map(|b| (b2u(b[0]) << 4) + b2u(b[1]))
        .collect()
}

#[test]
fn types_deserialize_message_frame_header() {
    // {"op": 1, "t": "#commit"}
    let data = serialized_data("a2626f700161746723636f6d6d6974");
    let result = decode_header(&data);
    assert_eq!(
        result.expect("failed to deserialize"),
        FrameHeader::Message(Some(String::from("#commit")))
    );
}

#[test]
fn types_deserialize_error_frame_header() {
    // {"op": -1}
    let data = serialized_data("a1626f7020");
    let result = decode_header(&data);
    assert_eq!(result.expect("failed to deserialize"), FrameHeader::Error);
}

#[test]
fn types_deserialize_invalid_frame_header() {
    {
        // {"op": 2, "t": "#commit"}
        let data = serialized_data("a2626f700261746723636f6d6d6974");
        let result = decode_header(&data);
        assert_eq!(result.expect_err("must be failed").message(), "invalid frame type");
    }
    {
        // {"op": -2}
        let data = serialized_data("a1626f7021");
        let result = decode_header(&data);
        assert_eq!(result.expect_err("must be failed").message(), "invalid frame type");
    }
}

#[test]
fn message_frame_keeps_body_after_header() {
    let mut data = serialized_data("a2626f700161746723636f6d6d6974");
    // a second value: the text "hi"
    data.extend_from_slice(&[0x62, 0x68, 0x69]);
    let frame = decode_frame(&data).expect("frame");
    assert_eq!(
        frame,
        Frame::Message(Some(String::from("#commit")), MessageFrame { body: vec![0x62, 0x68, 0x69] })
    );
}

#[test]
fn error_frame_ignores_body() {
    let mut data = serialized_data("a1626f7020");
    data.extend_from_slice(&[0x01]);
    assert!(matches!(decode_frame(&data), Ok(Frame::Error(_))));
}

#[test]
fn invalid_op_in_frame_is_invalid_frame_type() {
    let mut data = serialized_data("a2626f700261746723636f6d6d6974");
    data.extend_from_slice(&[0x01]);
    assert_eq!(decode_frame(&data), Err(FrameError::InvalidFrameType));
}

#[test]
fn single_value_is_invalid_frame_data() {
    let data = serialized_data("a2626f700161746723636f6d6d6974");
    assert_eq!(decode_frame(&data), Err(FrameError::InvalidFrameData(data.clone())));
}

#[test]
fn header_that_is_not_a_map_is_invalid_frame_type() {
    // the integer 1, then another byte
    assert_eq!(decode_frame(&[0x01, 0x01]), Err(FrameError::InvalidFrameType));
}

#[test]
fn empty_input_is_invalid_frame_data() {
    assert_eq!(decode_frame(&[]), Err(FrameError::InvalidFrameData(vec![])));
}

use ws_tunnel::bridge::keeps_reading;
use ws_tunnel::command::{ControllerCommand, Reading};
use ws_tunnel::endpoint::{first_frame, Naming};
use ws_tunnel::frame::Frame;
use ws_tunnel::id::ConnectionId;
use ws_tunnel::routes::{connect_route, connect_url, control_route, control_url};

fn wire_ones() -> ConnectionId {
    ConnectionId::from_u128(0x11111111_1111_1111_1111_111111111111)
}

#[test]
fn ack_is_the_text_ack() {
    assert_eq!(Frame::ack(), Frame::Text("ack".to_string()));
    assert!(Frame::ack().is_ack());
    assert!(Frame::text("ack").is_ack());
}

#[test]
fn nothing_else_is_an_ack() {
    assert!(!Frame::text("ACK").is_ack());
    assert!(!Frame::text("ack ").is_ack());
    assert!(!Frame::text("").is_ack());
    assert!(!Frame::text("ac").is_ack());
    assert!(!Frame::binary(b"ack".to_vec()).is_ack());
    assert!(!Frame::Ping.is_ack());
    assert!(!Frame::Pong.is_ack());
    assert!(!Frame::Close.is_ack());
}

#[test]
fn frames_hold_what_they_were_made_of() {
    assert_eq!(Frame::text("hello"), Frame::Text("hello".to_string()));
    assert_eq!(Frame::binary(vec![1, 2, 3]), Frame::Binary(vec![1, 2, 3]));
    assert_eq!(Frame::binary(Vec::new()), Frame::Binary(Vec::new()));
}

#[test]
fn naming_frame_is_the_canonical_text() {
    assert_eq!(
        Frame::naming(wire_ones()),
        Frame::Text("11111111-1111-1111-1111-111111111111".to_string())
    );
}

#[test]
fn new_connection_is_encoded_as_its_identifier() {
    let command = ControllerCommand::NewConnection(wire_ones());
    assert_eq!(
        command.encode(),
        Frame::Text("11111111-1111-1111-1111-111111111111".to_string())
    );
}

#[test]
fn every_encoded_command_is_decoded_as_itself() {
    let mut value: u128 = 7;
    for _ in 0..500 {
        value = value
            .wrapping_mul(0x2360ed051fc65da4_4385df649fccf645)
            .wrapping_add(0x5851f42d4c957f2d_14057b7ef767814f);
        let command = ControllerCommand::NewConnection(ConnectionId::from_u128(value));
        assert_eq!(
            ControllerCommand::decode(&command.encode()),
            Reading::Command(command)
        );
    }
}

#[test]
fn text_that_is_no_identifier_is_invalid() {
    assert_eq!(
        ControllerCommand::decode(&Frame::text("open sesame")),
        Reading::Invalid
    );
    assert_eq!(ControllerCommand::decode(&Frame::text("")), Reading::Invalid);
    assert_eq!(
        ControllerCommand::decode(&Frame::text("11111111-1111-1111-1111-111111111111\n")),
        Reading::Invalid
    );
}

#[test]
fn frames_that_are_no_text_are_ignored_as_commands() {
    let text = b"11111111-1111-1111-1111-111111111111".to_vec();
    assert_eq!(
        ControllerCommand::decode(&Frame::binary(text)),
        Reading::Ignored
    );
    assert_eq!(ControllerCommand::decode(&Frame::Ping), Reading::Ignored);
    assert_eq!(ControllerCommand::decode(&Frame::Pong), Reading::Ignored);
    assert_eq!(ControllerCommand::decode(&Frame::Close), Reading::Ignored);
}

#[test]
fn first_frame_names_the_connection() {
    let frame = Some(Frame::naming(wire_ones()));
    assert_eq!(first_frame(&frame), Naming::Named(wire_ones()));
}

#[test]
fn first_frame_may_be_padded_with_white_space() {
    let padded = Some(Frame::text(
        " \t11111111-1111-1111-1111-111111111111\r\n",
    ));
    assert_eq!(first_frame(&padded), Naming::Named(wire_ones()));
    let wide = Some(Frame::text(
        "\u{3000}11111111-1111-1111-1111-111111111111\u{a0}",
    ));
    assert_eq!(first_frame(&wide), Naming::Named(wire_ones()));
}

#[test]
fn first_frame_with_white_space_inside_is_malformed() {
    let broken = Some(Frame::text("11111111-1111 -1111-1111-111111111111"));
    assert_eq!(first_frame(&broken), Naming::Malformed);
}

#[test]
fn first_frame_that_is_no_identifier_is_malformed() {
    assert_eq!(first_frame(&Some(Frame::text("hello"))), Naming::Malformed);
    assert_eq!(first_frame(&Some(Frame::text(""))), Naming::Malformed);
    assert_eq!(first_frame(&Some(Frame::text("   "))), Naming::Malformed);
}

#[test]
fn first_frame_that_is_no_text_is_unexpected() {
    let text = b"11111111-1111-1111-1111-111111111111".to_vec();
    assert_eq!(first_frame(&Some(Frame::binary(text))), Naming::Unexpected);
    assert_eq!(first_frame(&Some(Frame::Ping)), Naming::Unexpected);
    assert_eq!(first_frame(&Some(Frame::Pong)), Naming::Unexpected);
    assert_eq!(first_frame(&Some(Frame::Close)), Naming::Unexpected);
    assert_eq!(first_frame(&None), Naming::Unexpected);
}

#[test]
fn white_space_is_what_unicode_says() {
    let white: [u32; 25] = [
        0x09, 0x0a, 0x0b, 0x0c, 0x0d, 0x20, 0x85, 0xa0, 0x1680, 0x2000, 0x2001, 0x2002, 0x2003,
        0x2004, 0x2005, 0x2006, 0x2007, 0x2008, 0x2009, 0x200a, 0x2028, 0x2029, 0x202f, 0x205f,
        0x3000,
    ];
    for n in 0..=0x10ffffu32 {
        let c = match char::from_u32(n) {
            Some(c) => c,
            None => continue,
        };
        let padded = format!("{c}11111111-1111-1111-1111-111111111111");
        let reading = first_frame(&Some(Frame::Text(padded)));
        if white.contains(&n) {
            assert_eq!(reading, Naming::Named(wire_ones()));
        } else {
            assert_eq!(reading, Naming::Malformed);
        }
        let trailed = format!("11111111-1111-1111-1111-111111111111{c}");
        let reading = first_frame(&Some(Frame::Text(trailed)));
        if white.contains(&n) {
            assert_eq!(reading, Naming::Named(wire_ones()));
        } else {
            assert_eq!(reading, Naming::Malformed);
        }
    }
}

#[test]
fn control_reader_minds_only_the_close_frame() {
    assert!(keeps_reading(&Some(Frame::text("anything"))));
    assert!(keeps_reading(&Some(Frame::binary(vec![0]))));
    assert!(keeps_reading(&Some(Frame::Ping)));
    assert!(keeps_reading(&Some(Frame::Pong)));
    assert!(!keeps_reading(&Some(Frame::Close)));
    assert!(!keeps_reading(&None));
}

#[test]
fn routes_and_addresses() {
    assert_eq!(control_route(), "/control");
    assert_eq!(connect_route(), "/connect");
    assert_eq!(
        control_url("ws://edge.example"),
        "ws://edge.example/control"
    );
    assert_eq!(
        connect_url("ws://edge.example"),
        "ws://edge.example/connect"
    );
    assert_eq!(control_url(""), "/control");
    assert_eq!(connect_url(""), "/connect");
}

use overlive_bridge::events::Event;

#[test]
fn channel_names_are_fixed_per_protocol() {
    assert_eq!(Event::LineConnected.channel(), "a-connected");
    assert_eq!(Event::LineMessage(b"x\n".to_vec()).channel(), "a-message");
    assert_eq!(Event::LineDisconnected.channel(), "a-disconnected");
    assert_eq!(Event::WsMessage(String::from("x")).channel(), "b-message");
    assert_eq!(Event::WsDisconnected.channel(), "b-disconnected");
}

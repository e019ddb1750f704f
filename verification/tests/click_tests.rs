use swaybar::click::{get_mouse_handler, route_click, strip_leading_commas, MouseHandler};

#[test]
fn malformed_line_is_ignored_then_valid_line_routes_wifi() {
    // A malformed line routes nowhere; the following valid line still
    // dispatches the wifi click action, exactly once.
    assert_eq!(route_click("not json"), None);
    let routed = route_click("{\"instance\":\"wifi\"}");
    assert_eq!(routed, Some(MouseHandler::WifiClick));
}

#[test]
fn leading_commas_are_tolerated() {
    assert_eq!(
        route_click(",{\"instance\":\"volume\"}"),
        Some(MouseHandler::VolumeClick)
    );
    assert_eq!(
        route_click(",,{\"instance\":\"volume\"}"),
        Some(MouseHandler::VolumeClick)
    );
    assert_eq!(strip_leading_commas(",,abc"), "abc");
    assert_eq!(strip_leading_commas("abc,"), "abc,");
    assert_eq!(strip_leading_commas(",,,"), "");
    assert_eq!(strip_leading_commas(""), "");
}

#[test]
fn unknown_instances_route_to_noop() {
    assert_eq!(
        route_click("{\"instance\":\"battery\"}"),
        Some(MouseHandler::MouseNoop)
    );
    // A JSON object without an instance string reads as empty: no-op.
    assert_eq!(route_click("{\"name\":\"x\"}"), Some(MouseHandler::MouseNoop));
    assert_eq!(route_click("{\"instance\":7}"), Some(MouseHandler::MouseNoop));
}

#[test]
fn mouse_handler_dispatch() {
    assert_eq!(get_mouse_handler("wifi"), MouseHandler::WifiClick);
    assert_eq!(get_mouse_handler("volume"), MouseHandler::VolumeClick);
    assert_eq!(get_mouse_handler(""), MouseHandler::MouseNoop);
    assert_eq!(get_mouse_handler("date"), MouseHandler::MouseNoop);
}

use editor_widgets::handle::NodeHandle;
use editor_widgets::socket::{BrushRequest, Rgb, Socket, SocketBuilder, SocketEvent};

fn grey(v: u8) -> Rgb {
    Rgb { r: v, g: v, b: v }
}

#[test]
fn builder_starts_unanchored() {
    let b = SocketBuilder::new();
    assert_eq!(b.parent_node, NodeHandle::none());
}

#[test]
fn builder_keeps_anchor() {
    let anchor = NodeHandle::new(11, 3);
    let b = SocketBuilder::new().with_parent_node(anchor);
    assert_eq!(b.parent_node, anchor);
}

#[test]
fn built_socket_shows_normal_brush() {
    let handle = NodeHandle::new(7, 1);
    let s = SocketBuilder::new()
        .with_parent_node(NodeHandle::new(11, 3))
        .build(handle);
    assert_eq!(s.handle, handle);
    assert_eq!(s.parent_node, NodeHandle::new(11, 3));
    assert_eq!(s.foreground, grey(120));
}

#[test]
fn mouse_enter_requests_highlight_on_itself() {
    let s = SocketBuilder::new().build(NodeHandle::new(7, 1));
    let r = s.handle_routed_message(&SocketEvent::MouseEnter);
    assert_eq!(
        r,
        Some(BrushRequest { destination: NodeHandle::new(7, 1), brush: grey(170) })
    );
}

#[test]
fn mouse_leave_requests_normal_on_itself() {
    let s = SocketBuilder::new().build(NodeHandle::new(7, 1));
    let r = s.handle_routed_message(&SocketEvent::MouseLeave);
    assert_eq!(
        r,
        Some(BrushRequest { destination: NodeHandle::new(7, 1), brush: grey(120) })
    );
}

#[test]
fn other_messages_are_ignored() {
    let s = SocketBuilder::new().build(NodeHandle::new(7, 1));
    assert_eq!(s.handle_routed_message(&SocketEvent::Other), None);
}

#[test]
fn enter_then_leave_restores_built_brush() {
    let mut s = SocketBuilder::new().build(NodeHandle::new(7, 1));
    let built = s.foreground;

    let enter = s.handle_routed_message(&SocketEvent::MouseEnter).unwrap();
    s.apply_brush_request(&enter);
    assert_eq!(s.foreground, grey(170));

    let leave = s.handle_routed_message(&SocketEvent::MouseLeave).unwrap();
    s.apply_brush_request(&leave);
    assert_eq!(s.foreground, built);
}

#[test]
fn apply_changes_only_the_brush() {
    let mut s = SocketBuilder::new()
        .with_parent_node(NodeHandle::new(2, 9))
        .build(NodeHandle::new(7, 1));
    let req = BrushRequest { destination: s.handle, brush: grey(170) };
    s.apply_brush_request(&req);
    assert_eq!(s.handle, NodeHandle::new(7, 1));
    assert_eq!(s.parent_node, NodeHandle::new(2, 9));
    assert_eq!(s.foreground, grey(170));
}

//! The socket control: a small circular, clickable node anchored to a
//! pose-graph node. The host paints it and routes pointer messages to it;
//! the control's own behaviour is to swap its foreground brush between a
//! normal and a highlighted grey as the pointer leaves or enters it.

use vstd::prelude::*;
use crate::handle::NodeHandle;

verus! {

/// A solid, fully opaque colour, as the control's foreground brush holds it.
#[derive(Clone, Copy, Debug, PartialEq, Eq, Structural)]
pub struct Rgb {
    pub r: u8,
    pub g: u8,
    pub b: u8,
}

/// The brush a socket shows while the pointer is elsewhere.
pub open spec fn normal_brush() -> Rgb {
    Rgb { r: 120, g: 120, b: 120 }
}

/// The brush a socket shows while the pointer hovers over it.
pub open spec fn picked_brush() -> Rgb {
    Rgb { r: 170, g: 170, b: 170 }
}

/// The brush a socket shows while the pointer is elsewhere.
pub fn normal_brush_color() -> (r: Rgb)
    ensures
        r == normal_brush(),
{
    Rgb { r: 120, g: 120, b: 120 }
}

/// The brush a socket shows while the pointer hovers over it.
pub fn picked_brush_color() -> (r: Rgb)
    ensures
        r == picked_brush(),
{
    Rgb { r: 170, g: 170, b: 170 }
}

/// The routed widget messages the socket distinguishes. Everything else the
/// host may route to it falls under `Other` and is left to the base widget.
#[derive(Clone, Copy, Debug, PartialEq, Eq, Structural)]
pub enum SocketEvent {
    MouseEnter,
    MouseLeave,
    Other,
}

/// A request to the host's message bus: set the foreground brush of the
/// widget at `destination`.
#[derive(Clone, Copy, Debug, PartialEq, Eq, Structural)]
pub struct BrushRequest {
    pub destination: NodeHandle,
    pub brush: Rgb,
}

/// What a socket with widget handle `handle` asks of the message bus when a
/// pointer event reaches it: highlight on enter, revert on leave, nothing
/// otherwise. Every request is addressed to the socket itself.
pub open spec fn brush_response(handle: NodeHandle, event: SocketEvent) -> Option<BrushRequest> {
    match event {
        SocketEvent::MouseEnter => Some(
            BrushRequest { destination: handle, brush: picked_brush() },
        ),
        SocketEvent::MouseLeave => Some(
            BrushRequest { destination: handle, brush: normal_brush() },
        ),
        SocketEvent::Other => None,
    }
}

/// The socket control's own state: its handle in the widget tree, the
/// pose-graph node it is anchored to, and its current foreground brush.
#[derive(Clone, Copy, Debug, PartialEq, Eq, Structural)]
pub struct Socket {
    pub handle: NodeHandle,
    pub parent_node: NodeHandle,
    pub foreground: Rgb,
}

impl Socket {
    /// Decide on a routed pointer message. The socket itself does not change;
    /// it asks the bus to update its foreground, and the host routes that
    /// request back to it (see `apply_brush_request`).
    pub fn handle_routed_message(&self, event: &SocketEvent) -> (r: Option<BrushRequest>)
        ensures
            r == brush_response(self.handle, *event),
    {
        match event {
            SocketEvent::MouseEnter => Some(
                BrushRequest { destination: self.handle, brush: Rgb { r: 170, g: 170, b: 170 } },
            ),
            SocketEvent::MouseLeave => Some(
                BrushRequest { destination: self.handle, brush: Rgb { r: 120, g: 120, b: 120 } },
            ),
            SocketEvent::Other => None,
        }
    }

    /// Apply a brush request that the host routed to this widget; routing
    /// delivers a request only to the widget it is addressed to.
    pub fn apply_brush_request(&mut self, request: &BrushRequest)
        requires
            request.destination == old(self).handle,
        ensures
            *final(self) == (Socket { foreground: request.brush, ..*old(self) }),
    {
        self.foreground = request.brush;
    }
}

/// Gathers what a socket is built from. The host's widget builder carries the
/// rest (position, size, children); this slice only ever sets the anchor.
#[derive(Clone, Copy, Debug, PartialEq, Eq, Structural)]
pub struct SocketBuilder {
    pub parent_node: NodeHandle,
}

impl SocketBuilder {
    /// A fresh builder, anchored to nothing.
    pub fn new() -> (r: SocketBuilder)
        ensures
            r.parent_node == NodeHandle::none_spec(),
    {
        SocketBuilder { parent_node: NodeHandle::none() }
    }

    pub fn with_parent_node(self, parent_node: NodeHandle) -> (r: SocketBuilder)
        ensures
            r.parent_node == parent_node,
    {
        SocketBuilder { parent_node }
    }

    /// Finish the socket once the host has assigned it the widget handle
    /// `handle`. A new socket starts with the normal brush.
    pub fn build(self, handle: NodeHandle) -> (r: Socket)
        ensures
            r.handle == handle,
            r.parent_node == self.parent_node,
            r.foreground == normal_brush(),
    {
        Socket { handle, parent_node: self.parent_node, foreground: Rgb { r: 120, g: 120, b: 120 } }
    }
}

/// Hovering is reversible: whatever a socket asks for on `MouseEnter`, the
/// request it asks for on `MouseLeave` restores the brush a fresh socket was
/// built with, and both requests are addressed to the socket itself.
pub proof fn lemma_leave_restores_built_brush(handle: NodeHandle)
    ensures
        brush_response(handle, SocketEvent::MouseLeave)
            == Some(BrushRequest { destination: handle, brush: normal_brush() }),
        brush_response(handle, SocketEvent::MouseEnter)
            == Some(BrushRequest { destination: handle, brush: picked_brush() }),
{
}

} // verus!

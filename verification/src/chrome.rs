//! Decision rules of the macOS window-chrome customizer: where the
//! traffic-light buttons go, and what the forwarding window delegate does
//! for each intercepted native callback. The native positioning itself
//! (floating-point frame math through the Objective-C runtime) stays with
//! the host.
use vstd::prelude::*;

verus! {

/// Logical offset of the traffic-light buttons from the window's top-left.
pub struct TrafficLightPosition {
    pub x: u32,
    pub y: u32,
}

/// Button offset for a window with a visible title bar.
pub fn traffic_light_position_default() -> (r: TrafficLightPosition)
    ensures
        r.x == 12,
        r.y == 12,
{
    TrafficLightPosition { x: 12, y: 12 }
}

/// Button offset for an overlay title bar: lower on systems whose major
/// version reports 26 or newer, where the title bar grew taller.
pub fn traffic_light_position_overlay(os_major: u64) -> (r: TrafficLightPosition)
    ensures
        r.x == 12,
        os_major >= 26 ==> r.y == 30,
        os_major < 26 ==> r.y == 26,
{
    if os_major >= 26 {
        TrafficLightPosition { x: 12, y: 30 }
    } else {
        TrafficLightPosition { x: 12, y: 26 }
    }
}

/// The native window-delegate callbacks the customizer intercepts.
pub enum WindowCallback {
    ShouldClose,
    WillClose,
    DidResize,
    DidMove,
    DidChangeBackingProperties,
    DidBecomeKey,
    DidResignKey,
    DraggingEntered,
    PrepareForDragOperation,
    PerformDragOperation,
    ConcludeDragOperation,
    DraggingExited,
    WillUseFullScreenPresentationOptions,
    DidEnterFullScreen,
    WillEnterFullScreen,
    DidExitFullScreen,
    WillExitFullScreen,
    DidFailToEnterFullScreen,
    EffectiveAppearanceDidChange,
    EffectiveAppearanceDidChangedOnMainThread,
}

/// What the forwarding delegate does for one intercepted callback.
pub struct DelegateResponse {
    /// Reapply the stored traffic-light position.
    pub reposition_traffic_lights: bool,
    /// Event name re-emitted to the frontend, when any.
    pub emit_event: Option<String>,
    /// The callback is always handed on to the previously installed
    /// delegate, so nothing else in the host toolkit regresses.
    pub forward_to_previous_delegate: bool,
}

/// Resolve one intercepted delegate callback: reposition after a resize
/// and after leaving fullscreen, re-emit the four fullscreen transitions
/// to the frontend, and forward every callback unchanged.
pub fn delegate_response(callback: &WindowCallback) -> (r: DelegateResponse)
    ensures
        r.forward_to_previous_delegate,
        r.reposition_traffic_lights == (callback is DidResize || callback is DidExitFullScreen),
        callback is DidEnterFullScreen ==> (r.emit_event matches Some(e) && e@
            == "did-enter-fullscreen"@),
        callback is WillEnterFullScreen ==> (r.emit_event matches Some(e) && e@
            == "will-enter-fullscreen"@),
        callback is DidExitFullScreen ==> (r.emit_event matches Some(e) && e@
            == "did-exit-fullscreen"@),
        callback is WillExitFullScreen ==> (r.emit_event matches Some(e) && e@
            == "will-exit-fullscreen"@),
        !(callback is DidEnterFullScreen || callback is WillEnterFullScreen || callback
            is DidExitFullScreen || callback is WillExitFullScreen) ==> r.emit_event is None,
{
    let emit_event: Option<String> = match callback {
        WindowCallback::DidEnterFullScreen => Some("did-enter-fullscreen".to_owned()),
        WindowCallback::WillEnterFullScreen => Some("will-enter-fullscreen".to_owned()),
        WindowCallback::DidExitFullScreen => Some("did-exit-fullscreen".to_owned()),
        WindowCallback::WillExitFullScreen => Some("will-exit-fullscreen".to_owned()),
        _ => None,
    };
    let reposition = match callback {
        WindowCallback::DidResize => true,
        WindowCallback::DidExitFullScreen => true,
        _ => false,
    };
    DelegateResponse {
        reposition_traffic_lights: reposition,
        emit_event,
        forward_to_previous_delegate: true,
    }
}

} // verus!

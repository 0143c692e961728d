//! Native-shell logic for a desktop chat-application wrapper: a window
//! registry with per-window display state, tray-click dispatch, badge-icon
//! geometry and rendering, URL fragment stripping, and the decision rules
//! behind the macOS chrome customizer and the deep-link bridge.
use vstd::prelude::*;

pub mod badge;
pub mod chrome;
pub mod deeplink;
pub mod raster;
pub mod registry;
pub mod strmap;
pub mod tray;
pub mod urls;

use crate::chrome::{
    TrafficLightPosition, traffic_light_position_default, traffic_light_position_overlay,
};
use crate::registry::{WindowRegistry, WindowState, WindowStateView};
use crate::urls::{spec_strip_hash, strip_hash_from_url};

verus! {

/// Default title a fresh window carries until the frontend names it.
pub const DEFAULT_WINDOW_TITLE: &'static str = "Telegram Air";

/// URL the first window opens at, and the fallback for reopening.
pub const BASE_URL: &'static str = "http://localhost:1234";

pub const WINDOW_WIDTH: u32 = 1088;

pub const WINDOW_HEIGHT: u32 = 700;

pub const WINDOW_MIN_WIDTH: u32 = 360;

pub const WINDOW_MIN_HEIGHT: u32 = 200;

/// Process-wide notification state shared by all windows and the tray.
pub struct AppStateStruct {
    pub notification_count: i32,
    pub is_muted: bool,
}

impl Default for AppStateStruct {
    /// A fresh application starts with no notifications and sound on.
    fn default() -> (r: Self)
        ensures
            r.notification_count == 0,
            !r.is_muted,
    {
        AppStateStruct { notification_count: 0, is_muted: false }
    }
}

/// Relies on uuid::Uuid::new_v4 and its hyphenated Display form: a fresh
/// random identifier, 36 characters long. Nothing else can be said of a
/// random value; distinctness of successive labels is not stated.
#[verifier::external_body]
fn new_window_label() -> (r: String)
    ensures
        r@.len() == 36,
{
    uuid::Uuid::new_v4().to_string()
}

/// Everything the host needs to build one webview window.
pub struct WindowConfig {
    pub label: String,
    pub url: String,
    pub title: String,
    pub width: u32,
    pub height: u32,
    pub min_width: u32,
    pub min_height: u32,
    pub fullscreen: bool,
    pub resizable: bool,
    /// Overlay title bar, used exactly on macOS.
    pub overlay_title_bar: bool,
    /// The webview's built-in drag-and-drop handler is switched off, which
    /// is what lets the frontend take drops itself.
    pub disable_drag_drop_handler: bool,
    /// The stored notification state, applied to the window once built.
    pub notification_count: i32,
    pub notification_muted: bool,
}

/// Open a new window at `url`: a fresh random label is registered with the
/// default title before the native window is built, and the returned
/// configuration carries the fixed sizing and behavior defaults together
/// with the current notification state, which the host applies to the
/// window once it is built. On macOS the window starts with an overlay
/// title bar and an empty native title.
pub fn open_new_window(
    registry: &mut WindowRegistry,
    url: String,
    macos: bool,
    state: &AppStateStruct,
) -> (r: WindowConfig)
    requires
        old(registry).wf(),
    ensures
        final(registry).wf(),
        final(registry)@ == old(registry)@.insert(
            r.label@,
            WindowStateView { title: DEFAULT_WINDOW_TITLE@, is_overlay: macos },
        ),
        r.label@.len() == 36,
        r.url@ == url@,
        macos ==> r.title@ == Seq::<char>::empty(),
        !macos ==> r.title@ == DEFAULT_WINDOW_TITLE@,
        r.width == WINDOW_WIDTH,
        r.height == WINDOW_HEIGHT,
        r.min_width == WINDOW_MIN_WIDTH,
        r.min_height == WINDOW_MIN_HEIGHT,
        !r.fullscreen,
        r.resizable,
        r.overlay_title_bar == macos,
        r.disable_drag_drop_handler,
        r.notification_count == state.notification_count,
        r.notification_muted == state.is_muted,
{
    let label = new_window_label();
    let initial = WindowState { title: DEFAULT_WINDOW_TITLE.to_owned(), is_overlay: macos };
    registry.insert(&label, initial);
    let title: String = if macos {
        proof {
            reveal_strlit("");
        }
        "".to_owned()
    } else {
        DEFAULT_WINDOW_TITLE.to_owned()
    };
    WindowConfig {
        label,
        url,
        title,
        width: WINDOW_WIDTH,
        height: WINDOW_HEIGHT,
        min_width: WINDOW_MIN_WIDTH,
        min_height: WINDOW_MIN_HEIGHT,
        fullscreen: false,
        resizable: true,
        overlay_title_bar: macos,
        disable_drag_drop_handler: true,
        notification_count: state.notification_count,
        notification_muted: state.is_muted,
    }
}

/// A download-lifecycle notification from the webview.
pub enum DownloadEvent {
    /// A download is about to start.
    Requested,
    /// A download ended, successfully or not.
    Finished { url: String, success: bool },
    /// Anything else the webview reports.
    Other,
}

/// What the host does with one download notification.
pub struct DownloadResponse {
    /// Redirect the destination into the OS downloads folder (macOS only,
    /// whose webview brings no download logic of its own).
    pub redirect_to_downloads: bool,
    /// Emit `download-finished` to the window, with the URL and whether
    /// the download succeeded.
    pub emit_finished: Option<(String, bool)>,
}

/// Resolve one download notification for the window's handler.
pub fn on_download(macos: bool, event: DownloadEvent) -> (r: DownloadResponse)
    ensures
        event is Requested ==> r.redirect_to_downloads == macos && r.emit_finished is None,
        (event matches DownloadEvent::Finished { url, success } ==> !r.redirect_to_downloads && (
        r.emit_finished matches Some(p) && p.0@ == url@ && p.1 == success)),
        event is Other ==> !r.redirect_to_downloads && r.emit_finished is None,
{
    match event {
        DownloadEvent::Requested => DownloadResponse {
            redirect_to_downloads: macos,
            emit_finished: None,
        },
        DownloadEvent::Finished { url, success } => DownloadResponse {
            redirect_to_downloads: false,
            emit_finished: Some((url, success)),
        },
        DownloadEvent::Other => DownloadResponse {
            redirect_to_downloads: false,
            emit_finished: None,
        },
    }
}

/// What the host applies to a window's native title bar.
pub struct TitleBarUpdate {
    /// Overlay style, or the regular visible style.
    pub overlay_style: bool,
    /// The native title to set.
    pub title: String,
    pub position: TrafficLightPosition,
}

/// Switch a window's title-bar overlay mode. Turning the overlay on stores
/// the flag, empties the native title and lowers the traffic lights;
/// turning it off restores the stored title exactly (the default title
/// when the window is unknown) at the default button position.
pub fn mark_title_bar_overlay(
    registry: &mut WindowRegistry,
    label: &String,
    is_overlay: bool,
    os_major: u64,
) -> (r: TitleBarUpdate)
    requires
        old(registry).wf(),
    ensures
        final(registry).wf(),
        old(registry)@.dom().contains(label@) ==> final(registry)@ == old(registry)@.insert(
            label@,
            WindowStateView { title: old(registry)@[label@].title, is_overlay },
        ),
        !old(registry)@.dom().contains(label@) ==> final(registry)@ == old(registry)@,
        r.overlay_style == is_overlay,
        is_overlay ==> r.title@ == Seq::<char>::empty(),
        is_overlay ==> r.position.x == 12 && r.position.y == (if os_major >= 26 {
            30int
        } else {
            26int
        }),
        !is_overlay && old(registry)@.dom().contains(label@) ==> r.title@ == old(
            registry,
        )@[label@].title,
        !is_overlay && !old(registry)@.dom().contains(label@) ==> r.title@
            == DEFAULT_WINDOW_TITLE@,
        !is_overlay ==> r.position.x == 12 && r.position.y == 12,
{
    let stored_title: Option<String> = match registry.get(label) {
        Some(state) => Some(state.title.clone()),
        None => None,
    };
    if let Some(title) = &stored_title {
        registry.insert(label, WindowState { title: title.clone(), is_overlay });
    }
    if is_overlay {
        proof {
            reveal_strlit("");
        }
        TitleBarUpdate {
            overlay_style: true,
            title: "".to_owned(),
            position: traffic_light_position_overlay(os_major),
        }
    } else {
        let title: String = match stored_title {
            Some(title) => title,
            None => DEFAULT_WINDOW_TITLE.to_owned(),
        };
        TitleBarUpdate { overlay_style: false, title, position: traffic_light_position_default() }
    }
}

/// Store a window's title. The native title is set only while the window
/// is not in overlay mode; the registry remembers it either way. A window
/// the registry does not know is left alone.
pub fn set_window_title(registry: &mut WindowRegistry, label: &String, title: String) -> (apply:
    Option<String>)
    requires
        old(registry).wf(),
    ensures
        final(registry).wf(),
        old(registry)@.dom().contains(label@) ==> final(registry)@ == old(registry)@.insert(
            label@,
            WindowStateView { title: title@, is_overlay: old(registry)@[label@].is_overlay },
        ),
        !old(registry)@.dom().contains(label@) ==> final(registry)@ == old(registry)@ && apply
            is None,
        old(registry)@.dom().contains(label@) && !old(registry)@[label@].is_overlay ==> (apply
            matches Some(t) && t@ == title@),
        old(registry)@.dom().contains(label@) && old(registry)@[label@].is_overlay ==> apply
            is None,
{
    let is_overlay: Option<bool> = match registry.get(label) {
        Some(state) => Some(state.is_overlay),
        None => None,
    };
    match is_overlay {
        Some(overlay) => {
            let apply = if overlay {
                None
            } else {
                Some(title.clone())
            };
            registry.insert(label, WindowState { title, is_overlay: overlay });
            apply
        },
        None => None,
    }
}

/// Remember a window's current URL, stripped of its fragment, as the URL
/// to reopen at.
pub fn save_window_url(current_url: &String, last_url: &mut String)
    ensures
        final(last_url)@ == spec_strip_hash(current_url@),
{
    *last_url = strip_hash_from_url(current_url);
}

/// Frontend command: remember the invoking window's current URL, stripped
/// of its fragment.
pub fn save_current_url(current_url: &String, last_url: &mut String)
    ensures
        final(last_url)@ == spec_strip_hash(current_url@),
{
    save_window_url(current_url, last_url);
}

/// Resolve a close request: the last remaining window is hidden instead of
/// closed, its URL remembered first; any other window closes normally.
pub fn on_close_requested(window_count: usize, current_url: &String, last_url: &mut String) -> (hide:
    bool)
    ensures
        hide == (window_count == 1),
        window_count == 1 ==> final(last_url)@ == spec_strip_hash(current_url@),
        window_count != 1 ==> final(last_url)@ == old(last_url)@,
{
    if window_count == 1 {
        save_window_url(current_url, last_url);
        true
    } else {
        false
    }
}

/// A window was destroyed by the native layer: its registry entry goes,
/// exactly once, and every other entry stays.
pub fn on_window_destroyed(registry: &mut WindowRegistry, label: &String) -> (removed: bool)
    requires
        old(registry).wf(),
    ensures
        final(registry).wf(),
        final(registry)@ == old(registry)@.remove(label@),
        removed == old(registry)@.dom().contains(label@),
{
    registry.remove(label)
}

/// The system theme changed (macOS): reapply the window's native title and
/// traffic-light position from its stored state, so the chrome survives
/// the theme switch. Unknown windows need nothing.
pub fn on_theme_changed(registry: &WindowRegistry, label: &String, os_major: u64) -> (r: Option<
    TitleBarUpdate,
>)
    requires
        registry.wf(),
    ensures
        registry@.dom().contains(label@) ==> (r matches Some(u) && u.overlay_style
            == registry@[label@].is_overlay && (if registry@[label@].is_overlay {
            u.title@ == Seq::<char>::empty() && u.position.x == 12 && u.position.y == (
            if os_major >= 26 {
                30int
            } else {
                26int
            })
        } else {
            u.title@ == registry@[label@].title && u.position.x == 12 && u.position.y == 12
        })),
        !registry@.dom().contains(label@) ==> r is None,
{
    match registry.get(label) {
        Some(state) => {
            if state.is_overlay {
                proof {
                    reveal_strlit("");
                }
                Some(
                    TitleBarUpdate {
                        overlay_style: true,
                        title: "".to_owned(),
                        position: traffic_light_position_overlay(os_major),
                    },
                )
            } else {
                Some(
                    TitleBarUpdate {
                        overlay_style: false,
                        title: state.title.clone(),
                        position: traffic_light_position_default(),
                    },
                )
            }
        },
        None => None,
    }
}

/// What the host does when a second process instance starts: an existing
/// window is focused, otherwise a fresh window opens at the base URL.
pub enum SecondInstanceAction {
    FocusExisting,
    OpenNew { url: String },
}

/// Resolve a second-instance notification.
pub fn on_second_instance(window_count: usize) -> (r: SecondInstanceAction)
    ensures
        window_count >= 1 ==> r is FocusExisting,
        window_count == 0 ==> (r matches SecondInstanceAction::OpenNew { url } && url@
            == BASE_URL@),
{
    if window_count >= 1 {
        SecondInstanceAction::FocusExisting
    } else {
        SecondInstanceAction::OpenNew { url: BASE_URL.to_owned() }
    }
}

} // verus!

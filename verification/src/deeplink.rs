//! Deep-link bridge: the OS hands the running application a list of URLs;
//! the bridge forwards them to the main window as a frontend event and
//! pulls the window into view. The OS subscription itself stays with the
//! host; every step of the response is best-effort.
use vstd::prelude::*;

verus! {

/// The subscriber for OS open-URL notifications.
pub struct Deeplink {
}

/// What the host does with one open-URL notification.
pub struct DeeplinkResponse {
    /// URLs forwarded to the main window as a `deeplink` event.
    pub emit_urls: Option<Vec<String>>,
    /// Request informational user attention.
    pub request_attention: bool,
    pub show: bool,
    pub unminimize: bool,
    pub focus: bool,
}

impl Deeplink {
    /// A fresh bridge; it holds no state of its own.
    pub fn init() -> (r: Self) {
        Deeplink {  }
    }

    /// Resolve one open-URL notification, as the handler the host
    /// subscribes at startup: with a main window present, the URL list is
    /// forwarded to it and the window is pulled into view; without one,
    /// nothing happens.
    pub fn setup(&self, main_window_present: bool, urls: Vec<String>) -> (r: DeeplinkResponse)
        ensures
            main_window_present ==> (r.emit_urls matches Some(u) && u.deep_view()
                == urls.deep_view() && r.request_attention && r.show && r.unminimize && r.focus),
            !main_window_present ==> (r.emit_urls is None && !r.request_attention && !r.show
                && !r.unminimize && !r.focus),
    {
        if main_window_present {
            DeeplinkResponse {
                emit_urls: Some(urls),
                request_attention: true,
                show: true,
                unminimize: true,
                focus: true,
            }
        } else {
            DeeplinkResponse {
                emit_urls: None,
                request_attention: false,
                show: false,
                unminimize: false,
                focus: false,
            }
        }
    }
}

} // verus!

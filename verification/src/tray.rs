//! Tray manager: menu construction with translated labels, and the dispatch
//! of tray-icon clicks and menu events to window actions. The tray realizes
//! a single-window-visible-at-a-time toggle on top of a possibly-multi-window
//! application.
use vstd::prelude::*;

use crate::AppStateStruct;
use crate::strmap::StrMap;
use crate::urls::{spec_strip_hash, strip_hash_from_url};

verus! {

pub const MENU_ITEM_QUIT_ID: &'static str = "quit";

pub const MENU_ITEM_QUIT_LABEL: &'static str = "Quit Telegram";

pub const MENU_ITEM_OPEN_ID: &'static str = "open";

pub const MENU_ITEM_OPEN_LABEL: &'static str = "Open Telegram";

/// Menu-label translations, replaced wholesale by the frontend and consulted
/// at menu-build time.
pub type MenuTranslations = StrMap<String>;

/// Replace the stored translations with a new mapping.
pub fn set_menu_translations(translations: &mut MenuTranslations, new_labels: MenuTranslations)
    requires
        new_labels.wf(),
    ensures
        final(translations).wf(),
        final(translations)@ == new_labels@,
{
    *translations = new_labels;
}

/// The label a menu item shows: its translation when one is stored, its
/// built-in default otherwise.
pub open spec fn spec_translated(
    m: Map<Seq<char>, Seq<char>>,
    id: Seq<char>,
    default: Seq<char>,
) -> Seq<char> {
    if m.dom().contains(id) {
        m[id]
    } else {
        default
    }
}

/// Look up the display label for a menu item.
pub fn translated_label(translations: &MenuTranslations, id: &String, default: &str) -> (r: String)
    requires
        translations.wf(),
    ensures
        r@ == spec_translated(translations@, id@, default@),
{
    match translations.get(id) {
        Some(label) => label.clone(),
        None => default.to_owned(),
    }
}

/// What the host needs to build the tray icon and its two-item menu.
pub struct TrayConfig {
    pub open_id: String,
    pub open_label: String,
    pub quit_id: String,
    pub quit_label: String,
    pub tooltip: String,
    pub show_menu_on_left_click: bool,
    pub icon_as_template: bool,
}

/// Marker for the installed tray; the native handle stays with the host.
pub struct TrayManager {
}

impl TrayManager {
    /// Decide the tray's menu: an Open and a Quit item under the currently
    /// known translations, left click kept for toggling rather than the
    /// menu, and a template icon exactly on macOS.
    pub fn init(translations: &MenuTranslations, macos: bool) -> (r: (TrayManager, TrayConfig))
        requires
            translations.wf(),
        ensures
            r.1.open_id@ == MENU_ITEM_OPEN_ID@,
            r.1.open_label@ == spec_translated(translations@, MENU_ITEM_OPEN_ID@, MENU_ITEM_OPEN_LABEL@),
            r.1.quit_id@ == MENU_ITEM_QUIT_ID@,
            r.1.quit_label@ == spec_translated(translations@, MENU_ITEM_QUIT_ID@, MENU_ITEM_QUIT_LABEL@),
            r.1.tooltip@ == crate::DEFAULT_WINDOW_TITLE@,
            !r.1.show_menu_on_left_click,
            r.1.icon_as_template == macos,
    {
        let open_id = MENU_ITEM_OPEN_ID.to_owned();
        let quit_id = MENU_ITEM_QUIT_ID.to_owned();
        let open_label = translated_label(translations, &open_id, MENU_ITEM_OPEN_LABEL);
        let quit_label = translated_label(translations, &quit_id, MENU_ITEM_QUIT_LABEL);
        let config = TrayConfig {
            open_id,
            open_label,
            quit_id,
            quit_label,
            tooltip: crate::DEFAULT_WINDOW_TITLE.to_owned(),
            show_menu_on_left_click: false,
            icon_as_template: macos,
        };
        (TrayManager {  }, config)
    }
}

/// Snapshot of one native window, as the host reports it when a tray or
/// menu event arrives.
pub struct WindowInfo {
    pub label: String,
    pub visible: bool,
    pub minimized: bool,
    pub url: String,
}

/// Mathematical image of a window snapshot.
pub struct WindowInfoView {
    pub label: Seq<char>,
    pub visible: bool,
    pub minimized: bool,
    pub url: Seq<char>,
}

impl View for WindowInfo {
    type V = WindowInfoView;

    open spec fn view(&self) -> WindowInfoView {
        WindowInfoView {
            label: self.label@,
            visible: self.visible,
            minimized: self.minimized,
            url: self.url@,
        }
    }
}

impl DeepView for WindowInfo {
    type V = WindowInfoView;

    open spec fn deep_view(&self) -> WindowInfoView {
        self.view()
    }
}

/// A window counts as shown when it is visible and not minimized.
pub open spec fn shown(w: WindowInfoView) -> bool {
    w.visible && !w.minimized
}

/// Whether any window in the snapshot is shown.
pub open spec fn has_shown(s: Seq<WindowInfoView>) -> bool {
    exists|i: int| 0 <= i < s.len() && shown(s[i])
}

/// Index of the first shown window, or the length when none is.
pub open spec fn first_shown(s: Seq<WindowInfoView>) -> int
    decreases s.len(),
{
    if s.len() == 0 {
        0
    } else if shown(s[0]) {
        0
    } else {
        1 + first_shown(s.drop_first())
    }
}

proof fn lemma_first_shown(s: Seq<WindowInfoView>)
    ensures
        0 <= first_shown(s) <= s.len(),
        forall|i: int| 0 <= i < first_shown(s) ==> !shown(s[i]),
        first_shown(s) < s.len() ==> shown(s[first_shown(s)]),
        has_shown(s) <==> first_shown(s) < s.len(),
    decreases s.len(),
{
    if s.len() > 0 && !shown(s[0]) {
        let d = s.drop_first();
        lemma_first_shown(d);
        assert forall|i: int| 0 <= i < first_shown(s) implies !shown(s[i]) by {
            if i > 0 {
                assert(!shown(d[i - 1]));
            }
        }
        if has_shown(s) {
            let w = choose|i: int| 0 <= i < s.len() && shown(s[i]);
            assert(w > 0);
            assert(shown(d[w - 1]));
            assert(has_shown(d));
        }
        if has_shown(d) {
            let w = choose|i: int| 0 <= i < d.len() && shown(d[i]);
            assert(shown(s[w + 1]));
            assert(has_shown(s));
        }
    }
}

proof fn lemma_first_shown_unique(s: Seq<WindowInfoView>, i: int)
    requires
        0 <= i <= s.len(),
        forall|j: int| 0 <= j < i ==> !shown(s[j]),
        i < s.len() ==> shown(s[i]),
    ensures
        first_shown(s) == i,
    decreases s.len(),
{
    if s.len() == 0 {
    } else if shown(s[0]) {
        assert(i == 0);
    } else {
        let d = s.drop_first();
        assert(i >= 1);
        assert forall|j: int| 0 <= j < i - 1 implies !shown(d[j]) by {
            assert(!shown(s[j + 1]));
        }
        lemma_first_shown_unique(d, i - 1);
    }
}

/// Badge parameters to reapply to a window brought back to the front.
pub struct BadgeSettings {
    pub amount: i32,
    pub is_muted: bool,
}

/// What the host must do in response to a tray or menu event.
pub enum TrayAction {
    /// No window exists: open a fresh one at the given URL.
    OpenWindow { url: String },
    /// Windows exist but none is shown: unminimize, show and focus this one,
    /// reapplying the badge when notifications are pending.
    ShowFirst { label: String, badge: Option<BadgeSettings> },
    /// A window is shown: close it (its URL has been remembered).
    CloseWindow { label: String },
    /// Terminate the process.
    Quit,
    /// Nothing to do.
    Nothing,
}

/// Resolve a tray-icon or Open-menu activation against the current window
/// snapshot.
///
/// With no open window the action reopens at the last saved URL, untouched.
/// With windows open but none shown, the first window is brought back.
/// With a shown window and a plain click, that window is closed and the
/// last-URL store receives its current URL, fragment-stripped.
#[verifier::loop_isolation(false)]
pub fn handle_icon_click(
    windows: &Vec<WindowInfo>,
    only_open: bool,
    state: &AppStateStruct,
    last_url: &mut String,
) -> (r: TrayAction)
    ensures
        windows@.len() == 0 ==> (r matches TrayAction::OpenWindow { url } && url@ == old(last_url)@ && final(last_url)@ == old(last_url)@),
        windows@.len() > 0 && !has_shown(windows.deep_view()) ==> (r
            matches TrayAction::ShowFirst { label, badge } && label@ == windows@[0].label@ && final(last_url)@ == old(last_url)@ && (if state.notification_count > 0 {
            badge matches Some(b) && b.amount == state.notification_count && b.is_muted
                == state.is_muted
        } else {
            badge is None
        })),
        has_shown(windows.deep_view()) && only_open ==> r is Nothing && final(last_url)@ == old(last_url)@,
        has_shown(windows.deep_view()) && !only_open ==> (r matches TrayAction::CloseWindow {
            label,
        } && label@ == windows.deep_view()[first_shown(windows.deep_view())].label && final(last_url)@ == spec_strip_hash(windows.deep_view()[first_shown(windows.deep_view())].url)),
{
    proof {
        lemma_first_shown(windows.deep_view());
    }
    if windows.len() == 0 {
        // No open windows: restore with the last remembered URL.
        return TrayAction::OpenWindow { url: last_url.clone() };
    }
    let mut i: usize = 0;
    let n = windows.len();
    while i < n
        invariant
            n == windows@.len(),
            i <= n,
            last_url@ == old(last_url)@,
            forall|j: int| 0 <= j < i ==> !shown(windows.deep_view()[j]),
        decreases n - i,
    {
        if windows[i].visible && !windows[i].minimized {
            proof {
                lemma_first_shown_unique(windows.deep_view(), i as int);
            }
            if only_open {
                return TrayAction::Nothing;
            }
            // Remember the shown window's URL, then have it closed.
            *last_url = strip_hash_from_url(&windows[i].url);
            return TrayAction::CloseWindow { label: windows[i].label.clone() };
        }
        i = i + 1;
    }
    proof {
        lemma_first_shown_unique(windows.deep_view(), n as int);
    }
    // No shown window: bring the first one back, with the badge when
    // notifications are pending.
    let badge = if state.notification_count > 0 {
        Some(BadgeSettings { amount: state.notification_count, is_muted: state.is_muted })
    } else {
        None
    };
    TrayAction::ShowFirst { label: windows[0].label.clone(), badge }
}

/// Resolve a raw tray-icon event: only a left-button release toggles the
/// window; everything else is ignored.
pub fn tray_click_handler(
    left_button: bool,
    button_up: bool,
    windows: &Vec<WindowInfo>,
    state: &AppStateStruct,
    last_url: &mut String,
) -> (r: TrayAction)
    ensures
        !(left_button && button_up) ==> r is Nothing && final(last_url)@ == old(last_url)@,
        left_button && button_up && windows@.len() == 0 ==> (r matches TrayAction::OpenWindow {
            url,
        } && url@ == old(last_url)@ && final(last_url)@ == old(last_url)@),
        left_button && button_up && windows@.len() > 0 && !has_shown(windows.deep_view()) ==> (r
            matches TrayAction::ShowFirst { label, badge } && label@ == windows@[0].label@ && final(last_url)@ == old(last_url)@ && (if state.notification_count > 0 {
            badge matches Some(b) && b.amount == state.notification_count && b.is_muted
                == state.is_muted
        } else {
            badge is None
        })),
        left_button && button_up && has_shown(windows.deep_view()) ==> (r
            matches TrayAction::CloseWindow { label } && label@ == windows.deep_view()[first_shown(
            windows.deep_view(),
        )].label && final(last_url)@ == spec_strip_hash(
            windows.deep_view()[first_shown(windows.deep_view())].url,
        )),
{
    if left_button && button_up {
        handle_icon_click(windows, false, state, last_url)
    } else {
        TrayAction::Nothing
    }
}

/// Resolve a menu-item activation: Open behaves as an explicit open request,
/// Quit terminates, anything else is ignored.
pub fn handle_menu_event(
    id: &String,
    windows: &Vec<WindowInfo>,
    state: &AppStateStruct,
    last_url: &mut String,
) -> (r: TrayAction)
    ensures
        id@ == MENU_ITEM_QUIT_ID@ ==> r is Quit && final(last_url)@ == old(last_url)@,
        !(id@ == MENU_ITEM_QUIT_ID@) && !(id@ == MENU_ITEM_OPEN_ID@) ==> r is Nothing && final(last_url)@ == old(last_url)@,
        id@ == MENU_ITEM_OPEN_ID@ && windows@.len() == 0 ==> (r
            matches TrayAction::OpenWindow { url } && url@ == old(last_url)@ && final(last_url)@
            == old(last_url)@),
        id@ == MENU_ITEM_OPEN_ID@ && windows@.len() > 0 && !has_shown(windows.deep_view()) ==> (r
            matches TrayAction::ShowFirst { label, badge } && label@ == windows@[0].label@ && final(last_url)@ == old(last_url)@ && (if state.notification_count > 0 {
            badge matches Some(b) && b.amount == state.notification_count && b.is_muted
                == state.is_muted
        } else {
            badge is None
        })),
        id@ == MENU_ITEM_OPEN_ID@ && has_shown(windows.deep_view()) ==> r is Nothing && final(last_url)@ == old(last_url)@,
{
    proof {
        reveal_strlit("open");
        reveal_strlit("quit");
        assert("open"@[0] == 'o' && "quit"@[0] == 'q');
        assert(MENU_ITEM_OPEN_ID@ != MENU_ITEM_QUIT_ID@);
    }
    let open_id: String = MENU_ITEM_OPEN_ID.to_owned();
    let quit_id: String = MENU_ITEM_QUIT_ID.to_owned();
    if *id == quit_id {
        TrayAction::Quit
    } else if *id == open_id {
        handle_icon_click(windows, true, state, last_url)
    } else {
        TrayAction::Nothing
    }
}

/// The OS-level badge count for a window: the amount while positive, and
/// cleared otherwise. The host passes it to the platform badge interface.
pub fn set_notifications_count(state: &mut AppStateStruct, amount: i32, is_muted: bool) -> (r:
    Option<i64>)
    ensures
        final(state).notification_count == amount,
        final(state).is_muted == is_muted,
        amount > 0 ==> (r matches Some(c) && c == amount as i64),
        amount <= 0 ==> r is None,
{
    state.notification_count = amount;
    state.is_muted = is_muted;
    if amount > 0 {
        Some(amount as i64)
    } else {
        None
    }
}

} // verus!

//! Window-registry model: per-window display state, and the laws of opening
//! and destroying windows.
use vstd::prelude::*;

use crate::strmap::StrMap;

verus! {

/// Display state the shell tracks for one webview window.
pub struct WindowState {
    pub title: String,
    pub is_overlay: bool,
}

/// Mathematical image of a window's display state.
pub struct WindowStateView {
    pub title: Seq<char>,
    pub is_overlay: bool,
}

impl View for WindowState {
    type V = WindowStateView;

    open spec fn view(&self) -> WindowStateView {
        WindowStateView { title: self.title@, is_overlay: self.is_overlay }
    }
}

/// The process-wide window registry: one entry per live window, keyed by
/// the window's label.
pub type WindowRegistry = StrMap<WindowState>;

/// The view of a registry after opening windows under each label in turn,
/// every one with the same initial display state.
pub open spec fn open_all(
    m: Map<Seq<char>, WindowStateView>,
    labels: Seq<Seq<char>>,
    st: WindowStateView,
) -> Map<Seq<char>, WindowStateView>
    decreases labels.len(),
{
    if labels.len() == 0 {
        m
    } else {
        open_all(m, labels.drop_last(), st).insert(labels.last(), st)
    }
}

/// Opening N windows under N fresh, pairwise-distinct labels yields exactly
/// N new registry entries, one per label, and touches no existing entry.
pub proof fn lemma_open_n_windows(
    m: Map<Seq<char>, WindowStateView>,
    labels: Seq<Seq<char>>,
    st: WindowStateView,
)
    requires
        m.dom().finite(),
        labels.no_duplicates(),
        forall|i: int| 0 <= i < labels.len() ==> !m.dom().contains(#[trigger] labels[i]),
    ensures
        open_all(m, labels, st).dom() == m.dom() + labels.to_set(),
        open_all(m, labels, st).dom().finite(),
        open_all(m, labels, st).dom().len() == m.dom().len() + labels.len(),
        forall|i: int|
            0 <= i < labels.len() ==> open_all(m, labels, st).dom().contains(#[trigger] labels[i])
                && open_all(m, labels, st)[labels[i]] == st,
        forall|k: Seq<char>|
            m.dom().contains(k) && !labels.contains(k) ==> open_all(m, labels, st).dom().contains(k)
                && open_all(m, labels, st)[k] == m[k],
    decreases labels.len(),
{
    if labels.len() == 0 {
        assert(labels.to_set() =~= Set::<Seq<char>>::empty());
        assert(open_all(m, labels, st).dom() =~= m.dom() + labels.to_set());
    } else {
        let dl = labels.drop_last();
        let last = labels.last();
        assert(dl.no_duplicates());
        assert forall|i: int| 0 <= i < dl.len() implies !m.dom().contains(#[trigger] dl[i]) by {
            assert(dl[i] == labels[i]);
        }
        lemma_open_n_windows(m, dl, st);
        let prev = open_all(m, dl, st);
        assert(labels.to_set() =~= dl.to_set().insert(last)) by {
            assert forall|k: Seq<char>| labels.to_set().contains(k) implies dl.to_set().insert(
                last,
            ).contains(k) by {
                let i = choose|i: int| 0 <= i < labels.len() && labels[i] == k;
                if i < labels.len() - 1 {
                    assert(dl[i] == k);
                    assert(dl.contains(k));
                }
            }
            assert forall|k: Seq<char>| dl.to_set().insert(last).contains(k) implies labels.to_set().contains(k) by {
                if k == last {
                    assert(labels.contains(k));
                } else {
                    let i = choose|i: int| 0 <= i < dl.len() && dl[i] == k;
                    assert(labels[i] == k);
                    assert(labels.contains(k));
                }
            }
        }
        assert(!dl.contains(last)) by {
            if dl.contains(last) {
                let i = choose|i: int| 0 <= i < dl.len() && dl[i] == last;
                assert(labels[i] == labels[labels.len() - 1]);
            }
        }
        assert(!prev.dom().contains(last)) by {
            assert(prev.dom() == m.dom() + dl.to_set());
            assert(!dl.to_set().contains(last));
        }
        assert(open_all(m, labels, st).dom() =~= m.dom() + labels.to_set());
        assert forall|i: int| 0 <= i < labels.len() implies open_all(m, labels, st).dom().contains(
            #[trigger] labels[i],
        ) && open_all(m, labels, st)[labels[i]] == st by {
            if i < labels.len() - 1 {
                assert(dl[i] == labels[i]);
                assert(labels[i] != last);
            }
        }
        assert forall|k: Seq<char>| m.dom().contains(k) && !labels.contains(k) implies open_all(
            m,
            labels,
            st,
        ).dom().contains(k) && open_all(m, labels, st)[k] == m[k] by {
            assert(!dl.contains(k)) by {
                if dl.contains(k) {
                    let i = choose|i: int| 0 <= i < dl.len() && dl[i] == k;
                    assert(labels[i] == k);
                    assert(labels.contains(k));
                }
            }
            assert(k != last) by {
                if k == last {
                    assert(labels.contains(k));
                }
            }
        }
    }
}

/// Destroying one window removes exactly its entry: the label's mapping is
/// gone, the count drops by one, and every other entry is untouched.
pub proof fn lemma_destroy_window(m: Map<Seq<char>, WindowStateView>, label: Seq<char>)
    requires
        m.dom().finite(),
        m.dom().contains(label),
    ensures
        !m.remove(label).dom().contains(label),
        m.remove(label).dom().len() == m.dom().len() - 1,
        forall|k: Seq<char>|
            m.dom().contains(k) && k != label ==> m.remove(label).dom().contains(k) && m.remove(
                label,
            )[k] == m[k],
{
    m.lemma_remove_key_len(label);
}

} // verus!

//! The window tray registry: windows the user has put away, kept in memory
//! for the life of the process and keyed by their generated id.

use std::collections::HashMap;
use vstd::prelude::*;

verus! {

/// Relies on uuid::Uuid::new_v4 and its `Display`: a fresh random
/// identifier rendered as text. Nothing is promised of its value.
#[verifier::external_body]
fn fresh_window_id() -> (r: String) {
    uuid::Uuid::new_v4().to_string()
}

/// Relies on chrono::Utc::now and DateTime::timestamp: the current time in
/// whole seconds since the Unix epoch. It depends on the clock, so nothing
/// is promised of its value.
#[verifier::external_body]
fn now_timestamp() -> (r: i64) {
    chrono::Utc::now().timestamp()
}

/// A window the user minimized to the tray.
#[derive(Clone, Debug)]
pub struct TrayedWindow {
    pub id: String,
    pub title: String,
    pub app_name: String,
    pub process_id: Option<u32>,
    pub workspace: Option<String>,
    pub preview_data: Option<Vec<u8>>,
    pub created_at: i64,
    pub metadata: HashMap<String, String>,
}

impl TrayedWindow {
    /// A fresh entry for a window: a newly generated id, the current time,
    /// and no process id, workspace, preview or metadata.
    pub fn new(title: String, app_name: String) -> (r: Self)
        ensures
            r.title@ == title@,
            r.app_name@ == app_name@,
            r.process_id.is_none(),
            r.workspace.is_none(),
            r.preview_data.is_none(),
            r.metadata@ == Map::<String, String>::empty(),
    {
        let id = fresh_window_id();
        let created_at = now_timestamp();
        TrayedWindow::from_parts(id, title, app_name, created_at)
    }

    /// An entry with the given id and creation time, and no process id,
    /// workspace, preview or metadata.
    pub fn from_parts(id: String, title: String, app_name: String, created_at: i64) -> (r: Self)
        ensures
            r.id@ == id@,
            r.title@ == title@,
            r.app_name@ == app_name@,
            r.process_id.is_none(),
            r.workspace.is_none(),
            r.preview_data.is_none(),
            r.created_at == created_at,
            r.metadata@ == Map::<String, String>::empty(),
    {
        TrayedWindow {
            id,
            title,
            app_name,
            process_id: None,
            workspace: None,
            preview_data: None,
            created_at,
            metadata: HashMap::new(),
        }
    }
}

/// The registry of trayed windows. Its model is a map from window id to the
/// entry stored under it; the key of each entry is the entry's own `id`.
pub struct WindowManager {
    trayed_windows: Vec<TrayedWindow>,
    entries: Ghost<Map<Seq<char>, TrayedWindow>>,
}

impl View for WindowManager {
    type V = Map<Seq<char>, TrayedWindow>;

    closed spec fn view(&self) -> Map<Seq<char>, TrayedWindow> {
        self.entries@
    }
}

impl WindowManager {
    /// The stored entries and the model agree: each stored entry sits in the
    /// model under its own id, ids are pairwise distinct, and every key of the
    /// model belongs to a stored entry.
    pub closed spec fn wf(&self) -> bool {
        let w = self.trayed_windows@;
        let m = self.entries@;
        &&& forall|i: int| 0 <= i < w.len() ==> #[trigger] m.contains_key(w[i].id@) && m[w[i].id@] == w[i]
        &&& forall|i: int, j: int| 0 <= i < w.len() && 0 <= j < w.len() && i != j
            ==> #[trigger] w[i].id@ != #[trigger] w[j].id@
        &&& forall|k: Seq<char>| #[trigger] m.contains_key(k) ==> exists|i: int| 0 <= i < w.len() && w[i].id@ == k
    }

    /// An empty registry.
    pub fn new() -> (r: Self)
        ensures
            r.wf(),
            r@ == Map::<Seq<char>, TrayedWindow>::empty(),
    {
        WindowManager { trayed_windows: Vec::new(), entries: Ghost(Map::empty()) }
    }

    /// The position of the entry with the given id, if any.
    fn find(&self, id: &str) -> (r: Option<usize>)
        requires
            self.wf(),
        ensures
            match r {
                Some(i) => i < self.trayed_windows@.len() && self.trayed_windows@[i as int].id@ == id@,
                None => !self@.contains_key(id@),
            },
    {
        let key = id.to_owned();
        let mut i: usize = 0;
        while i < self.trayed_windows.len()
            invariant
                0 <= i <= self.trayed_windows@.len(),
                key@ == id@,
                forall|j: int| 0 <= j < i ==> self.trayed_windows@[j].id@ != id@,
            decreases self.trayed_windows@.len() - i,
        {
            if self.trayed_windows[i].id == key {
                return Some(i);
            }
            i += 1;
        }
        None
    }

    /// Puts an entry in the tray under its own id and returns that id; an
    /// entry already stored under the same id is replaced.
    pub fn add_to_tray(&mut self, window: TrayedWindow) -> (r: String)
        requires
            old(self).wf(),
        ensures
            final(self).wf(),
            r@ == window.id@,
            final(self)@ == old(self)@.insert(window.id@, window),
    {
        let id = window.id.clone();
        let ghost w = window;
        let ghost old_ws = self.trayed_windows@;
        let ghost pos: int;
        match self.find(id.as_str()) {
            Some(i) => {
                self.trayed_windows.remove(i);
                self.trayed_windows.insert(i, window);
                proof {
                    pos = i as int;
                    assert(self.trayed_windows@ =~= old_ws.update(pos, w));
                }
            },
            None => {
                self.trayed_windows.push(window);
                proof {
                    pos = old_ws.len() as int;
                    assert(self.trayed_windows@ =~= old_ws.push(w));
                }
            },
        }
        self.entries = Ghost(self.entries@.insert(w.id@, w));
        proof {
            let ws = self.trayed_windows@;
            let m = self.entries@;
            assert(ws[pos] == w);
            assert forall|i: int| 0 <= i < ws.len() implies #[trigger] m.contains_key(ws[i].id@)
                && m[ws[i].id@] == ws[i] by {
                if i != pos {
                    assert(old_ws[i] == ws[i]);
                    assert(old(self).entries@.contains_key(old_ws[i].id@));
                }
            }
            assert forall|k: Seq<char>| #[trigger] m.contains_key(k) implies exists|i: int|
                0 <= i < ws.len() && ws[i].id@ == k by {
                if k != w.id@ {
                    let j = choose|j: int| 0 <= j < old_ws.len() && old_ws[j].id@ == k;
                    assert(ws[j].id@ == k);
                } else {
                    assert(ws[pos].id@ == k);
                }
            }
        }
        id
    }

    /// Takes the entry with the given id out of the tray and hands it back;
    /// `None`, with nothing changed, where no entry has that id.
    pub fn remove_from_tray(&mut self, id: &str) -> (r: Option<TrayedWindow>)
        requires
            old(self).wf(),
        ensures
            final(self).wf(),
            match r {
                Some(w) => old(self)@.contains_key(id@) && w == old(self)@[id@]
                    && final(self)@ == old(self)@.remove(id@),
                None => !old(self)@.contains_key(id@) && final(self)@ == old(self)@,
            },
    {
        match self.find(id) {
            Some(i) => {
                let ghost old_ws = self.trayed_windows@;
                let w = self.trayed_windows.remove(i);
                self.entries = Ghost(self.entries@.remove(id@));
                proof {
                    let ws = self.trayed_windows@;
                    let m = self.entries@;
                    assert(ws =~= old_ws.remove(i as int));
                    assert(old(self).entries@.contains_key(old_ws[i as int].id@));
                    assert forall|j: int| 0 <= j < ws.len() implies #[trigger] m.contains_key(ws[j].id@)
                        && m[ws[j].id@] == ws[j] by {
                        let oj = if j < i { j } else { j + 1 };
                        assert(ws[j] == old_ws[oj]);
                        assert(old(self).entries@.contains_key(old_ws[oj].id@));
                    }
                    assert forall|a: int, b: int| 0 <= a < ws.len() && 0 <= b < ws.len() && a != b
                        implies #[trigger] ws[a].id@ != #[trigger] ws[b].id@ by {
                        let oa = if a < i { a } else { a + 1 };
                        let ob = if b < i { b } else { b + 1 };
                        assert(ws[a] == old_ws[oa] && ws[b] == old_ws[ob]);
                    }
                    assert forall|k: Seq<char>| #[trigger] m.contains_key(k) implies exists|j: int|
                        0 <= j < ws.len() && ws[j].id@ == k by {
                        assert(old(self).entries@.contains_key(k));
                        let oj = choose|oj: int| 0 <= oj < old_ws.len() && old_ws[oj].id@ == k;
                        assert(oj != i);
                        let j = if oj < i { oj } else { oj - 1 };
                        assert(ws[j] == old_ws[oj]);
                    }
                }
                Some(w)
            },
            None => None,
        }
    }

    /// The entry with the given id, if any; the registry is not changed.
    pub fn get_trayed_window(&self, id: &str) -> (r: Option<&TrayedWindow>)
        requires
            self.wf(),
        ensures
            match r {
                Some(w) => self@.contains_key(id@) && *w == self@[id@],
                None => !self@.contains_key(id@),
            },
    {
        match self.find(id) {
            Some(i) => {
                proof {
                    assert(self.entries@.contains_key(self.trayed_windows@[i as int].id@));
                }
                Some(&self.trayed_windows[i])
            },
            None => None,
        }
    }

    /// Every entry of the tray, each once, in no meaningful order.
    pub fn list_trayed_windows(&self) -> (r: Vec<&TrayedWindow>)
        requires
            self.wf(),
        ensures
            forall|i: int| 0 <= i < r@.len() ==> #[trigger] self@.contains_key(r@[i].id@)
                && self@[r@[i].id@] == *r@[i],
            forall|i: int, j: int| 0 <= i < r@.len() && 0 <= j < r@.len() && i != j
                ==> #[trigger] r@[i].id@ != #[trigger] r@[j].id@,
            forall|k: Seq<char>| #[trigger] self@.contains_key(k) ==> exists|i: int|
                0 <= i < r@.len() && r@[i].id@ == k,
    {
        let mut r: Vec<&TrayedWindow> = Vec::new();
        let mut i: usize = 0;
        while i < self.trayed_windows.len()
            invariant
                self.wf(),
                0 <= i <= self.trayed_windows@.len(),
                r@.len() == i,
                forall|j: int| 0 <= j < i ==> *r@[j] == self.trayed_windows@[j],
            decreases self.trayed_windows@.len() - i,
        {
            r.push(&self.trayed_windows[i]);
            i += 1;
        }
        proof {
            let ws = self.trayed_windows@;
            assert forall|i: int| 0 <= i < r@.len() implies #[trigger] self@.contains_key(r@[i].id@)
                && self@[r@[i].id@] == *r@[i] by {
                assert(*r@[i] == ws[i]);
                assert(self.entries@.contains_key(ws[i].id@));
            }
            assert forall|a: int, b: int| 0 <= a < r@.len() && 0 <= b < r@.len() && a != b
                implies #[trigger] r@[a].id@ != #[trigger] r@[b].id@ by {
                assert(*r@[a] == ws[a] && *r@[b] == ws[b]);
            }
            assert forall|k: Seq<char>| #[trigger] self@.contains_key(k) implies exists|i: int|
                0 <= i < r@.len() && r@[i].id@ == k by {
                assert(self.entries@.contains_key(k));
                let j = choose|j: int| 0 <= j < ws.len() && ws[j].id@ == k;
                assert(*r@[j] == ws[j]);
            }
        }
        r
    }

    /// Replaces the entry with the given id by what `update_fn` makes of it
    /// and reports whether the entry was there. The id of an entry never
    /// changes, so `update_fn` keeps it.
    pub fn update_window<F: FnOnce(TrayedWindow) -> TrayedWindow>(&mut self, id: &str, update_fn: F) -> (r: bool)
        requires
            old(self).wf(),
            forall|w: TrayedWindow| #[trigger] update_fn.requires((w,)),
            forall|w: TrayedWindow, u: TrayedWindow| #[trigger] update_fn.ensures((w,), u) ==> u.id@ == w.id@,
        ensures
            final(self).wf(),
            r == old(self)@.contains_key(id@),
            r ==> exists|u: TrayedWindow| update_fn.ensures((old(self)@[id@],), u)
                && final(self)@ == old(self)@.insert(id@, u),
            !r ==> final(self)@ == old(self)@,
    {
        match self.find(id) {
            Some(i) => {
                let ghost old_ws = self.trayed_windows@;
                proof {
                    assert(self.entries@.contains_key(old_ws[i as int].id@));
                }
                let w = self.trayed_windows.remove(i);
                let u = update_fn(w);
                let ghost gu = u;
                self.trayed_windows.insert(i, u);
                self.entries = Ghost(self.entries@.insert(id@, gu));
                proof {
                    let ws = self.trayed_windows@;
                    let m = self.entries@;
                    assert(ws =~= old_ws.update(i as int, gu));
                    assert forall|j: int| 0 <= j < ws.len() implies #[trigger] m.contains_key(ws[j].id@)
                        && m[ws[j].id@] == ws[j] by {
                        if j != i {
                            assert(old(self).entries@.contains_key(old_ws[j].id@));
                        }
                    }
                    assert forall|a: int, b: int| 0 <= a < ws.len() && 0 <= b < ws.len() && a != b
                        implies #[trigger] ws[a].id@ != #[trigger] ws[b].id@ by {
                        assert(ws[a].id@ == old_ws[a].id@ && ws[b].id@ == old_ws[b].id@);
                    }
                    assert forall|k: Seq<char>| #[trigger] m.contains_key(k) implies exists|j: int|
                        0 <= j < ws.len() && ws[j].id@ == k by {
                        if k != id@ {
                            let j = choose|j: int| 0 <= j < old_ws.len() && old_ws[j].id@ == k;
                            assert(ws[j].id@ == k);
                        } else {
                            assert(ws[i as int].id@ == k);
                        }
                    }
                }
                true
            },
            None => false,
        }
    }
}

/// An entry put in the tray is found under its id as it was added; taking
/// it out hands that same entry back, and the id is then absent.
pub proof fn law_add_get_remove(m: Map<Seq<char>, TrayedWindow>, w: TrayedWindow)
    ensures
        m.insert(w.id@, w).contains_key(w.id@),
        m.insert(w.id@, w)[w.id@] == w,
        !m.insert(w.id@, w).remove(w.id@).contains_key(w.id@),
{
}

} // verus!

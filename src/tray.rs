//! The tray operations offered to the front end, each one call on the
//! window registry.

use crate::errors::AppError;
use crate::window::{TrayedWindow, WindowManager};
use vstd::prelude::*;

verus! {

/// What the front end is told of a trayed window.
#[derive(Clone, Debug)]
pub struct WindowInfo {
    pub id: String,
    pub title: String,
    pub app_name: String,
    pub workspace: Option<String>,
}

/// `info` tells of `w`: its id, title, application and workspace.
pub open spec fn describes(info: WindowInfo, w: TrayedWindow) -> bool {
    &&& info.id@ == w.id@
    &&& info.title@ == w.title@
    &&& info.app_name@ == w.app_name@
    &&& info.workspace == w.workspace
}

fn copy_text(s: &Option<String>) -> (r: Option<String>)
    ensures
        r == *s,
{
    match s {
        Some(t) => Some(t.clone()),
        None => None,
    }
}

fn copy_bytes(b: &Option<Vec<u8>>) -> (r: Option<Vec<u8>>)
    ensures
        match (r, *b) {
            (Some(x), Some(y)) => x@ == y@,
            (None, None) => true,
            _ => false,
        },
{
    match b {
        Some(v) => {
            let mut out: Vec<u8> = Vec::new();
            let mut i: usize = 0;
            while i < v.len()
                invariant
                    0 <= i <= v@.len(),
                    out@ == v@.subrange(0, i as int),
                decreases v@.len() - i,
            {
                out.push(v[i]);
                i += 1;
                assert(out@ =~= v@.subrange(0, i as int));
            }
            assert(out@ =~= v@);
            Some(out)
        },
        None => None,
    }
}

fn window_info(w: &TrayedWindow) -> (r: WindowInfo)
    ensures
        describes(r, *w),
{
    WindowInfo {
        id: w.id.clone(),
        title: w.title.clone(),
        app_name: w.app_name.clone(),
        workspace: copy_text(&w.workspace),
    }
}

/// Puts a new window with the given title and application into the tray and
/// returns its generated id.
pub fn minimize_to_tray(manager: &mut WindowManager, title: String, app_name: String) -> (r: String)
    requires
        old(manager).wf(),
    ensures
        final(manager).wf(),
        final(manager)@.contains_key(r@),
        final(manager)@[r@].id@ == r@,
        final(manager)@[r@].title@ == title@,
        final(manager)@[r@].app_name@ == app_name@,
        final(manager)@[r@].workspace.is_none(),
        final(manager)@[r@].preview_data.is_none(),
        final(manager)@ == old(manager)@.insert(r@, final(manager)@[r@]),
{
    let window = TrayedWindow::new(title, app_name);
    manager.add_to_tray(window)
}

/// Takes the window with the given id out of the tray and tells of it;
/// `NotFound` with the id, and nothing changed, where the tray has no such
/// window.
pub fn restore_from_tray(manager: &mut WindowManager, id: &str) -> (r: Result<WindowInfo, AppError>)
    requires
        old(manager).wf(),
    ensures
        final(manager).wf(),
        match r {
            Ok(info) => old(manager)@.contains_key(id@) && describes(info, old(manager)@[id@])
                && final(manager)@ == old(manager)@.remove(id@),
            Err(e) => !old(manager)@.contains_key(id@) && final(manager)@ == old(manager)@
                && (e matches AppError::NotFound(s) && s@ == id@),
        },
{
    match manager.remove_from_tray(id) {
        Some(w) => Ok(window_info(&w)),
        None => Err(AppError::NotFound(id.to_owned())),
    }
}

/// A summary of every window in the tray, each once, in no meaningful order.
pub fn list_windows(manager: &WindowManager) -> (r: Vec<WindowInfo>)
    requires
        manager.wf(),
    ensures
        forall|i: int| 0 <= i < r@.len() ==> #[trigger] manager@.contains_key(r@[i].id@)
            && describes(r@[i], manager@[r@[i].id@]),
        forall|i: int, j: int| 0 <= i < r@.len() && 0 <= j < r@.len() && i != j
            ==> #[trigger] r@[i].id@ != #[trigger] r@[j].id@,
        forall|k: Seq<char>| #[trigger] manager@.contains_key(k) ==> exists|i: int|
            0 <= i < r@.len() && r@[i].id@ == k,
{
    let windows = manager.list_trayed_windows();
    let mut r: Vec<WindowInfo> = Vec::new();
    let mut i: usize = 0;
    while i < windows.len()
        invariant
            0 <= i <= windows@.len(),
            r@.len() == i,
            forall|j: int| 0 <= j < i ==> #[trigger] describes(r@[j], *windows@[j]),
        decreases windows@.len() - i,
    {
        r.push(window_info(windows[i]));
        i += 1;
    }
    proof {
        assert forall|a: int| 0 <= a < r@.len() implies #[trigger] manager@.contains_key(r@[a].id@)
            && describes(r@[a], manager@[r@[a].id@]) by {
            assert(describes(r@[a], *windows@[a]));
            assert(manager@.contains_key(windows@[a].id@));
        }
        assert forall|a: int, b: int| 0 <= a < r@.len() && 0 <= b < r@.len() && a != b
            implies #[trigger] r@[a].id@ != #[trigger] r@[b].id@ by {
            assert(describes(r@[a], *windows@[a]) && describes(r@[b], *windows@[b]));
            assert(windows@[a].id@ != windows@[b].id@);
        }
        assert forall|k: Seq<char>| #[trigger] manager@.contains_key(k) implies exists|a: int|
            0 <= a < r@.len() && r@[a].id@ == k by {
            let a = choose|a: int| 0 <= a < windows@.len() && windows@[a].id@ == k;
            assert(describes(r@[a], *windows@[a]));
        }
    }
    r
}

/// The preview stored with the window of the given id, which may be absent;
/// `NotFound` with the id where the tray has no such window.
pub fn get_window_preview(manager: &WindowManager, id: &str) -> (r: Result<Option<Vec<u8>>, AppError>)
    requires
        manager.wf(),
    ensures
        match r {
            Ok(p) => manager@.contains_key(id@) && match (p, manager@[id@].preview_data) {
                (Some(x), Some(y)) => x@ == y@,
                (None, None) => true,
                _ => false,
            },
            Err(e) => !manager@.contains_key(id@) && (e matches AppError::NotFound(s) && s@ == id@),
        },
{
    match manager.get_trayed_window(id) {
        Some(w) => Ok(copy_bytes(&w.preview_data)),
        None => Err(AppError::NotFound(id.to_owned())),
    }
}

} // verus!

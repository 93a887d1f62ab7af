use trayme::workspace::{load_workspace, WorkspaceData, WorkspaceInfo, WorkspaceStore};

fn s(x: &str) -> String {
    x.to_string()
}

#[test]
fn load_unsaved_is_absent() {
    let mut store = WorkspaceStore::new();
    assert!(store.load("w1").is_none());
    store.save(s("w2"), s("Other"), None, s("[]"), 10);
    assert!(store.load("w1").is_none());
    assert!(load_workspace(&store, "w1").is_none());
}

#[test]
fn save_then_load() {
    let mut store = WorkspaceStore::new();
    store.save(s("w1"), s("Dev"), Some(s("desc")), s("payload"), 1000);
    let w = store.load("w1").unwrap();
    assert_eq!(w.id, "w1");
    assert_eq!(w.name, "Dev");
    assert_eq!(w.description, Some(s("desc")));
    assert_eq!(w.windows_data, "payload");
    assert_eq!(w.created_at, 1000);
    assert_eq!(w.updated_at, 1000);
}

#[test]
fn resave_keeps_created_at() {
    let mut store = WorkspaceStore::new();
    store.save(s("w1"), s("Dev"), Some(s("d")), s("[\"a\"]"), 1000);
    store.save(s("w1"), s("Ops"), None, s("[\"b\"]"), 1005);
    let w = store.load("w1").unwrap();
    assert_eq!(w.name, "Ops");
    assert_eq!(w.description, None);
    assert_eq!(w.windows_data, "[\"b\"]");
    assert_eq!(w.created_at, 1000);
    assert_eq!(w.updated_at, 1005);
    assert_eq!(store.list_workspaces().len(), 1);
}

#[test]
fn list_most_recent_first() {
    let mut store = WorkspaceStore::new();
    assert!(store.list_workspaces().is_empty());
    store.save(s("A"), s("a"), None, s("[]"), 1);
    store.save(s("B"), s("b"), None, s("[]"), 2);
    store.save(s("C"), s("c"), None, s("[]"), 3);
    let ids: Vec<String> = store.list_workspaces().into_iter().map(|w| w.id).collect();
    assert_eq!(ids, vec![s("C"), s("B"), s("A")]);
    store.save(s("A"), s("a2"), None, s("[]"), 4);
    let ids: Vec<String> = store.list_workspaces().into_iter().map(|w| w.id).collect();
    assert_eq!(ids, vec![s("A"), s("C"), s("B")]);
}

#[test]
fn put_row_keeps_row_as_is() {
    let mut store = WorkspaceStore::new();
    store.put_row(WorkspaceData {
        id: s("old"),
        name: s("Old"),
        description: None,
        windows_data: s("[]"),
        created_at: 5,
        updated_at: 50,
    });
    store.put_row(WorkspaceData {
        id: s("new"),
        name: s("New"),
        description: None,
        windows_data: s("[]"),
        created_at: 60,
        updated_at: 70,
    });
    let w = store.load("old").unwrap();
    assert_eq!((w.created_at, w.updated_at), (5, 50));
    let ids: Vec<String> = store.list_workspaces().into_iter().map(|w| w.id).collect();
    assert_eq!(ids, vec![s("new"), s("old")]);
}

#[test]
fn save_and_load_workspace_scenario() {
    let mut store = WorkspaceStore::new();
    store.save(s("w1"), s("Dev"), None, s("[\"a\",\"b\"]"), 1_700_000_000);
    let info = load_workspace(&store, "w1").unwrap();
    assert_eq!(info.id, "w1");
    assert_eq!(info.name, "Dev");
    assert_eq!(info.description, None);
    assert_eq!(info.windows, vec![s("a"), s("b")]);
}

#[test]
fn malformed_payload_gives_empty_window_list() {
    let data = WorkspaceData {
        id: s("w"),
        name: s("W"),
        description: Some(s("d")),
        windows_data: s("not json"),
        created_at: 1,
        updated_at: 1,
    };
    let info = WorkspaceInfo::from_data(data);
    assert_eq!(info.description, Some(s("d")));
    assert!(info.windows.is_empty());
}

#[test]
fn from_parsed_uses_given_list() {
    let data = WorkspaceData {
        id: s("w"),
        name: s("W"),
        description: None,
        windows_data: s("ignored"),
        created_at: 1,
        updated_at: 1,
    };
    let info = WorkspaceInfo::from_parsed(data.clone(), Some(vec![s("x")]));
    assert_eq!(info.windows, vec![s("x")]);
    let info = WorkspaceInfo::from_parsed(data, None);
    assert!(info.windows.is_empty());
}

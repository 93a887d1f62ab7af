//! The workspace table: named snapshots of a window layout, keyed by id,
//! written by upsert and listed most recently updated first.

use vstd::prelude::*;

verus! {

/// One row of the workspace table.
#[derive(Clone, Debug)]
pub struct WorkspaceData {
    pub id: String,
    pub name: String,
    pub description: Option<String>,
    pub windows_data: String,
    pub created_at: i64,
    pub updated_at: i64,
}

impl WorkspaceData {
    /// A copy of the row.
    pub fn duplicate(&self) -> (r: WorkspaceData)
        ensures
            r == *self,
    {
        WorkspaceData {
            id: self.id.clone(),
            name: self.name.clone(),
            description: match &self.description {
                Some(d) => Some(d.clone()),
                None => None,
            },
            windows_data: self.windows_data.clone(),
            created_at: self.created_at,
            updated_at: self.updated_at,
        }
    }
}

/// The row that a save of `(id, name, description, windows_data)` at time
/// `now` leaves in table `m`: the given fields, `updated_at` set to `now`,
/// and `created_at` kept from an earlier row with that id, else `now`.
pub open spec fn upserted_row(
    m: Map<Seq<char>, WorkspaceData>,
    id: String,
    name: String,
    description: Option<String>,
    windows_data: String,
    now: i64,
) -> WorkspaceData {
    WorkspaceData {
        id,
        name,
        description,
        windows_data,
        created_at: if m.contains_key(id@) { m[id@].created_at } else { now },
        updated_at: now,
    }
}

/// Table `m` after a save of `(id, name, description, windows_data)` at
/// time `now`.
pub open spec fn saved(
    m: Map<Seq<char>, WorkspaceData>,
    id: String,
    name: String,
    description: Option<String>,
    windows_data: String,
    now: i64,
) -> Map<Seq<char>, WorkspaceData> {
    m.insert(id@, upserted_row(m, id, name, description, windows_data, now))
}

/// `r` lists table `m`: every row of `m` once, and no other, ordered by
/// `updated_at` from the most recent.
pub open spec fn lists(m: Map<Seq<char>, WorkspaceData>, r: Seq<WorkspaceData>) -> bool {
    &&& forall|i: int| 0 <= i < r.len() ==> #[trigger] m.contains_key(r[i].id@) && m[r[i].id@] == r[i]
    &&& forall|i: int, j: int| 0 <= i < r.len() && 0 <= j < r.len() && i != j
        ==> #[trigger] r[i].id@ != #[trigger] r[j].id@
    &&& forall|k: Seq<char>| #[trigger] m.contains_key(k) ==> exists|i: int| 0 <= i < r.len() && r[i].id@ == k
    &&& forall|i: int, j: int| 0 <= i < j < r.len() ==> #[trigger] r[i].updated_at >= #[trigger] r[j].updated_at
}

/// The workspace table. Its model maps each id to the row stored under it.
pub struct WorkspaceStore {
    rows: Vec<WorkspaceData>,
    by_id: Ghost<Map<Seq<char>, WorkspaceData>>,
}

impl View for WorkspaceStore {
    type V = Map<Seq<char>, WorkspaceData>;

    closed spec fn view(&self) -> Map<Seq<char>, WorkspaceData> {
        self.by_id@
    }
}

impl WorkspaceStore {
    /// The stored rows list the model: each once, most recently updated first.
    pub closed spec fn wf(&self) -> bool {
        lists(self.by_id@, self.rows@)
    }

    /// An empty table.
    pub fn new() -> (r: Self)
        ensures
            r.wf(),
            r@ == Map::<Seq<char>, WorkspaceData>::empty(),
    {
        WorkspaceStore { rows: Vec::new(), by_id: Ghost(Map::empty()) }
    }

    fn find(&self, id: &str) -> (r: Option<usize>)
        requires
            self.wf(),
        ensures
            match r {
                Some(i) => i < self.rows@.len() && self.rows@[i as int].id@ == id@,
                None => !self@.contains_key(id@),
            },
    {
        let key = id.to_owned();
        let mut i: usize = 0;
        while i < self.rows.len()
            invariant
                0 <= i <= self.rows@.len(),
                key@ == id@,
                forall|j: int| 0 <= j < i ==> self.rows@[j].id@ != id@,
            decreases self.rows@.len() - i,
        {
            if self.rows[i].id == key {
                return Some(i);
            }
            i += 1;
        }
        None
    }

    /// Drops the row with the given id, if any.
    fn drop_row(&mut self, id: &str)
        requires
            old(self).wf(),
        ensures
            final(self).wf(),
            final(self)@ == old(self)@.remove(id@),
    {
        match self.find(id) {
            Some(i) => {
                let ghost old_ws = self.rows@;
                self.rows.remove(i);
                self.by_id = Ghost(self.by_id@.remove(id@));
                proof {
                    let ws = self.rows@;
                    let m = self.by_id@;
                    assert(ws =~= old_ws.remove(i as int));
                    assert forall|j: int| 0 <= j < ws.len() implies #[trigger] m.contains_key(ws[j].id@)
                        && m[ws[j].id@] == ws[j] by {
                        let oj = if j < i { j } else { j + 1 };
                        assert(ws[j] == old_ws[oj]);
                        assert(old(self).by_id@.contains_key(old_ws[oj].id@));
                    }
                    assert forall|a: int, b: int| 0 <= a < ws.len() && 0 <= b < ws.len() && a != b
                        implies #[trigger] ws[a].id@ != #[trigger] ws[b].id@ by {
                        let oa = if a < i { a } else { a + 1 };
                        let ob = if b < i { b } else { b + 1 };
                        assert(ws[a] == old_ws[oa] && ws[b] == old_ws[ob]);
                    }
                    assert forall|k: Seq<char>| #[trigger] m.contains_key(k) implies exists|j: int|
                        0 <= j < ws.len() && ws[j].id@ == k by {
                        assert(old(self).by_id@.contains_key(k));
                        let oj = choose|oj: int| 0 <= oj < old_ws.len() && old_ws[oj].id@ == k;
                        assert(oj != i);
                        let j = if oj < i { oj } else { oj - 1 };
                        assert(ws[j] == old_ws[oj]);
                    }
                    assert forall|a: int, b: int| 0 <= a < b < ws.len() implies
                        #[trigger] ws[a].updated_at >= #[trigger] ws[b].updated_at by {
                        let oa = if a < i { a } else { a + 1 };
                        let ob = if b < i { b } else { b + 1 };
                        assert(ws[a] == old_ws[oa] && ws[b] == old_ws[ob]);
                        assert(old_ws[oa].updated_at >= old_ws[ob].updated_at);
                    }
                }
            },
            None => {
                assert(self.by_id@ =~= self.by_id@.remove(id@));
            },
        }
    }

    /// Stores a row whose id the table does not hold, before every row that
    /// was not updated later.
    fn insert_row(&mut self, row: WorkspaceData)
        requires
            old(self).wf(),
            !old(self)@.contains_key(row.id@),
        ensures
            final(self).wf(),
            final(self)@ == old(self)@.insert(row.id@, row),
    {
        let mut p: usize = 0;
        while p < self.rows.len() && self.rows[p].updated_at > row.updated_at
            invariant
                0 <= p <= self.rows@.len(),
                forall|j: int| 0 <= j < p ==> self.rows@[j].updated_at > row.updated_at,
            decreases self.rows@.len() - p,
        {
            p += 1;
        }
        let ghost old_ws = self.rows@;
        let ghost g = row;
        self.rows.insert(p, row);
        self.by_id = Ghost(self.by_id@.insert(g.id@, g));
        proof {
            let ws = self.rows@;
            let m = self.by_id@;
            let pi = p as int;
            assert(ws =~= old_ws.insert(pi, g));
            assert(forall|j: int| pi <= j < old_ws.len() ==> #[trigger] old_ws[j].updated_at <= g.updated_at) by {
                assert forall|j: int| pi <= j < old_ws.len() implies #[trigger] old_ws[j].updated_at <= g.updated_at by {
                    if j > pi {
                        assert(old_ws[pi].updated_at >= old_ws[j].updated_at);
                    }
                }
            }
            assert forall|j: int| 0 <= j < ws.len() implies #[trigger] m.contains_key(ws[j].id@)
                && m[ws[j].id@] == ws[j] by {
                if j != pi {
                    let oj = if j < pi { j } else { j - 1 };
                    assert(ws[j] == old_ws[oj]);
                    assert(old(self).by_id@.contains_key(old_ws[oj].id@));
                }
            }
            assert forall|a: int, b: int| 0 <= a < ws.len() && 0 <= b < ws.len() && a != b
                implies #[trigger] ws[a].id@ != #[trigger] ws[b].id@ by {
                if a != pi && b != pi {
                    let oa = if a < pi { a } else { a - 1 };
                    let ob = if b < pi { b } else { b - 1 };
                    assert(ws[a] == old_ws[oa] && ws[b] == old_ws[ob]);
                } else if a == pi {
                    let ob = if b < pi { b } else { b - 1 };
                    assert(ws[b] == old_ws[ob]);
                    assert(old(self).by_id@.contains_key(old_ws[ob].id@));
                } else {
                    let oa = if a < pi { a } else { a - 1 };
                    assert(ws[a] == old_ws[oa]);
                    assert(old(self).by_id@.contains_key(old_ws[oa].id@));
                }
            }
            assert forall|k: Seq<char>| #[trigger] m.contains_key(k) implies exists|j: int|
                0 <= j < ws.len() && ws[j].id@ == k by {
                if k != g.id@ {
                    assert(old(self).by_id@.contains_key(k));
                    let oj = choose|oj: int| 0 <= oj < old_ws.len() && old_ws[oj].id@ == k;
                    let j = if oj < pi { oj } else { oj + 1 };
                    assert(ws[j] == old_ws[oj]);
                } else {
                    assert(ws[pi].id@ == k);
                }
            }
            assert forall|a: int, b: int| 0 <= a < b < ws.len() implies
                #[trigger] ws[a].updated_at >= #[trigger] ws[b].updated_at by {
                if a != pi && b != pi {
                    let oa = if a < pi { a } else { a - 1 };
                    let ob = if b < pi { b } else { b - 1 };
                    assert(ws[a] == old_ws[oa] && ws[b] == old_ws[ob]);
                    assert(old_ws[oa].updated_at >= old_ws[ob].updated_at);
                } else if a == pi {
                    assert(ws[b] == old_ws[b - 1]);
                } else {
                    assert(ws[a] == old_ws[a]);
                }
            }
        }
    }

    /// Upserts a workspace at time `now`: a row with an unseen id is added;
    /// a row with a known id has its name, description and window payload
    /// replaced and `updated_at` set to `now`, and keeps its `created_at`.
    pub fn save(&mut self, id: String, name: String, description: Option<String>, windows_data: String, now: i64)
        requires
            old(self).wf(),
        ensures
            final(self).wf(),
            final(self)@ == saved(old(self)@, id, name, description, windows_data, now),
    {
        let created_at = match self.find(id.as_str()) {
            Some(i) => self.rows[i].created_at,
            None => now,
        };
        let ghost row = upserted_row(self@, id, name, description, windows_data, now);
        self.drop_row(id.as_str());
        let r = WorkspaceData { id, name, description, windows_data, created_at, updated_at: now };
        assert(r == row);
        self.insert_row(r);
        assert(self@ =~= old(self)@.insert(row.id@, row));
    }

    /// Stores a row as it stands, replacing the row with the same id, if any.
    /// This is how rows read back from durable storage are taken in.
    pub fn put_row(&mut self, row: WorkspaceData)
        requires
            old(self).wf(),
        ensures
            final(self).wf(),
            final(self)@ == old(self)@.insert(row.id@, row),
    {
        self.drop_row(row.id.as_str());
        let ghost g = row;
        self.insert_row(row);
        assert(self@ =~= old(self)@.insert(g.id@, g));
    }

    /// The row with the given id, or `None` where none was saved.
    pub fn load(&self, id: &str) -> (r: Option<WorkspaceData>)
        requires
            self.wf(),
        ensures
            match r {
                Some(w) => self@.contains_key(id@) && w == self@[id@],
                None => !self@.contains_key(id@),
            },
    {
        match self.find(id) {
            Some(i) => {
                proof {
                    assert(self.by_id@.contains_key(self.rows@[i as int].id@));
                }
                Some(self.rows[i].duplicate())
            },
            None => None,
        }
    }

    /// Every row, each once, most recently updated first.
    pub fn list_workspaces(&self) -> (r: Vec<WorkspaceData>)
        requires
            self.wf(),
        ensures
            lists(self@, r@),
    {
        let mut r: Vec<WorkspaceData> = Vec::new();
        let mut i: usize = 0;
        while i < self.rows.len()
            invariant
                0 <= i <= self.rows@.len(),
                r@ == self.rows@.subrange(0, i as int),
            decreases self.rows@.len() - i,
        {
            r.push(self.rows[i].duplicate());
            i += 1;
            assert(r@ =~= self.rows@.subrange(0, i as int));
        }
        assert(r@ =~= self.rows@);
        r
    }
}

/// The list of strings that `text` holds as a JSON array of strings, or
/// `None` where it holds no such array.
pub uninterp spec fn json_string_list(text: Seq<char>) -> Option<Seq<Seq<char>>>;

/// The views of a list of strings.
pub open spec fn texts(v: Seq<String>) -> Seq<Seq<char>> {
    v.map_values(|s: String| s@)
}

/// Relies on serde_json::from_str for `Vec<String>`: it reads a JSON array
/// of strings, or fails; the outcome depends on the text alone.
#[verifier::external_body]
fn parse_string_list(text: &str) -> (r: Option<Vec<String>>)
    ensures
        match r {
            Some(v) => json_string_list(text@) == Some(texts(v@)),
            None => json_string_list(text@).is_none(),
        },
{
    serde_json::from_str::<Vec<String>>(text).ok()
}

/// What the front end is told of a saved workspace: its window list read
/// from the stored payload.
#[derive(Clone, Debug)]
pub struct WorkspaceInfo {
    pub id: String,
    pub name: String,
    pub description: Option<String>,
    pub windows: Vec<String>,
}

impl WorkspaceInfo {
    /// The summary of `data`, given what its payload parsed to: the parsed
    /// window list, or an empty list where the payload did not parse.
    pub fn from_parsed(data: WorkspaceData, parsed: Option<Vec<String>>) -> (r: WorkspaceInfo)
        ensures
            r.id == data.id,
            r.name == data.name,
            r.description == data.description,
            match parsed {
                Some(v) => r.windows@ == v@,
                None => r.windows@.len() == 0,
            },
    {
        let windows = match parsed {
            Some(v) => v,
            None => Vec::new(),
        };
        WorkspaceInfo { id: data.id, name: data.name, description: data.description, windows }
    }

    /// The summary of `data`, its payload read as a JSON array of strings;
    /// a payload that is no such array gives an empty window list.
    pub fn from_data(data: WorkspaceData) -> (r: WorkspaceInfo)
        ensures
            r.id == data.id,
            r.name == data.name,
            r.description == data.description,
            texts(r.windows@) == match json_string_list(data.windows_data@) {
                Some(v) => v,
                None => Seq::<Seq<char>>::empty(),
            },
    {
        let parsed = parse_string_list(data.windows_data.as_str());
        let r = WorkspaceInfo::from_parsed(data, parsed);
        assert(texts(r.windows@) =~= match json_string_list(data.windows_data@) {
            Some(v) => v,
            None => Seq::<Seq<char>>::empty(),
        });
        r
    }
}

/// The summary of the saved workspace with the given id, or `None` where
/// none was saved.
pub fn load_workspace(store: &WorkspaceStore, id: &str) -> (r: Option<WorkspaceInfo>)
    requires
        store.wf(),
    ensures
        match r {
            Some(info) => store@.contains_key(id@) && info.id@ == id@
                && info.name == store@[id@].name
                && info.description == store@[id@].description
                && texts(info.windows@) == match json_string_list(store@[id@].windows_data@) {
                    Some(v) => v,
                    None => Seq::<Seq<char>>::empty(),
                },
            None => !store@.contains_key(id@),
        },
{
    match store.load(id) {
        Some(w) => {
            proof {
                assert(store.by_id@.contains_key(id@));
                let j = choose|j: int| 0 <= j < store.rows@.len() && store.rows@[j].id@ == id@;
            }
            Some(WorkspaceInfo::from_data(w))
        },
        None => None,
    }
}

/// A save followed by a load of the same id gives back the name,
/// description and payload just saved, updated at the time of the save.
pub proof fn law_save_then_load(
    m: Map<Seq<char>, WorkspaceData>,
    id: String,
    name: String,
    description: Option<String>,
    windows_data: String,
    now: i64,
)
    ensures
        saved(m, id, name, description, windows_data, now).contains_key(id@),
        saved(m, id, name, description, windows_data, now)[id@].name == name,
        saved(m, id, name, description, windows_data, now)[id@].description == description,
        saved(m, id, name, description, windows_data, now)[id@].windows_data == windows_data,
        saved(m, id, name, description, windows_data, now)[id@].updated_at == now,
{
}

/// A save leaves every other id as it was: an id never saved stays absent.
pub proof fn law_save_touches_only_its_id(
    m: Map<Seq<char>, WorkspaceData>,
    id: String,
    name: String,
    description: Option<String>,
    windows_data: String,
    now: i64,
    other: Seq<char>,
)
    requires
        other != id@,
    ensures
        saved(m, id, name, description, windows_data, now).contains_key(other) == m.contains_key(other),
        m.contains_key(other) ==> saved(m, id, name, description, windows_data, now)[other] == m[other],
{
}

/// Saving an id a second time, at a time no earlier than the first, keeps
/// the first save's `created_at` and moves `updated_at` no backwards.
pub proof fn law_resave_keeps_created_at(
    m: Map<Seq<char>, WorkspaceData>,
    id: String,
    name1: String,
    description1: Option<String>,
    windows_data1: String,
    now1: i64,
    name2: String,
    description2: Option<String>,
    windows_data2: String,
    now2: i64,
)
    requires
        now1 <= now2,
    ensures
        ({
            let m1 = saved(m, id, name1, description1, windows_data1, now1);
            let m2 = saved(m1, id, name2, description2, windows_data2, now2);
            &&& m2[id@].created_at == m1[id@].created_at
            &&& m2[id@].updated_at >= m1[id@].updated_at
            &&& m2[id@].name == name2
            &&& m2[id@].windows_data == windows_data2
        }),
{
}

/// After saves of three distinct ids `a`, `b`, `c`, in that order and at
/// strictly increasing times, a listing of the table shows `c`, then `b`,
/// then `a`.
pub proof fn law_list_most_recent_first(
    m: Map<Seq<char>, WorkspaceData>,
    a: String,
    name_a: String,
    description_a: Option<String>,
    windows_data_a: String,
    time_a: i64,
    b: String,
    name_b: String,
    description_b: Option<String>,
    windows_data_b: String,
    time_b: i64,
    c: String,
    name_c: String,
    description_c: Option<String>,
    windows_data_c: String,
    time_c: i64,
    r: Seq<WorkspaceData>,
)
    requires
        a@ != b@,
        b@ != c@,
        a@ != c@,
        time_a < time_b < time_c,
        lists(
            saved(
                saved(saved(m, a, name_a, description_a, windows_data_a, time_a), b, name_b, description_b, windows_data_b, time_b),
                c, name_c, description_c, windows_data_c, time_c,
            ),
            r,
        ),
    ensures
        exists|ia: int, ib: int, ic: int|
            0 <= ic < ib < ia < r.len() && r[ia].id@ == a@ && r[ib].id@ == b@ && r[ic].id@ == c@,
{
    let m1 = saved(m, a, name_a, description_a, windows_data_a, time_a);
    let m2 = saved(m1, b, name_b, description_b, windows_data_b, time_b);
    let m3 = saved(m2, c, name_c, description_c, windows_data_c, time_c);
    assert(m3.contains_key(a@) && m3.contains_key(b@) && m3.contains_key(c@));
    let ia = choose|i: int| 0 <= i < r.len() && r[i].id@ == a@;
    let ib = choose|i: int| 0 <= i < r.len() && r[i].id@ == b@;
    let ic = choose|i: int| 0 <= i < r.len() && r[i].id@ == c@;
    assert(r[ia].updated_at == time_a);
    assert(r[ib].updated_at == time_b);
    assert(r[ic].updated_at == time_c);
    if ib <= ic {
        assert(ib != ic);
        assert(r[ib].updated_at >= r[ic].updated_at);
    }
    if ia <= ib {
        assert(ia != ib);
        assert(r[ia].updated_at >= r[ib].updated_at);
    }
}

} // verus!

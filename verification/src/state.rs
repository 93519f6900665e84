use crate::helpers::yabai::DisplayInfo;
use crate::name_map::NameMap;
use crate::text::text_of;
use std::collections::HashMap;
use vstd::prelude::*;
use vstd::std_specs::iter::IteratorSpec;

verus! {

/// Why a query of the session manager produced no data.
#[derive(Debug, Clone, Copy, PartialEq, Eq, Structural)]
pub enum QueryError {
    /// The source could not be reached at all.
    Unreachable,
    /// The source answered, but reported failure.
    Failed,
    /// The source answered with text that is not the expected structure.
    Malformed,
}

/// One virtual desktop as last reported.
#[derive(Debug)]
pub struct SpaceInfo {
    pub index: u32,
    pub display: u32,
    pub has_focus: bool,
    pub windows: Vec<u32>,
    pub label: String,
}

/// The mathematical content of a [`SpaceInfo`].
pub struct SpaceRecord {
    pub index: u32,
    pub display: u32,
    pub has_focus: bool,
    pub windows: Seq<u32>,
    pub label: Seq<char>,
}

impl View for SpaceInfo {
    type V = SpaceRecord;

    open spec fn view(&self) -> SpaceRecord {
        SpaceRecord {
            index: self.index,
            display: self.display,
            has_focus: self.has_focus,
            windows: self.windows@,
            label: self.label@,
        }
    }
}

impl Clone for SpaceInfo {
    fn clone(&self) -> (copy: Self)
        ensures
            copy@ == self@,
    {
        SpaceInfo {
            index: self.index,
            display: self.display,
            has_focus: self.has_focus,
            windows: self.windows.clone(),
            label: self.label.clone(),
        }
    }
}

/// One window as last reported.
#[derive(Debug)]
pub struct WindowInfo {
    pub id: u32,
    pub app: String,
    pub title: String,
    pub space: u32,
    pub display: u32,
    pub has_focus: bool,
}

/// The mathematical content of a [`WindowInfo`].
pub struct WindowRecord {
    pub id: u32,
    pub app: Seq<char>,
    pub title: Seq<char>,
    pub space: u32,
    pub display: u32,
    pub has_focus: bool,
}

impl View for WindowInfo {
    type V = WindowRecord;

    open spec fn view(&self) -> WindowRecord {
        WindowRecord {
            id: self.id,
            app: self.app@,
            title: self.title@,
            space: self.space,
            display: self.display,
            has_focus: self.has_focus,
        }
    }
}

impl Clone for WindowInfo {
    fn clone(&self) -> (copy: Self)
        ensures
            copy@ == self@,
    {
        WindowInfo {
            id: self.id,
            app: self.app.clone(),
            title: self.title.clone(),
            space: self.space,
            display: self.display,
            has_focus: self.has_focus,
        }
    }
}

/// The records of a sequence of spaces, in order.
pub open spec fn space_records(spaces: Seq<SpaceInfo>) -> Seq<SpaceRecord> {
    spaces.map_values(|s: SpaceInfo| s@)
}

/// The records of a table of spaces, under the same keys.
pub open spec fn space_table_records(table: Map<u32, SpaceInfo>) -> Map<u32, SpaceRecord> {
    table.map_values(|s: SpaceInfo| s@)
}

/// The table that holds each record under its own index; of two records with
/// one index the later stays.
pub open spec fn space_table(records: Seq<SpaceRecord>) -> Map<u32, SpaceRecord>
    decreases records.len(),
{
    if records.len() == 0 {
        Map::empty()
    } else {
        space_table(records.drop_last()).insert(records.last().index, records.last())
    }
}

/// A reported space differs from what is known when its index is new, or its
/// focus flag or its number of windows is not the known one.
pub open spec fn space_differs(prior: Map<u32, SpaceRecord>, space: SpaceRecord) -> bool {
    ||| !prior.contains_key(space.index)
    ||| prior[space.index].has_focus != space.has_focus
    ||| prior[space.index].windows.len() != space.windows.len()
}

/// The change signal of a space refresh: some reported space differs from
/// what is known.
pub open spec fn spaces_changed(prior: Map<u32, SpaceRecord>, fresh: Seq<SpaceRecord>) -> bool {
    exists|i: int| 0 <= i < fresh.len() && space_differs(prior, #[trigger] fresh[i])
}

/// Whether a fresh report of the spaces differs from the known table.
pub fn detect_space_change(current: &HashMap<u32, SpaceInfo>, fresh: &Vec<SpaceInfo>) -> (changed:
    bool)
    ensures
        changed == spaces_changed(space_table_records(current@), space_records(fresh@)),
{
    let ghost prior = space_table_records(current@);
    let ghost records = space_records(fresh@);
    let mut changed = false;
    let mut i: usize = 0;
    while i < fresh.len()
        invariant
            0 <= i <= fresh.len(),
            prior == space_table_records(current@),
            records == space_records(fresh@),
            changed == exists|j: int| 0 <= j < i && space_differs(prior, #[trigger] records[j]),
        decreases fresh.len() - i,
    {
        let space = &fresh[i];
        let differs = match current.get(&space.index) {
            Some(existing) => existing.has_focus != space.has_focus || existing.windows.len()
                != space.windows.len(),
            None => true,
        };
        assert(differs == space_differs(prior, records[i as int]));
        if differs {
            changed = true;
        }
        i += 1;
    }
    changed
}

/// The table of a fresh report: every space under its own index.
pub fn index_spaces(fresh: Vec<SpaceInfo>) -> (table: HashMap<u32, SpaceInfo>)
    ensures
        space_table_records(table@) == space_table(space_records(fresh@)),
{
    let ghost records = space_records(fresh@);
    let mut table: HashMap<u32, SpaceInfo> = HashMap::new();
    assert(space_table_records(table@) =~= space_table(records.take(0)));
    for space in it: fresh
        invariant
            records == space_records(it.seq()),
            space_table_records(table@) == space_table(records.take(it.index())),
    {
        let ghost done = it.index();
        assert(records.take(done + 1).drop_last() =~= records.take(done));
        assert(records.take(done + 1).last() == space@);
        let ghost before = table@;
        table.insert(space.index, space);
        assert(space_table_records(table@) =~= space_table_records(before).insert(
            space.index,
            space@,
        ));
    }
    assert(records.take(records.len() as int) =~= records);
    table
}

/// Some space of the table has the focus.
pub open spec fn some_space_focused(table: Map<u32, SpaceRecord>) -> bool {
    exists|index: u32| #[trigger] table.contains_key(index) && table[index].has_focus
}

/// A space of the table that has the focus: the only one, where the session
/// manager reports one focus.
pub fn find_focused_space(spaces: &HashMap<u32, SpaceInfo>) -> (found: Option<SpaceInfo>)
    ensures
        found is Some == some_space_focused(space_table_records(spaces@)),
        found matches Some(space) ==> space.has_focus && exists|index: u32| #[trigger]
            spaces@.contains_key(index) && spaces@[index]@ == space@,
{
    let ghost table = space_table_records(spaces@);
    let values = spaces.values();
    let ghost all = values.remaining().unref();
    for space in it: values
        invariant
            table == space_table_records(spaces@),
            all == it.seq().unref(),
            all.to_set() == spaces@.values(),
            forall|j: int| 0 <= j < it.index() ==> !(#[trigger] all[j]).has_focus,
    {
        if space.has_focus {
            proof {
                assert(all[it.index()] == *space);
                assert(all.to_set().contains(*space));
                let index = choose|index: u32| #[trigger]
                    spaces@.contains_key(index) && spaces@[index] == *space;
                assert(table.contains_key(index) && table[index].has_focus);
            }
            return Some(space.clone());
        }
    }
    proof {
        assert forall|index: u32| #[trigger] table.contains_key(index) implies !table[index].has_focus by {
            assert(spaces@.values().contains(spaces@[index]));
            assert(all.to_set().contains(spaces@[index]));
            let j = choose|j: int| 0 <= j < all.len() && all[j] == spaces@[index];
            assert(!all[j].has_focus);
        }
    }
    None
}

/// The indices of the spaces of a table, each once, in the table's own order.
pub fn space_indices(spaces: &HashMap<u32, SpaceInfo>) -> (indices: Vec<u32>)
    ensures
        indices@.no_duplicates(),
        indices@.to_set() == spaces@.dom(),
{
    let mut indices: Vec<u32> = Vec::new();
    let keys = spaces.keys();
    let ghost all = keys.remaining();
    for key in it: keys
        invariant
            all == it.seq(),
            all.no_duplicates(),
            indices.len() == it.index(),
            forall|j: int| 0 <= j < it.index() ==> #[trigger] indices[j] == *all[j],
    {
        indices.push(*key);
    }
    proof {
        assert(indices@ =~= all.unref());
        assert forall|a: int, b: int|
            0 <= a < indices.len() && 0 <= b < indices.len() && a != b implies indices[a]
            != indices[b] by {
            if indices[a] == indices[b] {
                assert(all[a] == all[b]);
            }
        }
    }
    indices
}

/// The listed records are the spaces of the table on one display, each once,
/// in some order.
pub open spec fn lists_spaces_on(
    table: Map<u32, SpaceRecord>,
    display: u32,
    listed: Seq<SpaceRecord>,
) -> bool {
    exists|indices: Seq<u32>|
        {
            &&& indices.no_duplicates()
            &&& indices.len() == listed.len()
            &&& forall|index: u32| #[trigger]
                indices.contains(index) <==> table.contains_key(index) && table[index].display
                    == display
            &&& forall|i: int|
                0 <= i < indices.len() ==> #[trigger] listed[i] == table[indices[i]]
        }
}

/// The spaces of the table on one display.
pub fn collect_spaces_on(spaces: &HashMap<u32, SpaceInfo>, display_index: u32) -> (found: Vec<
    SpaceInfo,
>)
    ensures
        lists_spaces_on(space_table_records(spaces@), display_index, space_records(found@)),
{
    let ghost table = space_table_records(spaces@);
    let mut found: Vec<SpaceInfo> = Vec::new();
    let ghost mut indices: Seq<u32> = Seq::empty();
    let keys = spaces.keys();
    let ghost all = keys.remaining();
    for key in it: keys
        invariant
            table == space_table_records(spaces@),
            all == it.seq(),
            all.no_duplicates(),
            all.unref().to_set() == spaces@.dom(),
            indices.len() == found.len(),
            indices.no_duplicates(),
            forall|index: u32| #[trigger]
                indices.contains(index) <==> table[index].display == display_index && exists|
                    j: int,
                | 0 <= j < it.index() && *all[j] == index,
            forall|i: int|
                0 <= i < indices.len() ==> #[trigger] found[i]@ == table[indices[i]],
    {
        let ghost at = it.index();
        proof {
            assert(all.unref()[at] == *key);
            assert(all.unref().to_set().contains(*key));
        }
        match spaces.get(key) {
            Some(space) => {
                if space.display == display_index {
                    let ghost chosen = indices;
                    found.push(space.clone());
                    proof {
                        indices = chosen.push(*key);
                        assert(!chosen.contains(*key)) by {
                            if chosen.contains(*key) {
                                let j = choose|j: int| 0 <= j < at && *all[j] == *key;
                                assert(all[j] == all[at]);
                            }
                        }
                        assert forall|index: u32| #[trigger]
                            indices.contains(index) <==> table[index].display == display_index
                                && exists|j: int| 0 <= j < at + 1 && *all[j] == index by {
                            if indices.contains(index) {
                                let i = choose|i: int| 0 <= i < indices.len() && indices[i] == index;
                                if i < chosen.len() {
                                    assert(chosen.contains(index));
                                    let j = choose|j: int| 0 <= j < at && *all[j] == index;
                                    assert(0 <= j < at + 1 && *all[j] == index);
                                } else {
                                    assert(*all[at] == index);
                                }
                            }
                            if table[index].display == display_index && exists|j: int|
                                0 <= j < at + 1 && *all[j] == index {
                                let j = choose|j: int| 0 <= j < at + 1 && *all[j] == index;
                                if j < at {
                                    assert(chosen.contains(index));
                                    let i = choose|i: int| 0 <= i < chosen.len() && chosen[i] == index;
                                    assert(indices[i] == index);
                                } else {
                                    assert(indices[chosen.len() as int] == index);
                                }
                            }
                        }
                    }
                } else {
                    proof {
                        assert forall|index: u32| #[trigger]
                            indices.contains(index) <==> table[index].display == display_index
                                && exists|j: int| 0 <= j < at + 1 && *all[j] == index by {
                            if indices.contains(index) {
                                let j = choose|j: int| 0 <= j < at && *all[j] == index;
                                assert(0 <= j < at + 1 && *all[j] == index);
                            }
                            if table[index].display == display_index && exists|j: int|
                                0 <= j < at + 1 && *all[j] == index {
                                let j = choose|j: int| 0 <= j < at + 1 && *all[j] == index;
                                assert(j < at);
                            }
                        }
                    }
                }
            },
            None => {
                proof {
                    assert(false);
                }
            },
        }
    }
    proof {
        assert forall|index: u32| #[trigger]
            indices.contains(index) <==> table.contains_key(index) && table[index].display
                == display_index by {
            if indices.contains(index) {
                let j = choose|j: int| 0 <= j < all.len() && *all[j] == index;
                assert(all.unref()[j] == index);
                assert(all.unref().to_set().contains(index));
            }
            if table.contains_key(index) && table[index].display == display_index {
                assert(all.unref().to_set().contains(index));
                let j = choose|j: int| 0 <= j < all.unref().len() && all.unref()[j] == index;
                assert(*all[j] == index);
            }
        }
        assert forall|i: int| 0 <= i < indices.len() implies #[trigger] space_records(found@)[i]
            == table[indices[i]] by {
            assert(found[i]@ == table[indices[i]]);
        }
    }
    found
}

/// Takes in what a query of the spaces yielded. A failed query changes
/// nothing and its error is handed on. A report replaces the whole table, and
/// the result says whether it differed from what was known.
pub fn refresh_spaces(
    current: &mut HashMap<u32, SpaceInfo>,
    queried: Result<Vec<SpaceInfo>, QueryError>,
) -> (outcome: Result<bool, QueryError>)
    ensures
        match queried {
            Ok(fresh) => {
                &&& outcome == Ok::<bool, QueryError>(
                    spaces_changed(space_table_records(old(current)@), space_records(fresh@)),
                )
                &&& space_table_records(final(current)@) == space_table(space_records(fresh@))
            },
            Err(error) => outcome == Err::<bool, QueryError>(error) && *final(current) == *old(current),
        },
{
    match queried {
        Ok(fresh) => {
            let changed = detect_space_change(current, &fresh);
            *current = index_spaces(fresh);
            Ok(changed)
        },
        Err(error) => Err(error),
    }
}

/// The records of a sequence of windows, in order.
pub open spec fn window_records(windows: Seq<WindowInfo>) -> Seq<WindowRecord> {
    windows.map_values(|w: WindowInfo| w@)
}

/// The records of a table of windows, under the same keys.
pub open spec fn window_table_records(table: Map<u32, WindowInfo>) -> Map<u32, WindowRecord> {
    table.map_values(|w: WindowInfo| w@)
}

/// The table that holds each record under its own id; of two records with one
/// id the later stays.
pub open spec fn window_table(records: Seq<WindowRecord>) -> Map<u32, WindowRecord>
    decreases records.len(),
{
    if records.len() == 0 {
        Map::empty()
    } else {
        window_table(records.drop_last()).insert(records.last().id, records.last())
    }
}

/// The change signal of a window refresh: the report holds another number of
/// windows than is known. What the windows are plays no part.
pub open spec fn windows_changed(prior: Map<u32, WindowRecord>, fresh: Seq<WindowRecord>) -> bool {
    window_table(fresh).dom().len() != prior.dom().len()
}

/// The table of a fresh report: every window under its own id.
pub fn index_windows(fresh: Vec<WindowInfo>) -> (table: HashMap<u32, WindowInfo>)
    ensures
        window_table_records(table@) == window_table(window_records(fresh@)),
{
    let ghost records = window_records(fresh@);
    let mut table: HashMap<u32, WindowInfo> = HashMap::new();
    assert(window_table_records(table@) =~= window_table(records.take(0)));
    for window in it: fresh
        invariant
            records == window_records(it.seq()),
            window_table_records(table@) == window_table(records.take(it.index())),
    {
        let ghost done = it.index();
        assert(records.take(done + 1).drop_last() =~= records.take(done));
        assert(records.take(done + 1).last() == window@);
        let ghost before = table@;
        table.insert(window.id, window);
        assert(window_table_records(table@) =~= window_table_records(before).insert(
            window.id,
            window@,
        ));
    }
    assert(records.take(records.len() as int) =~= records);
    table
}

/// Some window of the table has the focus.
pub open spec fn some_window_focused(table: Map<u32, WindowRecord>) -> bool {
    exists|id: u32| #[trigger] table.contains_key(id) && table[id].has_focus
}

/// A window of the table that has the focus: the only one, where the session
/// manager reports one focus.
pub fn find_focused_window(windows: &HashMap<u32, WindowInfo>) -> (found: Option<&WindowInfo>)
    ensures
        found is Some == some_window_focused(window_table_records(windows@)),
        found matches Some(window) ==> window.has_focus && exists|id: u32| #[trigger]
            windows@.contains_key(id) && windows@[id] == *window,
{
    let ghost table = window_table_records(windows@);
    let values = windows.values();
    let ghost all = values.remaining().unref();
    for window in it: values
        invariant
            table == window_table_records(windows@),
            all == it.seq().unref(),
            all.to_set() == windows@.values(),
            forall|j: int| 0 <= j < it.index() ==> !(#[trigger] all[j]).has_focus,
    {
        if window.has_focus {
            proof {
                assert(all[it.index()] == *window);
                assert(all.to_set().contains(*window));
                let id = choose|id: u32| #[trigger]
                    windows@.contains_key(id) && windows@[id] == *window;
                assert(table.contains_key(id) && table[id].has_focus);
            }
            return Some(window);
        }
    }
    proof {
        assert forall|id: u32| #[trigger] table.contains_key(id) implies !table[id].has_focus by {
            assert(windows@.values().contains(windows@[id]));
            assert(all.to_set().contains(windows@[id]));
            let j = choose|j: int| 0 <= j < all.len() && all[j] == windows@[id];
            assert(!all[j].has_focus);
        }
    }
    None
}

/// Takes in what a query of the windows yielded. A failed query changes
/// nothing and its error is handed on. A report replaces the whole table, and
/// the result says whether the number of windows changed.
pub fn refresh_windows(
    current: &mut HashMap<u32, WindowInfo>,
    queried: Result<Vec<WindowInfo>, QueryError>,
) -> (outcome: Result<bool, QueryError>)
    ensures
        match queried {
            Ok(fresh) => {
                &&& outcome == Ok::<bool, QueryError>(
                    windows_changed(window_table_records(old(current)@), window_records(fresh@)),
                )
                &&& window_table_records(final(current)@) == window_table(window_records(fresh@))
            },
            Err(error) => outcome == Err::<bool, QueryError>(error) && *final(current) == *old(current),
        },
{
    match queried {
        Ok(fresh) => {
            let old_count = current.len();
            let table = index_windows(fresh);
            let changed = table.len() != old_count;
            proof {
                assert(window_table_records(table@).dom() =~= table@.dom());
                assert(window_table_records(current@).dom() =~= current@.dom());
            }
            *current = table;
            Ok(changed)
        },
        Err(error) => Err(error),
    }
}

/// The name that stands for the front application when no query could tell.
pub open spec fn unknown_app() -> Seq<char> {
    "Unknown"@
}

/// The application name that a query's outcome stands for.
pub open spec fn reported_app(queried: Result<String, QueryError>) -> Seq<char> {
    match queried {
        Ok(name) => name@,
        Err(_) => unknown_app(),
    }
}

/// The characters of the known front application, if one is known.
pub open spec fn app_name(current: Option<String>) -> Option<Seq<char>> {
    text_of(current)
}

/// Takes in what a query of the front application yielded. A failed query
/// counts as the application `Unknown`, so this never fails. The result says
/// whether the name differs from the known one.
pub fn refresh_current_app(current: &mut Option<String>, queried: Result<String, QueryError>) -> (outcome:
    Result<bool, QueryError>)
    ensures
        outcome == Ok::<bool, QueryError>(
            app_name(*old(current)) != Some(reported_app(queried)),
        ),
        app_name(*final(current)) == Some(reported_app(queried)),
{
    let new_app = match queried {
        Ok(name) => name,
        Err(_) => String::from_str("Unknown"),
    };
    let changed = match current {
        Some(known) => *known != new_app,
        None => true,
    };
    if changed {
        *current = Some(new_app);
    }
    Ok(changed)
}

/// The last known state of the desktop session. Each of the four collections
/// is refreshed on its own and replaced as a whole.
pub struct DaemonState {
    pub spaces: HashMap<u32, SpaceInfo>,
    pub windows: HashMap<u32, WindowInfo>,
    pub current_app: Option<String>,
    pub displays: NameMap<DisplayInfo>,
}

/// The mathematical content of a [`DaemonState`].
pub struct Snapshot {
    pub spaces: Map<u32, SpaceRecord>,
    pub windows: Map<u32, WindowRecord>,
    pub current_app: Option<Seq<char>>,
    pub displays: Map<Seq<char>, DisplayInfo>,
}

impl View for DaemonState {
    type V = Snapshot;

    open spec fn view(&self) -> Snapshot {
        Snapshot {
            spaces: space_table_records(self.spaces@),
            windows: window_table_records(self.windows@),
            current_app: app_name(self.current_app),
            displays: self.displays@,
        }
    }
}

/// What one synchronization cycle made of its three refreshes.
pub struct SyncReport {
    pub spaces: Result<bool, QueryError>,
    pub windows: Result<bool, QueryError>,
    pub current_app: Result<bool, QueryError>,
}

impl DaemonState {
    /// The display table is well formed; the other collections have no
    /// invariant.
    pub open spec fn wf(&self) -> bool {
        self.displays.wf()
    }

    /// The state before the first query: nothing is known.
    pub fn new() -> (state: Self)
        ensures
            state.wf(),
            state@ == (Snapshot {
                spaces: Map::empty(),
                windows: Map::empty(),
                current_app: None,
                displays: Map::empty(),
            }),
            state.spaces@ == Map::<u32, SpaceInfo>::empty(),
            state.windows@ == Map::<u32, WindowInfo>::empty(),
            state.current_app is None,
            state.displays.names() == Seq::<Seq<char>>::empty(),
    {
        let state = DaemonState {
            spaces: HashMap::new(),
            windows: HashMap::new(),
            current_app: None,
            displays: NameMap::new(),
        };
        assert(state@.spaces =~= Map::empty());
        assert(state@.windows =~= Map::empty());
        state
    }

    /// Refreshes the spaces from the outcome of their query; see
    /// [`refresh_spaces`]. The other collections are not touched.
    pub fn update_spaces(&mut self, queried: Result<Vec<SpaceInfo>, QueryError>) -> (outcome: Result<
        bool,
        QueryError,
    >)
        ensures
            match queried {
                Ok(fresh) => {
                    &&& outcome == Ok::<bool, QueryError>(
                        spaces_changed(old(self)@.spaces, space_records(fresh@)),
                    )
                    &&& final(self)@.spaces == space_table(space_records(fresh@))
                },
                Err(error) => outcome == Err::<bool, QueryError>(error) && final(self).spaces
                    == old(self).spaces,
            },
            final(self).windows == old(self).windows,
            final(self).current_app == old(self).current_app,
            final(self).displays == old(self).displays,
    {
        refresh_spaces(&mut self.spaces, queried)
    }

    /// Refreshes the windows from the outcome of their query; see
    /// [`refresh_windows`]. The other collections are not touched.
    pub fn update_windows(&mut self, queried: Result<Vec<WindowInfo>, QueryError>) -> (outcome:
        Result<bool, QueryError>)
        ensures
            match queried {
                Ok(fresh) => {
                    &&& outcome == Ok::<bool, QueryError>(
                        windows_changed(old(self)@.windows, window_records(fresh@)),
                    )
                    &&& final(self)@.windows == window_table(window_records(fresh@))
                },
                Err(error) => outcome == Err::<bool, QueryError>(error) && final(self).windows
                    == old(self).windows,
            },
            final(self).spaces == old(self).spaces,
            final(self).current_app == old(self).current_app,
            final(self).displays == old(self).displays,
    {
        refresh_windows(&mut self.windows, queried)
    }

    /// Refreshes the front application from the outcome of its query; see
    /// [`refresh_current_app`]. The other collections are not touched.
    pub fn update_current_app(&mut self, queried: Result<String, QueryError>) -> (outcome: Result<
        bool,
        QueryError,
    >)
        ensures
            outcome == Ok::<bool, QueryError>(
                old(self)@.current_app != Some(reported_app(queried)),
            ),
            final(self)@.current_app == Some(reported_app(queried)),
            final(self).spaces == old(self).spaces,
            final(self).windows == old(self).windows,
            final(self).displays == old(self).displays,
    {
        refresh_current_app(&mut self.current_app, queried)
    }

    /// Replaces the known displays as a whole. The other collections are not
    /// touched.
    pub fn update_displays(&mut self, displays: NameMap<DisplayInfo>)
        ensures
            final(self).displays == displays,
            final(self).spaces == old(self).spaces,
            final(self).windows == old(self).windows,
            final(self).current_app == old(self).current_app,
    {
        self.displays = displays;
    }

    /// One synchronization cycle: each collection takes in the outcome of its
    /// own query, whatever became of the other two.
    pub fn sync(
        &mut self,
        spaces: Result<Vec<SpaceInfo>, QueryError>,
        windows: Result<Vec<WindowInfo>, QueryError>,
        current_app: Result<String, QueryError>,
    ) -> (report: SyncReport)
        ensures
            match spaces {
                Ok(fresh) => {
                    &&& report.spaces == Ok::<bool, QueryError>(
                        spaces_changed(old(self)@.spaces, space_records(fresh@)),
                    )
                    &&& final(self)@.spaces == space_table(space_records(fresh@))
                },
                Err(error) => report.spaces == Err::<bool, QueryError>(error) && final(self).spaces == old(self).spaces,
            },
            match windows {
                Ok(fresh) => {
                    &&& report.windows == Ok::<bool, QueryError>(
                        windows_changed(old(self)@.windows, window_records(fresh@)),
                    )
                    &&& final(self)@.windows == window_table(window_records(fresh@))
                },
                Err(error) => report.windows == Err::<bool, QueryError>(error) && final(self).windows == old(self).windows,
            },
            report.current_app == Ok::<bool, QueryError>(
                old(self)@.current_app != Some(reported_app(current_app)),
            ),
            final(self)@.current_app == Some(reported_app(current_app)),
            final(self).displays == old(self).displays,
    {
        let spaces_outcome = self.update_spaces(spaces);
        let windows_outcome = self.update_windows(windows);
        let app_outcome = self.update_current_app(current_app);
        SyncReport { spaces: spaces_outcome, windows: windows_outcome, current_app: app_outcome }
    }

    /// The space that has the focus, if the table holds one; see
    /// [`find_focused_space`].
    pub fn get_focused_space(&self) -> (found: Option<SpaceInfo>)
        ensures
            found is Some == some_space_focused(self@.spaces),
            found matches Some(space) ==> space.has_focus && exists|index: u32| #[trigger]
                self.spaces@.contains_key(index) && self.spaces@[index]@ == space@,
    {
        find_focused_space(&self.spaces)
    }

    /// The spaces on one display; see [`collect_spaces_on`].
    pub fn get_spaces_for_display(&self, display_index: u32) -> (found: Vec<SpaceInfo>)
        ensures
            lists_spaces_on(self@.spaces, display_index, space_records(found@)),
    {
        collect_spaces_on(&self.spaces, display_index)
    }
}

/// A refresh leaves nothing of the prior table behind: the new table holds an
/// index exactly when the report holds a space of that index, and what it holds
/// there is a space of the report.
pub proof fn law_refresh_replaces_whole(records: Seq<SpaceRecord>, index: u32)
    ensures
        space_table(records).contains_key(index) <==> exists|i: int|
            0 <= i < records.len() && (#[trigger] records[i]).index == index,
        space_table(records).contains_key(index) ==> exists|i: int|
            0 <= i < records.len() && #[trigger] records[i] == space_table(records)[index],
    decreases records.len(),
{
    if records.len() > 0 {
        let front = records.drop_last();
        law_refresh_replaces_whole(front, index);
        if records.last().index == index {
            assert(records[records.len() - 1] == space_table(records)[index]);
        } else {
            if space_table(front).contains_key(index) {
                let i = choose|i: int|
                    0 <= i < front.len() && #[trigger] front[i] == space_table(front)[index];
                assert(records[i] == space_table(records)[index]);
                let j = choose|j: int| 0 <= j < front.len() && (#[trigger] front[j]).index == index;
                assert(records[j].index == index);
            }
            if exists|i: int| 0 <= i < records.len() && (#[trigger] records[i]).index == index {
                let i = choose|i: int|
                    0 <= i < records.len() && (#[trigger] records[i]).index == index;
                assert(front[i].index == index);
            }
        }
    }
}

/// A report in which a known space has gained or lost the focus counts as a
/// change, whatever else it holds.
pub proof fn law_focus_move_is_change(
    prior: Map<u32, SpaceRecord>,
    fresh: Seq<SpaceRecord>,
    at: int,
)
    requires
        0 <= at < fresh.len(),
        prior.contains_key(fresh[at].index),
        prior[fresh[at].index].has_focus != fresh[at].has_focus,
    ensures
        spaces_changed(prior, fresh),
{
    assert(space_differs(prior, fresh[at]));
}

/// A report of windows that differ only in what they are, not in how many
/// ids they have, is no change.
pub proof fn law_window_change_counts_only(
    prior: Map<u32, WindowRecord>,
    fresh: Seq<WindowRecord>,
)
    requires
        window_table(fresh).dom() == prior.dom(),
    ensures
        !windows_changed(prior, fresh),
{
}

} // verus!

use crate::name_map::NameMap;
use crate::state::QueryError;
use crate::state::SpaceInfo;
use crate::state::WindowInfo;
use crate::text::contains_text;
use crate::text::decimal;
use crate::text::decimal_string;
use crate::text::occurs_in;
use vstd::prelude::*;

verus! {

/// The rectangle a display covers, in whole points.
#[derive(Debug, Clone, Copy, PartialEq, Eq, Structural)]
pub struct DisplayFrame {
    pub x: i64,
    pub y: i64,
    pub w: i64,
    pub h: i64,
}

/// One attached display.
#[derive(Debug, Clone, Copy, PartialEq, Eq, Structural)]
pub struct DisplayInfo {
    pub index: u32,
    pub is_builtin: bool,
    pub frame: DisplayFrame,
}

/// A display as the window manager reports it.
#[derive(Debug)]
pub struct YabaiDisplay {
    pub index: u32,
    pub label: String,
    pub frame: DisplayFrame,
}

/// The mathematical content of a [`YabaiDisplay`].
pub struct YabaiDisplayRecord {
    pub index: u32,
    pub label: Seq<char>,
    pub frame: DisplayFrame,
}

impl View for YabaiDisplay {
    type V = YabaiDisplayRecord;

    open spec fn view(&self) -> YabaiDisplayRecord {
        YabaiDisplayRecord { index: self.index, label: self.label@, frame: self.frame }
    }
}

/// What came of running one query command.
#[derive(Debug)]
pub enum CommandReply<T> {
    /// The command could not be started.
    Unavailable,
    /// The command ran and reported failure.
    Failed,
    /// The command's output was not the expected structure.
    Malformed,
    /// The command's output, decoded.
    Data(T),
}

/// The display assumed when the window manager cannot say: one built-in
/// display of 1920 by 1080 points.
pub open spec fn default_display() -> DisplayInfo {
    DisplayInfo { index: 1, is_builtin: true, frame: DisplayFrame { x: 0, y: 0, w: 1920, h: 1080 } }
}

/// A reported display counts as built-in when its label says so or when it is
/// display 1.
pub open spec fn display_of(raw: YabaiDisplayRecord) -> DisplayInfo {
    DisplayInfo {
        index: raw.index,
        is_builtin: occurs_in(raw.label, "Built-in"@) || raw.index == 1,
        frame: raw.frame,
    }
}

/// The records of a sequence of reported displays, in order.
pub open spec fn display_records(raws: Seq<YabaiDisplay>) -> Seq<YabaiDisplayRecord> {
    raws.map_values(|d: YabaiDisplay| d@)
}

/// The displays of a report, each under the decimal text of its index; of two
/// with one index the later stays.
pub open spec fn display_table(raws: Seq<YabaiDisplayRecord>) -> Map<Seq<char>, DisplayInfo>
    decreases raws.len(),
{
    if raws.len() == 0 {
        Map::empty()
    } else {
        display_table(raws.drop_last()).insert(
            decimal(raws.last().index as nat),
            display_of(raws.last()),
        )
    }
}

/// The ids of the displays of a report, in the order in which each first
/// occurs.
pub open spec fn display_ids(raws: Seq<YabaiDisplayRecord>) -> Seq<Seq<char>>
    decreases raws.len(),
{
    if raws.len() == 0 {
        Seq::empty()
    } else {
        let before = display_ids(raws.drop_last());
        let id = decimal(raws.last().index as nat);
        if before.contains(id) {
            before
        } else {
            before.push(id)
        }
    }
}

/// The table of the default display alone.
pub fn default_displays() -> (displays: NameMap<DisplayInfo>)
    ensures
        displays.wf(),
        displays@ == Map::<Seq<char>, DisplayInfo>::empty().insert("1"@, default_display()),
        displays.names() == seq!["1"@],
{
    let mut displays = NameMap::new();
    displays.insert(
        String::from_str("1"),
        DisplayInfo {
            index: 1,
            is_builtin: true,
            frame: DisplayFrame { x: 0, y: 0, w: 1920, h: 1080 },
        },
    );
    assert(displays.names() =~= seq!["1"@]);
    displays
}

/// The table of the displays of a report.
pub fn index_displays(raws: Vec<YabaiDisplay>) -> (displays: NameMap<DisplayInfo>)
    ensures
        displays.wf(),
        displays@ == display_table(display_records(raws@)),
        displays.names() == display_ids(display_records(raws@)),
{
    let ghost records = display_records(raws@);
    let mut displays: NameMap<DisplayInfo> = NameMap::new();
    assert(records.take(0) =~= Seq::empty());
    for raw in it: raws
        invariant
            records == display_records(it.seq()),
            displays.wf(),
            displays@ == display_table(records.take(it.index())),
            displays.names() == display_ids(records.take(it.index())),
    {
        let ghost done = it.index();
        proof {
            assert(records.take(done + 1).drop_last() =~= records.take(done));
            assert(records.take(done + 1).last() == raw@);
            displays.lemma_names();
        }
        let is_builtin = contains_text(raw.label.as_str(), "Built-in") || raw.index == 1;
        let info = DisplayInfo { index: raw.index, is_builtin, frame: raw.frame };
        displays.insert(decimal_string(raw.index), info);
    }
    assert(records.take(records.len() as int) =~= records);
    displays
}

/// What a query of the displays stands for: the table of the reported
/// displays and their ids in order. Where the window manager ran and reported
/// failure, the default display stands in.
pub open spec fn reported_displays(reply: CommandReply<Vec<YabaiDisplay>>) -> Result<
    (Map<Seq<char>, DisplayInfo>, Seq<Seq<char>>),
    QueryError,
> {
    match reply {
        CommandReply::Unavailable => Err(QueryError::Unreachable),
        CommandReply::Failed => Ok(
            (Map::<Seq<char>, DisplayInfo>::empty().insert("1"@, default_display()), seq!["1"@]),
        ),
        CommandReply::Malformed => Err(QueryError::Malformed),
        CommandReply::Data(raws) => Ok(
            (display_table(display_records(raws@)), display_ids(display_records(raws@))),
        ),
    }
}

/// A table of displays, or the error in its place, is the expected one.
pub open spec fn displays_are(
    displays: Result<NameMap<DisplayInfo>, QueryError>,
    expected: Result<(Map<Seq<char>, DisplayInfo>, Seq<Seq<char>>), QueryError>,
) -> bool {
    match expected {
        Ok((table, ids)) => displays matches Ok(found) && found.wf() && found@ == table
            && found.names() == ids,
        Err(error) => displays matches Err(e) && e == error,
    }
}

/// The displays that a query of the window manager yields.
pub fn get_displays(reply: CommandReply<Vec<YabaiDisplay>>) -> (displays: Result<
    NameMap<DisplayInfo>,
    QueryError,
>)
    ensures
        displays_are(displays, reported_displays(reply)),
{
    match reply {
        CommandReply::Unavailable => Err(QueryError::Unreachable),
        CommandReply::Failed => Ok(default_displays()),
        CommandReply::Malformed => Err(QueryError::Malformed),
        CommandReply::Data(raws) => Ok(index_displays(raws)),
    }
}

/// The first built-in display among the given ids.
pub open spec fn first_builtin(displays: Map<Seq<char>, DisplayInfo>, ids: Seq<Seq<char>>) -> Option<
    DisplayInfo,
>
    decreases ids.len(),
{
    if ids.len() == 0 {
        None
    } else if displays[ids.first()].is_builtin {
        Some(displays[ids.first()])
    } else {
        first_builtin(displays, ids.drop_first())
    }
}

/// The displays among the given ids that are not built in, in order.
pub open spec fn externals(displays: Map<Seq<char>, DisplayInfo>, ids: Seq<Seq<char>>) -> Seq<
    DisplayInfo,
>
    decreases ids.len(),
{
    if ids.len() == 0 {
        Seq::empty()
    } else if displays[ids.last()].is_builtin {
        externals(displays, ids.drop_last())
    } else {
        externals(displays, ids.drop_last()).push(displays[ids.last()])
    }
}

/// The first built-in display of a table.
pub fn find_builtin_display(displays: &NameMap<DisplayInfo>) -> (found: Option<DisplayInfo>)
    requires
        displays.wf(),
    ensures
        found == first_builtin(displays@, displays.names()),
{
    let ghost ids = displays.names();
    let mut i: usize = 0;
    assert(ids.skip(0) =~= ids);
    while i < displays.len()
        invariant
            displays.wf(),
            ids == displays.names(),
            0 <= i <= ids.len(),
            first_builtin(displays@, ids) == first_builtin(displays@, ids.skip(i as int)),
        decreases ids.len() - i,
    {
        let display = displays.value_at(i);
        proof {
            assert(ids.skip(i as int).first() == ids[i as int]);
            assert(ids.skip(i as int).drop_first() =~= ids.skip(i + 1));
        }
        if display.is_builtin {
            return Some(*display);
        }
        i += 1;
    }
    None
}

/// The displays of a table that are not built in.
pub fn list_external_displays(displays: &NameMap<DisplayInfo>) -> (found: Vec<DisplayInfo>)
    requires
        displays.wf(),
    ensures
        found@ == externals(displays@, displays.names()),
{
    let ghost ids = displays.names();
    let mut found: Vec<DisplayInfo> = Vec::new();
    let mut i: usize = 0;
    assert(ids.take(0) =~= Seq::<Seq<char>>::empty());
    while i < displays.len()
        invariant
            displays.wf(),
            ids == displays.names(),
            0 <= i <= ids.len(),
            found@ == externals(displays@, ids.take(i as int)),
        decreases ids.len() - i,
    {
        let display = displays.value_at(i);
        proof {
            assert(ids.take(i + 1).drop_last() =~= ids.take(i as int));
            assert(ids.take(i + 1).last() == ids[i as int]);
        }
        if !display.is_builtin {
            found.push(*display);
        }
        i += 1;
    }
    assert(ids.take(i as int) =~= ids);
    found
}

/// The built-in display that a query of the window manager yields, if it
/// yields one.
pub fn get_builtin_display(reply: CommandReply<Vec<YabaiDisplay>>) -> (found: Result<
    Option<DisplayInfo>,
    QueryError,
>)
    ensures
        match reported_displays(reply) {
            Ok((table, ids)) => found == Ok::<Option<DisplayInfo>, QueryError>(
                first_builtin(table, ids),
            ),
            Err(error) => found == Err::<Option<DisplayInfo>, QueryError>(error),
        },
{
    match get_displays(reply) {
        Ok(displays) => Ok(find_builtin_display(&displays)),
        Err(error) => Err(error),
    }
}

/// The displays that a query of the window manager yields and that are not
/// built in.
pub fn get_external_displays(reply: CommandReply<Vec<YabaiDisplay>>) -> (found: Result<
    Vec<DisplayInfo>,
    QueryError,
>)
    ensures
        match reported_displays(reply) {
            Ok((table, ids)) => found matches Ok(list) && list@ == externals(table, ids),
            Err(error) => found matches Err(e) && e == error,
        },
{
    match get_displays(reply) {
        Ok(displays) => Ok(list_external_displays(&displays)),
        Err(error) => Err(error),
    }
}

/// The ways of asking for the front application, in the order in which they
/// are tried.
#[derive(Debug, Clone, Copy, PartialEq, Eq, Structural)]
pub enum Strategy {
    /// Ask the window manager for the focused window.
    Yabai,
    /// Ask the system's scripting service for the frontmost process.
    AppleScript,
}

/// The strategies in their order.
pub open spec fn strategies() -> Seq<Strategy> {
    seq![Strategy::Yabai, Strategy::AppleScript]
}

/// What to do about the front application after the attempts made so far.
#[derive(Debug)]
pub enum Resolution {
    /// No attempt has succeeded and this strategy is untried: try it.
    Try(Strategy),
    /// An attempt has succeeded: this is the application's name.
    Use(String),
    /// Every strategy has failed: this is the last failure.
    GiveUp(QueryError),
}

/// The place of the first success among the attempts, or their number where
/// none succeeded.
pub open spec fn first_success(attempts: Seq<Result<String, QueryError>>) -> int
    decreases attempts.len(),
{
    if attempts.len() == 0 || attempts.first() is Ok {
        0
    } else {
        1 + first_success(attempts.drop_first())
    }
}

/// A resolution is the one that the attempts made so far call for: the first
/// success counts; without one the next untried strategy is due; and when
/// none is left the last failure stands.
pub open spec fn resolves(attempts: Seq<Result<String, QueryError>>, resolution: Resolution) -> bool {
    let at = first_success(attempts);
    match resolution {
        Resolution::Use(name) => at < attempts.len() && attempts[at] is Ok && name@
            == attempts[at]->Ok_0@,
        Resolution::Try(next) => at == attempts.len() && attempts.len() < strategies().len()
            && next == strategies()[attempts.len() as int],
        Resolution::GiveUp(error) => at == attempts.len() && attempts.len()
            >= strategies().len() && attempts.last() == Err::<String, QueryError>(error),
    }
}

/// Settles the front application from the attempts made so far, one for each
/// strategy tried, in order.
pub fn query_focused_app(attempts: &Vec<Result<String, QueryError>>) -> (resolution: Resolution)
    ensures
        resolves(attempts@, resolution),
{
    let mut i: usize = 0;
    assert(attempts@.skip(0) =~= attempts@);
    while i < attempts.len()
        invariant
            0 <= i <= attempts.len(),
            first_success(attempts@) == i + first_success(attempts@.skip(i as int)),
        decreases attempts.len() - i,
    {
        proof {
            assert(attempts@.skip(i as int).first() == attempts@[i as int]);
            assert(attempts@.skip(i as int).drop_first() =~= attempts@.skip(i + 1));
        }
        match &attempts[i] {
            Ok(name) => {
                return Resolution::Use(name.clone());
            },
            Err(_) => {},
        }
        i += 1;
    }
    if attempts.len() == 0 {
        Resolution::Try(Strategy::Yabai)
    } else if attempts.len() == 1 {
        Resolution::Try(Strategy::AppleScript)
    } else {
        proof {
            lemma_first_success(attempts@, attempts.len() - 1);
        }
        match &attempts[attempts.len() - 1] {
            Ok(_) => Resolution::GiveUp(QueryError::Failed),
            Err(error) => Resolution::GiveUp(*error),
        }
    }
}

/// Every attempt before the first success is a failure.
pub proof fn lemma_first_success(attempts: Seq<Result<String, QueryError>>, at: int)
    requires
        0 <= at < first_success(attempts),
    ensures
        at < attempts.len(),
        attempts[at] is Err,
    decreases attempts.len(),
{
    if attempts.len() > 0 && !(attempts.first() is Ok) && at > 0 {
        lemma_first_success(attempts.drop_first(), at - 1);
    }
}

/// The outcome of a query whose failure is an error.
pub open spec fn strict_reply<T>(reply: CommandReply<T>) -> Result<T, QueryError> {
    match reply {
        CommandReply::Unavailable => Err(QueryError::Unreachable),
        CommandReply::Failed => Err(QueryError::Failed),
        CommandReply::Malformed => Err(QueryError::Malformed),
        CommandReply::Data(data) => Ok(data),
    }
}

/// The spaces that a query of the window manager yields.
pub fn query_spaces(reply: CommandReply<Vec<SpaceInfo>>) -> (spaces: Result<
    Vec<SpaceInfo>,
    QueryError,
>)
    ensures
        spaces == strict_reply(reply),
{
    match reply {
        CommandReply::Unavailable => Err(QueryError::Unreachable),
        CommandReply::Failed => Err(QueryError::Failed),
        CommandReply::Malformed => Err(QueryError::Malformed),
        CommandReply::Data(data) => Ok(data),
    }
}

/// The windows that a query of the window manager yields.
pub fn query_windows(reply: CommandReply<Vec<WindowInfo>>) -> (windows: Result<
    Vec<WindowInfo>,
    QueryError,
>)
    ensures
        windows == strict_reply(reply),
{
    match reply {
        CommandReply::Unavailable => Err(QueryError::Unreachable),
        CommandReply::Failed => Err(QueryError::Failed),
        CommandReply::Malformed => Err(QueryError::Malformed),
        CommandReply::Data(data) => Ok(data),
    }
}

} // verus!

use crate::helpers::colors::Colors;
use crate::helpers::icons::Icons;
use crate::helpers::yabai::DisplayInfo;
use crate::sketchybar::add_command;
use crate::sketchybar::addressed;
use crate::sketchybar::dispatch_records;
use crate::sketchybar::property_texts;
use crate::sketchybar::set_command;
use crate::sketchybar::subscribe_command;
use crate::sketchybar::word_texts;
use crate::sketchybar::Dispatch;
use crate::sketchybar::SketchyBar;
use crate::state::find_focused_window;
use crate::state::some_window_focused;
use crate::state::window_table_records;
use crate::state::WindowInfo;
use crate::state::WindowRecord;
use crate::state::DaemonState;
use crate::state::QueryError;
use crate::text::color_string;
use crate::text::decimal;
use crate::text::decimal_string;
use crate::text::hex_color;
use std::collections::HashMap;
use vstd::prelude::*;
use vstd::std_specs::iter::IteratorSpec;
use vstd::string::StringSliceAdditionalSpecFns;
use vstd::utf8::decode_utf8;
use vstd::utf8::encode_utf8;
use vstd::utf8::is_char_boundary;

verus! {

/// The longest title, in bytes, that is shown whole.
pub const TITLE_LIMIT: usize = 50;

/// The bytes that are kept of a longer title, before the dots.
pub const TITLE_KEPT: usize = 47;

/// The commands that set up the window item on the bar of a display.
pub open spec fn setup_commands(display: DisplayInfo) -> Seq<Seq<char>> {
    seq![
        add_command("item"@, "window"@, "left"@),
        set_command(
            "window"@,
            seq![
                ("width"@, "dynamic"@),
                ("position"@, "left"@),
                ("icon"@, Icons::WINDOW@),
                ("icon.color"@, hex_color(Colors::GREEN)),
                ("label"@, "Window"@),
                ("label.color"@, hex_color(Colors::GREEN)),
                ("background.border_color"@, hex_color(Colors::GREEN)),
                ("associated_display"@, decimal(display.index as nat)),
            ],
        ),
        subscribe_command("window"@, seq!["window_focus"@, "window_title"@]),
    ]
}

/// Sets up the window item.
pub fn setup(bar: &SketchyBar, display_info: &DisplayInfo) -> (dispatches: Vec<Dispatch>)
    ensures
        dispatch_records(dispatches@) == addressed(bar@, setup_commands(*display_info)),
{
    let mut dispatches: Vec<Dispatch> = Vec::new();
    dispatches.push(bar.add("item", "window", "left"));
    let green = color_string(Colors::GREEN);
    let index = decimal_string(display_info.index);
    let properties = [
        ("width", "dynamic"),
        ("position", "left"),
        ("icon", Icons::WINDOW),
        ("icon.color", green.as_str()),
        ("label", "Window"),
        ("label.color", green.as_str()),
        ("background.border_color", green.as_str()),
        ("associated_display", index.as_str()),
    ];
    assert(property_texts(properties@) =~= seq![
        ("width"@, "dynamic"@),
        ("position"@, "left"@),
        ("icon"@, Icons::WINDOW@),
        ("icon.color"@, hex_color(Colors::GREEN)),
        ("label"@, "Window"@),
        ("label.color"@, hex_color(Colors::GREEN)),
        ("background.border_color"@, hex_color(Colors::GREEN)),
        ("associated_display"@, decimal(display_info.index as nat)),
    ]);
    dispatches.push(bar.set("window", &properties));
    let events = ["window_focus", "window_title"];
    assert(word_texts(events@) =~= seq!["window_focus"@, "window_title"@]);
    dispatches.push(bar.subscribe("window", &events));
    assert(dispatch_records(dispatches@) =~= addressed(bar@, setup_commands(*display_info)));
    dispatches
}

/// A title can be shown: it is short enough to be shown whole, or the place
/// where it is cut lies between two characters.
pub open spec fn title_fits(title: Seq<char>) -> bool {
    encode_utf8(title).len() > TITLE_LIMIT ==> is_char_boundary(
        encode_utf8(title),
        TITLE_KEPT as int,
    )
}

/// A title as it is shown: whole where its encoding has at most
/// [`TITLE_LIMIT`] bytes, and otherwise the characters of its first
/// [`TITLE_KEPT`] bytes and three dots.
pub open spec fn shown_title(title: Seq<char>) -> Seq<char> {
    if encode_utf8(title).len() > TITLE_LIMIT {
        decode_utf8(encode_utf8(title).subrange(0, TITLE_KEPT as int)) + "..."@
    } else {
        title
    }
}

/// Whether a title can be shown; see [`title_fits`].
pub fn fits(title: &str) -> (fitting: bool)
    ensures
        fitting == title_fits(title@),
{
    title.as_bytes().len() <= TITLE_LIMIT || title.is_char_boundary(TITLE_KEPT)
}

/// A title as it is shown.
pub fn display_title(title: &str) -> (shown: String)
    requires
        title_fits(title@),
    ensures
        shown@ == shown_title(title@),
{
    if title.as_bytes().len() > TITLE_LIMIT {
        let (kept, _) = title.split_at(TITLE_KEPT);
        proof {
            vstd::utf8::encode_utf8_decode_utf8(kept@);
            assert(kept.spec_bytes() == encode_utf8(title@).subrange(0, TITLE_KEPT as int));
            assert(decode_utf8(encode_utf8(kept@)) == kept@);
        }
        let mut shown = String::from_str(kept);
        shown.append("...");
        shown
    } else {
        String::from_str(title)
    }
}

/// The command that shows a title.
pub open spec fn window_command(title: Seq<char>) -> Seq<char> {
    "--set window label=\""@ + title + "\""@
}

fn show_title(bar: &SketchyBar, title: &str) -> (dispatch: Dispatch)
    ensures
        dispatch@ == (bar@, window_command(title@)),
{
    let mut command = String::from_str("--set window label=\"");
    command.append(title);
    command.append("\"");
    bar.message(command.as_str())
}

/// The title that is shown for the outcome of a query of the focused window:
/// the window's title as [`shown_title`] cuts it, and `No Window` where the
/// query failed.
pub open spec fn reported_title(queried: Result<String, QueryError>) -> Seq<char> {
    match queried {
        Ok(title) => shown_title(title@),
        Err(_) => "No Window"@,
    }
}

/// Shows the title of the focused window from the outcome of its query.
pub fn update(bar: &SketchyBar, queried: Result<String, QueryError>) -> (dispatch: Dispatch)
    requires
        queried matches Ok(title) ==> title_fits(title@),
    ensures
        dispatch@ == (bar@, window_command(reported_title(queried))),
{
    match queried {
        Ok(title) => {
            let shown = display_title(title.as_str());
            show_title(bar, shown.as_str())
        },
        Err(_) => show_title(bar, "No Window"),
    }
}

/// Every focused window of a table has a title that can be shown.
pub open spec fn titles_fit(windows: Map<u32, WindowRecord>) -> bool {
    forall|id: u32| #[trigger]
        windows.contains_key(id) && windows[id].has_focus ==> title_fits(windows[id].title)
}

/// A dispatch shows a focused window of a table to a bar, or `No Window`
/// where the table holds none.
pub open spec fn shows_focused_window(
    windows: Map<u32, WindowRecord>,
    bar: Seq<char>,
    dispatch: (Seq<char>, Seq<char>),
) -> bool {
    &&& dispatch.0 == bar
    &&& !some_window_focused(windows) ==> dispatch.1 == window_command("No Window"@)
    &&& some_window_focused(windows) ==> exists|id: u32| #[trigger]
        windows.contains_key(id) && windows[id].has_focus && dispatch.1 == window_command(
            shown_title(windows[id].title),
        )
}

/// Whether every focused window of a table has a title that can be shown.
pub fn all_titles_fit(windows: &HashMap<u32, WindowInfo>) -> (fitting: bool)
    ensures
        fitting == titles_fit(window_table_records(windows@)),
{
    let ghost table = window_table_records(windows@);
    let values = windows.values();
    let ghost all = values.remaining().unref();
    for window in it: values
        invariant
            table == window_table_records(windows@),
            all == it.seq().unref(),
            all.to_set() == windows@.values(),
            forall|j: int|
                0 <= j < it.index() && (#[trigger] all[j]).has_focus ==> title_fits(all[j].title@),
    {
        if window.has_focus && !fits(window.title.as_str()) {
            proof {
                assert(all[it.index()] == *window);
                assert(all.to_set().contains(*window));
                let id = choose|id: u32| #[trigger]
                    windows@.contains_key(id) && windows@[id] == *window;
                assert(table.contains_key(id) && table[id].has_focus && !title_fits(
                    table[id].title,
                ));
            }
            return false;
        }
    }
    proof {
        assert forall|id: u32| #[trigger]
            table.contains_key(id) && table[id].has_focus implies title_fits(table[id].title) by {
            assert(windows@.values().contains(windows@[id]));
            assert(all.to_set().contains(windows@[id]));
            let j = choose|j: int| 0 <= j < all.len() && all[j] == windows@[id];
            assert(all[j].has_focus);
        }
    }
    true
}

/// Shows the title of a focused window of a table, or `No Window` where it
/// holds none.
pub fn show_focused_window(bar: &SketchyBar, windows: &HashMap<u32, WindowInfo>) -> (dispatch:
    Dispatch)
    requires
        titles_fit(window_table_records(windows@)),
    ensures
        shows_focused_window(window_table_records(windows@), bar@, dispatch@),
{
    let ghost table = window_table_records(windows@);
    match find_focused_window(windows) {
        Some(window) => {
            proof {
                let id = choose|id: u32| #[trigger]
                    windows@.contains_key(id) && windows@[id] == *window;
                assert(table.contains_key(id) && table[id].has_focus && table[id].title
                    == window.title@);
            }
            let shown = display_title(window.title.as_str());
            show_title(bar, shown.as_str())
        },
        None => show_title(bar, "No Window"),
    }
}

/// Shows the title of a focused window of the snapshot, or `No Window` while
/// it holds none.
pub fn update_with_state(bar: &SketchyBar, state: &DaemonState) -> (dispatch: Dispatch)
    requires
        titles_fit(state@.windows),
    ensures
        shows_focused_window(state@.windows, bar@, dispatch@),
{
    show_focused_window(bar, &state.windows)
}

} // verus!

use crate::helpers::colors::Colors;
use crate::helpers::yabai::CommandReply;
use crate::helpers::yabai::DisplayInfo;
use crate::sketchybar::add_command;
use crate::sketchybar::addressed;
use crate::sketchybar::dispatch_records;
use crate::sketchybar::property_texts;
use crate::sketchybar::set_command;
use crate::sketchybar::subscribe_command;
use crate::sketchybar::word_texts;
use crate::sketchybar::Dispatch;
use crate::sketchybar::SketchyBar;
use crate::state::space_indices;
use crate::state::space_records;
use crate::state::space_table_records;
use crate::state::DaemonState;
use crate::state::SpaceInfo;
use crate::state::SpaceRecord;
use crate::text::color_string;
use crate::text::decimal;
use crate::text::decimal_string;
use crate::text::hex_color;
use std::collections::HashMap;
use vstd::prelude::*;

verus! {

/// The number of space items on a bar.
pub const SPACE_ITEMS: u32 = 10;

/// The name of the item of a space.
pub open spec fn space_name(index: nat) -> Seq<char> {
    "space."@ + decimal(index)
}

/// The commands that set up the item of one space.
pub open spec fn item_commands(index: nat, display: DisplayInfo) -> Seq<Seq<char>> {
    seq![
        add_command("space"@, space_name(index), "left"@),
        set_command(
            space_name(index),
            seq![
                ("icon"@, decimal(index)),
                ("icon.color"@, hex_color(Colors::TEXT)),
                ("background.color"@, hex_color(Colors::SURFACE0)),
                ("background.border_color"@, hex_color(Colors::OVERLAY0)),
                ("associated_display"@, decimal(display.index as nat)),
            ],
        ),
        subscribe_command(space_name(index), seq!["space_change"@, "display_change"@]),
    ]
}

/// The commands that set up the items of the spaces 1 to `count`.
pub open spec fn commands_upto(count: nat, display: DisplayInfo) -> Seq<Seq<char>>
    decreases count,
{
    if count == 0 {
        Seq::empty()
    } else {
        commands_upto((count - 1) as nat, display) + item_commands(count, display)
    }
}

/// The commands that set up the space items on the bar of a display.
pub open spec fn setup_commands(display: DisplayInfo) -> Seq<Seq<char>> {
    commands_upto(SPACE_ITEMS as nat, display)
}

fn item_name(index: u32) -> (name: String)
    ensures
        name@ == space_name(index as nat),
{
    let mut name = String::from_str("space.");
    name.append(decimal_string(index).as_str());
    name
}

/// Sets up the space items.
pub fn setup(bar: &SketchyBar, display_info: &DisplayInfo) -> (dispatches: Vec<Dispatch>)
    ensures
        dispatch_records(dispatches@) == addressed(bar@, setup_commands(*display_info)),
{
    let mut dispatches: Vec<Dispatch> = Vec::new();
    let text = color_string(Colors::TEXT);
    let surface = color_string(Colors::SURFACE0);
    let overlay = color_string(Colors::OVERLAY0);
    let display = decimal_string(display_info.index);
    let mut i: u32 = 1;
    assert(dispatch_records(dispatches@) =~= addressed(bar@, commands_upto(0, *display_info)));
    while i <= SPACE_ITEMS
        invariant
            1 <= i <= SPACE_ITEMS + 1,
            text@ == hex_color(Colors::TEXT),
            surface@ == hex_color(Colors::SURFACE0),
            overlay@ == hex_color(Colors::OVERLAY0),
            display@ == decimal(display_info.index as nat),
            dispatch_records(dispatches@) == addressed(
                bar@,
                commands_upto((i - 1) as nat, *display_info),
            ),
        decreases SPACE_ITEMS + 1 - i,
    {
        let name = item_name(i);
        let icon = decimal_string(i);
        let ghost before = dispatch_records(dispatches@);
        dispatches.push(bar.add("space", name.as_str(), "left"));
        let properties = [
            ("icon", icon.as_str()),
            ("icon.color", text.as_str()),
            ("background.color", surface.as_str()),
            ("background.border_color", overlay.as_str()),
            ("associated_display", display.as_str()),
        ];
        assert(property_texts(properties@) =~= seq![
            ("icon"@, decimal(i as nat)),
            ("icon.color"@, hex_color(Colors::TEXT)),
            ("background.color"@, hex_color(Colors::SURFACE0)),
            ("background.border_color"@, hex_color(Colors::OVERLAY0)),
            ("associated_display"@, decimal(display_info.index as nat)),
        ]);
        dispatches.push(bar.set(name.as_str(), &properties));
        let events = ["space_change", "display_change"];
        assert(word_texts(events@) =~= seq!["space_change"@, "display_change"@]);
        dispatches.push(bar.subscribe(name.as_str(), &events));
        proof {
            let items = item_commands(i as nat, *display_info);
            let earlier = commands_upto((i - 1) as nat, *display_info);
            assert(commands_upto(i as nat, *display_info) == earlier + items);
            assert(dispatch_records(dispatches@) =~= before + addressed(bar@, items));
            assert(before + addressed(bar@, items) =~= addressed(bar@, earlier + items));
        }
        i += 1;
    }
    dispatches
}

/// The background and border colors of a space: blue on both for the focused
/// one, a green border for one with windows, and the plain colors otherwise.
pub open spec fn space_colors(has_focus: bool, windows: nat) -> (u32, u32) {
    if has_focus {
        (Colors::BLUE, Colors::BLUE)
    } else if windows > 0 {
        (Colors::SURFACE0, Colors::GREEN)
    } else {
        (Colors::SURFACE0, Colors::OVERLAY0)
    }
}

/// The command that shows the state of a space.
pub open spec fn space_command(space: SpaceRecord) -> Seq<char> {
    set_command(
        space_name(space.index as nat),
        seq![
            ("background.color"@, hex_color(space_colors(space.has_focus, space.windows.len()).0)),
            (
                "background.border_color"@,
                hex_color(space_colors(space.has_focus, space.windows.len()).1),
            ),
        ],
    )
}

/// The commands that show the state of each space of a sequence, in order.
pub open spec fn space_commands(spaces: Seq<SpaceRecord>) -> Seq<Seq<char>> {
    Seq::new(spaces.len(), |i: int| space_command(spaces[i]))
}

/// The colors of a space.
pub fn colors_of(has_focus: bool, has_windows: bool) -> (colors: (u32, u32))
    ensures
        colors == space_colors(
            has_focus,
            if has_windows {
                1
            } else {
                0
            },
        ),
{
    if has_focus {
        (Colors::BLUE, Colors::BLUE)
    } else if has_windows {
        (Colors::SURFACE0, Colors::GREEN)
    } else {
        (Colors::SURFACE0, Colors::OVERLAY0)
    }
}

/// Shows the state of one space.
pub fn show_space(bar: &SketchyBar, space: &SpaceInfo) -> (dispatch: Dispatch)
    ensures
        dispatch@ == (bar@, space_command(space@)),
{
    let name = item_name(space.index);
    let (background, border) = colors_of(space.has_focus, space.windows.len() > 0);
    let background_text = color_string(background);
    let border_text = color_string(border);
    let properties = [
        ("background.color", background_text.as_str()),
        ("background.border_color", border_text.as_str()),
    ];
    assert(property_texts(properties@) =~= seq![
        ("background.color"@, hex_color(space_colors(space.has_focus, space.windows@.len()).0)),
        (
            "background.border_color"@,
            hex_color(space_colors(space.has_focus, space.windows@.len()).1),
        ),
    ]);
    bar.set(name.as_str(), &properties)
}

/// What to show for a query of the spaces: the state of each reported space,
/// in the order of the report, and nothing where the query came to nothing.
pub open spec fn reported_commands(reply: CommandReply<Vec<SpaceInfo>>) -> Seq<Seq<char>> {
    match reply {
        CommandReply::Data(spaces) => space_commands(space_records(spaces@)),
        _ => Seq::empty(),
    }
}

/// Shows the spaces from a query of the window manager.
pub fn update(bar: &SketchyBar, reply: CommandReply<Vec<SpaceInfo>>) -> (dispatches: Vec<Dispatch>)
    ensures
        dispatch_records(dispatches@) == addressed(bar@, reported_commands(reply)),
{
    let mut dispatches: Vec<Dispatch> = Vec::new();
    match reply {
        CommandReply::Data(spaces) => {
            let mut i: usize = 0;
            while i < spaces.len()
                invariant
                    0 <= i <= spaces.len(),
                    dispatches.len() == i,
                    forall|j: int|
                        0 <= j < i ==> (#[trigger] dispatches[j])@ == (
                            bar@,
                            space_command(spaces[j]@),
                        ),
                decreases spaces.len() - i,
            {
                dispatches.push(show_space(bar, &spaces[i]));
                i += 1;
            }
            assert(dispatch_records(dispatches@) =~= addressed(bar@, reported_commands(reply)));
        },
        _ => {
            assert(dispatch_records(dispatches@) =~= addressed(bar@, reported_commands(reply)));
        },
    }
    dispatches
}

/// The dispatches show the state of every space of the table to one bar, each
/// space once, in some order.
pub open spec fn shows_spaces(
    table: Map<u32, SpaceRecord>,
    bar: Seq<char>,
    dispatches: Seq<(Seq<char>, Seq<char>)>,
) -> bool {
    exists|indices: Seq<u32>|
        {
            &&& indices.no_duplicates()
            &&& indices.len() == dispatches.len()
            &&& indices.to_set() == table.dom()
            &&& forall|i: int|
                0 <= i < indices.len() ==> #[trigger] dispatches[i] == (
                    bar,
                    space_command(table[indices[i]]),
                )
        }
}

/// Shows every space of a table.
pub fn show_spaces(bar: &SketchyBar, spaces: &HashMap<u32, SpaceInfo>) -> (dispatches: Vec<Dispatch>)
    ensures
        shows_spaces(space_table_records(spaces@), bar@, dispatch_records(dispatches@)),
{
    let ghost table = space_table_records(spaces@);
    let indices = space_indices(spaces);
    let mut dispatches: Vec<Dispatch> = Vec::new();
    let mut i: usize = 0;
    while i < indices.len()
        invariant
            table == space_table_records(spaces@),
            indices@.to_set() == spaces@.dom(),
            0 <= i <= indices.len(),
            dispatches.len() == i,
            forall|j: int|
                0 <= j < i ==> (#[trigger] dispatches[j])@ == (
                    bar@,
                    space_command(table[indices[j]]),
                ),
        decreases indices.len() - i,
    {
        proof {
            assert(indices@.to_set().contains(indices[i as int]));
        }
        match spaces.get(&indices[i]) {
            Some(space) => {
                dispatches.push(show_space(bar, space));
            },
            None => {
                proof {
                    assert(false);
                }
            },
        }
        i += 1;
    }
    proof {
        assert(table.dom() =~= spaces@.dom());
        assert forall|j: int| 0 <= j < indices.len() implies #[trigger] dispatch_records(
            dispatches@,
        )[j] == (bar@, space_command(table[indices@[j]])) by {
            assert(dispatches[j]@ == (bar@, space_command(table[indices[j]])));
        }
    }
    dispatches
}

/// Shows the spaces that the snapshot knows.
pub fn update_with_state(bar: &SketchyBar, state: &DaemonState) -> (dispatches: Vec<Dispatch>)
    ensures
        shows_spaces(state@.spaces, bar@, dispatch_records(dispatches@)),
{
    show_spaces(bar, &state.spaces)
}

} // verus!

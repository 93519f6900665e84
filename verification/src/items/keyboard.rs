use crate::helpers::colors::Colors;
use crate::helpers::icons::Icons;
use crate::helpers::yabai::CommandReply;
use crate::helpers::yabai::DisplayInfo;
use crate::sketchybar::add_command;
use crate::sketchybar::addressed;
use crate::sketchybar::dispatch_records;
use crate::sketchybar::property_texts;
use crate::sketchybar::set_command;
use crate::sketchybar::Dispatch;
use crate::sketchybar::SketchyBar;
use crate::text::color_string;
use crate::text::contains_text;
use crate::text::decimal;
use crate::text::decimal_string;
use crate::text::hex_color;
use crate::text::occurs_in;
use vstd::prelude::*;

verus! {

/// The commands that set up the keyboard item on the bar of a display.
pub open spec fn setup_commands(display: DisplayInfo) -> Seq<Seq<char>> {
    seq![
        add_command("item"@, "keyboard"@, "right"@),
        set_command(
            "keyboard"@,
            seq![
                ("width"@, "dynamic"@),
                ("position"@, "right"@),
                ("icon"@, Icons::KEYBOARD@),
                ("icon.color"@, hex_color(Colors::BLUE)),
                ("label"@, "US"@),
                ("label.color"@, hex_color(Colors::BLUE)),
                ("background.border_color"@, hex_color(Colors::BLUE)),
            ],
        ),
    ] + (if display.is_builtin {
        seq![
            set_command("keyboard"@, seq![("associated_display"@, decimal(display.index as nat))]),
        ]
    } else {
        Seq::empty()
    })
}

/// Sets up the keyboard item.
pub fn setup(bar: &SketchyBar, display_info: &DisplayInfo) -> (dispatches: Vec<Dispatch>)
    ensures
        dispatch_records(dispatches@) == addressed(bar@, setup_commands(*display_info)),
{
    let mut dispatches: Vec<Dispatch> = Vec::new();
    dispatches.push(bar.add("item", "keyboard", "right"));
    let blue = color_string(Colors::BLUE);
    let properties = [
        ("width", "dynamic"),
        ("position", "right"),
        ("icon", Icons::KEYBOARD),
        ("icon.color", blue.as_str()),
        ("label", "US"),
        ("label.color", blue.as_str()),
        ("background.border_color", blue.as_str()),
    ];
    assert(property_texts(properties@) =~= seq![
        ("width"@, "dynamic"@),
        ("position"@, "right"@),
        ("icon"@, Icons::KEYBOARD@),
        ("icon.color"@, hex_color(Colors::BLUE)),
        ("label"@, "US"@),
        ("label.color"@, hex_color(Colors::BLUE)),
        ("background.border_color"@, hex_color(Colors::BLUE)),
    ]);
    dispatches.push(bar.set("keyboard", &properties));
    if display_info.is_builtin {
        let index = decimal_string(display_info.index);
        let association = [("associated_display", index.as_str())];
        assert(property_texts(association@) =~= seq![
            ("associated_display"@, decimal(display_info.index as nat)),
        ]);
        dispatches.push(bar.set("keyboard", &association));
    }
    assert(dispatch_records(dispatches@) =~= addressed(bar@, setup_commands(*display_info)));
    dispatches
}

/// The short name of the layout that a listing of the selected input sources
/// names: `US` for U.S. or ABC, `DV` for Dvorak, `CM` for Colemak, in that
/// order of precedence, and `??` for any other.
pub open spec fn layout_of(listing: Seq<char>) -> Seq<char> {
    if occurs_in(listing, "U.S."@) || occurs_in(listing, "ABC"@) {
        "US"@
    } else if occurs_in(listing, "Dvorak"@) {
        "DV"@
    } else if occurs_in(listing, "Colemak"@) {
        "CM"@
    } else {
        "??"@
    }
}

/// The short name of the layout in a listing of the selected input sources.
pub fn layout_name(listing: &str) -> (name: &'static str)
    ensures
        name@ == layout_of(listing@),
{
    if contains_text(listing, "U.S.") || contains_text(listing, "ABC") {
        "US"
    } else if contains_text(listing, "Dvorak") {
        "DV"
    } else if contains_text(listing, "Colemak") {
        "CM"
    } else {
        "??"
    }
}

/// The command that shows a layout.
pub open spec fn keyboard_command(layout: Seq<char>) -> Seq<char> {
    "--set keyboard label="@ + layout
}

/// What to show for a run of the command that lists the selected input
/// sources: nothing where it could not be started, `??` where it failed or its
/// output is not text, and the layout of its listing otherwise.
pub open spec fn keyboard_update(reply: CommandReply<String>) -> Option<Seq<char>> {
    match reply {
        CommandReply::Unavailable => None,
        CommandReply::Failed => Some(keyboard_command("??"@)),
        CommandReply::Malformed => Some(keyboard_command("??"@)),
        CommandReply::Data(listing) => Some(keyboard_command(layout_of(listing@))),
    }
}

/// Shows the keyboard layout from a run of the command that lists the
/// selected input sources.
pub fn update(bar: &SketchyBar, reply: CommandReply<String>) -> (dispatch: Option<Dispatch>)
    ensures
        match keyboard_update(reply) {
            Some(command) => dispatch matches Some(d) && d@ == (bar@, command),
            None => dispatch is None,
        },
{
    let layout = match reply {
        CommandReply::Unavailable => {
            return None;
        },
        CommandReply::Failed => "??",
        CommandReply::Malformed => "??",
        CommandReply::Data(listing) => layout_name(listing.as_str()),
    };
    let mut command = String::from_str("--set keyboard label=");
    command.append(layout);
    Some(bar.message(command.as_str()))
}

} // verus!

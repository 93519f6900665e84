use crate::helpers::colors::Colors;
use crate::helpers::icons::Icons;
use crate::helpers::yabai::DisplayInfo;
use crate::sketchybar::add_command;
use crate::sketchybar::addressed;
use crate::sketchybar::dispatch_records;
use crate::sketchybar::property_texts;
use crate::sketchybar::set_command;
use crate::sketchybar::subscribe_command;
use crate::sketchybar::word_texts;
use crate::sketchybar::Dispatch;
use crate::sketchybar::SketchyBar;
use crate::state::app_name;
use crate::state::reported_app;
use crate::state::DaemonState;
use crate::state::QueryError;
use crate::text::color_string;
use crate::text::decimal;
use crate::text::decimal_string;
use crate::text::hex_color;
use vstd::prelude::*;

verus! {

/// The commands that set up the front application item on the bar of a
/// display.
pub open spec fn setup_commands(display: DisplayInfo) -> Seq<Seq<char>> {
    seq![
        add_command("item"@, "current_app"@, "left"@),
        set_command(
            "current_app"@,
            seq![
                ("width"@, "dynamic"@),
                ("position"@, "left"@),
                ("icon"@, Icons::APP@),
                ("icon.color"@, hex_color(Colors::MAUVE)),
                ("label"@, "App"@),
                ("label.color"@, hex_color(Colors::MAUVE)),
                ("background.border_color"@, hex_color(Colors::MAUVE)),
                ("associated_display"@, decimal(display.index as nat)),
            ],
        ),
        subscribe_command("current_app"@, seq!["front_app_switched"@]),
    ]
}

/// Sets up the front application item.
pub fn setup(bar: &SketchyBar, display_info: &DisplayInfo) -> (dispatches: Vec<Dispatch>)
    ensures
        dispatch_records(dispatches@) == addressed(bar@, setup_commands(*display_info)),
{
    let mut dispatches: Vec<Dispatch> = Vec::new();
    dispatches.push(bar.add("item", "current_app", "left"));
    let mauve = color_string(Colors::MAUVE);
    let index = decimal_string(display_info.index);
    let properties = [
        ("width", "dynamic"),
        ("position", "left"),
        ("icon", Icons::APP),
        ("icon.color", mauve.as_str()),
        ("label", "App"),
        ("label.color", mauve.as_str()),
        ("background.border_color", mauve.as_str()),
        ("associated_display", index.as_str()),
    ];
    assert(property_texts(properties@) =~= seq![
        ("width"@, "dynamic"@),
        ("position"@, "left"@),
        ("icon"@, Icons::APP@),
        ("icon.color"@, hex_color(Colors::MAUVE)),
        ("label"@, "App"@),
        ("label.color"@, hex_color(Colors::MAUVE)),
        ("background.border_color"@, hex_color(Colors::MAUVE)),
        ("associated_display"@, decimal(display_info.index as nat)),
    ]);
    dispatches.push(bar.set("current_app", &properties));
    let events = ["front_app_switched"];
    assert(word_texts(events@) =~= seq!["front_app_switched"@]);
    dispatches.push(bar.subscribe("current_app", &events));
    assert(dispatch_records(dispatches@) =~= addressed(bar@, setup_commands(*display_info)));
    dispatches
}

/// The command that shows an application's name.
pub open spec fn app_command(name: Seq<char>) -> Seq<char> {
    "--set current_app label="@ + name
}

/// Shows an application's name.
pub fn show_app(bar: &SketchyBar, name: &str) -> (dispatch: Dispatch)
    ensures
        dispatch@ == (bar@, app_command(name@)),
{
    let mut command = String::from_str("--set current_app label=");
    command.append(name);
    bar.message(command.as_str())
}

/// Shows the front application from the outcome of its query; a failed query
/// shows `Unknown`.
pub fn update(bar: &SketchyBar, queried: Result<String, QueryError>) -> (dispatch: Dispatch)
    ensures
        dispatch@ == (bar@, app_command(reported_app(queried))),
{
    match queried {
        Ok(name) => show_app(bar, name.as_str()),
        Err(_) => show_app(bar, "Unknown"),
    }
}

/// Shows the known front application; nothing is sent while none is known.
pub fn show_known_app(bar: &SketchyBar, current: &Option<String>) -> (dispatch: Option<Dispatch>)
    ensures
        match app_name(*current) {
            Some(name) => dispatch matches Some(d) && d@ == (bar@, app_command(name)),
            None => dispatch is None,
        },
{
    match current {
        Some(name) => Some(show_app(bar, name.as_str())),
        None => None,
    }
}

/// Shows the front application that the snapshot knows; nothing is sent
/// while it knows none.
pub fn update_with_state(bar: &SketchyBar, state: &DaemonState) -> (dispatch: Option<Dispatch>)
    ensures
        match state@.current_app {
            Some(name) => dispatch matches Some(d) && d@ == (bar@, app_command(name)),
            None => dispatch is None,
        },
{
    show_known_app(bar, &state.current_app)
}

} // verus!

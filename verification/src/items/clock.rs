use crate::helpers::colors::Colors;
use crate::helpers::yabai::DisplayInfo;
use crate::sketchybar::add_command;
use crate::sketchybar::addressed;
use crate::sketchybar::dispatch_records;
use crate::sketchybar::property_texts;
use crate::sketchybar::set_command;
use crate::sketchybar::subscribe_command;
use crate::sketchybar::word_texts;
use crate::sketchybar::Dispatch;
use crate::sketchybar::SketchyBar;
use crate::text::color_string;
use crate::text::decimal;
use crate::text::decimal_string;
use crate::text::hex_color;
use crate::text::text_of;
use std::fmt::Write;
use vstd::prelude::*;

verus! {

/// The format of the clock's label: two-digit year, month and day, then hour
/// and minute, then the short name of the weekday.
pub const TIME_FORMAT: &'static str = "%y%m%d %H%M %a";

/// The commands that set up the clock item on the bar of a display.
pub open spec fn setup_commands(display: DisplayInfo) -> Seq<Seq<char>> {
    seq![
        add_command("item"@, "clock"@, "right"@),
        set_command(
            "clock"@,
            seq![
                ("update_freq"@, "1"@),
                ("width"@, "dynamic"@),
                ("position"@, "right"@),
                ("label.color"@, hex_color(Colors::FLAMINGO)),
                ("background.border_color"@, hex_color(Colors::FLAMINGO)),
            ],
        ),
    ] + (if display.is_builtin {
        seq![set_command("clock"@, seq![("associated_display"@, decimal(display.index as nat))])]
    } else {
        Seq::empty()
    }) + seq![subscribe_command("clock"@, seq!["system_woke"@, "routine"@])]
}

/// Sets up the clock item.
pub fn setup(bar: &SketchyBar, display_info: &DisplayInfo) -> (dispatches: Vec<Dispatch>)
    ensures
        dispatch_records(dispatches@) == addressed(bar@, setup_commands(*display_info)),
{
    let mut dispatches: Vec<Dispatch> = Vec::new();
    dispatches.push(bar.add("item", "clock", "right"));
    let flamingo = color_string(Colors::FLAMINGO);
    let properties = [
        ("update_freq", "1"),
        ("width", "dynamic"),
        ("position", "right"),
        ("label.color", flamingo.as_str()),
        ("background.border_color", flamingo.as_str()),
    ];
    assert(property_texts(properties@) =~= seq![
        ("update_freq"@, "1"@),
        ("width"@, "dynamic"@),
        ("position"@, "right"@),
        ("label.color"@, hex_color(Colors::FLAMINGO)),
        ("background.border_color"@, hex_color(Colors::FLAMINGO)),
    ]);
    dispatches.push(bar.set("clock", &properties));
    if display_info.is_builtin {
        let index = decimal_string(display_info.index);
        let association = [("associated_display", index.as_str())];
        assert(property_texts(association@) =~= seq![
            ("associated_display"@, decimal(display_info.index as nat)),
        ]);
        dispatches.push(bar.set("clock", &association));
    }
    let events = ["system_woke", "routine"];
    assert(word_texts(events@) =~= seq!["system_woke"@, "routine"@]);
    dispatches.push(bar.subscribe("clock", &events));
    assert(dispatch_records(dispatches@) =~= addressed(bar@, setup_commands(*display_info)));
    dispatches
}

/// The text of a moment in a format: what chrono's `DateTime::format` writes
/// for the moment `timestamp` seconds after the epoch, seen at `offset_seconds`
/// east of UTC; nothing where the offset or the moment is out of chrono's
/// range or the format is not a valid one.
pub uninterp spec fn formatted_time(timestamp: i64, offset_seconds: i32, format: Seq<char>) -> Option<
    Seq<char>,
>;

/// Formats a moment with chrono: `FixedOffset::east_opt` for the offset,
/// `DateTime::from_timestamp` for the moment, `with_timezone` to see it at the
/// offset, and `format` to write it. The result depends on the three arguments
/// alone; it is missing exactly where one of the calls refuses its input.
#[verifier::external_body]
fn format_time(timestamp: i64, offset_seconds: i32, format: &str) -> (text: Option<String>)
    ensures
        text_of(text) == formatted_time(timestamp, offset_seconds, format@),
{
    let zone = chrono::FixedOffset::east_opt(offset_seconds)?;
    let moment = chrono::DateTime::from_timestamp(timestamp, 0)?.with_timezone(&zone);
    let mut text = String::new();
    write!(text, "{}", moment.format(format)).ok()?;
    Some(text)
}

/// The command that shows a time on the clock.
pub open spec fn clock_command(time: Seq<char>) -> Seq<char> {
    "--set clock label="@ + time
}

/// Shows a formatted time on the clock.
pub fn show_time(bar: &SketchyBar, time: &str) -> (dispatch: Dispatch)
    ensures
        dispatch@ == (bar@, clock_command(time@)),
{
    let mut command = String::from_str("--set clock label=");
    command.append(time);
    bar.message(command.as_str())
}

/// Shows the given moment on the clock, in [`TIME_FORMAT`]. Nothing is sent
/// for a moment that cannot be formatted.
pub fn update(bar: &SketchyBar, timestamp: i64, offset_seconds: i32) -> (dispatch: Option<Dispatch>)
    ensures
        match formatted_time(timestamp, offset_seconds, TIME_FORMAT@) {
            Some(time) => dispatch matches Some(d) && d@ == (bar@, clock_command(time)),
            None => dispatch is None,
        },
{
    match format_time(timestamp, offset_seconds, TIME_FORMAT) {
        Some(time) => Some(show_time(bar, time.as_str())),
        None => None,
    }
}

} // verus!

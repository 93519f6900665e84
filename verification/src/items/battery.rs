use crate::helpers::colors::battery_color;
use crate::helpers::colors::battery_color_of;
use crate::helpers::colors::Colors;
use crate::helpers::icons::battery_icon;
use crate::helpers::icons::battery_icon_of;
use crate::helpers::icons::Icons;
use crate::helpers::yabai::CommandReply;
use crate::helpers::yabai::DisplayInfo;
use crate::sketchybar::add_command;
use crate::sketchybar::addressed;
use crate::sketchybar::dispatch_records;
use crate::sketchybar::property_texts;
use crate::sketchybar::set_command;
use crate::sketchybar::subscribe_command;
use crate::sketchybar::word_texts;
use crate::sketchybar::Dispatch;
use crate::sketchybar::SketchyBar;
use crate::state::QueryError;
use crate::text::color_string;
use crate::text::contains_text;
use crate::text::decimal;
use crate::text::decimal_string;
use crate::text::hex_color;
use crate::text::occurs_in;
use vstd::prelude::*;

verus! {

/// The pattern that finds the charge in the power report: a run of digits
/// before a percent sign.
pub const CHARGE_PATTERN: &'static str = "(\\d+)%";

/// The commands that set up the battery item on the bar of a display.
pub open spec fn setup_commands(display: DisplayInfo) -> Seq<Seq<char>> {
    seq![
        add_command("item"@, "battery"@, "right"@),
        set_command(
            "battery"@,
            seq![
                ("width"@, "dynamic"@),
                ("position"@, "right"@),
                ("associated_display"@, decimal(display.index as nat)),
            ],
        ),
        subscribe_command(
            "battery"@,
            seq!["routine"@, "power_source_change"@, "system_woke"@],
        ),
    ]
}

/// Sets up the battery item.
pub fn setup(bar: &SketchyBar, display_info: &DisplayInfo) -> (dispatches: Vec<Dispatch>)
    ensures
        dispatch_records(dispatches@) == addressed(bar@, setup_commands(*display_info)),
{
    let mut dispatches: Vec<Dispatch> = Vec::new();
    dispatches.push(bar.add("item", "battery", "right"));
    let index = decimal_string(display_info.index);
    let properties = [
        ("width", "dynamic"),
        ("position", "right"),
        ("associated_display", index.as_str()),
    ];
    assert(property_texts(properties@) =~= seq![
        ("width"@, "dynamic"@),
        ("position"@, "right"@),
        ("associated_display"@, decimal(display_info.index as nat)),
    ]);
    dispatches.push(bar.set("battery", &properties));
    let events = ["routine", "power_source_change", "system_woke"];
    assert(word_texts(events@) =~= seq!["routine"@, "power_source_change"@, "system_woke"@]);
    dispatches.push(bar.subscribe("battery", &events));
    assert(dispatch_records(dispatches@) =~= addressed(bar@, setup_commands(*display_info)));
    dispatches
}

/// What a search for a pattern's group came to.
#[derive(Debug)]
pub enum Capture {
    /// The pattern is not a valid one.
    BadPattern,
    /// The pattern matches nowhere in the text.
    NoMatch,
    /// The pattern matches, but the group took no part in the match.
    Unset,
    /// The text of the group in the first match.
    Text(String),
}

/// The mathematical content of a [`Capture`].
pub enum CaptureView {
    BadPattern,
    NoMatch,
    Unset,
    Text(Seq<char>),
}

impl View for Capture {
    type V = CaptureView;

    open spec fn view(&self) -> CaptureView {
        match self {
            Capture::BadPattern => CaptureView::BadPattern,
            Capture::NoMatch => CaptureView::NoMatch,
            Capture::Unset => CaptureView::Unset,
            Capture::Text(text) => CaptureView::Text(text@),
        }
    }
}

/// What the regex crate finds for a group of a pattern in a text: the group's
/// text in the leftmost match.
pub uninterp spec fn regex_capture(pattern: Seq<char>, text: Seq<char>, group: nat) -> CaptureView;

/// Searches a text with the regex crate: `Regex::new` compiles the pattern,
/// `Regex::captures` finds the leftmost match, and `Captures::get` picks the
/// group. The result depends on the three arguments alone.
#[verifier::external_body]
fn capture_group(pattern: &str, text: &str, group: usize) -> (capture: Capture)
    ensures
        capture@ == regex_capture(pattern@, text@, group as nat),
{
    match regex::Regex::new(pattern) {
        Err(_) => Capture::BadPattern,
        Ok(compiled) => match compiled.captures(text) {
            None => Capture::NoMatch,
            Some(groups) => match groups.get(group) {
                None => Capture::Unset,
                Some(found) => Capture::Text(found.as_str().to_string()),
            },
        },
    }
}

/// The character is one of the ten ASCII digits.
pub open spec fn is_digit(c: char) -> bool {
    '0' <= c <= '9'
}

/// The number that a sequence of ASCII digits writes.
pub open spec fn digits_value(digits: Seq<char>) -> nat
    decreases digits.len(),
{
    if digits.len() == 0 {
        0
    } else {
        10 * digits_value(digits.drop_last()) + (digits.last() as u32 - '0' as u32) as nat
    }
}

/// The charge that a text states: its number where it is made of ASCII digits
/// and is at most 255, and 0 otherwise.
pub open spec fn charge_of(text: Seq<char>) -> u8 {
    if text.len() > 0 && (forall|i: int| 0 <= i < text.len() ==> is_digit(#[trigger] text[i]))
        && digits_value(text) <= 255 {
        digits_value(text) as u8
    } else {
        0
    }
}

/// The number of a sequence of digits is at least that of any prefix.
proof fn lemma_digits_grow(digits: Seq<char>, until: int)
    requires
        0 <= until <= digits.len(),
        forall|i: int| 0 <= i < digits.len() ==> is_digit(#[trigger] digits[i]),
    ensures
        digits_value(digits.take(until)) <= digits_value(digits),
    decreases digits.len() - until,
{
    if until < digits.len() {
        assert(digits.take(until + 1).drop_last() =~= digits.take(until));
        assert(digits.take(until + 1).last() == digits[until]);
        lemma_digits_grow(digits, until + 1);
    } else {
        assert(digits.take(until) =~= digits);
    }
}

/// The charge that a text states.
pub fn parse_charge(text: &str) -> (charge: u8)
    ensures
        charge == charge_of(text@),
{
    let mut value: u32 = 0;
    let mut any = false;
    let chars = text.chars();
    assert(text@.take(0) =~= Seq::<char>::empty());
    for c in it: chars
        invariant
            it.seq() == text@,
            any == (it.index() > 0),
            forall|j: int| 0 <= j < it.index() ==> is_digit(#[trigger] text@[j]),
            value == digits_value(text@.take(it.index())),
            value <= 255,
    {
        if c < '0' || c > '9' {
            return 0;
        }
        proof {
            assert(text@.take(it.index() + 1).drop_last() =~= text@.take(it.index()));
            assert(text@.take(it.index() + 1).last() == c);
        }
        let next = 10 * value + (c as u32 - '0' as u32);
        if next > 255 {
            proof {
                if forall|j: int| 0 <= j < text@.len() ==> is_digit(#[trigger] text@[j]) {
                    lemma_digits_grow(text@, it.index() + 1);
                }
            }
            return 0;
        }
        value = next;
        any = true;
    }
    if !any {
        return 0;
    }
    assert(text@.take(text@.len() as int) =~= text@);
    value as u8
}

/// The label of a charge: two digits at least.
pub open spec fn charge_label(charge: u8) -> Seq<char> {
    if charge < 10 {
        "0"@ + decimal(charge as nat)
    } else {
        decimal(charge as nat)
    }
}

/// The command that shows a battery state.
pub open spec fn battery_command(icon: Seq<char>, color: u32, label: Seq<char>) -> Seq<char> {
    "--set battery icon="@ + icon + " icon.color="@ + hex_color(color)
        + " icon.padding_left=10 label="@ + label + " label.color="@ + hex_color(color)
        + " label.padding_right=10"@
}

/// What to show for a power report in which the charge pattern was searched:
/// nothing where it matches nowhere; the charge with its glyph and color
/// where it does, charging when the report names AC power; an error where the
/// pattern itself is refused.
pub open spec fn battery_reading(report: Seq<char>, capture: CaptureView) -> Result<
    Option<Seq<char>>,
    QueryError,
> {
    match capture {
        CaptureView::BadPattern => Err(QueryError::Failed),
        CaptureView::NoMatch => Ok(None),
        CaptureView::Unset => Ok(Some(battery_command(Icons::ERROR@, Colors::YELLOW, "?"@))),
        CaptureView::Text(digits) => {
            let charge = charge_of(digits);
            let charging = occurs_in(report, "AC Power"@);
            Ok(
                Some(
                    battery_command(
                        battery_icon_of(charge as int, charging)@,
                        battery_color_of(charge as int, charging),
                        charge_label(charge),
                    ),
                ),
            )
        },
    }
}

/// A dispatch, or what stands in its place, is the expected command to a bar.
pub open spec fn sends(
    outcome: Result<Option<Dispatch>, QueryError>,
    bar: Seq<char>,
    expected: Result<Option<Seq<char>>, QueryError>,
) -> bool {
    match expected {
        Ok(Some(command)) => outcome matches Ok(Some(d)) && d@ == (bar, command),
        Ok(None) => outcome matches Ok(None),
        Err(error) => outcome matches Err(e) && e == error,
    }
}

fn show_battery(bar: &SketchyBar, icon: &str, color: u32, label: &str) -> (dispatch: Dispatch)
    ensures
        dispatch@ == (bar@, battery_command(icon@, color, label@)),
{
    let shade = color_string(color);
    let mut command = String::from_str("--set battery icon=");
    command.append(icon);
    command.append(" icon.color=");
    command.append(shade.as_str());
    command.append(" icon.padding_left=10 label=");
    command.append(label);
    command.append(" label.color=");
    command.append(shade.as_str());
    command.append(" label.padding_right=10");
    bar.message(command.as_str())
}

/// Shows the battery state that a power report and the search for the charge
/// in it come to.
pub fn render(bar: &SketchyBar, report: &str, capture: Capture) -> (outcome: Result<
    Option<Dispatch>,
    QueryError,
>)
    ensures
        sends(outcome, bar@, battery_reading(report@, capture@)),
{
    match capture {
        Capture::BadPattern => Err(QueryError::Failed),
        Capture::NoMatch => Ok(None),
        Capture::Unset => Ok(Some(show_battery(bar, Icons::ERROR, Colors::YELLOW, "?"))),
        Capture::Text(digits) => {
            let charge = parse_charge(digits.as_str());
            let charging = contains_text(report, "AC Power");
            let mut label = String::new();
            if charge < 10 {
                label.append("0");
            }
            label.append(decimal_string(charge as u32).as_str());
            assert(label@ =~= charge_label(charge));
            Ok(
                Some(
                    show_battery(
                        bar,
                        battery_icon(charge, charging),
                        battery_color(charge, charging),
                        label.as_str(),
                    ),
                ),
            )
        },
    }
}

/// What a run of the power report command comes to: an error where it could
/// not be started or its output is not text, nothing to show where it reported
/// failure, and otherwise what its report comes to.
pub open spec fn battery_update(reply: CommandReply<String>) -> Result<
    Option<Seq<char>>,
    QueryError,
> {
    match reply {
        CommandReply::Unavailable => Err(QueryError::Unreachable),
        CommandReply::Failed => Ok(None),
        CommandReply::Malformed => Err(QueryError::Malformed),
        CommandReply::Data(report) => battery_reading(
            report@,
            regex_capture(CHARGE_PATTERN@, report@, 1),
        ),
    }
}

/// Shows the battery state from a run of the power report command.
pub fn update(bar: &SketchyBar, reply: CommandReply<String>) -> (outcome: Result<
    Option<Dispatch>,
    QueryError,
>)
    ensures
        sends(outcome, bar@, battery_update(reply)),
{
    match reply {
        CommandReply::Unavailable => Err(QueryError::Unreachable),
        CommandReply::Failed => Ok(None),
        CommandReply::Malformed => Err(QueryError::Malformed),
        CommandReply::Data(report) => {
            let capture = capture_group(CHARGE_PATTERN, report.as_str(), 1);
            render(bar, report.as_str(), capture)
        },
    }
}

} // verus!

use crate::helpers::properties::bar_properties_of;
use crate::helpers::properties::default_properties_of;
use crate::helpers::properties::BarPropertiesView;
use crate::helpers::properties::DefaultPropertiesView;
use crate::helpers::properties::Properties;
use crate::helpers::yabai::DisplayInfo;
use crate::sketchybar::addressed;
use crate::sketchybar::bar_command;
use crate::sketchybar::default_command;
use crate::sketchybar::dispatch_records;
use crate::sketchybar::property_texts;
use crate::sketchybar::Dispatch;
use crate::sketchybar::SketchyBar;
use crate::text::bool_string;
use crate::text::bool_word;
use crate::text::color_string;
use crate::text::decimal;
use crate::text::decimal_string;
use crate::text::hex_color;
use crate::text::signed_decimal;
use crate::text::signed_decimal_string;
use vstd::prelude::*;

verus! {

/// The properties of a bar as the bar reads them, in the order in which they
/// are sent.
pub open spec fn bar_configuration(properties: BarPropertiesView) -> Seq<(Seq<char>, Seq<char>)> {
    seq![
        ("position"@, properties.position),
        ("height"@, decimal(properties.height as nat)),
        ("sticky"@, bool_word(properties.sticky)),
        ("shadow"@, bool_word(properties.shadow)),
        ("font_smoothing"@, bool_word(properties.font_smoothing)),
        ("margin"@, decimal(properties.margin as nat)),
        ("color"@, hex_color(properties.color)),
        ("y_offset"@, signed_decimal(properties.y_offset as int)),
        ("padding_left"@, decimal(properties.padding_left as nat)),
        ("padding_right"@, decimal(properties.padding_right as nat)),
        ("display"@, decimal(properties.display as nat)),
        ("topmost"@, bool_word(properties.topmost)),
    ]
}

/// The item defaults as the bar reads them, in the order in which they are
/// sent.
pub open spec fn default_configuration(properties: DefaultPropertiesView) -> Seq<
    (Seq<char>, Seq<char>),
> {
    seq![
        ("update_freq"@, properties.update_freq),
        ("position"@, properties.position),
        ("y_offset"@, signed_decimal(properties.y_offset as int)),
        ("padding_left"@, decimal(properties.padding_left as nat)),
        ("padding_right"@, decimal(properties.padding_right as nat)),
        ("width"@, properties.width),
        ("scroll_texts"@, bool_word(properties.scroll_texts)),
        ("blur_radius"@, decimal(properties.blur_radius as nat)),
        ("align"@, properties.align),
        ("background.drawing"@, bool_word(properties.background.drawing)),
        ("background.color"@, hex_color(properties.background.color)),
        ("background.border_color"@, hex_color(properties.background.border_color)),
        ("background.border_width"@, decimal(properties.background.border_width as nat)),
        ("background.height"@, decimal(properties.background.height as nat)),
        ("background.corner_radius"@, decimal(properties.background.corner_radius as nat)),
        ("icon.font.family"@, properties.icon.family),
        ("icon.font.style"@, properties.icon.style),
        ("icon.font.size"@, decimal(properties.icon.size as nat)),
        ("label.font.family"@, properties.label.font.family),
        ("label.font.style"@, properties.label.font.style),
        ("label.font.size"@, decimal(properties.label.font.size as nat)),
        ("label.padding_left"@, decimal(properties.label.padding_left as nat)),
        ("label.padding_right"@, decimal(properties.label.padding_right as nat)),
    ]
}

/// The commands that configure the bar of a display: its own properties,
/// then the defaults of its items.
pub open spec fn setup_commands(display: DisplayInfo) -> Seq<Seq<char>> {
    seq![
        bar_command(bar_configuration(bar_properties_of(display))),
        default_command(default_configuration(default_properties_of(display))),
    ]
}

/// Configures the bar of a display.
pub fn setup_bar(bar: &SketchyBar, display_info: &DisplayInfo) -> (dispatches: Vec<Dispatch>)
    ensures
        dispatch_records(dispatches@) == addressed(bar@, setup_commands(*display_info)),
{
    let bar_props = Properties::bar_properties(display_info);
    let default_props = Properties::default_properties(display_info);
    let mut dispatches: Vec<Dispatch> = Vec::new();

    let height = decimal_string(bar_props.height);
    let sticky = bool_string(bar_props.sticky);
    let shadow = bool_string(bar_props.shadow);
    let font_smoothing = bool_string(bar_props.font_smoothing);
    let margin = decimal_string(bar_props.margin);
    let color = color_string(bar_props.color);
    let y_offset = signed_decimal_string(bar_props.y_offset);
    let padding_left = decimal_string(bar_props.padding_left);
    let padding_right = decimal_string(bar_props.padding_right);
    let display = decimal_string(bar_props.display);
    let topmost = bool_string(bar_props.topmost);
    let bar_list = [
        ("position", bar_props.position.as_str()),
        ("height", height.as_str()),
        ("sticky", sticky.as_str()),
        ("shadow", shadow.as_str()),
        ("font_smoothing", font_smoothing.as_str()),
        ("margin", margin.as_str()),
        ("color", color.as_str()),
        ("y_offset", y_offset.as_str()),
        ("padding_left", padding_left.as_str()),
        ("padding_right", padding_right.as_str()),
        ("display", display.as_str()),
        ("topmost", topmost.as_str()),
    ];
    assert(property_texts(bar_list@) =~= bar_configuration(bar_props@));
    dispatches.push(bar.bar(&bar_list));

    let item_y_offset = signed_decimal_string(default_props.y_offset);
    let item_padding_left = decimal_string(default_props.padding_left);
    let item_padding_right = decimal_string(default_props.padding_right);
    let scroll_texts = bool_string(default_props.scroll_texts);
    let blur_radius = decimal_string(default_props.blur_radius);
    let drawing = bool_string(default_props.background.drawing);
    let background_color = color_string(default_props.background.color);
    let border_color = color_string(default_props.background.border_color);
    let border_width = decimal_string(default_props.background.border_width);
    let background_height = decimal_string(default_props.background.height);
    let corner_radius = decimal_string(default_props.background.corner_radius);
    let icon_size = decimal_string(default_props.icon.size);
    let label_size = decimal_string(default_props.label.font.size);
    let label_padding_left = decimal_string(default_props.label.padding_left);
    let label_padding_right = decimal_string(default_props.label.padding_right);
    let default_list = [
        ("update_freq", default_props.update_freq.as_str()),
        ("position", default_props.position.as_str()),
        ("y_offset", item_y_offset.as_str()),
        ("padding_left", item_padding_left.as_str()),
        ("padding_right", item_padding_right.as_str()),
        ("width", default_props.width.as_str()),
        ("scroll_texts", scroll_texts.as_str()),
        ("blur_radius", blur_radius.as_str()),
        ("align", default_props.align.as_str()),
        ("background.drawing", drawing.as_str()),
        ("background.color", background_color.as_str()),
        ("background.border_color", border_color.as_str()),
        ("background.border_width", border_width.as_str()),
        ("background.height", background_height.as_str()),
        ("background.corner_radius", corner_radius.as_str()),
        ("icon.font.family", default_props.icon.family.as_str()),
        ("icon.font.style", default_props.icon.style.as_str()),
        ("icon.font.size", icon_size.as_str()),
        ("label.font.family", default_props.label.font.family.as_str()),
        ("label.font.style", default_props.label.font.style.as_str()),
        ("label.font.size", label_size.as_str()),
        ("label.padding_left", label_padding_left.as_str()),
        ("label.padding_right", label_padding_right.as_str()),
    ];
    assert(property_texts(default_list@) =~= default_configuration(default_props@));
    dispatches.push(bar.default(&default_list));
    assert(dispatch_records(dispatches@) =~= addressed(bar@, setup_commands(*display_info)));
    dispatches
}

} // verus!

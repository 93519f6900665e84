use crate::helpers::colors::Colors;
use crate::helpers::yabai::DisplayInfo;
use vstd::prelude::*;

verus! {

/// The properties of bars and of their items, by kind of display.
pub struct Properties;

/// The properties of a bar.
#[derive(Debug)]
pub struct BarProperties {
    pub position: String,
    pub height: u32,
    pub sticky: bool,
    pub shadow: bool,
    pub font_smoothing: bool,
    pub show_in_fullscreen: bool,
    pub margin: u32,
    pub color: u32,
    pub y_offset: i32,
    pub padding_left: u32,
    pub padding_right: u32,
    pub display: u32,
    pub topmost: bool,
}

/// The mathematical content of [`BarProperties`].
pub struct BarPropertiesView {
    pub position: Seq<char>,
    pub height: u32,
    pub sticky: bool,
    pub shadow: bool,
    pub font_smoothing: bool,
    pub show_in_fullscreen: bool,
    pub margin: u32,
    pub color: u32,
    pub y_offset: i32,
    pub padding_left: u32,
    pub padding_right: u32,
    pub display: u32,
    pub topmost: bool,
}

impl View for BarProperties {
    type V = BarPropertiesView;

    open spec fn view(&self) -> BarPropertiesView {
        BarPropertiesView {
            position: self.position@,
            height: self.height,
            sticky: self.sticky,
            shadow: self.shadow,
            font_smoothing: self.font_smoothing,
            show_in_fullscreen: self.show_in_fullscreen,
            margin: self.margin,
            color: self.color,
            y_offset: self.y_offset,
            padding_left: self.padding_left,
            padding_right: self.padding_right,
            display: self.display,
            topmost: self.topmost,
        }
    }
}

impl Clone for BarProperties {
    fn clone(&self) -> (copy: Self)
        ensures
            copy@ == self@,
    {
        BarProperties {
            position: self.position.clone(),
            height: self.height,
            sticky: self.sticky,
            shadow: self.shadow,
            font_smoothing: self.font_smoothing,
            show_in_fullscreen: self.show_in_fullscreen,
            margin: self.margin,
            color: self.color,
            y_offset: self.y_offset,
            padding_left: self.padding_left,
            padding_right: self.padding_right,
            display: self.display,
            topmost: self.topmost,
        }
    }
}

/// The background of an item.
#[derive(Debug, Clone, Copy, PartialEq, Eq, Structural)]
pub struct BackgroundProperties {
    pub drawing: bool,
    pub color: u32,
    pub border_color: u32,
    pub border_width: u32,
    pub height: u32,
    pub corner_radius: u32,
}

/// A font.
#[derive(Debug)]
pub struct FontProperties {
    pub family: String,
    pub style: String,
    pub size: u32,
}

/// The mathematical content of [`FontProperties`].
pub struct FontPropertiesView {
    pub family: Seq<char>,
    pub style: Seq<char>,
    pub size: u32,
}

impl View for FontProperties {
    type V = FontPropertiesView;

    open spec fn view(&self) -> FontPropertiesView {
        FontPropertiesView { family: self.family@, style: self.style@, size: self.size }
    }
}

impl Clone for FontProperties {
    fn clone(&self) -> (copy: Self)
        ensures
            copy@ == self@,
    {
        FontProperties {
            family: self.family.clone(),
            style: self.style.clone(),
            size: self.size,
        }
    }
}

/// The label of an item.
#[derive(Debug)]
pub struct LabelProperties {
    pub font: FontProperties,
    pub padding_left: u32,
    pub padding_right: u32,
}

/// The mathematical content of [`LabelProperties`].
pub struct LabelPropertiesView {
    pub font: FontPropertiesView,
    pub padding_left: u32,
    pub padding_right: u32,
}

impl View for LabelProperties {
    type V = LabelPropertiesView;

    open spec fn view(&self) -> LabelPropertiesView {
        LabelPropertiesView {
            font: self.font@,
            padding_left: self.padding_left,
            padding_right: self.padding_right,
        }
    }
}

impl Clone for LabelProperties {
    fn clone(&self) -> (copy: Self)
        ensures
            copy@ == self@,
    {
        LabelProperties {
            font: self.font.clone(),
            padding_left: self.padding_left,
            padding_right: self.padding_right,
        }
    }
}

/// The properties that every item of a bar starts from.
#[derive(Debug)]
pub struct DefaultProperties {
    pub update_freq: String,
    pub position: String,
    pub ignore_association: bool,
    pub y_offset: i32,
    pub padding_left: u32,
    pub padding_right: u32,
    pub width: String,
    pub scroll_texts: bool,
    pub blur_radius: u32,
    pub align: String,
    pub background: BackgroundProperties,
    pub icon: FontProperties,
    pub label: LabelProperties,
}

/// The mathematical content of [`DefaultProperties`].
pub struct DefaultPropertiesView {
    pub update_freq: Seq<char>,
    pub position: Seq<char>,
    pub ignore_association: bool,
    pub y_offset: i32,
    pub padding_left: u32,
    pub padding_right: u32,
    pub width: Seq<char>,
    pub scroll_texts: bool,
    pub blur_radius: u32,
    pub align: Seq<char>,
    pub background: BackgroundProperties,
    pub icon: FontPropertiesView,
    pub label: LabelPropertiesView,
}

impl View for DefaultProperties {
    type V = DefaultPropertiesView;

    open spec fn view(&self) -> DefaultPropertiesView {
        DefaultPropertiesView {
            update_freq: self.update_freq@,
            position: self.position@,
            ignore_association: self.ignore_association,
            y_offset: self.y_offset,
            padding_left: self.padding_left,
            padding_right: self.padding_right,
            width: self.width@,
            scroll_texts: self.scroll_texts,
            blur_radius: self.blur_radius,
            align: self.align@,
            background: self.background,
            icon: self.icon@,
            label: self.label@,
        }
    }
}

impl Clone for DefaultProperties {
    fn clone(&self) -> (copy: Self)
        ensures
            copy@ == self@,
    {
        DefaultProperties {
            update_freq: self.update_freq.clone(),
            position: self.position.clone(),
            ignore_association: self.ignore_association,
            y_offset: self.y_offset,
            padding_left: self.padding_left,
            padding_right: self.padding_right,
            width: self.width.clone(),
            scroll_texts: self.scroll_texts,
            blur_radius: self.blur_radius,
            align: self.align.clone(),
            background: self.background,
            icon: self.icon.clone(),
            label: self.label.clone(),
        }
    }
}

/// The font of icons and labels at a size.
pub open spec fn nerd_font(size: u32) -> FontPropertiesView {
    FontPropertiesView { family: "MesloLGL Nerd Font"@, style: "Regular"@, size }
}

/// The bar of a display: a tall bar at the top on the built-in display, a
/// slim one at the bottom on any other.
pub open spec fn bar_properties_of(display: DisplayInfo) -> BarPropertiesView {
    BarPropertiesView {
        position: if display.is_builtin {
            "top"@
        } else {
            "bottom"@
        },
        height: if display.is_builtin {
            56
        } else {
            26
        },
        sticky: true,
        shadow: false,
        font_smoothing: false,
        show_in_fullscreen: true,
        margin: 0,
        color: Colors::TRANSPARENT,
        y_offset: if display.is_builtin {
            8
        } else {
            0
        },
        padding_left: 2,
        padding_right: 2,
        display: display.index,
        topmost: true,
    }
}

/// The item defaults of a display: larger paddings, backgrounds and fonts on
/// the built-in display than on any other.
pub open spec fn default_properties_of(display: DisplayInfo) -> DefaultPropertiesView {
    let padding: u32 = if display.is_builtin {
        4
    } else {
        2
    };
    let font_size: u32 = if display.is_builtin {
        16
    } else {
        14
    };
    let label_padding: u32 = if display.is_builtin {
        10
    } else {
        4
    };
    DefaultPropertiesView {
        update_freq: "when_shown"@,
        position: "left"@,
        ignore_association: false,
        y_offset: 0,
        padding_left: padding,
        padding_right: padding,
        width: "dynamic"@,
        scroll_texts: true,
        blur_radius: 25,
        align: "center"@,
        background: BackgroundProperties {
            drawing: true,
            color: Colors::SURFACE0,
            border_color: 0xffffffff,
            border_width: 1,
            height: if display.is_builtin {
                40
            } else {
                20
            },
            corner_radius: if display.is_builtin {
                10
            } else {
                5
            },
        },
        icon: nerd_font(font_size),
        label: LabelPropertiesView {
            font: nerd_font(font_size),
            padding_left: label_padding,
            padding_right: label_padding,
        },
    }
}

fn font(size: u32) -> (font: FontProperties)
    ensures
        font@ == nerd_font(size),
{
    FontProperties {
        family: String::from_str("MesloLGL Nerd Font"),
        style: String::from_str("Regular"),
        size,
    }
}

impl Properties {
    /// The properties of the bar of a display.
    pub fn bar_properties(display_info: &DisplayInfo) -> (properties: BarProperties)
        ensures
            properties@ == bar_properties_of(*display_info),
    {
        if display_info.is_builtin {
            BarProperties {
                position: String::from_str("top"),
                height: 56,
                sticky: true,
                shadow: false,
                font_smoothing: false,
                show_in_fullscreen: true,
                margin: 0,
                color: Colors::TRANSPARENT,
                y_offset: 8,
                padding_left: 2,
                padding_right: 2,
                display: display_info.index,
                topmost: true,
            }
        } else {
            BarProperties {
                position: String::from_str("bottom"),
                height: 26,
                sticky: true,
                shadow: false,
                font_smoothing: false,
                show_in_fullscreen: true,
                margin: 0,
                color: Colors::TRANSPARENT,
                y_offset: 0,
                padding_left: 2,
                padding_right: 2,
                display: display_info.index,
                topmost: true,
            }
        }
    }

    /// The item defaults of the bar of a display.
    pub fn default_properties(display_info: &DisplayInfo) -> (properties: DefaultProperties)
        ensures
            properties@ == default_properties_of(*display_info),
    {
        let (padding, background_height, corner_radius, font_size): (u32, u32, u32, u32) =
            if display_info.is_builtin {
            (4, 40, 10, 16)
        } else {
            (2, 20, 5, 14)
        };
        let label_padding: u32 = if display_info.is_builtin {
            10
        } else {
            4
        };
        DefaultProperties {
            update_freq: String::from_str("when_shown"),
            position: String::from_str("left"),
            ignore_association: false,
            y_offset: 0,
            padding_left: padding,
            padding_right: padding,
            width: String::from_str("dynamic"),
            scroll_texts: true,
            blur_radius: 25,
            align: String::from_str("center"),
            background: BackgroundProperties {
                drawing: true,
                color: Colors::SURFACE0,
                border_color: 0xffffffff,
                border_width: 1,
                height: background_height,
                corner_radius,
            },
            icon: font(font_size),
            label: LabelProperties {
                font: font(font_size),
                padding_left: label_padding,
                padding_right: label_padding,
            },
        }
    }
}

} // verus!

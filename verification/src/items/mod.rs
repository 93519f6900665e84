use crate::helpers::yabai::DisplayInfo;
use crate::sketchybar::addressed;
use crate::sketchybar::dispatch_records;
use crate::sketchybar::Dispatch;
use crate::sketchybar::SketchyBar;
use vstd::prelude::*;

pub mod battery;
pub mod clock;
pub mod current_app;
pub mod keyboard;
pub mod space;
pub mod window;

verus! {

/// The commands that set up all items on the bar of a display: clock,
/// keyboard, spaces, front application and window on every display, and the
/// battery on the built-in one.
pub open spec fn setup_commands(display: DisplayInfo) -> Seq<Seq<char>> {
    clock::setup_commands(display) + keyboard::setup_commands(display) + space::setup_commands(
        display,
    ) + current_app::setup_commands(display) + window::setup_commands(display) + (
    if display.is_builtin {
        battery::setup_commands(display)
    } else {
        Seq::empty()
    })
}

fn append_dispatches(all: &mut Vec<Dispatch>, more: Vec<Dispatch>)
    ensures
        dispatch_records(final(all)@) == dispatch_records(old(all)@) + dispatch_records(more@),
{
    let ghost added = more@;
    let mut more = more;
    all.append(&mut more);
    assert(dispatch_records(all@) =~= dispatch_records(old(all)@) + dispatch_records(added));
}

/// Sets up all items of a bar.
pub fn setup_all_items(bar: &SketchyBar, display_info: &DisplayInfo) -> (dispatches: Vec<Dispatch>)
    ensures
        dispatch_records(dispatches@) == addressed(bar@, setup_commands(*display_info)),
{
    let mut dispatches = clock::setup(bar, display_info);
    append_dispatches(&mut dispatches, keyboard::setup(bar, display_info));
    append_dispatches(&mut dispatches, space::setup(bar, display_info));
    append_dispatches(&mut dispatches, current_app::setup(bar, display_info));
    append_dispatches(&mut dispatches, window::setup(bar, display_info));
    if display_info.is_builtin {
        append_dispatches(&mut dispatches, battery::setup(bar, display_info));
    }
    assert(dispatch_records(dispatches@) =~= addressed(bar@, setup_commands(*display_info)));
    dispatches
}

} // verus!

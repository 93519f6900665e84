use sketchybar_daemon::config::setup_bar;
use sketchybar_daemon::helpers::colors::battery_color;
use sketchybar_daemon::helpers::colors::Colors;
use sketchybar_daemon::helpers::icons::battery_icon;
use sketchybar_daemon::helpers::icons::Icons;
use sketchybar_daemon::helpers::properties::Properties;
use sketchybar_daemon::helpers::yabai::CommandReply;
use sketchybar_daemon::helpers::yabai::DisplayFrame;
use sketchybar_daemon::helpers::yabai::DisplayInfo;
use sketchybar_daemon::items::battery;
use sketchybar_daemon::items::clock;
use sketchybar_daemon::items::current_app;
use sketchybar_daemon::items::keyboard;
use sketchybar_daemon::items::setup_all_items;
use sketchybar_daemon::items::space;
use sketchybar_daemon::items::window;
use sketchybar_daemon::sketchybar::Dispatch;
use sketchybar_daemon::sketchybar::SketchyBar;
use sketchybar_daemon::state::DaemonState;
use sketchybar_daemon::state::QueryError;
use sketchybar_daemon::state::SpaceInfo;
use sketchybar_daemon::state::WindowInfo;
use sketchybar_daemon::text::bool_string;
use sketchybar_daemon::text::color_string;
use sketchybar_daemon::text::decimal_string;
use sketchybar_daemon::text::signed_decimal_string;

fn display(index: u32, is_builtin: bool) -> DisplayInfo {
    DisplayInfo { index, is_builtin, frame: DisplayFrame { x: 0, y: 0, w: 1920, h: 1080 } }
}

fn named(name: &str) -> SketchyBar {
    let mut bar = SketchyBar::new();
    bar.set_bar_name(name);
    bar
}

fn commands(dispatches: &Vec<Dispatch>) -> Vec<&str> {
    dispatches.iter().map(|d| d.command.as_str()).collect()
}

fn all_to(dispatches: &Vec<Dispatch>, bar: &str) -> bool {
    dispatches.iter().all(|d| d.bar_name == bar)
}

#[test]
fn numbers_as_text() {
    assert_eq!(decimal_string(0), "0");
    assert_eq!(decimal_string(7), "7");
    assert_eq!(decimal_string(10), "10");
    assert_eq!(decimal_string(1920), "1920");
    assert_eq!(decimal_string(4294967295), "4294967295");
    assert_eq!(signed_decimal_string(0), "0");
    assert_eq!(signed_decimal_string(8), "8");
    assert_eq!(signed_decimal_string(-8), "-8");
    assert_eq!(signed_decimal_string(2147483647), "2147483647");
    assert_eq!(signed_decimal_string(-2147483648), "-2147483648");
    assert_eq!(bool_string(true), "true");
    assert_eq!(bool_string(false), "false");
}

#[test]
fn colors_as_text() {
    assert_eq!(color_string(0), "0x00000000");
    assert_eq!(color_string(0xffffffff), "0xffffffff");
    assert_eq!(color_string(Colors::BLUE), "0xff89b4fa");
    assert_eq!(color_string(Colors::SURFACE0), "0xff313244");
    assert_eq!(color_string(0x0000abcd), "0x0000abcd");
    assert_eq!(color_string(0x12345678), "0x12345678");
}

#[test]
fn battery_colors_by_band() {
    assert_eq!(battery_color(100, false), Colors::BLUE);
    assert_eq!(battery_color(95, false), Colors::BLUE);
    assert_eq!(battery_color(94, false), Colors::SAPPHIRE);
    assert_eq!(battery_color(85, false), Colors::SAPPHIRE);
    assert_eq!(battery_color(84, false), Colors::SKY);
    assert_eq!(battery_color(75, false), Colors::SKY);
    assert_eq!(battery_color(74, false), Colors::TEAL);
    assert_eq!(battery_color(65, false), Colors::TEAL);
    assert_eq!(battery_color(64, false), Colors::GREEN);
    assert_eq!(battery_color(55, false), Colors::GREEN);
    assert_eq!(battery_color(54, false), Colors::YELLOW);
    assert_eq!(battery_color(45, false), Colors::YELLOW);
    assert_eq!(battery_color(44, false), Colors::PEACH);
    assert_eq!(battery_color(35, false), Colors::PEACH);
    assert_eq!(battery_color(34, false), Colors::MAROON);
    assert_eq!(battery_color(25, false), Colors::MAROON);
    assert_eq!(battery_color(24, false), Colors::RED);
    assert_eq!(battery_color(5, false), Colors::RED);
    assert_eq!(battery_color(4, false), Colors::RED);
    assert_eq!(battery_color(0, false), Colors::RED);
    assert_eq!(battery_color(101, false), Colors::RED);
    assert_eq!(battery_color(255, false), Colors::RED);
    assert_eq!(battery_color(0, true), Colors::BLUE);
    assert_eq!(battery_color(255, true), Colors::BLUE);
}

#[test]
fn battery_icons_by_band() {
    assert_eq!(battery_icon(100, false), Icons::BATTERY_100);
    assert_eq!(battery_icon(95, false), Icons::BATTERY_100);
    assert_eq!(battery_icon(94, false), Icons::BATTERY_90);
    assert_eq!(battery_icon(85, false), Icons::BATTERY_90);
    assert_eq!(battery_icon(80, false), Icons::BATTERY_80);
    assert_eq!(battery_icon(70, false), Icons::BATTERY_70);
    assert_eq!(battery_icon(60, false), Icons::BATTERY_60);
    assert_eq!(battery_icon(50, false), Icons::BATTERY_50);
    assert_eq!(battery_icon(40, false), Icons::BATTERY_40);
    assert_eq!(battery_icon(30, false), Icons::BATTERY_30);
    assert_eq!(battery_icon(24, false), Icons::BATTERY_20);
    assert_eq!(battery_icon(15, false), Icons::BATTERY_20);
    assert_eq!(battery_icon(14, false), Icons::BATTERY_10);
    assert_eq!(battery_icon(5, false), Icons::BATTERY_10);
    assert_eq!(battery_icon(4, false), Icons::ERROR);
    assert_eq!(battery_icon(0, false), Icons::ERROR);
    assert_eq!(battery_icon(101, false), Icons::ERROR);
    assert_eq!(battery_icon(50, true), Icons::BATTERY_CHARGING);
    assert_eq!(battery_icon(200, true), Icons::BATTERY_CHARGING);
}

#[test]
fn bar_commands() {
    let bar = named("external_2");
    let d = bar.message("--query bar");
    assert_eq!((d.bar_name.as_str(), d.command.as_str()), ("external_2", "--query bar"));
    assert_eq!(bar.bar(&[("position", "top"), ("height", "56")]).command, "--bar position=top height=56");
    assert_eq!(bar.bar(&[]).command, "--bar");
    assert_eq!(bar.default(&[("width", "dynamic")]).command, "--default width=dynamic");
    assert_eq!(bar.add("item", "clock", "right").command, "--add item clock right");
    assert_eq!(bar.set("clock", &[("label", "now"), ("icon", "x")]).command, "--set clock label=now icon=x");
    assert_eq!(bar.set("clock", &[]).command, "--set clock");
    assert_eq!(bar.subscribe("clock", &["system_woke", "routine"]).command, "--subscribe clock system_woke routine");
    assert_eq!(bar.subscribe("clock", &[]).command, "--subscribe clock");
    assert_eq!(bar.hotload(true).command, "--hotload true");
    assert_eq!(bar.hotload(false).command, "--hotload false");
    assert_eq!(bar.remove("clock").command, "--remove clock");
    assert_eq!(bar.query("bar", None).command, "--query bar");
    assert_eq!(bar.query("item", Some("clock")).command, "--query item clock");
    assert_eq!(bar.trigger("space_change").command, "--trigger space_change");
    assert_eq!(bar.update().command, "--update");
    assert_eq!(bar.reload().command, "--reload");
    assert_eq!(bar.reload().bar_name, "external_2");
    assert_eq!(bar.clone().get_bar_name(), "external_2");
}

#[test]
fn render_error_text() {
    let bar = named("external_3");
    let error = bar.failure("connection refused");
    assert_eq!(error.bar_name, "external_3");
    assert_eq!(error.detail, "connection refused");
    assert_eq!(error.describe(), "SketchyBar error for 'external_3': connection refused");
}

#[test]
fn bar_properties_by_display() {
    let builtin = Properties::bar_properties(&display(1, true));
    assert_eq!(builtin.position, "top");
    assert_eq!(builtin.height, 56);
    assert_eq!(builtin.y_offset, 8);
    assert_eq!(builtin.display, 1);
    assert!(builtin.sticky && builtin.topmost && builtin.show_in_fullscreen);
    assert!(!builtin.shadow && !builtin.font_smoothing);
    assert_eq!((builtin.margin, builtin.color, builtin.padding_left, builtin.padding_right), (0, 0, 2, 2));
    let external = Properties::bar_properties(&display(2, false));
    assert_eq!(external.position, "bottom");
    assert_eq!(external.height, 26);
    assert_eq!(external.y_offset, 0);
    assert_eq!(external.display, 2);
    assert_eq!(external.clone().position, "bottom");
}

#[test]
fn default_properties_by_display() {
    let builtin = Properties::default_properties(&display(1, true));
    assert_eq!(builtin.update_freq, "when_shown");
    assert_eq!(builtin.position, "left");
    assert_eq!(builtin.width, "dynamic");
    assert_eq!(builtin.align, "center");
    assert!(!builtin.ignore_association && builtin.scroll_texts);
    assert_eq!((builtin.y_offset, builtin.padding_left, builtin.padding_right, builtin.blur_radius), (0, 4, 4, 25));
    assert!(builtin.background.drawing);
    assert_eq!(builtin.background.color, Colors::SURFACE0);
    assert_eq!(builtin.background.border_color, 0xffffffff);
    assert_eq!((builtin.background.border_width, builtin.background.height, builtin.background.corner_radius), (1, 40, 10));
    assert_eq!(builtin.icon.family, "MesloLGL Nerd Font");
    assert_eq!(builtin.icon.style, "Regular");
    assert_eq!(builtin.icon.size, 16);
    assert_eq!(builtin.label.font.size, 16);
    assert_eq!((builtin.label.padding_left, builtin.label.padding_right), (10, 10));
    let external = Properties::default_properties(&display(2, false));
    assert_eq!((external.padding_left, external.padding_right), (2, 2));
    assert_eq!((external.background.height, external.background.corner_radius), (20, 5));
    assert_eq!((external.icon.size, external.label.font.size), (14, 14));
    assert_eq!((external.label.padding_left, external.label.padding_right), (4, 4));
    assert_eq!(external.clone().label.font.family, "MesloLGL Nerd Font");
}

#[test]
fn bar_setup_commands() {
    let bar = SketchyBar::new();
    let dispatches = setup_bar(&bar, &display(1, true));
    assert!(all_to(&dispatches, "sketchybar"));
    assert_eq!(
        commands(&dispatches),
        vec![
            "--bar position=top height=56 sticky=true shadow=false font_smoothing=false margin=0 \
             color=0x00000000 y_offset=8 padding_left=2 padding_right=2 display=1 topmost=true",
            "--default update_freq=when_shown position=left y_offset=0 padding_left=4 \
             padding_right=4 width=dynamic scroll_texts=true blur_radius=25 align=center \
             background.drawing=true background.color=0xff313244 \
             background.border_color=0xffffffff background.border_width=1 background.height=40 \
             background.corner_radius=10 icon.font.family=MesloLGL Nerd Font \
             icon.font.style=Regular icon.font.size=16 label.font.family=MesloLGL Nerd Font \
             label.font.style=Regular label.font.size=16 label.padding_left=10 \
             label.padding_right=10",
        ]
    );
    let external = setup_bar(&named("external_2"), &display(2, false));
    assert!(all_to(&external, "external_2"));
    assert_eq!(
        external[0].command,
        "--bar position=bottom height=26 sticky=true shadow=false font_smoothing=false margin=0 \
         color=0x00000000 y_offset=0 padding_left=2 padding_right=2 display=2 topmost=true"
    );
    assert!(external[1].command.contains(" background.height=20 background.corner_radius=5 "));
    assert!(external[1].command.ends_with("label.padding_left=4 label.padding_right=4"));
}

#[test]
fn clock_setup_commands() {
    let bar = SketchyBar::new();
    assert_eq!(
        commands(&clock::setup(&bar, &display(1, true))),
        vec![
            "--add item clock right",
            "--set clock update_freq=1 width=dynamic position=right label.color=0xfff2cdcd \
             background.border_color=0xfff2cdcd",
            "--set clock associated_display=1",
            "--subscribe clock system_woke routine",
        ]
    );
    assert_eq!(
        commands(&clock::setup(&bar, &display(2, false))),
        vec![
            "--add item clock right",
            "--set clock update_freq=1 width=dynamic position=right label.color=0xfff2cdcd \
             background.border_color=0xfff2cdcd",
            "--subscribe clock system_woke routine",
        ]
    );
}

#[test]
fn clock_shows_the_formatted_moment() {
    let bar = SketchyBar::new();
    assert_eq!(clock::TIME_FORMAT, "%y%m%d %H%M %a");
    let epoch = clock::update(&bar, 0, 0).unwrap();
    assert_eq!(epoch.bar_name, "sketchybar");
    assert_eq!(epoch.command, "--set clock label=700101 0000 Thu");
    assert_eq!(clock::update(&bar, 0, 3600).unwrap().command, "--set clock label=700101 0100 Thu");
    assert_eq!(clock::update(&bar, 0, -3600).unwrap().command, "--set clock label=691231 2300 Wed");
    assert_eq!(clock::update(&bar, 1_700_000_000, 0).unwrap().command, "--set clock label=231114 2213 Tue");
    assert!(clock::update(&bar, 0, 86_400).is_none());
    assert!(clock::update(&bar, i64::MAX, 0).is_none());
    assert_eq!(clock::show_time(&bar, "now").command, "--set clock label=now");
}

#[test]
fn battery_setup_commands() {
    assert_eq!(
        commands(&battery::setup(&SketchyBar::new(), &display(1, true))),
        vec![
            "--add item battery right",
            "--set battery width=dynamic position=right associated_display=1",
            "--subscribe battery routine power_source_change system_woke",
        ]
    );
}

#[test]
fn battery_shows_the_charge_of_the_report() {
    let bar = SketchyBar::new();
    let report = "Now drawing from 'Battery Power'\n -InternalBattery-0 (id=1)\t87%; discharging; 3:02 remaining";
    let shown = battery::update(&bar, CommandReply::Data(report.to_string())).unwrap().unwrap();
    assert_eq!(shown.bar_name, "sketchybar");
    assert_eq!(
        shown.command,
        "--set battery icon=\u{f0082} icon.color=0xff74c7ec icon.padding_left=10 label=87 \
         label.color=0xff74c7ec label.padding_right=10"
    );
    let charging = "Now drawing from 'AC Power'\n -InternalBattery-0 (id=1)\t5%; charging";
    assert_eq!(
        battery::update(&bar, CommandReply::Data(charging.to_string())).unwrap().unwrap().command,
        "--set battery icon=\u{f0084} icon.color=0xff89b4fa icon.padding_left=10 label=05 \
         label.color=0xff89b4fa label.padding_right=10"
    );
    let first_of_two = "12 345% and 6%";
    assert!(battery::update(&bar, CommandReply::Data(first_of_two.to_string()))
        .unwrap()
        .unwrap()
        .command
        .contains(" label=00 "));
    assert!(battery::update(&bar, CommandReply::Data("x 100% y".to_string()))
        .unwrap()
        .unwrap()
        .command
        .contains(" label=100 "));
}

#[test]
fn battery_without_a_charge_shows_nothing() {
    let bar = SketchyBar::new();
    assert!(battery::update(&bar, CommandReply::Data("no battery here".to_string())).unwrap().is_none());
    assert!(battery::update(&bar, CommandReply::Data("%".to_string())).unwrap().is_none());
    assert!(battery::update(&bar, CommandReply::Failed).unwrap().is_none());
    assert_eq!(battery::update(&bar, CommandReply::Unavailable).err(), Some(QueryError::Unreachable));
    assert_eq!(battery::update(&bar, CommandReply::Malformed).err(), Some(QueryError::Malformed));
}

#[test]
fn battery_render_by_capture() {
    let bar = SketchyBar::new();
    assert_eq!(battery::render(&bar, "", battery::Capture::BadPattern).err(), Some(QueryError::Failed));
    assert!(battery::render(&bar, "", battery::Capture::NoMatch).unwrap().is_none());
    assert_eq!(
        battery::render(&bar, "", battery::Capture::Unset).unwrap().unwrap().command,
        "--set battery icon=\u{ea87} icon.color=0xfff9e2af icon.padding_left=10 label=? \
         label.color=0xfff9e2af label.padding_right=10"
    );
    assert_eq!(
        battery::render(&bar, "on AC Power", battery::Capture::Text("50".to_string())).unwrap().unwrap().command,
        "--set battery icon=\u{f0084} icon.color=0xff89b4fa icon.padding_left=10 label=50 \
         label.color=0xff89b4fa label.padding_right=10"
    );
    assert_eq!(
        battery::render(&bar, "", battery::Capture::Text("300".to_string())).unwrap().unwrap().command,
        "--set battery icon=\u{ea87} icon.color=0xfff38ba8 icon.padding_left=10 label=00 \
         label.color=0xfff38ba8 label.padding_right=10"
    );
}

#[test]
fn charges_from_text() {
    assert_eq!(battery::parse_charge("0"), 0);
    assert_eq!(battery::parse_charge("7"), 7);
    assert_eq!(battery::parse_charge("007"), 7);
    assert_eq!(battery::parse_charge("100"), 100);
    assert_eq!(battery::parse_charge("255"), 255);
    assert_eq!(battery::parse_charge("256"), 0);
    assert_eq!(battery::parse_charge("99999999999999999999"), 0);
    assert_eq!(battery::parse_charge(""), 0);
    assert_eq!(battery::parse_charge("1a"), 0);
    assert_eq!(battery::parse_charge("-1"), 0);
    assert_eq!(battery::parse_charge("\u{0663}"), 0);
}

#[test]
fn keyboard_commands() {
    let bar = SketchyBar::new();
    assert_eq!(
        commands(&keyboard::setup(&bar, &display(1, true))),
        vec![
            "--add item keyboard right",
            "--set keyboard width=dynamic position=right icon=\u{f11c} icon.color=0xff89b4fa \
             label=US label.color=0xff89b4fa background.border_color=0xff89b4fa",
            "--set keyboard associated_display=1",
        ]
    );
    assert_eq!(keyboard::setup(&bar, &display(2, false)).len(), 2);
    let listing = |text: &str| keyboard::update(&bar, CommandReply::Data(text.to_string())).unwrap().command;
    assert_eq!(listing("KeyboardLayout Name = \"U.S.\";"), "--set keyboard label=US");
    assert_eq!(listing("KeyboardLayout Name = ABC;"), "--set keyboard label=US");
    assert_eq!(listing("KeyboardLayout Name = Dvorak;"), "--set keyboard label=DV");
    assert_eq!(listing("KeyboardLayout Name = Colemak;"), "--set keyboard label=CM");
    assert_eq!(listing("Dvorak and ABC"), "--set keyboard label=US");
    assert_eq!(listing("Colemak Dvorak"), "--set keyboard label=DV");
    assert_eq!(listing("KeyboardLayout Name = German;"), "--set keyboard label=??");
    assert_eq!(listing(""), "--set keyboard label=??");
    assert_eq!(keyboard::update(&bar, CommandReply::Failed).unwrap().command, "--set keyboard label=??");
    assert_eq!(keyboard::update(&bar, CommandReply::Malformed).unwrap().command, "--set keyboard label=??");
    assert!(keyboard::update(&bar, CommandReply::Unavailable).is_none());
}

#[test]
fn space_setup_commands() {
    let dispatches = space::setup(&named("external_2"), &display(2, false));
    assert_eq!(dispatches.len(), 30);
    assert!(all_to(&dispatches, "external_2"));
    assert_eq!(dispatches[0].command, "--add space space.1 left");
    assert_eq!(
        dispatches[1].command,
        "--set space.1 icon=1 icon.color=0xffcdd6f4 background.color=0xff313244 \
         background.border_color=0xff6c7086 associated_display=2"
    );
    assert_eq!(dispatches[2].command, "--subscribe space.1 space_change display_change");
    assert_eq!(dispatches[27].command, "--add space space.10 left");
    assert_eq!(
        dispatches[28].command,
        "--set space.10 icon=10 icon.color=0xffcdd6f4 background.color=0xff313244 \
         background.border_color=0xff6c7086 associated_display=2"
    );
    assert_eq!(dispatches[29].command, "--subscribe space.10 space_change display_change");
}

fn space_info(index: u32, has_focus: bool, windows: Vec<u32>) -> SpaceInfo {
    SpaceInfo { index, display: 1, has_focus, windows, label: String::new() }
}

#[test]
fn space_update_commands() {
    let bar = SketchyBar::new();
    let reply = CommandReply::Data(vec![
        space_info(1, true, vec![4]),
        space_info(2, false, vec![5, 6]),
        space_info(3, false, vec![]),
    ]);
    assert_eq!(
        commands(&space::update(&bar, reply)),
        vec![
            "--set space.1 background.color=0xff89b4fa background.border_color=0xff89b4fa",
            "--set space.2 background.color=0xff313244 background.border_color=0xffa6e3a1",
            "--set space.3 background.color=0xff313244 background.border_color=0xff6c7086",
        ]
    );
    assert!(space::update(&bar, CommandReply::Failed).is_empty());
    assert!(space::update(&bar, CommandReply::Unavailable).is_empty());
    assert!(space::update(&bar, CommandReply::Malformed).is_empty());
    assert!(space::update(&bar, CommandReply::Data(vec![])).is_empty());
}

#[test]
fn space_update_from_the_snapshot() {
    let bar = SketchyBar::new();
    let mut state = DaemonState::new();
    assert!(space::update_with_state(&bar, &state).is_empty());
    let _ = state.update_spaces(Ok(vec![space_info(1, false, vec![]), space_info(2, true, vec![])]));
    let dispatches = space::update_with_state(&bar, &state);
    let mut seen = commands(&dispatches);
    seen.sort();
    assert_eq!(
        seen,
        vec![
            "--set space.1 background.color=0xff313244 background.border_color=0xff6c7086",
            "--set space.2 background.color=0xff89b4fa background.border_color=0xff89b4fa",
        ]
    );
}

#[test]
fn current_app_commands() {
    let bar = SketchyBar::new();
    assert_eq!(
        commands(&current_app::setup(&bar, &display(1, true))),
        vec![
            "--add item current_app left",
            "--set current_app width=dynamic position=left icon=\u{f013} icon.color=0xffcba6f7 \
             label=App label.color=0xffcba6f7 background.border_color=0xffcba6f7 \
             associated_display=1",
            "--subscribe current_app front_app_switched",
        ]
    );
    assert_eq!(current_app::update(&bar, Ok("Safari".to_string())).command, "--set current_app label=Safari");
    assert_eq!(
        current_app::update(&bar, Err(QueryError::Failed)).command,
        "--set current_app label=Unknown"
    );
    let mut state = DaemonState::new();
    assert!(current_app::update_with_state(&bar, &state).is_none());
    state.current_app = Some("TestApp".to_string());
    assert_eq!(
        current_app::update_with_state(&bar, &state).unwrap().command,
        "--set current_app label=TestApp"
    );
}

#[test]
fn window_commands() {
    let bar = SketchyBar::new();
    assert_eq!(
        commands(&window::setup(&bar, &display(3, false))),
        vec![
            "--add item window left",
            "--set window width=dynamic position=left icon=\u{f2d0} icon.color=0xffa6e3a1 \
             label=Window label.color=0xffa6e3a1 background.border_color=0xffa6e3a1 \
             associated_display=3",
            "--subscribe window window_focus window_title",
        ]
    );
    assert_eq!(window::update(&bar, Ok("bash".to_string())).command, "--set window label=\"bash\"");
    assert_eq!(window::update(&bar, Err(QueryError::Failed)).command, "--set window label=\"No Window\"");
    let long = "bash - test window with a very long title that should be truncated";
    assert_eq!(
        window::update(&bar, Ok(long.to_string())).command,
        "--set window label=\"bash - test window with a very long title that ...\""
    );
}

#[test]
fn window_titles_are_cut_by_bytes() {
    assert_eq!(window::TITLE_LIMIT, 50);
    assert_eq!(window::TITLE_KEPT, 47);
    let fifty = "a".repeat(50);
    assert!(window::fits(&fifty));
    assert_eq!(window::display_title(&fifty), fifty);
    let fifty_one = "b".repeat(51);
    assert_eq!(window::display_title(&fifty_one), format!("{}...", "b".repeat(47)));
    let two_byte = "\u{e9}".repeat(26);
    assert!(!window::fits(&two_byte));
    let shifted = format!("x{}", "\u{e9}".repeat(26));
    assert!(window::fits(&shifted));
    assert_eq!(window::display_title(&shifted), format!("x{}...", "\u{e9}".repeat(23)));
    let short = "\u{e9}".repeat(25);
    assert!(window::fits(&short));
    assert_eq!(window::display_title(&short), short);
}

#[test]
fn window_update_from_the_snapshot() {
    let bar = SketchyBar::new();
    let mut state = DaemonState::new();
    assert_eq!(window::update_with_state(&bar, &state).command, "--set window label=\"No Window\"");
    let _ = state.update_windows(Ok(vec![
        WindowInfo {
            id: 1,
            app: "Terminal".to_string(),
            title: "bash - test window with a very long title that should be truncated".to_string(),
            space: 1,
            display: 1,
            has_focus: true,
        },
        WindowInfo {
            id: 2,
            app: "Mail".to_string(),
            title: "Inbox".to_string(),
            space: 1,
            display: 1,
            has_focus: false,
        },
    ]));
    assert_eq!(
        window::update_with_state(&bar, &state).command,
        "--set window label=\"bash - test window with a very long title that ...\""
    );
}

#[test]
fn all_items_of_a_bar() {
    let bar = SketchyBar::new();
    let builtin = setup_all_items(&bar, &display(1, true));
    assert_eq!(builtin.len(), 46);
    assert_eq!(builtin[0].command, "--add item clock right");
    assert_eq!(builtin[4].command, "--add item keyboard right");
    assert_eq!(builtin[7].command, "--add space space.1 left");
    assert_eq!(builtin[37].command, "--add item current_app left");
    assert_eq!(builtin[40].command, "--add item window left");
    assert_eq!(builtin[43].command, "--add item battery right");
    let external = setup_all_items(&named("external_2"), &display(2, false));
    assert_eq!(external.len(), 41);
    assert!(all_to(&external, "external_2"));
    assert!(external.iter().all(|d| !d.command.contains("battery")));
    assert_eq!(external[38].command, "--add item window left");
}

use pacbrow::app::{App, Location, Mode, Package};
use pacbrow::config::{Colours, ConfigToml, Operation};
use pacbrow::display_texts::CREDITS;
use ratatui::style::Color;

fn config() -> ConfigToml {
    ConfigToml {
        colours: Colours {
            normal: Color::Green,
            info: Color::Blue,
            search: Color::Yellow,
            command: Color::Magenta,
            display: Color::Cyan,
            text: Color::White,
        },
        operation: Operation { starting_mode: Mode::Normal, allow_colon_in_search: false },
    }
}

fn pkg(name: &str, info: &[&str]) -> Package {
    Package { name: name.to_string(), info: info.iter().map(|s| s.to_string()).collect() }
}

fn three() -> Vec<Package> {
    vec![
        pkg("alpha", &["Version : 1", "Arch : x86_64"]),
        pkg("beta", &["Version : 2"]),
        pkg("alphabet", &["Version : 3", "Arch : any", "Size : 4"]),
    ]
}

fn strings(items: &[&str]) -> Vec<String> {
    items.iter().map(|s| s.to_string()).collect()
}

fn type_search(app: &mut App, s: &str) {
    for c in s.chars() {
        app.add_char(c, &Location::Search);
    }
}

fn text(v: &[char]) -> String {
    v.iter().collect()
}

#[test]
fn new_displays_every_package() {
    let app = App::new(config(), three());
    assert_eq!(app.displayed_packages_indices, vec![0, 1, 2]);
    assert_eq!(app.current_paclist, strings(&["alpha", "beta", "alphabet"]));
    assert_eq!(app.current_pacinfo, strings(&["Version : 1", "Arch : x86_64"]));
    assert!(matches!(app.mode, Mode::Normal));
    assert_eq!(app.list_cursor_index, 0);
    assert_eq!(app.info_cursor_index, 0);
}

#[test]
fn new_starts_in_configured_mode() {
    let mut c = config();
    c.operation.starting_mode = Mode::Search;
    let app = App::new(c, three());
    assert_eq!(app.mode, Mode::Search);
}

#[test]
fn empty_inventory_gives_a_valid_state() {
    let mut app = App::new(config(), Vec::new());
    assert!(app.displayed_packages_indices.is_empty());
    assert_eq!(app.current_paclist, strings(&[""]));
    assert_eq!(app.current_pacinfo, strings(&[""]));
    assert!(app.selected_package().is_none());
    app.scroll_down_fast(&Location::Paclist);
    app.scroll_down(&Location::Pacinfo);
    assert_eq!(app.list_cursor_index, 0);
    assert_eq!(app.info_cursor_index, 0);
}

#[test]
fn scenario_a_filter_keeps_matching_names_in_order() {
    let mut app = App::new(config(), three());
    type_search(&mut app, "alpha");
    assert_eq!(app.displayed_packages_indices, vec![0, 2]);
    assert_eq!(app.current_paclist, strings(&["alpha", "alphabet"]));
}

#[test]
fn filter_is_case_sensitive_and_may_select_nothing() {
    let mut app = App::new(config(), three());
    type_search(&mut app, "Alpha");
    assert!(app.displayed_packages_indices.is_empty());
    assert_eq!(app.current_paclist, strings(&[""]));
    assert_eq!(app.current_pacinfo, strings(&[""]));
    assert!(app.selected_package().is_none());
}

#[test]
fn duplicate_names_are_distinct_rows() {
    let mut app = App::new(config(), vec![pkg("dup", &["a"]), pkg("dup", &["b"])]);
    type_search(&mut app, "dup");
    assert_eq!(app.displayed_packages_indices, vec![0, 1]);
    app.scroll_down(&Location::Paclist);
    assert_eq!(app.current_pacinfo, strings(&["b"]));
}

#[test]
fn scenario_b_fast_scroll_clamps_to_last_entry() {
    let mut app = App::new(config(), three());
    for _ in 0..10 {
        app.scroll_down_fast(&Location::Paclist);
    }
    assert_eq!(app.list_cursor_index, 2);
    assert_eq!(app.list_scroll_position, 2);
}

#[test]
fn scenario_d_insert_at_cursor() {
    let mut app = App::new(config(), three());
    type_search(&mut app, "abcd");
    app.cursor_dec(&Location::Search);
    app.cursor_dec(&Location::Search);
    assert_eq!(app.search_cursor_index, 2);
    let r = app.add_char('X', &Location::Search);
    assert_eq!(r, Some(3));
    assert_eq!(text(&app.current_search), "abXcd");
    assert_eq!(app.search_cursor_index, 3);
}

#[test]
fn insert_into_command_field() {
    let mut app = App::new(config(), three());
    for c in "abcd".chars() {
        app.add_char(c, &Location::Command);
    }
    app.cursor_dec(&Location::Command);
    app.cursor_dec(&Location::Command);
    assert_eq!(app.add_char('X', &Location::Command), Some(3));
    assert_eq!(text(&app.current_command), "abXcd");
}

#[test]
fn add_char_elsewhere_does_nothing() {
    let mut app = App::new(config(), three());
    assert_eq!(app.add_char('x', &Location::Paclist), None);
    assert_eq!(app.add_char('x', &Location::Pacinfo), None);
    assert!(app.current_search.is_empty());
    assert!(app.current_command.is_empty());
}

#[test]
fn scenario_e_delete_at_start_is_a_noop() {
    let mut app = App::new(config(), three());
    type_search(&mut app, "ab");
    app.cursor_dec(&Location::Search);
    app.cursor_dec(&Location::Search);
    assert_eq!(app.delete_char(Location::Search), None);
    assert_eq!(text(&app.current_search), "ab");
    assert_eq!(app.search_cursor_index, 0);
    assert_eq!(app.delete_char(Location::Command), None);
    assert_eq!(app.delete_char(Location::Paclist), None);
}

#[test]
fn delete_removes_the_character_before_the_cursor() {
    let mut app = App::new(config(), three());
    type_search(&mut app, "alphx");
    assert_eq!(app.delete_char(Location::Search), Some(4));
    assert_eq!(text(&app.current_search), "alph");
    assert_eq!(app.displayed_packages_indices, vec![0, 2]);
    app.cursor_dec(&Location::Search);
    assert_eq!(app.delete_char(Location::Search), Some(2));
    assert_eq!(text(&app.current_search), "alh");
}

#[test]
fn search_change_resets_both_cursors() {
    let mut app = App::new(config(), three());
    app.scroll_down(&Location::Paclist);
    app.scroll_down(&Location::Paclist);
    app.scroll_down(&Location::Pacinfo);
    assert_eq!(app.list_cursor_index, 2);
    assert_eq!(app.info_cursor_index, 1);
    type_search(&mut app, "a");
    assert_eq!(app.list_cursor_index, 0);
    assert_eq!(app.info_cursor_index, 0);
    app.scroll_down(&Location::Paclist);
    app.delete_char(Location::Search);
    assert_eq!(app.list_cursor_index, 0);
    app.scroll_down(&Location::Paclist);
    app.clear(Location::Search);
    assert_eq!(app.list_cursor_index, 0);
    assert_eq!(app.info_cursor_index, 0);
}

#[test]
fn refreshing_twice_equals_refreshing_once() {
    let mut once = App::new(config(), three());
    type_search(&mut once, "al");
    once.scroll_down(&Location::Paclist);
    once.refresh_search();
    let mut twice = App::new(config(), three());
    type_search(&mut twice, "al");
    twice.scroll_down(&Location::Paclist);
    twice.refresh_search();
    twice.refresh_search();
    assert_eq!(once.displayed_packages_indices, twice.displayed_packages_indices);
    assert_eq!(once.current_paclist, twice.current_paclist);
    assert_eq!(once.current_pacinfo, twice.current_pacinfo);
    assert_eq!(once.list_cursor_index, twice.list_cursor_index);
    assert_eq!(once.info_cursor_index, twice.info_cursor_index);
    assert_eq!(once.current_search, twice.current_search);
}

#[test]
fn detail_projection_follows_list_cursor() {
    let mut app = App::new(config(), three());
    app.scroll_down(&Location::Pacinfo);
    assert_eq!(app.info_cursor_index, 1);
    app.scroll_down(&Location::Paclist);
    assert_eq!(app.current_pacinfo, strings(&["Version : 2"]));
    assert_eq!(app.info_cursor_index, 0);
    assert_eq!(app.selected_package().unwrap().name, "beta");
    app.cursor_jump(&Location::Paclist, 7);
    assert_eq!(app.list_cursor_index, 2);
    assert_eq!(app.current_pacinfo, strings(&["Version : 3", "Arch : any", "Size : 4"]));
    app.scroll_up_fast(&Location::Paclist);
    assert_eq!(app.list_cursor_index, 0);
    assert_eq!(app.current_pacinfo, strings(&["Version : 1", "Arch : x86_64"]));
}

#[test]
fn detail_cursor_stays_on_existing_lines() {
    let mut app = App::new(config(), three());
    app.scroll_down_fast(&Location::Pacinfo);
    assert_eq!(app.info_cursor_index, 1);
    assert_eq!(app.info_scroll_position, 1);
    app.scroll_up(&Location::Pacinfo);
    assert_eq!(app.info_cursor_index, 0);
    app.scroll_down(&Location::Pacinfo);
    app.reset_info_scroll();
    assert_eq!(app.info_cursor_index, 0);
    assert_eq!(app.info_scroll_position, 0);
}

#[test]
fn cursor_inc_and_dec_report_the_new_position() {
    let mut app = App::new(config(), three());
    assert_eq!(app.cursor_inc(&Location::Paclist), 1);
    assert_eq!(app.cursor_inc(&Location::Paclist), 2);
    assert_eq!(app.cursor_inc(&Location::Paclist), 2);
    assert_eq!(app.cursor_dec(&Location::Paclist), 1);
    assert_eq!(app.cursor_inc(&Location::Search), 0);
}

#[test]
fn clear_empties_the_field() {
    let mut app = App::new(config(), three());
    type_search(&mut app, "beta");
    assert_eq!(app.displayed_packages_indices, vec![1]);
    app.clear(Location::Search);
    assert!(app.current_search.is_empty());
    assert_eq!(app.search_cursor_index, 0);
    assert_eq!(app.displayed_packages_indices, vec![0, 1, 2]);
    app.add_char(':', &Location::Command);
    app.clear(Location::Command);
    assert!(app.current_command.is_empty());
    assert_eq!(app.command_cursor_index, 0);
}

#[test]
fn display_mode_shows_its_text_and_leaving_restores() {
    let mut app = App::new(config(), three());
    app.scroll_down(&Location::Paclist);
    app.goto_display_mode(CREDITS);
    assert_eq!(app.mode, Mode::Display);
    assert_eq!(app.current_paclist, strings(&[""]));
    assert_eq!(
        app.current_pacinfo,
        strings(&["Made by Max Gilmour", "", "To Michayla, who always listens"])
    );
    app.scroll_down_fast(&Location::Pacinfo);
    assert_eq!(app.info_cursor_index, 2);
    app.leave_display_mode(Mode::Normal);
    assert_eq!(app.mode, Mode::Normal);
    assert_eq!(app.current_paclist, strings(&["alpha", "beta", "alphabet"]));
    assert_eq!(app.current_pacinfo, strings(&["Version : 2"]));
    assert_eq!(app.info_cursor_index, 0);
}

#[test]
fn goto_command_mode_types_the_marker() {
    let mut app = App::new(config(), three());
    app.goto_command_mode();
    assert_eq!(app.mode, Mode::Command);
    assert_eq!(text(&app.current_command), ":");
    assert_eq!(app.command_cursor_index, 1);
}

#[test]
fn package_list_text_is_one_name_per_line() {
    let mut app = App::new(config(), three());
    assert_eq!(app.package_list_text(), "alpha\nbeta\nalphabet");
    type_search(&mut app, "zzz");
    assert_eq!(app.package_list_text(), "");
}

#[test]
fn refresh_projections_directly() {
    let mut app = App::new(config(), three());
    app.refresh_current_paclist();
    app.refresh_current_pacinfo();
    assert_eq!(app.current_paclist, strings(&["alpha", "beta", "alphabet"]));
    assert_eq!(app.current_pacinfo, strings(&["Version : 1", "Arch : x86_64"]));
}

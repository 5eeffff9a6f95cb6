use bride::colors::ColorsPanel;
use bride::console::ConsolePanel;
use bride::header::HeaderPanel;
use bride::patterns::{extract_pattern_data, format_pattern_data, PatternsPanel};
use bride::preview::PreviewPanel;
use bride::project::{DialogWindow, ProjectAction, ProjectPanel};
use bride::response::Response;
use bride::screen::{CommandHandler, StateSync};
use bride::sections::{extract_section_data, format_section_data, SectionsPanel};

fn ok(cmd: &str, body: &str) -> Response {
    Response::Success(cmd.to_string(), body.to_string())
}

#[test]
fn colors_parse_and_write_back() {
    let mut p = ColorsPanel::new();
    let mut send: Vec<String> = Vec::new();
    p.initialize_state(&mut send);
    assert!(p.should_handle("color-list"));
    assert!(!p.should_handle("color-set"));
    p.handle(&ok("color-list", "ff0000ff\n00ff00ff")).unwrap();
    assert_eq!(p.state.colors[0], 0xff0000ff);
    assert_eq!(p.state.colors[1], 0x00ff00ff);
    assert_eq!(p.state.colors[2], 0);
    p.edit_color(2, 0x11223344);
    let mut out: Vec<String> = Vec::new();
    p.write_state(1000, &mut out);
    assert_eq!(out, vec!["color-set 2 0x11223344".to_string(), "view-preview".to_string()]);
    // The mask is cleared: after the sleep passes, a tick only refreshes
    // the preview.
    let mut again: Vec<String> = Vec::new();
    p.write_state(40_000_000_000, &mut again);
    assert_eq!(again, vec!["view-preview".to_string()]);
}

#[test]
fn colors_reject_bad_hex() {
    let mut p = ColorsPanel::new();
    assert!(p.handle(&ok("color-list", "nothex")).is_err());
}

#[test]
fn console_entry_format_and_exclusions() {
    let mut p = ConsolePanel::new();
    let mut send: Vec<String> = Vec::new();
    p.initialize_state(&mut send);
    assert!(!p.should_handle("view-preview"));
    assert!(p.should_handle("anything-else"));
    // A successful excluded command stays quiet.
    p.handle(&ok("color-list", "ff")).unwrap();
    assert_eq!(p.history.len(), 0);
    // A failing one shows.
    p.handle(&Response::Error("color-list".to_string(), "oops".to_string())).unwrap();
    assert_eq!(p.history, vec!["* color-list () => [ERROR]\noops".to_string()]);
    // An ordinary success shows with its arguments.
    p.handle(&ok("move 1 2", "done")).unwrap();
    assert_eq!(p.history[1], "* move (1 2) => [OK]\ndone");
}

#[test]
fn console_submits_typed_command_once() {
    let mut p = ConsolePanel::new();
    p.command_buffer = "section-set 1 100".to_string();
    p.command_send_flag = true;
    let mut out: Vec<String> = Vec::new();
    p.write_state(0, &mut out);
    assert_eq!(out, vec!["section-set 1 100".to_string()]);
    assert_eq!(p.expecting.as_deref(), Some("section-set"));
    assert_eq!(p.command_buffer, "");
    assert!(!p.command_send_flag);
    // Nothing more goes out without a new submission.
    let mut again: Vec<String> = Vec::new();
    p.write_state(0, &mut again);
    assert!(again.is_empty());
}

#[test]
fn console_expected_response_always_shows() {
    let mut p = ConsolePanel::new();
    let mut send: Vec<String> = Vec::new();
    p.initialize_state(&mut send);
    p.expecting = Some("color-list".to_string());
    // Normally excluded, but it was typed by hand: it shows once.
    p.handle(&ok("color-list", "ff")).unwrap();
    assert_eq!(p.history.len(), 1);
    assert!(p.expecting.is_none());
}

#[test]
fn sections_extract_and_format() {
    assert_eq!(extract_section_data("segment 0 100 -3 1 2"), Some((100, -3, 1, 2)));
    assert_eq!(extract_section_data("segment 0 100 -3 1"), None);
    assert_eq!(extract_section_data("segment 0 x -3 1 2"), None);
    let label = format_section_data(0, "segment 0 100 -3 1 2").unwrap();
    assert_eq!(
        label,
        format!("[{:2}] {:11} {:12} {:9} {:12}", 0, "length 100", "sharp left", "upward", "5 lanes")
    );
    let label2 = format_section_data(12, "segment 12 250 1 -2 7").unwrap();
    assert_eq!(
        label2,
        format!(
            "[{:2}] {:11} {:12} {:9} {:12}",
            12, "length 250", "wide right", "downward", "dual tracks"
        )
    );
}

#[test]
fn sections_list_builds_cache_and_clamps_selection() {
    let mut p = SectionsPanel::new();
    p.state.selected = 5;
    p.handle(&ok("section-list", "segment 0 100 0 0 0\nsegment 1 250 -1 2 1\nbroken line"))
        .unwrap();
    assert_eq!(p.cache.len(), 2);
    assert_eq!(p.cache[0].0, "segment 0 100 0 0 0");
    assert_eq!(p.state.selected, 1);
    // The sliders took the selected section's values, scaled down.
    assert_eq!(p.state.length, 10);
    assert_eq!(p.state.curve, -1);
    assert_eq!(p.state.slope, 2);
    assert_eq!(p.state.split, 1);
}

#[test]
fn sections_empty_listing_resets() {
    let mut p = SectionsPanel::new();
    p.handle(&ok("section-list", "<EMPTY>")).unwrap();
    assert_eq!(p.cache.len(), 0);
    assert_eq!(p.state.selected, 0);
}

#[test]
fn sections_write_back_sends_edits_then_refresh() {
    let mut p = SectionsPanel::new();
    p.handle(&ok("section-list", "segment 0 100 0 0 0")).unwrap();
    p.state.length = 10;
    p.state.curve = -1;
    p.modified.edit = true;
    let mut out: Vec<String> = Vec::new();
    p.write_state(1_000_000, &mut out);
    assert_eq!(
        out,
        vec![
            "section-set 0 250 -1 0 0".to_string(),
            "section-list".to_string(),
            "section-metrics".to_string(),
            "view-preview".to_string(),
        ]
    );
    assert!(!p.modified.edit);
}

#[test]
fn sections_metrics_are_labelled() {
    let mut p = SectionsPanel::new();
    p.handle(&ok("section-metrics", "view 3\nsegments 12\ncurve -4\nslope 2")).unwrap();
    assert_eq!(
        p.metrics,
        "Viewing Section #3\tTotal Segments: 12\tTotal Curve: -4\tTotal Slope: 2"
    );
}

#[test]
fn header_get_fills_the_state() {
    let mut p = HeaderPanel::new();
    p.handle(&ok(
        "header-get",
        "package base\nname My Track\nbackground hills\ntexture road\nflags 5\nrandom-seed -12",
    ))
    .unwrap();
    assert_eq!(p.state.package, "base");
    assert_eq!(p.state.name, "My Track");
    assert_eq!(p.state.background, "hills");
    assert_eq!(p.state.texture, "road");
    assert_eq!(p.state.flags, 5);
    assert_eq!(p.state.random_seed, -12);
}

#[test]
fn header_get_rejects_bad_numbers() {
    let mut p = HeaderPanel::new();
    assert!(p.handle(&ok("header-get", "flags notanumber")).is_err());
    assert!(p.handle(&ok("header-get", "nofield")).is_err());
}

#[test]
fn header_lists_are_cached() {
    let mut p = HeaderPanel::new();
    p.handle(&ok("package-list", "base\nextra")).unwrap();
    assert_eq!(p.packages, vec!["base".to_string(), "extra".to_string()]);
    p.handle(&ok("package-props", "tree\nrock")).unwrap();
    assert_eq!(p.props, vec!["tree".to_string(), "rock".to_string()]);
}

#[test]
fn header_write_back_formats_commands() {
    let mut p = HeaderPanel::new();
    p.state.name = "My Track".to_string();
    p.state.flags = 5;
    p.modified.name = true;
    p.modified.flags = true;
    let mut out: Vec<String> = Vec::new();
    p.write_state(1_000_000, &mut out);
    assert_eq!(
        out,
        vec![
            "header-name-set \"My Track\"".to_string(),
            "header-flags-set 0b0000000101".to_string(),
            "header-get".to_string(),
        ]
    );
}

#[test]
fn header_package_change_reloads_content() {
    let mut p = HeaderPanel::new();
    p.state.package = "base".to_string();
    p.modified.package = true;
    let mut out: Vec<String> = Vec::new();
    p.write_state(1_000_000, &mut out);
    assert_eq!(
        out,
        vec![
            "package-load \"base\"".to_string(),
            "header-get".to_string(),
            "package-backgrounds".to_string(),
            "package-textures".to_string(),
            "package-props".to_string(),
        ]
    );
}

#[test]
fn header_play_test_saves_first() {
    let mut p = HeaderPanel::new();
    p.modified.play_test = true;
    let mut out: Vec<String> = Vec::new();
    p.write_state(1_000_000, &mut out);
    assert_eq!(
        out,
        vec![
            "header-get".to_string(),
            "project-save".to_string(),
            "track-play-test".to_string(),
        ]
    );
}

#[test]
fn patterns_extract_and_format() {
    let p = extract_pattern_data("pattern 0 1 tree 10 20 3 40 5 60 7 9").unwrap();
    assert_eq!(p.prop, "tree");
    assert_eq!(p.position, 10);
    assert_eq!(p.size, 20);
    assert_eq!(p.spacing, 3);
    assert_eq!(p.x, 40);
    assert_eq!(p.freq, 5);
    assert_eq!(p.amp, 60);
    assert_eq!(p.offset, 7);
    assert_eq!(p.flags, 9);
    assert_eq!(format_pattern_data(4, &p), "#4 :: tree (10)");
    assert!(extract_pattern_data("too short").is_none());
}

#[test]
fn patterns_list_builds_cache_and_sliders() {
    let mut p = PatternsPanel::new();
    p.handle(&ok("package-props", "tree\nrock")).unwrap();
    p.handle(&ok("pattern-list", "pattern 0 0 rock 10 20 3 40 5 60 7 9")).unwrap();
    assert_eq!(p.pattern_cache.len(), 1);
    assert_eq!(p.pattern_cache[0].1, "#0 :: rock (10)");
    // The sliders took the pattern's values, scaled down, and found the prop.
    assert_eq!(p.state.prop, 1);
    assert_eq!(p.state.position, 10);
    assert_eq!(p.state.x, 4);
    assert_eq!(p.state.amp, 6);
}

#[test]
fn patterns_write_back_sets_and_relists() {
    let mut p = PatternsPanel::new();
    p.handle(&ok("package-props", "tree")).unwrap();
    p.state.position = 10;
    p.state.size = 2;
    p.state.spacing = 1;
    p.state.x = -3;
    p.state.freq = 1;
    p.state.amp = 2;
    p.state.offset = 0;
    p.state.flags = 1;
    p.modified.edit = true;
    let mut out: Vec<String> = Vec::new();
    p.write_state(1_000_000, &mut out);
    assert_eq!(
        out,
        vec![
            "pattern-set 0 0 tree 10 2 1 -30 1 20 0 1".to_string(),
            "pattern-list 0".to_string(),
        ]
    );
}

#[test]
fn patterns_adjust_all_covers_the_cache() {
    let mut p = PatternsPanel::new();
    p.handle(&ok(
        "pattern-list",
        "pattern 0 0 a 1 1 1 1 1 1 1 1\npattern 0 1 b 2 2 2 2 2 2 2 2",
    ))
    .unwrap();
    p.modified.adjust_all = true;
    let mut out: Vec<String> = Vec::new();
    p.write_state(1_000_000, &mut out);
    assert_eq!(
        out,
        vec![
            "pattern-adjust 0 0".to_string(),
            "pattern-adjust 0 1".to_string(),
            "pattern-list 0".to_string(),
        ]
    );
}

#[test]
fn patterns_track_section_changes() {
    let mut p = PatternsPanel::new();
    p.state.position = 500;
    p.section_changed(3, 250);
    assert_eq!(p.state.section, 3);
    assert_eq!(p.current_section_length, 250);
    assert_eq!(p.state.position, 250);
}

#[test]
fn preview_decodes_the_image() {
    let mut p = PreviewPanel::new();
    p.handle(&ok("view-preview", "aGVsbG8=")).unwrap();
    assert_eq!(p.take_image_data().as_deref(), Some(b"hello".as_slice()));
    assert_eq!(p.take_image_data(), None);
}

#[test]
fn preview_rejects_bad_base64() {
    let mut p = PreviewPanel::new();
    assert!(p.handle(&ok("view-preview", "!!!not base64!!!")).is_err());
}

#[test]
fn preview_reads_view_state() {
    let mut p = PreviewPanel::new();
    p.handle(&ok("view-state-info", "position 120 340\nreverse #t\noverview #f")).unwrap();
    assert_eq!(p.state.view_x, 12);
    assert_eq!(p.state.view_z, 34);
    assert!(p.state.reverse);
    assert!(!p.state.overview);
}

#[test]
fn preview_write_back_scales_up() {
    let mut p = PreviewPanel::new();
    p.state.view_x = -3;
    p.state.view_z = 42;
    p.modified.view = true;
    let mut out: Vec<String> = Vec::new();
    p.write_state(1_000_000, &mut out);
    assert_eq!(
        out,
        vec![
            "view-position -30 420".to_string(),
            "view-preview".to_string(),
            "section-metrics".to_string(),
        ]
    );
}

#[test]
fn project_listing_and_file_name() {
    let mut p = ProjectPanel::new();
    p.handle(&ok("project-list", "one\ntwo")).unwrap();
    assert_eq!(p.project_cache, vec!["one".to_string(), "two".to_string()]);
    p.handle(&ok("project-list", "<EMPTY>")).unwrap();
    assert!(p.project_cache.is_empty());
    p.handle(&ok("project-file-name", "mytrack")).unwrap();
    assert_eq!(p.project_file_name.as_deref(), Some("mytrack"));
    assert_eq!(p.name_buffer, "mytrack");
    p.handle(&ok("project-file-name", "<EMPTY>")).unwrap();
    assert_eq!(p.project_file_name, None);
    assert_eq!(p.name_buffer, "");
}

#[test]
fn project_load_asks_then_confirms() {
    let mut p = ProjectPanel::new();
    p.handle(&ok("project-list", "one\ntwo")).unwrap();
    p.push_action(ProjectAction::Load(1));
    let mut out: Vec<String> = Vec::new();
    p.write_state(0, &mut out);
    assert_eq!(out, vec!["project-load \"two\"".to_string()]);
    // The interpreter warns about unsaved changes.
    p.handle(&Response::Error("project-load".to_string(), "unsaved".to_string())).unwrap();
    assert_eq!(p.dialog_window, Some(DialogWindow::Discard));
    // The consumer confirms; the action is retried with the flag.
    p.confirmed = Some(true);
    p.execute = true;
    let mut out2: Vec<String> = Vec::new();
    p.write_state(0, &mut out2);
    assert_eq!(out2, vec!["project-load \"two\" #t".to_string()]);
}

#[test]
fn project_delete_needs_confirmation() {
    let mut p = ProjectPanel::new();
    p.handle(&ok("project-list", "one")).unwrap();
    p.push_action(ProjectAction::Delete(0));
    let mut out: Vec<String> = Vec::new();
    p.write_state(0, &mut out);
    assert!(out.is_empty());
    assert_eq!(p.dialog_window, Some(DialogWindow::Delete));
    p.confirmed = Some(true);
    p.execute = true;
    let mut out2: Vec<String> = Vec::new();
    p.write_state(0, &mut out2);
    assert_eq!(out2, vec!["project-delete \"one\"".to_string()]);
}

#[test]
fn project_refresh_sends_and_retires() {
    let mut p = ProjectPanel::new();
    p.push_action(ProjectAction::Refresh);
    let mut out: Vec<String> = Vec::new();
    p.write_state(0, &mut out);
    assert_eq!(out, vec!["project-list".to_string()]);
    // The action left the queue; nothing happens next tick.
    p.execute = true;
    let mut out2: Vec<String> = Vec::new();
    p.write_state(0, &mut out2);
    assert!(out2.is_empty());
}

#[test]
fn request_state_asks_for_listings() {
    let sections = SectionsPanel::new();
    let mut out: Vec<String> = Vec::new();
    sections.request_state(&mut out);
    assert_eq!(out, vec!["section-list".to_string(), "section-metrics".to_string()]);
    let header = HeaderPanel::new();
    let mut out2: Vec<String> = Vec::new();
    header.request_state(&mut out2);
    assert_eq!(
        out2,
        vec![
            "package-list".to_string(),
            "package-backgrounds".to_string(),
            "package-textures".to_string(),
            "package-props".to_string(),
            "header-get".to_string(),
        ]
    );
}

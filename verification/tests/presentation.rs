use euphony::cached::CachedValue;
use euphony::cli::{
    exit_code, get_configuration, get_transcode_terminal, run_requested_cli_command, CliCommand,
    CommandProgress, ConfigurationSource, TerminalKind,
};
use euphony::console::backends::fancy::queue::{FancyAlbumQueueItem, FancyFileQueueItem};
use euphony::console::backends::fancy::terminal::{
    adjusted_frame_height, layout_constraints, remaining_tick_time, render_log_lines,
    user_control_for_key, LayoutConstraint, UserControlMessage,
};
use euphony::console::backends::shared::queue_v2::{
    AlbumItem, AlbumItemFinishedResult, FileItem, FileItemFinishedResult, FileItemType, QueueItem,
    QueueItemGenericState, RenderableQueueItem,
};
use euphony::console::backends::shared::spinner::{AnimatedSpinner, SpinnerStyle};
use euphony::console::state::TerminalUIState;
use ansi_to_tui::IntoText;
use ratatui::text::{Line, Span, Text};

fn one_line(spans: &[&str]) -> Text<'static> {
    let spans: Vec<Span<'static>> =
        spans.iter().map(|span| Span::raw(span.to_string())).collect();
    Text::from(Line::from(spans))
}

#[test]
fn a_cached_value_is_written_once() {
    let mut cell: CachedValue<u32> = CachedValue::new_empty();
    assert!(!cell.is_cached());
    cell.set(3);
    assert!(cell.is_cached());
    assert_eq!(*cell.get(), 3);
    cell.set(4);
    assert_eq!(*cell.get(), 3);
    let full = CachedValue::new_with_value("x");
    assert!(full.is_cached());
    assert_eq!(*full.get(), "x");
}

#[test]
fn a_spinner_cycles_through_its_frames() {
    let mut spinner = AnimatedSpinner::new(SpinnerStyle::Square, Some(10));
    assert_eq!(spinner.get_current_phase(), '\u{25f0}');
    spinner.set_elapsed(9);
    assert_eq!(spinner.get_current_phase(), '\u{25f0}');
    spinner.set_elapsed(10);
    assert_eq!(spinner.get_current_phase(), '\u{25f3}');
    spinner.set_elapsed(25);
    assert_eq!(spinner.get_current_phase(), '\u{25f2}');
    spinner.set_elapsed(39);
    assert_eq!(spinner.get_current_phase(), '\u{25f1}');
    spinner.set_elapsed(40);
    assert_eq!(spinner.get_current_phase(), '\u{25f0}');

    let mut pixel = AnimatedSpinner::new(SpinnerStyle::Pixel, None);
    assert_eq!(pixel.get_current_phase(), '\u{28fe}');
    pixel.set_elapsed(750);
    assert_eq!(pixel.get_current_phase(), '\u{28f7}');
    pixel.set_elapsed(800);
    assert_eq!(pixel.get_current_phase(), '\u{28fe}');

    let mut zero = AnimatedSpinner::new(SpinnerStyle::Pixel, Some(0));
    zero.set_elapsed(100);
    assert_eq!(zero.get_current_phase(), '\u{28fd}');
}

#[test]
fn an_album_item_renders_its_count_and_label() {
    let mut item = FancyAlbumQueueItem::new(AlbumItem::new(
        4,
        "Artist".to_string(),
        "Album".to_string(),
        12,
    ));
    assert_eq!(item.get_id(), 4);
    assert_eq!(item.get_state(), QueueItemGenericState::Pending);
    assert_eq!(item.render_spans(), vec!["  ", "12", "Artist - Album"]);
    assert_eq!(item.render(), one_line(&["  ", "12", "Artist - Album"]));

    item.pad_leading_space_when_spinner_is_disabled = false;
    assert_eq!(item.render(), one_line(&["", "12", "Artist - Album"]));

    item.on_item_started();
    assert_eq!(item.get_state(), QueueItemGenericState::InProgress);
    assert_eq!(item.spinner, Some(AnimatedSpinner::new(SpinnerStyle::Pixel, None)));
    assert_eq!(item.render(), one_line(&[" \u{28fe} ", "12", "Artist - Album"]));

    item.on_item_finished(AlbumItemFinishedResult::Failed);
    assert_eq!(item.get_state(), QueueItemGenericState::Finished);
    assert_eq!(item.item.result, Some(AlbumItemFinishedResult::Failed));
    assert_eq!(item.spinner, None);

    item.on_item_enqueued();
    assert_eq!(item.get_state(), QueueItemGenericState::Pending);
    assert_eq!(item.item.result, None);
}

#[test]
fn a_file_item_renders_its_kind_and_name() {
    let mut item =
        FancyFileQueueItem::new(FileItem::new(9, FileItemType::Audio, "01 Intro.flac".to_string()));
    assert_eq!(item.get_id(), 9);
    assert_eq!(item.render(), one_line(&["  ", "[audio]", " ", "01 Intro.flac"]));

    item.item.file_type = FileItemType::Data;
    assert_eq!(item.render_spans(), vec!["  ", " [data]", " ", "01 Intro.flac"]);
    item.item.file_type = FileItemType::Unknown;
    assert_eq!(item.render_spans(), vec!["  ", "   [??]", " ", "01 Intro.flac"]);

    item.on_item_started();
    assert_eq!(item.spinner, Some(AnimatedSpinner::new(SpinnerStyle::Square, None)));
    assert_eq!(item.render_spans()[0], " \u{25f0} ");
    item.enable_spinner(SpinnerStyle::Pixel, Some(5));
    assert_eq!(item.spinner, Some(AnimatedSpinner::new(SpinnerStyle::Pixel, Some(5))));
    item.disable_spinner();
    assert_eq!(item.spinner, None);

    item.on_item_finished(FileItemFinishedResult::Success);
    assert_eq!(item.get_state(), QueueItemGenericState::Finished);
    assert_eq!(item.item.result, Some(FileItemFinishedResult::Success));
}

#[test]
fn the_screen_is_divided_by_what_is_enabled() {
    let mut state = TerminalUIState::new();
    assert_eq!(
        layout_constraints(&state),
        vec![LayoutConstraint::Length(0), LayoutConstraint::Length(0), LayoutConstraint::Min(8)]
    );
    state.queue_begin();
    state.progress_begin();
    assert_eq!(
        layout_constraints(&state),
        vec![
            LayoutConstraint::Percentage(65),
            LayoutConstraint::Length(3),
            LayoutConstraint::Min(8)
        ]
    );
}

#[test]
fn the_frame_height_is_adjusted_by_an_offset() {
    assert_eq!(adjusted_frame_height(40, None), 40);
    assert_eq!(adjusted_frame_height(40, Some(-1)), 39);
    assert_eq!(adjusted_frame_height(40, Some(-40)), 0);
    assert_eq!(adjusted_frame_height(40, Some(2)), 42);
    assert_eq!(adjusted_frame_height(65535, Some(2)), 1);
}

#[test]
fn the_render_loop_waits_for_the_rest_of_the_tick() {
    assert_eq!(remaining_tick_time(0), Some(50_000));
    assert_eq!(remaining_tick_time(20_000), Some(30_000));
    assert_eq!(remaining_tick_time(49_990), Some(10));
    assert_eq!(remaining_tick_time(49_991), None);
    assert_eq!(remaining_tick_time(50_000), None);
    assert_eq!(remaining_tick_time(u64::MAX), None);
}

#[test]
fn only_q_asks_to_stop() {
    assert_eq!(user_control_for_key('q'), Some(UserControlMessage::Exit));
    assert_eq!(user_control_for_key('Q'), None);
    assert_eq!(user_control_for_key('x'), None);
}

#[test]
fn commands_get_their_backend_and_exit_code() {
    assert_eq!(get_transcode_terminal(true), TerminalKind::Bare);
    assert_eq!(get_transcode_terminal(false), TerminalKind::Fancy);
    assert_eq!(
        get_configuration(Some("/etc/e.toml".to_string())),
        ConfigurationSource::Path { path: "/etc/e.toml".to_string() }
    );
    assert_eq!(get_configuration(None), ConfigurationSource::DefaultPath);

    let transcode =
        CliCommand::TranscodeAll { bare_terminal: false, log_to_file: Some("log".to_string()) };
    let plan = run_requested_cli_command(&transcode);
    assert_eq!(plan.terminal, TerminalKind::Fancy);
    assert_eq!(plan.log_to_file, Some("log".to_string()));
    assert_eq!(exit_code(&transcode, CommandProgress::Succeeded), 0);
    assert_eq!(exit_code(&transcode, CommandProgress::Failed), 1);
    assert_eq!(exit_code(&transcode, CommandProgress::LogFileFailed), 1);

    let bare = CliCommand::TranscodeAll { bare_terminal: true, log_to_file: None };
    assert_eq!(run_requested_cli_command(&bare).terminal, TerminalKind::Bare);

    let validate = CliCommand::ValidateAll { log_to_file: None };
    let plan = run_requested_cli_command(&validate);
    assert_eq!(plan.terminal, TerminalKind::Bare);
    assert_eq!(plan.log_to_file, None);
    assert_eq!(exit_code(&validate, CommandProgress::Failed), 0);
    assert_eq!(exit_code(&validate, CommandProgress::LogFileFailed), 1);

    assert_eq!(run_requested_cli_command(&CliCommand::ShowConfig).terminal, TerminalKind::Bare);
    assert_eq!(exit_code(&CliCommand::ShowConfig, CommandProgress::Failed), 0);
    assert_eq!(exit_code(&CliCommand::ListLibraries, CommandProgress::Succeeded), 0);
}

#[test]
fn log_lines_are_drawn_with_their_escape_sequences_as_styles() {
    let mut state = TerminalUIState::new();
    state.log_println("plain", 80);
    state.log_println("\u{1b}[31mred\u{1b}[0m and more", 80);
    let texts = render_log_lines(&state, 10).unwrap();
    assert_eq!(texts.len(), 2);
    assert_eq!(texts[0], "plain".into_text().unwrap());
    assert_eq!(texts[1], "\u{1b}[31mred\u{1b}[0m and more".into_text().unwrap());
    let shown: String =
        texts[1].lines[0].spans.iter().map(|span| span.content.to_string()).collect();
    assert_eq!(shown, "red and more");
    assert_eq!(render_log_lines(&state, 3).unwrap().len(), 1);
    assert_eq!(render_log_lines(&state, 2).unwrap().len(), 0);
}

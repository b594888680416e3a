use euphony::console::progress::{build_progress_bar_template_with_header, ProgressState};
use euphony::console::queue::{QueueItem, QueueItemFinishedState, QueueItemState, QueueType};
use euphony::console::queue_state::QueueState;
use euphony::console::state::{NotFound, TerminalUIState, LOG_JOURNAL_MAX_LINES};

#[test]
fn file_item_goes_from_added_to_failed_to_cleared() {
    let mut state = TerminalUIState::new();
    state.queue_begin();

    assert!(state.can_add_queue_item());
    let id = state.queue_item_add("X".to_string(), QueueType::File).unwrap();
    assert_eq!(state.queue_item_state(id), Ok(QueueItemState::Pending));

    assert_eq!(state.queue_item_start(id), Ok(()));
    assert_eq!(state.queue_item_state(id), Ok(QueueItemState::InProgress));

    assert_eq!(state.queue_item_finish(id, false), Ok(()));
    assert_eq!(state.queue_item_state(id), Ok(QueueItemState::Finished { ok: false }));

    assert_eq!(state.queue_clear(QueueType::File), Ok(()));
    assert_eq!(state.queue_item_state(id), Err(NotFound::NoSuchItem));
}

#[test]
fn operations_fail_while_the_queue_is_disabled() {
    let mut state = TerminalUIState::new();
    assert_eq!(
        state.queue_item_add("X".to_string(), QueueType::File),
        Err(NotFound::QueueDisabled)
    );
    assert_eq!(state.queue_item_start(0), Err(NotFound::QueueDisabled));
    assert_eq!(state.queue_item_finish(0, true), Err(NotFound::QueueDisabled));
    assert_eq!(state.queue_item_remove(0), Err(NotFound::QueueDisabled));
    assert_eq!(state.queue_clear(QueueType::Album), Err(NotFound::QueueDisabled));
    assert_eq!(state.queue_item_state(0), Err(NotFound::QueueDisabled));

    state.queue_begin();
    state.queue_end();
    assert_eq!(state.queue_item_start(0), Err(NotFound::QueueDisabled));
}

#[test]
fn identifiers_increase_across_the_three_queues() {
    let mut state = TerminalUIState::new();
    state.queue_begin();
    let library = state.queue_item_add("library".to_string(), QueueType::Library).unwrap();
    let album = state.queue_item_add("album".to_string(), QueueType::Album).unwrap();
    let file = state.queue_item_add("file".to_string(), QueueType::File).unwrap();
    assert!(library < album && album < file);

    let queue = state.queue_state().unwrap();
    assert_eq!(queue.library_items().len(), 1);
    assert_eq!(queue.album_items().len(), 1);
    assert_eq!(queue.file_items().len(), 1);
    assert_eq!(queue.album_items()[0].id, album);
    assert_eq!(queue.album_items()[0].content, "album");
}

#[test]
fn unknown_identifiers_are_not_found() {
    let mut state = TerminalUIState::new();
    state.queue_begin();
    let id = state.queue_item_add("a".to_string(), QueueType::Album).unwrap();
    assert_eq!(state.queue_item_start(id + 1), Err(NotFound::NoSuchItem));
    assert_eq!(state.queue_item_finish(id + 1, true), Err(NotFound::NoSuchItem));
    assert_eq!(state.queue_item_remove(id + 1), Err(NotFound::NoSuchItem));
    assert_eq!(state.queue_item_remove(id), Ok(()));
    assert_eq!(state.queue_item_remove(id), Err(NotFound::NoSuchItem));
}

#[test]
fn finishing_a_pending_item_is_accepted() {
    let mut state = TerminalUIState::new();
    state.queue_begin();
    let id = state.queue_item_add("a".to_string(), QueueType::File).unwrap();
    assert_eq!(state.queue_item_finish(id, true), Ok(()));
    assert_eq!(state.queue_item_state(id), Ok(QueueItemState::Finished { ok: true }));
}

#[test]
fn modifying_an_item_keeps_its_identifier_and_queue() {
    let mut state = TerminalUIState::new();
    state.queue_begin();
    let first = state.queue_item_add("first".to_string(), QueueType::File).unwrap();
    let second = state.queue_item_add("second".to_string(), QueueType::File).unwrap();
    let result = state.queue_item_modify(second, |mut item| {
        item.content = "renamed".to_string();
        item.id = 999;
        item.item_type = QueueType::Library;
        item
    });
    assert_eq!(result, Ok(()));
    let queue = state.queue_state().unwrap();
    assert_eq!(queue.file_items().len(), 2);
    assert_eq!(queue.file_items()[0].id, first);
    assert_eq!(queue.file_items()[1].id, second);
    assert_eq!(queue.file_items()[1].content, "renamed");
    assert_eq!(queue.file_items()[1].item_type, QueueType::File);
    assert_eq!(queue.library_items().len(), 0);
}

#[test]
fn file_states_are_counted() {
    let mut state = TerminalUIState::new();
    assert_eq!(state.file_queue_counts(), None);
    state.queue_begin();
    let a = state.queue_item_add("a".to_string(), QueueType::File).unwrap();
    let b = state.queue_item_add("b".to_string(), QueueType::File).unwrap();
    let c = state.queue_item_add("c".to_string(), QueueType::File).unwrap();
    let _d = state.queue_item_add("d".to_string(), QueueType::File).unwrap();
    let e = state.queue_item_add("e".to_string(), QueueType::File).unwrap();
    state.queue_item_start(a).unwrap();
    state.queue_item_finish(b, true).unwrap();
    state.queue_item_finish(c, false).unwrap();
    state.queue_item_finish(e, true).unwrap();
    let counts = state.file_queue_counts().unwrap();
    assert_eq!(counts.pending, 1);
    assert_eq!(counts.in_progress, 1);
    assert_eq!(counts.finished_ok, 2);
    assert_eq!(counts.finished_not_ok, 1);
}

#[test]
fn progress_needs_to_be_begun() {
    let mut state = TerminalUIState::new();
    assert_eq!(state.progress_set_total(4), Err(NotFound::ProgressDisabled));
    assert_eq!(state.progress_set_current(1), Err(NotFound::ProgressDisabled));
    state.progress_begin();
    assert_eq!(state.progress().unwrap().get_percent(), 0);
    assert_eq!(state.progress_set_total(3), Ok(()));
    assert_eq!(state.progress_set_current(1), Ok(()));
    assert_eq!(state.progress().unwrap().get_percent(), 33);
    assert_eq!(state.progress_set_current(2), Ok(()));
    assert_eq!(state.progress().unwrap().get_percent(), 66);
    assert_eq!(state.progress_set_current(7), Ok(()));
    assert_eq!(state.progress().unwrap().get_percent(), 100);
    state.progress_end();
    assert_eq!(state.progress(), None);
}

#[test]
fn long_log_lines_are_cut_to_the_terminal_width() {
    let mut state = TerminalUIState::new();
    state.log_println("abcdefgh\nxy", 3);
    assert_eq!(state.visible_log_lines(100), vec!["abc", "def", "gh", "xy"]);
    assert_eq!(state.visible_log_lines(4), vec!["gh", "xy"]);
    assert_eq!(state.visible_log_lines(2), Vec::<String>::new());
}

#[test]
fn a_journal_over_its_limit_loses_its_oldest_lines() {
    let mut state = TerminalUIState::new();
    for i in 0..LOG_JOURNAL_MAX_LINES {
        state.log_println(&format!("line {}", i), 80);
    }
    assert_eq!(state.log_journal_len(), LOG_JOURNAL_MAX_LINES);
    state.log_println("one more", 80);
    assert_eq!(state.log_journal_len(), 1);
    assert_eq!(state.visible_log_lines(10), vec!["one more"]);
    state.log_newline();
    assert_eq!(state.visible_log_lines(10), vec!["one more", "\n"]);
}

#[test]
fn a_progress_bar_template_begins_with_its_header() {
    assert_eq!(
        build_progress_bar_template_with_header("(file)   "),
        "(file)   {msg:^42!} [{elapsed_precise} | {pos:>3}/{len:3}] [{bar:45.cyan/blue}]"
    );
}

#[test]
fn percentages_are_rounded_down_and_capped() {
    let percent = |current, total| ProgressState { current, total }.get_percent();
    assert_eq!(percent(0, 0), 0);
    assert_eq!(percent(5, 0), 0);
    assert_eq!(percent(1, 3), 33);
    assert_eq!(percent(2, 3), 66);
    assert_eq!(percent(3, 3), 100);
    assert_eq!(percent(199, 200), 99);
    assert_eq!(percent(usize::MAX - 1, usize::MAX), 99);
    assert_eq!(percent(usize::MAX, 1), 100);
    assert_eq!(ProgressState::default(), ProgressState::new());
}

#[test]
fn a_queue_item_follows_its_flags() {
    let mut item = QueueItem::new(3, "x".to_string(), QueueType::Album);
    assert_eq!(item.get_id(), 3);
    assert_eq!(item.get_state(), QueueItemState::Pending);
    item.on_item_started();
    assert_eq!(item.get_state(), QueueItemState::InProgress);
    item.set_finished_state(QueueItemFinishedState { is_ok: true });
    assert_eq!(item.get_state(), QueueItemState::Finished { ok: true });
    assert!(!item.is_active);
    item.on_item_started();
    assert_eq!(item.get_state(), QueueItemState::Finished { ok: true });
    assert_eq!(item.clone(), item);
}

#[test]
fn a_queue_state_finds_and_removes_items() {
    let mut queue = QueueState::new();
    assert!(queue.has_free_item_id());
    let a = queue.add_item("a".to_string(), QueueType::Library);
    let b = queue.add_item("b".to_string(), QueueType::File);
    assert_eq!((a, b), (0, 1));
    assert!(queue.contains_item(b));
    assert_eq!(queue.find_item_by_id(b).map(|item| item.content.clone()), Some("b".to_string()));
    assert_eq!(queue.get_item_state(a), Some(QueueItemState::Pending));
    assert!(queue.start_item(a));
    assert!(!queue.start_item(7));
    assert!(queue.finish_item(b, false));
    assert!(queue.modify_item(a, |mut item| {
        item.content.push('!');
        item
    }));
    assert_eq!(queue.library_items()[0].content, "a!");
    assert_eq!(queue.get_item_state(a), Some(QueueItemState::InProgress));
    assert!(queue.remove_item_by_id(a));
    assert!(!queue.remove_item_by_id(a));
    assert!(!queue.contains_item(a));
    let c = queue.add_item("c".to_string(), QueueType::Library);
    assert_eq!(c, 2);
    queue.clear_queue_by_type(QueueType::File);
    assert!(queue.file_items().is_empty());
    assert_eq!(queue.library_items().len(), 1);
    let counts = queue.count_file_item_states();
    assert_eq!(counts.pending + counts.in_progress + counts.finished_ok, 0);
}

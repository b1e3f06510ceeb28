use clexp::app::{App, AppMode, InputContext};
use clexp::clipboard::ClipboardOperation;
use clexp::commands::Command;
use clexp::entry::FileItem;
use clexp::event_handler::{handle_key_event, handle_mouse_event, Effect, KeyCode, KeyInput, MouseInput, MouseKind};
use clexp::path::FsPath;

fn item(name: &str, is_dir: bool) -> FileItem {
    FileItem {
        name: name.to_string(),
        path: FsPath::from_text(&format!("/work/{}", name)),
        is_dir,
        size: if is_dir { None } else { Some(3) },
        modified: Some(0),
    }
}

/// Listing: 0 `..`, 1 `docs/`, 2 `a.txt`, 3 `b.txt`.
fn app() -> App {
    App::new(FsPath::from_text("/work"), vec![item("b.txt", false), item("docs", true), item("a.txt", false)])
}

fn key(c: char) -> KeyInput {
    KeyInput { code: KeyCode::Char(c), ctrl: false }
}

fn code(k: KeyCode) -> KeyInput {
    KeyInput { code: k, ctrl: false }
}

fn press(a: &mut App, k: KeyInput) -> Effect {
    handle_key_event(k, a, Some(40))
}

fn click(a: &mut App, row: u16, now: u64) -> Effect {
    handle_mouse_event(MouseInput { kind: MouseKind::LeftDown, row }, a, now, Some(40))
}

fn navigated_to(e: &Effect) -> Option<String> {
    match e {
        Effect::Navigate(p) => Some(p.to_text()),
        _ => None,
    }
}

#[test]
fn new_app_lists_parent_first() {
    let a = app();
    let names: Vec<&str> = a.file_list.items.iter().map(|f| f.name.as_str()).collect();
    assert_eq!(names, vec!["..", "docs", "a.txt", "b.txt"]);
    assert_eq!(a.file_list.items[0].path.to_text(), "/");
    assert!(a.file_list.items[0].is_dir);
    assert_eq!(a.file_list.selected, Some(0));
    assert_eq!(a.mode, AppMode::Normal);
    let root = App::new(FsPath::root(), vec![item("x", false)]);
    assert_eq!(root.file_list.items.len(), 1);
}

#[test]
fn paste_with_empty_clipboard_does_nothing() {
    let mut a = app();
    a.status_message = Some("before".to_string());
    let e = press(&mut a, key('v'));
    assert!(matches!(e, Effect::Nothing));
    assert_eq!(a.status_message.as_deref(), Some("before"));
    assert_eq!(a.error_message, None);
    assert_eq!(a.clipboard.operation, ClipboardOperation::Empty);
}

#[test]
fn copy_paste_twice_gives_two_copy_jobs() {
    let mut a = app();
    press(&mut a, code(KeyCode::Down));
    press(&mut a, code(KeyCode::Down));
    press(&mut a, key('c'));
    assert_eq!(a.clipboard.operation, ClipboardOperation::Copy);
    assert_eq!(a.status_message.as_deref(), Some("Copied to clipboard"));
    for dest in ["/work", "/other"] {
        a.current_path = FsPath::from_text(dest);
        match press(&mut a, key('v')) {
            Effect::Run(job) => {
                assert_eq!(job.failure_prefix, "Copy failed");
                match job.command {
                    Command::Copy(c) => {
                        assert_eq!(c.sources.len(), 1);
                        assert_eq!(c.sources[0].to_text(), "/work/a.txt");
                        assert_eq!(c.destination.to_text(), dest);
                    },
                    _ => panic!("expected a copy"),
                }
            },
            _ => panic!("expected a job"),
        }
        assert_eq!(a.clipboard.operation, ClipboardOperation::Copy);
        assert_eq!(a.clipboard.items.len(), 1);
    }
}

#[test]
fn cut_paste_empties_the_clipboard() {
    let mut a = app();
    press(&mut a, code(KeyCode::Down));
    press(&mut a, key('x'));
    assert_eq!(a.clipboard.operation, ClipboardOperation::Cut);
    match press(&mut a, key('v')) {
        Effect::Run(job) => match job.command {
            Command::Move(m) => assert_eq!(m.sources[0].to_text(), "/work/docs"),
            _ => panic!("expected a move"),
        },
        _ => panic!("expected a job"),
    }
    assert_eq!(a.clipboard.operation, ClipboardOperation::Empty);
    assert!(a.clipboard.items.is_empty());
}

#[test]
fn delete_cancelled_then_yes_is_a_no_op() {
    let mut a = app();
    press(&mut a, code(KeyCode::Down));
    let e = press(&mut a, key('d'));
    assert!(matches!(e, Effect::Nothing));
    assert_eq!(a.mode, AppMode::Confirm);
    assert_eq!(a.status_message.as_deref(), Some("Delete 'docs'? (y/n)"));
    assert!(a.active_command.is_some());
    let e = press(&mut a, key('n'));
    assert!(matches!(e, Effect::Nothing));
    assert_eq!(a.mode, AppMode::Normal);
    assert!(a.active_command.is_none());
    assert_eq!(a.status_message.as_deref(), Some("Cancelled Action"));
    let e = press(&mut a, key('y'));
    assert!(matches!(e, Effect::Nothing));
    assert_eq!(a.mode, AppMode::Normal);
    assert_eq!(a.status_message.as_deref(), Some("Cancelled Action"));
    a.mode = AppMode::Confirm;
    let e = press(&mut a, key('y'));
    assert!(matches!(e, Effect::Nothing));
    assert_eq!(a.mode, AppMode::Confirm);
}

#[test]
fn delete_confirmed_runs_and_announces() {
    let mut a = app();
    press(&mut a, code(KeyCode::Down));
    press(&mut a, key('d'));
    match press(&mut a, key('y')) {
        Effect::Run(job) => {
            assert!(job.announce);
            assert_eq!(job.failure_prefix, "Command failed");
            a.finish_job(&job, Ok(()), Ok(vec![]));
            assert_eq!(a.status_message.as_deref(), Some("Executed Action: Delete '/work/docs'"));
        },
        _ => panic!("expected a job"),
    }
    assert_eq!(a.mode, AppMode::Normal);
    assert!(a.active_command.is_none());
}

#[test]
fn finish_job_reports_failure_with_prefix() {
    let mut a = app();
    a.clipboard.items = vec![FsPath::from_text("/x/a")];
    a.clipboard.operation = ClipboardOperation::Copy;
    match press(&mut a, key('v')) {
        Effect::Run(job) => {
            a.finish_job(&job, Err("disk full".to_string()), Ok(vec![]));
            assert_eq!(a.error_message.as_deref(), Some("Copy failed: disk full"));
        },
        _ => panic!("expected a job"),
    }
}

#[test]
fn double_click_on_directory_opens_it() {
    let mut a = app();
    let e = click(&mut a, 5, 1000);
    assert!(matches!(e, Effect::Nothing));
    assert_eq!(a.file_list.selected, Some(1));
    let e = click(&mut a, 5, 1300);
    assert_eq!(navigated_to(&e).as_deref(), Some("/work/docs"));
    assert_eq!(a.last_click_index, None);
    assert_eq!(a.last_click_time, None);
}

#[test]
fn click_on_other_row_resets_tracker() {
    let mut a = app();
    click(&mut a, 5, 1000);
    let e = click(&mut a, 6, 1100);
    assert!(matches!(e, Effect::Nothing));
    assert_eq!(a.last_click_index, Some(2));
    assert_eq!(a.file_list.selected, Some(2));
    let e = click(&mut a, 5, 1200);
    assert!(matches!(e, Effect::Nothing));
    assert_eq!(a.last_click_index, Some(1));
}

#[test]
fn slow_second_click_does_not_open() {
    let mut a = app();
    click(&mut a, 5, 1000);
    let e = click(&mut a, 5, 1400);
    assert!(matches!(e, Effect::Nothing));
    assert_eq!(a.last_click_time, Some(1400));
}

#[test]
fn double_click_on_parent_goes_up() {
    let mut a = app();
    click(&mut a, 4, 10);
    let e = click(&mut a, 4, 20);
    assert_eq!(navigated_to(&e).as_deref(), Some("/"));
}

#[test]
fn scroll_is_debounced_and_moves_cursor() {
    let mut a = app();
    let down = MouseInput { kind: MouseKind::ScrollDown, row: 0 };
    let up = MouseInput { kind: MouseKind::ScrollUp, row: 0 };
    handle_mouse_event(down, &mut a, 100, Some(40));
    assert_eq!(a.file_list.selected, Some(1));
    handle_mouse_event(down, &mut a, 110, Some(40));
    assert_eq!(a.file_list.selected, Some(1));
    handle_mouse_event(down, &mut a, 115, Some(40));
    assert_eq!(a.file_list.selected, Some(2));
    handle_mouse_event(up, &mut a, 200, Some(40));
    assert_eq!(a.file_list.selected, Some(1));
    assert_eq!(a.last_scroll_time, Some(200));
}

#[test]
fn navigation_keys() {
    let mut a = app();
    assert_eq!(navigated_to(&press(&mut a, code(KeyCode::Left))).as_deref(), Some("/"));
    assert_eq!(navigated_to(&press(&mut a, code(KeyCode::Enter))).as_deref(), Some("/"));
    press(&mut a, code(KeyCode::Down));
    assert_eq!(navigated_to(&press(&mut a, code(KeyCode::Right))).as_deref(), Some("/work/docs"));
    press(&mut a, code(KeyCode::Down));
    assert!(matches!(press(&mut a, code(KeyCode::Enter)), Effect::Nothing));
    press(&mut a, code(KeyCode::Up));
    assert_eq!(a.file_list.selected, Some(1));
}

#[test]
fn navigate_to_refreshes_and_clears_messages() {
    let mut a = app();
    a.error_message = Some("old".to_string());
    let r = a.navigate_to(FsPath::from_text("/work/docs"), true, Ok(vec![item("z", false)]));
    assert!(r.is_ok());
    assert_eq!(a.current_path.to_text(), "/work/docs");
    assert_eq!(a.error_message, None);
    assert_eq!(a.file_list.items.len(), 2);
    let r = a.navigate_to(FsPath::from_text("/nowhere"), false, Err("x".to_string()));
    assert!(r.is_ok());
    assert_eq!(a.current_path.to_text(), "/work/docs");
    let r = a.navigate_to(FsPath::from_text("/locked"), true, Err("denied".to_string()));
    assert_eq!(r, Err("denied".to_string()));
    assert_eq!(a.current_path.to_text(), "/locked");
}

#[test]
fn create_file_through_input_mode() {
    let mut a = app();
    press(&mut a, key('n'));
    assert_eq!(a.mode, AppMode::Input);
    assert_eq!(a.input_context, Some(InputContext::CreateFile));
    assert_eq!(a.status_message.as_deref(), Some("Create new file: "));
    assert!(matches!(press(&mut a, code(KeyCode::Enter)), Effect::Nothing));
    assert_eq!(a.mode, AppMode::Input);
    for c in "nw.txt".chars() {
        press(&mut a, key(c));
    }
    press(&mut a, code(KeyCode::Home));
    press(&mut a, code(KeyCode::Right));
    press(&mut a, key('e'));
    press(&mut a, code(KeyCode::End));
    press(&mut a, code(KeyCode::Backspace));
    press(&mut a, key('t'));
    press(&mut a, code(KeyCode::Left));
    press(&mut a, code(KeyCode::Delete));
    press(&mut a, key('T'));
    assert_eq!(a.input_buffer.iter().collect::<String>(), "new.txT");
    match press(&mut a, code(KeyCode::Enter)) {
        Effect::Run(job) => {
            assert_eq!(job.failure_prefix, "File creation failed");
            match job.command {
                Command::CreateFile(c) => assert_eq!(c.path.to_text(), "/work/new.txT"),
                _ => panic!("expected a file creation"),
            }
        },
        _ => panic!("expected a job"),
    }
    assert_eq!(a.mode, AppMode::Normal);
    assert_eq!(a.input_context, None);
    assert!(a.input_buffer.is_empty());
    assert_eq!(a.cursor_position, 0);
}

#[test]
fn rename_prefills_name_and_escape_cancels() {
    let mut a = app();
    press(&mut a, code(KeyCode::Down));
    press(&mut a, code(KeyCode::Down));
    press(&mut a, key('r'));
    assert_eq!(a.mode, AppMode::Input);
    assert_eq!(a.input_buffer.iter().collect::<String>(), "a.txt");
    assert_eq!(a.cursor_position, 5);
    press(&mut a, code(KeyCode::Backspace));
    press(&mut a, key('m'));
    match press(&mut a, code(KeyCode::Enter)) {
        Effect::Run(job) => {
            assert!(job.refresh_again);
            match job.command {
                Command::Rename(r) => {
                    assert_eq!(r.source.to_text(), "/work/a.txt");
                    assert_eq!(r.new_name, "a.txm");
                },
                _ => panic!("expected a rename"),
            }
        },
        _ => panic!("expected a job"),
    }
    press(&mut a, key('N'));
    assert_eq!(a.input_context, Some(InputContext::CreateDir));
    a.error_message = Some("e".to_string());
    press(&mut a, code(KeyCode::Esc));
    assert_eq!(a.mode, AppMode::Normal);
    assert_eq!(a.status_message, None);
    assert_eq!(a.error_message, None);
}

#[test]
fn command_line_quit_help_and_unknown() {
    let mut a = app();
    press(&mut a, key('/'));
    assert_eq!(a.mode, AppMode::Command);
    for c in "  QUIT now".chars() {
        press(&mut a, key(c));
    }
    press(&mut a, code(KeyCode::Enter));
    assert!(a.should_exit);
    assert_eq!(a.mode, AppMode::Normal);
    assert_eq!(a.input_context, None);

    let mut a = app();
    press(&mut a, key('/'));
    for c in " help ".chars() {
        press(&mut a, key(c));
    }
    press(&mut a, code(KeyCode::Enter));
    assert_eq!(a.mode, AppMode::Help);
    assert!(a.input_buffer.is_empty());

    let mut a = app();
    press(&mut a, key('/'));
    for c in "H".chars() {
        press(&mut a, key(c));
    }
    press(&mut a, code(KeyCode::Enter));
    assert_eq!(a.mode, AppMode::Help);

    let mut a = app();
    press(&mut a, key('/'));
    for c in "frob x".chars() {
        press(&mut a, key(c));
    }
    press(&mut a, code(KeyCode::Enter));
    assert_eq!(a.mode, AppMode::Normal);
    assert_eq!(a.error_message.as_deref(), Some("Unknown command: frob"));

    let mut a = app();
    a.execute_command("   ");
    assert_eq!(a.error_message, None);
    assert!(!a.should_exit);
}

#[test]
fn multi_select_toggle_delete_and_copy() {
    let mut a = app();
    press(&mut a, key('s'));
    assert_eq!(a.mode, AppMode::MultiSelect);
    press(&mut a, key(' '));
    assert!(a.selection.is_empty());
    assert!(matches!(press(&mut a, key('d')), Effect::Nothing));
    assert_eq!(a.mode, AppMode::MultiSelect);
    press(&mut a, code(KeyCode::Down));
    press(&mut a, key(' '));
    press(&mut a, code(KeyCode::Down));
    press(&mut a, key(' '));
    assert_eq!(a.selection, vec![1, 2]);
    press(&mut a, key(' '));
    assert_eq!(a.selection, vec![1]);
    press(&mut a, key(' '));
    press(&mut a, key('c'));
    assert_eq!(a.clipboard.operation, ClipboardOperation::Copy);
    assert_eq!(a.clipboard.items.len(), 2);
    assert_eq!(a.status_message.as_deref(), Some("Copied selected item(s)"));
    press(&mut a, key('d'));
    assert_eq!(a.mode, AppMode::Confirm);
    assert_eq!(a.status_message.as_deref(), Some("Delete 2 selected item(s)? (y/n)"));
    match &a.active_command {
        Some(Command::Delete(d)) => assert_eq!(d.targets.len(), 2),
        _ => panic!("expected an armed delete"),
    }
    press(&mut a, code(KeyCode::Esc));
    assert_eq!(a.mode, AppMode::Normal);
    press(&mut a, key('s'));
    press(&mut a, key(' '));
    press(&mut a, key('q'));
    assert_eq!(a.mode, AppMode::Normal);
    assert!(a.selection.is_empty());
}

#[test]
fn refresh_clears_selection() {
    let mut a = app();
    a.selection = vec![1, 2];
    a.refresh_file_list(vec![item("k", false)]);
    assert!(a.selection.is_empty());
    assert_eq!(a.file_list.items.len(), 2);
    assert_eq!(a.selected_items().len(), 0);
}

#[test]
fn help_and_clipboard_modals_scroll_and_close() {
    let mut a = app();
    press(&mut a, key('?'));
    assert_eq!(a.mode, AppMode::Help);
    press(&mut a, code(KeyCode::Up));
    assert_eq!(a.help_scroll_offset, 0);
    press(&mut a, code(KeyCode::Down));
    assert_eq!(a.help_scroll_offset, 1);
    for _ in 0..30 {
        handle_key_event(code(KeyCode::Down), &mut a, Some(40));
    }
    // 43 lines in a view of 40 * 4 / 5 - 2 = 30 lines
    assert_eq!(a.help_scroll_offset, 13);
    handle_key_event(code(KeyCode::Down), &mut a, None);
    assert_eq!(a.help_scroll_offset, 13);
    press(&mut a, key('q'));
    assert_eq!(a.mode, AppMode::Normal);

    press(&mut a, key('C'));
    assert_eq!(a.mode, AppMode::Normal);
    assert_eq!(a.status_message.as_deref(), Some("Clipboard is empty!"));
    press(&mut a, code(KeyCode::Down));
    press(&mut a, key('c'));
    press(&mut a, key('C'));
    assert_eq!(a.mode, AppMode::Clipboard);
    handle_key_event(code(KeyCode::Down), &mut a, Some(5));
    // 1 + 3 lines in a view of 5 * 3 / 5 - 2 = 1 line
    assert_eq!(a.clipboard_scroll_offset, 1);
    press(&mut a, code(KeyCode::Esc));
    assert_eq!(a.mode, AppMode::Normal);
}

#[test]
fn quit_keys() {
    let mut a = app();
    press(&mut a, key('q'));
    assert!(a.should_exit);
    let mut a = app();
    press(&mut a, KeyInput { code: KeyCode::Char('c'), ctrl: true });
    assert!(a.should_exit);
    assert_eq!(a.clipboard.operation, ClipboardOperation::Empty);
}

#[test]
fn command_line_escape_and_blank_line() {
    let mut a = app();
    press(&mut a, key('/'));
    assert_eq!(a.input_context, Some(InputContext::Command));
    press(&mut a, key('x'));
    a.error_message = Some("old".to_string());
    press(&mut a, code(KeyCode::Esc));
    assert_eq!(a.mode, AppMode::Normal);
    assert_eq!(a.input_context, None);
    assert!(a.input_buffer.is_empty());
    assert_eq!(a.error_message, None);

    press(&mut a, key('/'));
    press(&mut a, key(' '));
    press(&mut a, code(KeyCode::Enter));
    assert_eq!(a.mode, AppMode::Normal);
    assert_eq!(a.error_message, None);
    assert!(!a.should_exit);
}

#[test]
fn toggling_twice_leaves_the_selection_empty() {
    let mut a = app();
    press(&mut a, key('s'));
    press(&mut a, code(KeyCode::Down));
    press(&mut a, key(' '));
    press(&mut a, key(' '));
    assert!(a.selection.is_empty());
    press(&mut a, key(' '));
    assert_eq!(a.selection, vec![1]);
}

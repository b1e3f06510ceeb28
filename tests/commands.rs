use clexp::app::App;
use clexp::commands::{
    Command, CopyCommand, CreateDirCommand, CreateFileCommand, DeleteCommand, FsOp, MoveCommand, RenameCommand,
};
use clexp::entry::FileItem;
use clexp::path::FsPath;

fn p(t: &str) -> FsPath {
    FsPath::from_text(t)
}

fn item(name: &str, is_dir: bool) -> FileItem {
    FileItem { name: name.to_string(), path: p(&format!("/work/{}", name)), is_dir, size: None, modified: None }
}

fn app() -> App {
    App::new(p("/work"), vec![item("a.txt", false), item("sub", true)])
}

fn listing() -> Result<Vec<FileItem>, String> {
    Ok(vec![item("a.txt", false), item("sub", true), item("new.txt", false)])
}

fn rename_parts(op: &FsOp) -> (String, String) {
    match op {
        FsOp::Rename { from, to } => (from.to_text(), to.to_text()),
        _ => panic!("not a rename"),
    }
}

#[test]
fn descriptions() {
    assert_eq!(CreateFileCommand::new(p("/w/a")).description(), "Create file /w/a");
    assert_eq!(CreateDirCommand::new(p("/w/d")).description(), "Create directory: '/w/d'");
    assert_eq!(RenameCommand::new(p("/w/a"), "b".to_string()).description(), "Rename '/w/a' to 'b'");
    assert_eq!(DeleteCommand::new_single(p("/w/a")).description(), "Delete '/w/a'");
    assert_eq!(DeleteCommand::new(vec![p("/w/a"), p("/w/b")]).description(), "Delete 2 items");
    assert_eq!(CopyCommand::new(vec![p("/w/a")], p("/d")).description(), "Copy '/w/a' to '/d'");
    assert_eq!(CopyCommand::new(vec![p("/w/a"), p("/w/b")], p("/d")).description(), "Copy 2 items to '/d'");
    assert_eq!(MoveCommand::new(vec![p("/w/a")], p("/d")).description(), "Move '/w/a' to '/d'");
    assert_eq!(MoveCommand::new(vec![p("/w/a"), p("/w/b"), p("/w/c")], p("/d")).description(), "Move 3 items to '/d'");
}

#[test]
fn delete_reports_partial_failure_and_refreshes() {
    let mut a = app();
    let cmd = DeleteCommand::new(vec![p("/work/one"), p("/work/two"), p("/work/three")]);
    match cmd.operation(1, false) {
        FsOp::RemoveFile { path } => assert_eq!(path.to_text(), "/work/two"),
        _ => panic!("expected a file removal"),
    }
    match cmd.operation(0, true) {
        FsOp::RemoveDirAll { path } => assert_eq!(path.to_text(), "/work/one"),
        _ => panic!("expected a tree removal"),
    }
    let outcomes = vec![None, Some("No such file or directory (os error 2)".to_string()), None];
    let r = cmd.complete(&mut a, &outcomes, listing());
    assert!(r.is_ok());
    assert_eq!(
        a.error_message.as_deref(),
        Some("Deleted 2 item(s), 1 error(s): /work/two: No such file or directory (os error 2)")
    );
    assert_eq!(a.file_list.items.len(), 4);
    assert_eq!(a.file_list.items[3].name, "new.txt");
}

#[test]
fn delete_all_ok_reports_status() {
    let mut a = app();
    let cmd = DeleteCommand::new(vec![p("/work/a.txt"), p("/work/sub")]);
    let r = cmd.complete(&mut a, &vec![None, None], listing());
    assert!(r.is_ok());
    assert_eq!(a.status_message.as_deref(), Some("Deleted 2 item(s)"));
    assert_eq!(a.error_message, None);
}

#[test]
fn batch_reports_several_failures_and_listing_error() {
    let mut a = app();
    let cmd = CopyCommand::new(vec![p("/x/a"), p("/x/b")], p("/work"));
    let r = cmd.complete(&mut a, &vec![Some("e1".to_string()), Some("e2".to_string())], Err("gone".to_string()));
    assert_eq!(r, Err("gone".to_string()));
    assert_eq!(a.error_message.as_deref(), Some("Copied 0 item(s), 2 error(s): /x/a: e1, /x/b: e2"));
}

#[test]
fn copy_lands_inside_a_directory_or_at_the_destination() {
    let cmd = CopyCommand::new(vec![p("/x/a.txt")], p("/work"));
    match cmd.operation(0, true) {
        FsOp::CopyTree { from, to } => {
            assert_eq!(from.to_text(), "/x/a.txt");
            assert_eq!(to.to_text(), "/work/a.txt");
        },
        _ => panic!("expected a copy"),
    }
    match cmd.operation(0, false) {
        FsOp::CopyTree { to, .. } => assert_eq!(to.to_text(), "/work"),
        _ => panic!("expected a copy"),
    }
}

#[test]
fn create_file_success_and_failure() {
    let mut a = app();
    let mut cmd = CreateFileCommand::new_with_content(p("/work/new.txt"), "hi".to_string());
    match cmd.operation() {
        FsOp::WriteFile { path, content } => {
            assert_eq!(path.to_text(), "/work/new.txt");
            assert_eq!(content, "hi");
        },
        _ => panic!("expected a write"),
    }
    let r = cmd.complete(&mut a, &Some("denied".to_string()), listing());
    assert_eq!(r, Err("denied".to_string()));
    assert!(!cmd.created);
    assert!(cmd.undo_operation().is_none());
    let r = cmd.complete(&mut a, &None, listing());
    assert!(r.is_ok());
    assert!(cmd.created);
    assert_eq!(a.status_message.as_deref(), Some("Created file: /work/new.txt"));
    match cmd.undo_operation() {
        Some(FsOp::RemoveFile { path }) => assert_eq!(path.to_text(), "/work/new.txt"),
        _ => panic!("expected a removal"),
    }
    let r = cmd.complete_undo(&mut a, &None, listing());
    assert!(r.is_ok());
    assert_eq!(a.status_message.as_deref(), Some("Undid 'Create file: /work/new.txt'"));
}

#[test]
fn create_dir_and_undo() {
    let mut a = app();
    let mut cmd = CreateDirCommand::new(p("/work/d"));
    assert!(cmd.undo_operation().is_none());
    assert!(cmd.complete(&mut a, &None, listing()).is_ok());
    assert_eq!(a.status_message.as_deref(), Some("Created directory: /work/d"));
    match cmd.undo_operation() {
        Some(FsOp::RemoveDir { path }) => assert_eq!(path.to_text(), "/work/d"),
        _ => panic!("expected a directory removal"),
    }
    assert!(cmd.complete_undo(&mut a, &None, listing()).is_ok());
    assert_eq!(a.status_message.as_deref(), Some("Removed directory: '/work/d'"));
}

#[test]
fn rename_then_undo_goes_back() {
    let mut a = app();
    let mut cmd = RenameCommand::new(p("/work/a.txt"), "b.txt".to_string());
    let op = cmd.operation().unwrap();
    assert_eq!(rename_parts(&op), ("/work/a.txt".to_string(), "/work/b.txt".to_string()));
    assert!(cmd.undo_operation().is_none());
    assert!(cmd.complete(&mut a, &None, listing()).is_ok());
    assert_eq!(cmd.old_name.as_deref(), Some("a.txt"));
    assert_eq!(a.status_message.as_deref(), Some("Renamed 'a.txt' to 'b.txt'"));
    let undo = cmd.undo_operation().unwrap();
    assert_eq!(rename_parts(&undo), ("/work/b.txt".to_string(), "/work/a.txt".to_string()));
    assert!(cmd.complete_undo(&mut a, &None, listing()).is_ok());
    assert_eq!(a.status_message.as_deref(), Some("Undid rename: restored 'a.txt'"));
}

#[test]
fn rename_without_file_name_fails() {
    let mut a = app();
    let mut cmd = RenameCommand::new(FsPath::root(), "x".to_string());
    assert!(cmd.operation().is_none());
    assert_eq!(cmd.complete(&mut a, &None, listing()), Err("Invalid file path".to_string()));
    assert!(cmd.old_name.is_none());
}

#[test]
fn move_then_undo_goes_back() {
    let mut a = app();
    let mut cmd = MoveCommand::new(vec![p("/x/a.txt"), p("/x/b.txt")], p("/work"));
    let op = cmd.operation(0, true);
    assert_eq!(rename_parts(&op), ("/x/a.txt".to_string(), "/work/a.txt".to_string()));
    let r = cmd.complete(&mut a, &vec![true, true], &vec![None, Some("busy".to_string())], listing());
    assert!(r.is_ok());
    assert_eq!(a.error_message.as_deref(), Some("Moved 1 item(s), 1 error(s): /x/b.txt: busy"));
    assert_eq!(cmd.moved_items.len(), 1);
    let undo = cmd.undo_operation(0);
    assert_eq!(rename_parts(&undo), ("/work/a.txt".to_string(), "/x/a.txt".to_string()));
    assert!(cmd.complete_undo(&mut a, &vec![None], listing()).is_ok());
    assert_eq!(a.status_message.as_deref(), Some("Undid move: restored 1 item(s)"));
    let r = cmd.complete_undo(&mut a, &vec![Some("gone".to_string())], listing());
    assert!(r.is_ok());
    assert_eq!(a.error_message.as_deref(), Some("Restored 0 item(s), 1 error(s): /work/a.txt: gone"));
}

#[test]
fn command_dispatch_and_unsupported_undo() {
    let mut a = app();
    let mut c = Command::Delete(DeleteCommand::new_single(p("/work/a.txt")));
    assert_eq!(c.operation_count(), 1);
    assert_eq!(c.fact_path(0).unwrap().to_text(), "/work/a.txt");
    assert_eq!(c.undo_operation_count(), 0);
    assert_eq!(c.undo(&mut a, &vec![], listing()), Err("Undo not implemented for this command!".to_string()));
    assert!(c.complete(&mut a, &vec![false], &vec![None], listing()).is_ok());
    assert_eq!(a.status_message.as_deref(), Some("Deleted 1 item(s)"));
    let mut m = Command::Move(MoveCommand::new(vec![p("/x/a")], p("/work")));
    assert_eq!(m.fact_path(0).unwrap().to_text(), "/work");
    assert!(m.complete(&mut a, &vec![true], &vec![None], listing()).is_ok());
    assert_eq!(m.undo_operation_count(), 1);
    assert_eq!(rename_parts(&m.undo_operation(0)), ("/work/a".to_string(), "/x/a".to_string()));
    assert_eq!(m.description(), "Move '/x/a' to '/work'");
}

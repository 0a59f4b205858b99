use todo_tracker::{Status, TodoError, TodoList};

fn list_of(descriptions: &[&str]) -> TodoList {
    let mut l = TodoList::new();
    for d in descriptions {
        l.add(d.to_string());
    }
    l
}

#[test]
fn scenario_buy_milk_and_report() {
    let mut l = TodoList::new();
    l.add("Buy milk".to_string());
    assert_eq!(l.list(), vec!["1: Buy milk [Not Started]".to_string()]);
    assert_eq!(l.complete(0), Ok(()));
    assert_eq!(l.list(), vec!["1: Buy milk [Completed]".to_string()]);
    l.add("Write report".to_string());
    assert_eq!(
        l.list(),
        vec![
            "1: Buy milk [Completed]".to_string(),
            "2: Write report [Not Started]".to_string()
        ]
    );
    assert_eq!(l.remove(0), Ok(()));
    assert_eq!(l.list(), vec!["1: Write report [Not Started]".to_string()]);
    assert_eq!(l.complete(5), Err(TodoError::InvalidIndex));
    assert_eq!(l.list(), vec!["1: Write report [Not Started]".to_string()]);
}

#[test]
fn empty_list_shows_no_tasks_line() {
    let l = TodoList::new();
    assert!(l.is_empty());
    assert_eq!(l.list(), vec!["No tasks at the moment.".to_string()]);
}

#[test]
fn complete_changes_only_its_task() {
    let mut l = list_of(&["a", "b", "c"]);
    assert_eq!(l.in_progress(0), Ok(()));
    assert_eq!(l.complete(1), Ok(()));
    assert_eq!(l.len(), 3);
    assert_eq!(l.get(0).status, Status::InProgress);
    assert_eq!(l.get(1).status, Status::Completed);
    assert_eq!(l.get(1).description, "b");
    assert_eq!(l.get(2).status, Status::NotStarted);
}

#[test]
fn remove_shifts_later_tasks_down() {
    let mut l = list_of(&["a", "b", "c", "d"]);
    assert_eq!(l.remove(1), Ok(()));
    assert_eq!(l.len(), 3);
    assert_eq!(l.get(0).description, "a");
    assert_eq!(l.get(1).description, "c");
    assert_eq!(l.get(2).description, "d");
}

#[test]
fn remove_last_task_leaves_empty_list() {
    let mut l = list_of(&["only"]);
    assert_eq!(l.remove(0), Ok(()));
    assert!(l.is_empty());
    assert_eq!(l.list(), vec!["No tasks at the moment.".to_string()]);
}

#[test]
fn invalid_index_on_empty_list() {
    let mut l = TodoList::new();
    assert_eq!(l.remove(0), Err(TodoError::InvalidIndex));
    assert_eq!(l.complete(0), Err(TodoError::InvalidIndex));
    assert_eq!(l.in_progress(usize::MAX), Err(TodoError::InvalidIndex));
    assert_eq!(l.len(), 0);
}

#[test]
fn invalid_index_leaves_list_unchanged() {
    let mut l = list_of(&["a", "b"]);
    l.complete(0).unwrap();
    let before = l.list();
    assert_eq!(l.remove(2), Err(TodoError::InvalidIndex));
    assert_eq!(l.complete(2), Err(TodoError::InvalidIndex));
    assert_eq!(l.in_progress(7), Err(TodoError::InvalidIndex));
    assert_eq!(l.list(), before);
    assert_eq!(l.len(), 2);
}

#[test]
fn in_progress_status_is_listed() {
    let mut l = list_of(&["x"]);
    assert_eq!(l.in_progress(0), Ok(()));
    assert_eq!(l.list(), vec!["1: x [In Progress]".to_string()]);
}

#[test]
fn listing_numbers_past_nine() {
    let l = list_of(&["a", "b", "c", "d", "e", "f", "g", "h", "i", "j", "k"]);
    let lines = l.list();
    assert_eq!(lines.len(), 11);
    assert_eq!(lines[9], "10: j [Not Started]");
    assert_eq!(lines[10], "11: k [Not Started]");
}

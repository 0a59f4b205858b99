use todo_tracker::{Status, Todo};

#[test]
fn test_todo_creation() {
    let todo = Todo::new("Тест создания задачи".to_string());
    assert_eq!(todo.description, "Тест создания задачи");
    match todo.status {
        Status::NotStarted => (),
        _ => panic!("Статус должен быть NotStarted"),
    }
}

#[test]
fn test_mark_completed() {
    let mut todo = Todo::new("Тест задачи".to_string());
    todo.mark_completed();
    match todo.status {
        Status::Completed => (),
        _ => panic!("Статус должен быть Completed"),
    }
}

#[test]
fn new_task_with_empty_description_is_not_started() {
    let todo = Todo::new(String::new());
    assert_eq!(todo.description, "");
    assert_eq!(todo.status, Status::NotStarted);
}

#[test]
fn marking_twice_is_idempotent() {
    let mut todo = Todo::new("Read".to_string());
    todo.mark_completed();
    todo.mark_completed();
    assert_eq!(todo.status, Status::Completed);
    assert_eq!(todo.description, "Read");
    todo.mark_in_progress();
    todo.mark_in_progress();
    assert_eq!(todo.status, Status::InProgress);
    assert_eq!(todo.description, "Read");
}

#[test]
fn status_labels() {
    assert_eq!(Status::NotStarted.label(), "Not Started");
    assert_eq!(Status::InProgress.label(), "In Progress");
    assert_eq!(Status::Completed.label(), "Completed");
}

use code_buddy::tools::task::{format_task_list, Priority, Task, TaskList, TaskStats, TaskStatus};

#[test]
fn test_task_creation() {
    let task = Task::new("Test task");
    assert_eq!(task.title, "Test task");
    assert_eq!(task.status, TaskStatus::Pending);
}

#[test]
fn test_task_complete() {
    let mut task = Task::new("Test");
    task.complete();
    assert_eq!(task.status, TaskStatus::Completed);
    assert!(task.completed_at.is_some());
}

#[test]
fn test_task_list() {
    let mut list = TaskList::new();
    let task = list.add(Task::new("Task 1"));
    let id = task.id.clone();
    assert_eq!(list.list().len(), 1);
    list.complete(&id);
    assert_eq!(list.stats().completed, 1);
}

#[test]
fn test_task_search() {
    let mut list = TaskList::new();
    list.add(Task::new("Fix bug in login").with_tags(vec!["bug", "urgent"]));
    list.add(Task::new("Add feature").with_tags(vec!["feature"]));
    assert_eq!(list.search("bug").len(), 1);
    assert_eq!(list.search("feature").len(), 1);
    assert_eq!(list.search("urgent").len(), 1);
}

#[test]
fn task_list_operations() {
    let mut list = TaskList::default();
    let a = list.add(Task::new("A").with_priority(Priority::High).with_description("Deploy SERVER")).id.clone();
    let b = list.add(Task::new("B")).id.clone();
    list.add(Task::new("C").with_priority(Priority::High));
    assert_eq!(list.search("server").len(), 1);
    assert_eq!(list.list_by_priority(Priority::High).len(), 2);
    assert!(list.cancel(&b));
    assert!(!list.cancel("missing"));
    assert_eq!(list.list_by_status(TaskStatus::Cancelled)[0].title, "B");
    assert!(list.complete(&a));
    assert_eq!(
        list.stats().summary(),
        "Tasks: 3 total (1 pending, 0 in progress, 1 completed, 1 cancelled)"
    );
    list.clear_completed();
    assert_eq!(list.list().len(), 2);
    assert!(list.get(&a).is_none());
    assert!(list.remove(&b));
    assert!(!list.remove(&b));
    assert_eq!(list.list().len(), 1);
    list.clear_all();
    assert!(list.list().is_empty());
    let s = TaskStats { total: 0, pending: 0, in_progress: 0, completed: 0, cancelled: 0 };
    assert_eq!(s.summary(), "Tasks: 0 total (0 pending, 0 in progress, 0 completed, 0 cancelled)");
}

#[test]
fn task_list_markdown() {
    let a = Task::new("Write docs").with_priority(Priority::Critical).with_tags(vec!["docs", "x"]);
    let mut b = Task::new("Ship");
    b.complete();
    let mut c = Task::new("Drop");
    c.cancel();
    let tasks = vec![&a, &b, &c];
    assert_eq!(
        format_task_list(&tasks, true),
        "# Task List (Tasks: 3 total (1 pending, 0 in progress, 1 completed, 1 cancelled))\n\n## Pending\n\n- [ ] 🔴 Write docs [docs, x]\n\n## Completed\n\n- [x] 🟡 Ship\n\n"
    );
    assert_eq!(format_task_list(&[], false), "# Task List\n\n");
}

#[test]
fn get_mut_changes_the_task_in_place() {
    let mut list = TaskList::new();
    let id = list.add(Task::new("first")).id.clone();
    list.add(Task::new("second"));
    if let Some(t) = list.get_mut(&id) {
        t.title = "renamed".to_string();
        t.priority = Priority::High;
    } else {
        panic!("task not found");
    }
    assert_eq!(list.get(&id).unwrap().title, "renamed");
    assert_eq!(list.get(&id).unwrap().priority, Priority::High);
    assert_eq!(list.list()[1].title, "second");
    assert!(list.get_mut("no-such-id").is_none());
}

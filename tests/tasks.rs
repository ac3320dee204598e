use donow::collection::{
    add_task, copy_all, delete_first_task_name, delete_task_id, delete_task_name, determine_id,
    edit_task_description, edit_task_description_at, edit_task_name, edit_task_name_at,
    is_valid_id, search_first_task_name, search_id, search_task_name, update_first_task_name_at,
    update_id, update_id_at, update_task_name, update_task_name_at,
};
use donow::command::{execute, Command, Outcome};
use donow::status::Status;
use donow::task::Task;
use donow::timestamp::Timestamp;

fn at(secs: i64) -> Timestamp {
    Timestamp::new(secs, 0)
}

fn task(name: &str, id: usize) -> Task {
    Task::new(name.to_string(), id, Status::Todo, name.to_string(), at(100))
}

fn ids(tasks: &[Task]) -> Vec<usize> {
    tasks.iter().map(|t| t.id).collect()
}

#[test]
fn new_task_starts_unchanged() {
    let t = Task::new("a".to_string(), 3, Status::OnBreak, "d".to_string(), at(7));
    assert_eq!(t.name, "a");
    assert_eq!(t.id, 3);
    assert_eq!(t.status, Status::OnBreak);
    assert_eq!(t.description, "d");
    assert_eq!(t.created_at, at(7));
    assert_eq!(t.updated_at, at(7));
}

#[test]
fn valid_ids_are_the_unused_ones() {
    let tasks = vec![task("a", 1), task("b", 3)];
    assert!(!is_valid_id(&tasks, 1));
    assert!(!is_valid_id(&tasks, 3));
    assert!(is_valid_id(&tasks, 2));
    assert!(is_valid_id(&tasks, 4));
    assert!(is_valid_id(&[], 1));
}

#[test]
fn determine_id_takes_the_least_gap() {
    assert_eq!(determine_id(&[]), 1);
    assert_eq!(determine_id(&[task("a", 1), task("b", 2), task("c", 4)]), 3);
    assert_eq!(determine_id(&[task("a", 2), task("b", 3)]), 1);
    assert_eq!(determine_id(&[task("a", 3), task("b", 1), task("c", 2)]), 4);
}

#[test]
fn add_task_refuses_a_taken_id() {
    let mut tasks = vec![task("a", 5)];
    assert!(!add_task(&mut tasks, task("x", 5)));
    assert_eq!(ids(&tasks), vec![5]);
    assert!(add_task(&mut tasks, task("x", 6)));
    assert_eq!(ids(&tasks), vec![5, 6]);
    assert_eq!(tasks[1].name, "x");
}

#[test]
fn add_with_auto_id_on_empty_collection() {
    let mut tasks: Vec<Task> = Vec::new();
    let cmd = Command::Add { name: "Write spec".to_string(), id: None, description: None };
    let r = execute(cmd, &mut tasks, at(50));
    assert!(matches!(r, Outcome::Saved));
    assert_eq!(tasks.len(), 1);
    assert_eq!(tasks[0].id, 1);
    assert_eq!(tasks[0].status, Status::Todo);
    assert_eq!(tasks[0].name, "Write spec");
    assert_eq!(tasks[0].description, "Write spec");
    assert_eq!(tasks[0].created_at, at(50));
    assert_eq!(tasks[0].updated_at, at(50));
}

#[test]
fn add_with_explicit_description_and_id() {
    let mut tasks = vec![task("a", 1)];
    let cmd = Command::Add {
        name: "b".to_string(),
        id: Some(9),
        description: Some("about b".to_string()),
    };
    assert!(matches!(execute(cmd, &mut tasks, at(1)), Outcome::Saved));
    assert_eq!(ids(&tasks), vec![1, 9]);
    assert_eq!(tasks[1].description, "about b");
}

#[test]
fn add_with_taken_id_changes_nothing() {
    let mut tasks = vec![task("a", 5)];
    let cmd = Command::Add { name: "X".to_string(), id: Some(5), description: None };
    let r = execute(cmd, &mut tasks, at(1));
    assert!(matches!(r, Outcome::IdTaken(5)));
    assert_eq!(tasks.len(), 1);
    assert_eq!(tasks[0].name, "a");
    assert_eq!(tasks[0].id, 5);
}

#[test]
fn delete_first_by_name_keeps_later_matches() {
    let mut tasks = vec![task("A", 1), task("A", 2)];
    delete_first_task_name(&mut tasks, "A");
    assert_eq!(ids(&tasks), vec![2]);
    assert_eq!(tasks[0].name, "A");
}

#[test]
fn delete_first_by_name_without_match_is_noop() {
    let mut tasks = vec![task("A", 1), task("B", 2)];
    delete_first_task_name(&mut tasks, "a");
    assert_eq!(ids(&tasks), vec![1, 2]);
}

#[test]
fn delete_by_name_removes_all_exact_matches() {
    let mut tasks = vec![task("A", 1), task("AB", 2), task("A", 3), task("a", 4)];
    delete_task_name(&mut tasks, "A");
    assert_eq!(ids(&tasks), vec![2, 4]);
}

#[test]
fn delete_by_id_twice_equals_once() {
    let mut once = vec![task("a", 1), task("b", 2), task("c", 2), task("d", 3)];
    delete_task_id(&mut once, 2);
    assert_eq!(ids(&once), vec![1, 3]);
    let mut twice = copy_all(&once);
    delete_task_id(&mut twice, 2);
    assert_eq!(ids(&twice), ids(&once));
}

#[test]
fn update_by_id_refreshes_timestamp() {
    let mut tasks = vec![Task::new("t".to_string(), 5, Status::Todo, "t".to_string(), at(1_600_000_000))];
    let before = tasks[0].updated_at;
    update_id(&mut tasks, 5, &Status::Done);
    assert_eq!(tasks[0].status, Status::Done);
    assert!(tasks[0].updated_at.is_after(&before));
    assert_eq!(tasks[0].created_at, at(1_600_000_000));
}

#[test]
fn update_by_id_at_touches_only_matches() {
    let mut tasks = vec![task("a", 1), task("b", 2)];
    update_id_at(&mut tasks, 2, &Status::InProgress, at(200));
    assert_eq!(tasks[0].status, Status::Todo);
    assert_eq!(tasks[0].updated_at, at(100));
    assert_eq!(tasks[1].status, Status::InProgress);
    assert_eq!(tasks[1].updated_at, at(200));
}

#[test]
fn update_by_name_touches_every_match() {
    let mut tasks = vec![task("a", 1), task("b", 2), task("a", 3)];
    update_task_name_at(&mut tasks, "a", &Status::OnBreak, at(300));
    assert_eq!(tasks[0].status, Status::OnBreak);
    assert_eq!(tasks[1].status, Status::Todo);
    assert_eq!(tasks[1].updated_at, at(100));
    assert_eq!(tasks[2].status, Status::OnBreak);
    assert_eq!(tasks[2].updated_at, at(300));
}

#[test]
fn update_by_name_with_clock() {
    let mut tasks = vec![task("a", 1), task("b", 2)];
    update_task_name(&mut tasks, "b", &Status::Done);
    assert_eq!(tasks[0].status, Status::Todo);
    assert_eq!(tasks[1].status, Status::Done);
    assert!(tasks[1].updated_at.is_after(&at(100)));
}

#[test]
fn update_first_by_name_touches_one() {
    let mut tasks = vec![task("a", 1), task("a", 2)];
    update_first_task_name_at(&mut tasks, "a", &Status::Done, at(400));
    assert_eq!(tasks[0].status, Status::Done);
    assert_eq!(tasks[0].updated_at, at(400));
    assert_eq!(tasks[1].status, Status::Todo);
    assert_eq!(tasks[1].updated_at, at(100));
}

#[test]
fn search_by_name_returns_copies_in_order() {
    let tasks = vec![task("a", 1), task("b", 2), task("a", 3)];
    assert_eq!(ids(&search_task_name(&tasks, "a")), vec![1, 3]);
    assert!(search_task_name(&tasks, "c").is_empty());
    assert_eq!(search_first_task_name(&tasks, "a").map(|t| t.id), Some(1));
    assert!(search_first_task_name(&tasks, "z").is_none());
}

#[test]
fn search_by_id_finds_the_task() {
    let tasks = vec![task("a", 1), task("b", 2)];
    let found = search_id(&tasks, 2).unwrap();
    assert_eq!(found.name, "b");
    assert!(search_id(&tasks, 7).is_none());
}

#[test]
fn edit_name_and_description_of_first_match() {
    let mut tasks = vec![task("a", 1), task("b", 2)];
    edit_task_name_at(&mut tasks, 2, "renamed", at(500));
    assert_eq!(tasks[1].name, "renamed");
    assert_eq!(tasks[1].updated_at, at(500));
    edit_task_description_at(&mut tasks, 1, "new text", at(600));
    assert_eq!(tasks[0].description, "new text");
    assert_eq!(tasks[0].updated_at, at(600));
    assert_eq!(tasks[0].name, "a");
    edit_task_name_at(&mut tasks, 9, "none", at(700));
    assert_eq!(tasks[0].name, "a");
    assert_eq!(tasks[1].name, "renamed");
}

#[test]
fn edit_with_clock() {
    let mut tasks = vec![task("a", 1)];
    edit_task_name(&mut tasks, 1, "b");
    edit_task_description(&mut tasks, 1, "c");
    assert_eq!(tasks[0].name, "b");
    assert_eq!(tasks[0].description, "c");
    assert!(tasks[0].updated_at.is_after(&at(100)));
}

#[test]
fn clear_needs_force_or_confirmation() {
    let mut tasks = vec![task("a", 1)];
    assert!(matches!(execute(Command::Clear { force: false }, &mut tasks, at(1)), Outcome::ConfirmClear));
    assert_eq!(tasks.len(), 1);
    assert!(matches!(execute(Command::Clear { force: true }, &mut tasks, at(1)), Outcome::Saved));
    assert!(tasks.is_empty());
}

#[test]
fn view_and_searches_leave_collection_alone() {
    let mut tasks = vec![task("a", 1), task("b", 2)];
    match execute(Command::View, &mut tasks, at(1)) {
        Outcome::Listing(v) => assert_eq!(ids(&v), vec![1, 2]),
        _ => panic!("view lists the tasks"),
    }
    match execute(Command::SearchByID { id: 2 }, &mut tasks, at(1)) {
        Outcome::Found(Some(t)) => assert_eq!(t.name, "b"),
        _ => panic!("task 2 is there"),
    }
    match execute(Command::SearchByName { name: "a".to_string(), first: true }, &mut tasks, at(1)) {
        Outcome::Found(Some(t)) => assert_eq!(t.id, 1),
        _ => panic!("task a is there"),
    }
    assert_eq!(ids(&tasks), vec![1, 2]);
}

#[test]
fn dispatch_mutations() {
    let mut tasks = vec![task("a", 1), task("b", 2), task("a", 3)];
    execute(Command::UpdateByName { status: Status::Done, name: "a".to_string(), first: true }, &mut tasks, at(9));
    assert_eq!(tasks[0].status, Status::Done);
    assert_eq!(tasks[2].status, Status::Todo);
    execute(Command::UpdateByID { status: Status::OnBreak, id: 3 }, &mut tasks, at(9));
    assert_eq!(tasks[2].status, Status::OnBreak);
    execute(Command::EditName { id: 2, new_name: "c".to_string() }, &mut tasks, at(9));
    assert_eq!(tasks[1].name, "c");
    execute(Command::EditDescription { id: 2, new_description: "dd".to_string() }, &mut tasks, at(9));
    assert_eq!(tasks[1].description, "dd");
    execute(Command::DeleteByName { name: "a".to_string(), first: false }, &mut tasks, at(9));
    assert_eq!(ids(&tasks), vec![2]);
    execute(Command::DeleteByID { id: 2 }, &mut tasks, at(9));
    assert!(tasks.is_empty());
}

#[test]
fn status_labels() {
    assert_eq!(Status::Todo.label(), "Todo");
    assert_eq!(Status::OnBreak.label(), "On-break");
    assert_eq!(Status::InProgress.label(), "In-progress");
    assert_eq!(Status::Done.label(), "Done");
}

#[test]
fn timestamps_order_by_seconds_then_nanos() {
    assert!(Timestamp::new(2, 0).is_after(&Timestamp::new(1, 999_999_999)));
    assert!(Timestamp::new(1, 5).is_after(&Timestamp::new(1, 4)));
    assert!(!Timestamp::new(1, 4).is_after(&Timestamp::new(1, 4)));
}

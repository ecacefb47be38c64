use benteveo::clock::{Duration, Instant};
use benteveo::domain::task::{Task, TaskId, TaskList};

fn texts(list: &TaskList) -> Vec<&str> {
    list.iter().map(|task| task.text.as_str()).collect()
}

#[test]
fn add_assigns_stable_unique_ids_and_positions() {
    let mut list = TaskList::new();
    let first = list.add("primera");
    let second = list.add("segunda");

    assert_ne!(first, second);
    assert_eq!(texts(&list), vec!["segunda", "primera"]);
    assert_eq!(list.get(first).map(|task| task.position), Some(1));
    assert_eq!(list.get(second).map(|task| task.position), Some(0));
    assert!(list.get(first).is_some_and(|task| task.created_at > 0));
}

#[test]
fn edit_and_toggle_change_only_the_requested_task() {
    let mut list = TaskList::new();
    let first = list.add("antes");
    let second = list.add("sin cambios");

    assert!(list.edit(first, "después"));
    assert_eq!(
        list.get(first).map(|task| task.text.as_str()),
        Some("después")
    );
    assert_eq!(list.toggle(first), Some(true));
    assert_eq!(list.toggle(first), Some(false));
    assert_eq!(list.get(second).map(|task| task.completed), Some(false));
    assert!(!list.edit(TaskId::from_raw(0), "inexistente"));
    assert_eq!(list.toggle(TaskId::from_raw(0)), None);
}

#[test]
fn delete_normalizes_positions_without_changing_remaining_ids() {
    let mut list = TaskList::new();
    let first = list.add("uno");
    let second = list.add("dos");
    let third = list.add("tres");

    assert!(list.delete(second));
    assert_eq!(texts(&list), vec!["tres", "uno"]);
    assert_eq!(list.get(first).map(|task| task.position), Some(1));
    assert_eq!(list.get(third).map(|task| task.position), Some(0));
    assert!(!list.delete(second));
}

#[test]
fn reorder_moves_task_and_clamps_position() {
    let mut list = TaskList::new();
    let first = list.add("uno");
    let _second = list.add("dos");
    let third = list.add("tres");

    assert!(list.reorder(first, 2));
    assert_eq!(texts(&list), vec!["tres", "dos", "uno"]);
    assert_eq!(list.get(first).map(|task| task.position), Some(2));
    assert!(list.reorder(first, usize::MAX));
    assert_eq!(texts(&list), vec!["tres", "dos", "uno"]);
    assert!(list.reorder(third, 0));
    assert_eq!(texts(&list), vec!["tres", "dos", "uno"]);
    assert!(!list.reorder(TaskId::from_raw(0), 0));
}

#[test]
fn clear_completed_removes_only_completed_and_normalizes() {
    let mut list = TaskList::new();
    let first = list.add("pendiente");
    let second = list.add("terminada");
    let third = list.add("otra terminada");
    assert_eq!(list.toggle(second), Some(true));
    assert_eq!(list.toggle(third), Some(true));

    assert_eq!(list.clear_completed(), 2);
    assert_eq!(texts(&list), vec!["pendiente"]);
    assert_eq!(list.get(first).map(|task| task.position), Some(0));
    assert_eq!(list.clear_completed(), 0);
}

#[test]
fn from_tasks_sorts_and_normalizes_positions() {
    let first = Task {
        id: TaskId::from_raw(1),
        text: "primera".into(),
        completed: false,
        position: 20,
        created_at: 1,
    };
    let second = Task {
        id: TaskId::from_raw(2),
        text: "segunda".into(),
        completed: true,
        position: 10,
        created_at: 2,
    };
    let list = TaskList::from_tasks(vec![first, second]);

    assert_eq!(texts(&list), vec!["segunda", "primera"]);
    assert_eq!(list.as_slice()[0].position, 0);
    assert_eq!(list.as_slice()[1].position, 1);
}

// ---------------------------------------------------------------------------
// Further cases
// ---------------------------------------------------------------------------

fn task(raw: u64, text: &str, position: usize) -> Task {
    Task { id: TaskId::from_raw(raw), text: text.to_string(), completed: false, position, created_at: 0 }
}

#[test]
fn from_tasks_keeps_the_order_of_equal_positions() {
    let list = TaskList::from_tasks(vec![
        task(1, "b1", 5),
        task(2, "a", 1),
        task(3, "b2", 5),
        task(4, "c", 9),
        task(5, "b3", 5),
    ]);
    assert_eq!(texts(&list), vec!["a", "b1", "b2", "b3", "c"]);
    let positions: Vec<usize> = list.iter().map(|t| t.position).collect();
    assert_eq!(positions, vec![0, 1, 2, 3, 4]);
}

#[test]
fn ids_come_from_the_clock_and_stay_above_existing_ones() {
    let mut list = TaskList::from_tasks(vec![task(u64::MAX - 1, "alta", 0)]);
    let now = Instant::from_unix(Duration::from_secs(1_700_000_000));
    let id = list.add_at("nueva", now);
    assert_eq!(id.raw(), u64::MAX);
    assert_eq!(list.get(id).map(|t| t.created_at), Some(1_700_000_000));

    let mut empty = TaskList::new();
    let id = empty.add_at("reloj", now);
    assert_eq!(id.raw(), 1_700_000_000_000_000_000);
    let earlier = Instant::from_unix(Duration::from_secs(5));
    let next = empty.add_at("antes", earlier);
    assert_eq!(next.raw(), 1_700_000_000_000_000_001);
}

#[test]
fn toggling_twice_restores_the_list() {
    let mut list = TaskList::new();
    let id = list.add("tarea");
    let before: Vec<Task> = list.as_slice().to_vec();
    list.toggle(id);
    list.toggle(id);
    assert_eq!(list.as_slice(), before.as_slice());
}

#[test]
fn accessors_and_aliases() {
    let mut list = TaskList::default();
    assert!(list.is_empty());
    let a = list.add_task("a");
    let b = list.add_task("b");
    assert_eq!(list.len(), 2);
    assert!(list.edit_task(a, "A"));
    assert_eq!(list.toggle_task(b), Some(true));
    if let Some(t) = list.get_mut(a) {
        t.completed = true;
    }
    assert_eq!(list.get(a).map(|t| t.completed), Some(true));
    assert!(list.get_mut(TaskId::from_raw(7)).is_none());
    assert_eq!(list.tasks().len(), 2);
    assert!(list.delete_task(a));
    assert!(!list.delete_task(a));
    let rest = list.into_tasks();
    assert_eq!(rest.len(), 1);
    assert_eq!(rest[0].text, "b");
}

#[test]
fn reorder_to_the_same_place_changes_nothing() {
    let mut list = TaskList::new();
    let a = list.add("a");
    list.add("b");
    list.add("c");
    let before: Vec<Task> = list.as_slice().to_vec();
    assert!(list.reorder(a, 2));
    assert_eq!(list.as_slice(), before.as_slice());
}

#[test]
fn deleting_an_id_leaves_none_with_it() {
    let mut list = TaskList::new();
    let a = list.add("a");
    let b = list.add("b");
    assert!(list.delete(a));
    assert!(list.get(a).is_none());
    assert_eq!(list.get(b).map(|t| t.position), Some(0));
}

#[test]
fn an_identifier_is_not_handed_out_twice() {
    let mut list = TaskList::new();
    let late = Instant::from_unix(Duration::from_secs(2_000));
    let first = list.add_at("primera", late);
    assert!(list.delete(first));
    let early = Instant::from_unix(Duration::from_secs(1_000));
    let second = list.add_at("segunda", early);
    assert!(second.raw() > first.raw());
}

#[test]
fn lists_with_the_same_tasks_are_equal_whatever_they_handed_out() {
    let mut issued = TaskList::new();
    let id = issued.add_at("uno", Instant::from_unix(Duration::from_secs(10)));
    let loaded = TaskList::from_tasks(issued.tasks().to_vec());
    assert_eq!(issued, loaded);

    let mut edited = loaded.clone();
    assert!(edited.edit(id, "otro"));
    assert_ne!(issued, edited);
    assert_ne!(issued, TaskList::new());
}

use comparison_picker::delegate::FileComparisonDelegate;
use comparison_picker::diff_task::{DiffEvent, DiffTask};
use comparison_picker::effect::{DiffRequest, DiffView, Effect, HostSnapshot};
use comparison_picker::handle::{BufferId, DiffId, PaneId, ProjectId, WorkspaceId};

fn delegate(labels: &[&str]) -> FileComparisonDelegate {
    let open_buffers = labels
        .iter()
        .enumerate()
        .map(|(i, label)| (BufferId(10 + i as u64), label.to_string()))
        .collect();
    FileComparisonDelegate::new(BufferId(1), WorkspaceId(2), ProjectId(3), open_buffers)
}

fn live(file_name: Option<&str>) -> HostSnapshot {
    HostSnapshot {
        workspace: Some(WorkspaceId(2)),
        active_file_name: file_name.map(|n| n.to_string()),
    }
}

fn gone(file_name: Option<&str>) -> HostSnapshot {
    HostSnapshot { workspace: None, active_file_name: file_name.map(|n| n.to_string()) }
}

fn request() -> DiffRequest {
    DiffRequest {
        active_buffer: BufferId(1),
        compare_buffer: BufferId(10),
        workspace: WorkspaceId(2),
        project: ProjectId(3),
        active_title: "a.txt".to_string(),
        compare_title: "b.txt".to_string(),
    }
}

fn view(diff: DiffId) -> DiffView {
    DiffView {
        compare_buffer: BufferId(10),
        active_buffer: BufferId(1),
        diff,
        project: ProjectId(3),
        compare_title: "b.txt".to_string(),
        active_title: "a.txt".to_string(),
    }
}

#[test]
fn confirm_with_nothing_shown_does_nothing() {
    let mut d = delegate(&[]);
    assert_eq!(d.confirm(false, &live(Some("a.txt"))), vec![]);
    assert_eq!(d.confirm(true, &live(Some("a.txt"))), vec![]);
}

#[test]
fn confirm_with_everything_filtered_out_does_nothing() {
    let mut d = delegate(&["b.txt", "c.txt"]);
    d.update_matches("zzz".to_string());
    assert_eq!(d.confirm(false, &live(Some("a.txt"))), vec![]);
    assert_eq!(d.match_count(), 0);
    assert_eq!(d.selected_index(), 0);
}

#[test]
fn confirm_without_a_workspace_does_nothing() {
    let mut d = delegate(&["b.txt"]);
    assert_eq!(d.confirm(false, &gone(Some("a.txt"))), vec![]);
    assert_eq!(d.confirm(true, &gone(None)), vec![]);
    assert_eq!(d.match_count(), 1);
    assert_eq!(d.selected_index(), 0);
}

#[test]
fn confirm_spawns_the_diff_and_then_dismisses() {
    let mut d = delegate(&["b.txt"]);
    let effects = d.confirm(false, &live(Some("a.txt")));
    assert_eq!(effects, vec![Effect::SpawnDiff(request()), Effect::Dismiss]);
}

#[test]
fn confirm_leaves_the_list_as_it_was() {
    let mut d = delegate(&["b.txt", "c.txt"]);
    d.set_selected_index(1);
    d.confirm(false, &live(Some("a.txt")));
    assert_eq!(d.match_count(), 2);
    assert_eq!(d.selected_index(), 1);
}

#[test]
fn confirm_ignores_the_secondary_flag() {
    let mut d = delegate(&["b.txt"]);
    let primary = d.confirm(false, &live(Some("a.txt")));
    let secondary = d.confirm(true, &live(Some("a.txt")));
    assert_eq!(primary, secondary);
    assert_eq!(secondary.len(), 2);
}

#[test]
fn confirm_titles_a_buffer_without_a_file_untitled() {
    let mut d = delegate(&["b.txt"]);
    let effects = d.confirm(false, &live(None));
    let expected = DiffRequest { active_title: "Untitled".to_string(), ..request() };
    assert_eq!(effects, vec![Effect::SpawnDiff(expected), Effect::Dismiss]);
}

#[test]
fn confirm_takes_the_selected_candidate() {
    let mut d = delegate(&["b.txt", "c.txt", "d.txt"]);
    d.set_selected_index(2);
    let effects = d.confirm(false, &live(Some("a.txt")));
    let expected = DiffRequest {
        compare_buffer: BufferId(12),
        compare_title: "d.txt".to_string(),
        ..request()
    };
    assert_eq!(effects, vec![Effect::SpawnDiff(expected), Effect::Dismiss]);
}

#[test]
fn confirm_takes_the_selection_among_the_shown() {
    let mut d = delegate(&["b.txt", "notes.md", "c.txt"]);
    d.update_matches("TXT".to_string());
    d.set_selected_index(1);
    let effects = d.confirm(false, &live(Some("a.txt")));
    let expected = DiffRequest {
        compare_buffer: BufferId(12),
        compare_title: "c.txt".to_string(),
        ..request()
    };
    assert_eq!(effects, vec![Effect::SpawnDiff(expected), Effect::Dismiss]);
}

#[test]
fn task_starts_building() {
    let task = DiffTask::new(request());
    assert_eq!(task, DiffTask::Building(request()));
    assert!(!task.is_done());
}

#[test]
fn failed_build_is_logged_once() {
    let task = DiffTask::new(request());
    let (task, effects) = task.step(DiffEvent::Built(Err("no such file".to_string())));
    assert_eq!(effects, vec![Effect::LogError("no such file".to_string())]);
    assert!(task.is_done());
    let (task, effects) = task.step(DiffEvent::Reentered(Some(PaneId(4))));
    assert_eq!(effects, vec![]);
    assert!(task.is_done());
    let (task, effects) = task.step(DiffEvent::Built(Err("again".to_string())));
    assert_eq!(effects, vec![]);
    assert_eq!(task, DiffTask::Done);
}

#[test]
fn built_diff_waits_for_the_ui_thread() {
    let task = DiffTask::new(request());
    let (task, effects) = task.step(DiffEvent::Built(Ok(DiffId(5))));
    assert_eq!(effects, vec![]);
    assert_eq!(task, DiffTask::Ready(view(DiffId(5))));
    assert!(!task.is_done());
}

#[test]
fn built_diff_is_added_to_the_active_pane() {
    let task = DiffTask::new(request());
    let (task, _) = task.step(DiffEvent::Built(Ok(DiffId(5))));
    let (task, effects) = task.step(DiffEvent::Reentered(Some(PaneId(4))));
    assert_eq!(
        effects,
        vec![Effect::AddItem { pane: PaneId(4), item: view(DiffId(5)), activate: true, focus: true }]
    );
    assert!(task.is_done());
    let (task, effects) = task.step(DiffEvent::Reentered(Some(PaneId(4))));
    assert_eq!(effects, vec![]);
    assert!(task.is_done());
}

#[test]
fn built_diff_is_dropped_when_the_workspace_is_gone() {
    let task = DiffTask::new(request());
    let (task, _) = task.step(DiffEvent::Built(Ok(DiffId(5))));
    let (task, effects) = task.step(DiffEvent::Reentered(None));
    assert_eq!(effects, vec![]);
    assert!(task.is_done());
}

#[test]
fn events_out_of_turn_change_nothing() {
    let task = DiffTask::new(request());
    let (task, effects) = task.step(DiffEvent::Reentered(Some(PaneId(4))));
    assert_eq!(effects, vec![]);
    assert_eq!(task, DiffTask::Building(request()));
    let (task, _) = task.step(DiffEvent::Built(Ok(DiffId(5))));
    let (task, effects) = task.step(DiffEvent::Built(Ok(DiffId(6))));
    assert_eq!(effects, vec![]);
    assert_eq!(task, DiffTask::Ready(view(DiffId(5))));
    let (task, effects) = task.step(DiffEvent::Built(Err("late".to_string())));
    assert_eq!(effects, vec![]);
    assert_eq!(task, DiffTask::Ready(view(DiffId(5))));
}

#[test]
fn confirm_then_build_then_show() {
    let mut d = delegate(&["b.txt"]);
    let mut effects = d.confirm(false, &live(Some("a.txt")));
    assert_eq!(effects.pop(), Some(Effect::Dismiss));
    let task = match effects.pop() {
        Some(Effect::SpawnDiff(request)) => DiffTask::new(request),
        other => panic!("expected a diff request, got {:?}", other),
    };
    assert!(effects.is_empty());
    let (task, effects) = task.step(DiffEvent::Built(Ok(DiffId(8))));
    assert_eq!(effects, vec![]);
    let (task, effects) = task.step(DiffEvent::Reentered(Some(PaneId(9))));
    assert_eq!(
        effects,
        vec![Effect::AddItem { pane: PaneId(9), item: view(DiffId(8)), activate: true, focus: true }]
    );
    assert!(task.is_done());
}

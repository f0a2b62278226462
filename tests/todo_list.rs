use app_core::app_state::Core;
use app_core::request::{PendingRequests, RequestId};
use app_core::shell::hande_effects;
use app_core::todo_list::{
    process_mod_event, process_query, view, Effect, Event, Query, Rejection, TodoListModel,
    ViewModel,
};

#[test]
fn add_todo() {
    let mut model = TodoListModel::default();

    let effects = process_mod_event(Event::AddTodo("test the list".into()), &mut model);

    let actual_effect = &effects[0];
    let expected_effect = Effect::Render(view(&model));
    assert_eq!(actual_effect, &expected_effect);

    let actual_view = view(&model);
    let expected_view = ViewModel {
        items: vec!["test the list".into()],
        count: 1,
    };
    assert_eq!(actual_view, expected_view);
}

#[test]
fn remove_todo() {
    let mut model = TodoListModel {
        items: vec!["remove me".into()],
    };

    let effects = process_mod_event(Event::RemoveTodo(1), &mut model);

    let actual_effect = &effects[0];
    let expected_effect = Effect::Render(view(&model));
    assert_eq!(actual_effect, &expected_effect);

    let actual_view = view(&model);
    let expected_view = ViewModel {
        items: vec![],
        count: 0,
    };
    assert_eq!(actual_view, expected_view);
}

#[test]
fn clean_list() {
    let mut model = TodoListModel::default();
    model.items.push("remove me".into());
    model.items.push("clean me".into());

    let effects = process_mod_event(Event::CleanList, &mut model);

    let actual_effect = &effects[0];
    let expected_effect = Effect::Render(view(&model));
    assert_eq!(actual_effect, &expected_effect);

    let actual_view = view(&model);
    let expected_view = ViewModel {
        items: vec![],
        count: 0,
    };
    assert_eq!(actual_view, expected_view);
}

fn snapshot(items: &[&str]) -> ViewModel {
    ViewModel {
        items: items.iter().map(|s| s.to_string()).collect(),
        count: items.len(),
    }
}

#[test]
fn add_to_empty_renders_one_item() {
    let mut model = TodoListModel::default();
    let effects = process_mod_event(Event::AddTodo("buy milk".into()), &mut model);
    assert_eq!(effects, vec![Effect::Render(snapshot(&["buy milk"]))]);
    assert_eq!(model.items, vec!["buy milk".to_string()]);
}

#[test]
fn add_appends_after_existing_items() {
    let mut model = TodoListModel {
        items: vec!["a".into(), "b".into()],
    };
    let effects = process_mod_event(Event::AddTodo("c".into()), &mut model);
    assert_eq!(effects.len(), 1);
    assert_eq!(effects[0], Effect::Render(snapshot(&["a", "b", "c"])));
    assert_eq!(view(&model).count, 3);
}

#[test]
fn add_keeps_equal_items() {
    let mut model = TodoListModel {
        items: vec!["same".into()],
    };
    process_mod_event(Event::AddTodo("same".into()), &mut model);
    assert_eq!(view(&model), snapshot(&["same", "same"]));
}

#[test]
fn remove_middle_item_by_one_based_position() {
    let mut model = TodoListModel {
        items: vec!["a".into(), "b".into(), "c".into()],
    };
    let effects = process_mod_event(Event::RemoveTodo(2), &mut model);
    assert_eq!(effects, vec![Effect::Render(snapshot(&["a", "c"]))]);
}

#[test]
fn remove_last_position() {
    let mut model = TodoListModel {
        items: vec!["a".into(), "b".into()],
    };
    let effects = process_mod_event(Event::RemoveTodo(2), &mut model);
    assert_eq!(effects, vec![Effect::Render(snapshot(&["a"]))]);
}

#[test]
fn remove_at_zero_is_rejected() {
    let mut model = TodoListModel {
        items: vec!["keep".into()],
    };
    let effects = process_mod_event(Event::RemoveTodo(0), &mut model);
    assert_eq!(
        effects,
        vec![Effect::Rejected(Rejection::NoSuchPosition { position: 0, len: 1 })]
    );
    assert_eq!(model.items, vec!["keep".to_string()]);
}

#[test]
fn remove_past_end_is_rejected() {
    let mut model = TodoListModel {
        items: vec!["a".into(), "b".into()],
    };
    let effects = process_mod_event(Event::RemoveTodo(3), &mut model);
    assert_eq!(
        effects,
        vec![Effect::Rejected(Rejection::NoSuchPosition { position: 3, len: 2 })]
    );
    assert_eq!(view(&model), snapshot(&["a", "b"]));
}

#[test]
fn remove_from_empty_is_rejected() {
    let mut model = TodoListModel::default();
    let effects = process_mod_event(Event::RemoveTodo(usize::MAX), &mut model);
    assert_eq!(
        effects,
        vec![Effect::Rejected(Rejection::NoSuchPosition { position: usize::MAX, len: 0 })]
    );
    assert!(model.items.is_empty());
}

#[test]
fn clean_two_items_renders_empty() {
    let mut model = TodoListModel {
        items: vec!["a".into(), "b".into()],
    };
    let effects = process_mod_event(Event::CleanList, &mut model);
    assert_eq!(effects, vec![Effect::Render(snapshot(&[]))]);
}

#[test]
fn clean_empty_list_renders_empty() {
    let mut model = TodoListModel::default();
    let first = process_mod_event(Event::CleanList, &mut model);
    let second = process_mod_event(Event::CleanList, &mut model);
    assert_eq!(first, vec![Effect::Render(snapshot(&[]))]);
    assert_eq!(first, second);
}

#[test]
fn view_twice_is_equal() {
    let model = TodoListModel {
        items: vec!["x".into(), "y".into()],
    };
    let a = view(&model);
    let b = view(&model);
    assert_eq!(a, b);
    assert_eq!(a, snapshot(&["x", "y"]));
}

#[test]
fn views_with_different_items_differ() {
    assert_ne!(snapshot(&["a"]), snapshot(&["b"]));
    assert_ne!(snapshot(&["a"]), snapshot(&["a", "a"]));
    assert_ne!(
        Effect::Render(snapshot(&[])),
        Effect::Rejected(Rejection::NoSuchPosition { position: 0, len: 0 })
    );
}

#[test]
fn query_renders_without_changing() {
    let model = TodoListModel {
        items: vec!["a".into()],
    };
    let effects = process_query(Query::GetModel, &model);
    assert_eq!(effects, vec![Effect::Render(snapshot(&["a"]))]);
    assert_eq!(model.items, vec!["a".to_string()]);
}

#[test]
fn pending_ids_are_fresh_and_consumed_once() {
    let mut table: PendingRequests<u32> = PendingRequests::new();
    let a = table.issue(10).unwrap();
    let b = table.issue(20).unwrap();
    assert_ne!(a, b);
    assert_eq!(table.len(), 2);
    assert!(table.is_pending(a));
    assert_eq!(table.resume(a), Some(10));
    assert!(!table.is_pending(a));
    assert_eq!(table.resume(a), None);
    assert_eq!(table.resume(RequestId { id: 999 }), None);
    assert_eq!(table.len(), 1);
    assert_eq!(table.resume(b), Some(20));
    assert_eq!(table.len(), 0);
}

#[test]
fn core_resume_twice_runs_once() {
    let mut core = Core::init();
    let (id, effect) = core.issue(Event::AddTodo("later".into())).unwrap();
    assert_eq!(effect, Effect::Await(id));
    assert_eq!(core.view(), snapshot(&[]));
    let first = core.resume(id);
    assert_eq!(first, vec![Effect::Render(snapshot(&["later"]))]);
    let second = core.resume(id);
    assert!(second.is_empty());
    assert_eq!(core.view(), snapshot(&["later"]));
}

#[test]
fn core_resume_unknown_id_is_stale() {
    let mut core = Core::init();
    core.process_event(Event::AddTodo("a".into()));
    let effects = core.resume(RequestId { id: 7 });
    assert!(effects.is_empty());
    assert_eq!(core.view(), snapshot(&["a"]));
}

#[test]
fn core_end_to_end() {
    let mut core = Core::with_model(TodoListModel {
        items: vec!["a".into(), "b".into()],
    });
    assert_eq!(
        core.process_query(Query::GetModel),
        vec![Effect::Render(snapshot(&["a", "b"]))]
    );
    assert_eq!(
        core.process_event(Event::RemoveTodo(1)),
        vec![Effect::Render(snapshot(&["b"]))]
    );
    assert_eq!(core.process_event(Event::CleanList), vec![Effect::Render(snapshot(&[]))]);
}

#[test]
fn hande_effects_keeps_snapshots_in_order() {
    let effects = vec![
        Effect::Render(snapshot(&["a"])),
        Effect::Rejected(Rejection::NoSuchPosition { position: 5, len: 1 }),
        Effect::Await(RequestId { id: 3 }),
        Effect::Render(snapshot(&["a", "b"])),
    ];
    let views = hande_effects(effects);
    assert_eq!(views, vec![snapshot(&["a"]), snapshot(&["a", "b"])]);
    assert!(hande_effects(vec![]).is_empty());
}

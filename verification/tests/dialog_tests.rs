use dialog_focus::dialog::ActionsFrozen;
use dialog_focus::dialog::CurrentDialogTarget;
use dialog_focus::dialog::RunnerLifecycle;
use dialog_focus::dialog::YarnNode;
use dialog_focus::dialog::unfreeze_after_dialog;

#[test]
fn target_store_starts_empty_and_takes_any_handle() {
    let mut target = CurrentDialogTarget::new();
    assert_eq!(target.get(), None);
    target.set(42);
    assert_eq!(target.get(), Some(42));
    target.set(7);
    assert_eq!(target.get(), Some(7));
    target.clear();
    assert_eq!(target.get(), None);
}

#[test]
fn freeze_flag_round_trip() {
    let mut freeze = ActionsFrozen::new();
    assert!(!freeze.is_frozen());
    freeze.freeze();
    assert!(freeze.is_frozen());
    freeze.unfreeze();
    assert!(!freeze.is_frozen());
}

#[test]
fn empty_completion_batch_changes_nothing() {
    let mut target = CurrentDialogTarget::new();
    target.set(5);
    let mut freeze = ActionsFrozen::new();
    freeze.freeze();
    unfreeze_after_dialog(0, &mut target, &mut freeze);
    assert_eq!(target.get(), Some(5));
    assert!(freeze.is_frozen());
}

#[test]
fn completion_clears_target_and_unfreezes() {
    let mut target = CurrentDialogTarget::new();
    target.set(5);
    let mut freeze = ActionsFrozen::new();
    freeze.freeze();
    unfreeze_after_dialog(1, &mut target, &mut freeze);
    assert_eq!(target.get(), None);
    assert!(!freeze.is_frozen());
}

#[test]
fn completion_batch_is_idempotent() {
    let mut target_once = CurrentDialogTarget::new();
    target_once.set(5);
    let mut freeze_once = ActionsFrozen::new();
    freeze_once.freeze();
    unfreeze_after_dialog(1, &mut target_once, &mut freeze_once);

    let mut target_many = CurrentDialogTarget::new();
    target_many.set(5);
    let mut freeze_many = ActionsFrozen::new();
    freeze_many.freeze();
    unfreeze_after_dialog(6, &mut target_many, &mut freeze_many);

    assert_eq!(target_once, target_many);
    assert_eq!(freeze_once, freeze_many);
}

#[test]
fn runner_guard_fires_once() {
    let mut runner = RunnerLifecycle::new();
    assert!(!runner.spawn_dialogue_runner(false));
    assert!(runner.spawn_dialogue_runner(true));
    assert!(!runner.spawn_dialogue_runner(true));
    assert!(!runner.spawn_dialogue_runner(true));
    assert!(runner.spawned);
}

#[test]
fn yarn_node_carries_its_node_name() {
    let node = YarnNode(String::from("Greeting"));
    assert_eq!(node.0, "Greeting");
}

use zere::JobWizard;
use zere::WizardStep;

#[test]
fn wizard_starts_at_name_entry_with_defaults() {
    let w = JobWizard::new();
    assert!(matches!(w.step, WizardStep::JobName));
    assert_eq!(w.job_name, "");
    assert_eq!(w.num_scenes, "100");
    assert_eq!(w.config_file, "");
    assert_eq!(w.cursor_position, 0);
}

#[test]
fn previous_step_clamps_at_name_entry() {
    let mut w = JobWizard::new();
    w.previous_step();
    assert!(matches!(w.step, WizardStep::JobName));
}

#[test]
fn next_step_clamps_at_confirm() {
    let mut w = JobWizard::new();
    w.next_step();
    assert!(matches!(w.step, WizardStep::NumScenes));
    w.next_step();
    assert!(matches!(w.step, WizardStep::ConfigFile));
    w.next_step();
    assert!(matches!(w.step, WizardStep::Confirm));
    w.next_step();
    assert!(matches!(w.step, WizardStep::Confirm));
}

#[test]
fn steps_walk_back_in_order() {
    let mut w = JobWizard::new();
    w.next_step();
    w.next_step();
    w.next_step();
    w.previous_step();
    assert!(matches!(w.step, WizardStep::ConfigFile));
    w.previous_step();
    assert!(matches!(w.step, WizardStep::NumScenes));
    w.previous_step();
    assert!(matches!(w.step, WizardStep::JobName));
}

#[test]
fn invalid_when_name_empty() {
    let mut w = JobWizard::new();
    assert!(!w.is_valid());
    w.num_scenes = "42".to_string();
    assert!(!w.is_valid());
}

#[test]
fn valid_for_name_and_default_scene_count() {
    let mut w = JobWizard::new();
    w.job_name = "Run A".to_string();
    w.num_scenes = "100".to_string();
    assert!(w.is_valid());
}

#[test]
fn scene_count_must_parse_as_positive_integer() {
    let mut w = JobWizard::new();
    w.job_name = "Run A".to_string();
    w.num_scenes = "abc".to_string();
    assert!(!w.is_valid());
    w.num_scenes = "".to_string();
    assert!(!w.is_valid());
    w.num_scenes = "12x".to_string();
    assert!(!w.is_valid());
    w.num_scenes = "0".to_string();
    assert!(!w.is_valid());
    w.num_scenes = "-5".to_string();
    assert!(!w.is_valid());
    w.num_scenes = "2147483648".to_string();
    assert!(!w.is_valid());
    w.num_scenes = "7".to_string();
    assert!(w.is_valid());
}

#[test]
fn config_path_never_invalidates() {
    let mut w = JobWizard::new();
    w.job_name = "Run A".to_string();
    w.config_file = "/tmp/whatever.yaml".to_string();
    assert!(w.is_valid());
    w.config_file = "".to_string();
    assert!(w.is_valid());
}

#[test]
fn typing_fills_the_buffer_of_the_current_step() {
    let mut w = JobWizard::new();
    w.handle_char('h');
    w.handle_char('i');
    assert_eq!(w.job_name, "hi");
    assert_eq!(w.cursor_position, 2);

    w.next_step();
    // the cursor is clamped into the scene-count buffer ("100")
    assert_eq!(w.cursor_position, 2);
    w.handle_char('5');
    assert_eq!(w.num_scenes, "1050");

    w.next_step();
    // config buffer is empty, so the cursor clamps to 0
    assert_eq!(w.cursor_position, 0);
    w.handle_char('x');
    assert_eq!(w.config_file, "x");
}

#[test]
fn backspace_edits_only_before_the_cursor() {
    let mut w = JobWizard::new();
    w.handle_char('a');
    w.handle_char('b');
    w.handle_backspace();
    assert_eq!(w.job_name, "a");
    assert_eq!(w.cursor_position, 1);
    w.handle_backspace();
    assert_eq!(w.job_name, "");
    w.handle_backspace();
    assert_eq!(w.job_name, "");
    assert_eq!(w.cursor_position, 0);
}

#[test]
fn confirm_step_ignores_editing() {
    let mut w = JobWizard::new();
    w.handle_char('a');
    w.next_step();
    w.next_step();
    w.next_step();
    assert!(matches!(w.step, WizardStep::Confirm));
    w.handle_char('z');
    w.handle_backspace();
    assert_eq!(w.job_name, "a");
    assert_eq!(w.num_scenes, "100");
    assert_eq!(w.config_file, "");
}

#[test]
fn reset_restores_defaults() {
    let mut w = JobWizard::new();
    w.job_name = "something".to_string();
    w.num_scenes = "5".to_string();
    w.config_file = "cfg.yaml".to_string();
    w.next_step();
    w.reset();
    assert!(matches!(w.step, WizardStep::JobName));
    assert_eq!(w.job_name, "");
    assert_eq!(w.num_scenes, "100");
    assert_eq!(w.config_file, "");
    assert_eq!(w.cursor_position, 0);
}

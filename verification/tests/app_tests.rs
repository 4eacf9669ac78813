use zere::Action;
use zere::App;
use zere::AppState;
use zere::Asset;
use zere::Job;
use zere::KeyInput;
use zere::WizardStep;

fn job(id: i32, name: &str, status: &str) -> Job {
    Job {
        id,
        job_id: format!("job-{}", id),
        name: name.to_string(),
        status: status.to_string(),
        num_scenes: 10,
        progress: None,
        created_at: "2024-01-01".to_string(),
        completed_at: None,
    }
}

fn asset(id: i32, name: &str, file_type: &str) -> Asset {
    Asset {
        id,
        asset_id: format!("asset-{}", id),
        name: name.to_string(),
        file_type: file_type.to_string(),
        size_bytes: 1024,
        thumbnail_url: None,
        created_at: "2024-01-01".to_string(),
    }
}

#[test]
fn new_session_starts_at_dashboard() {
    let app = App::new(0);
    assert!(matches!(app.state, AppState::Dashboard));
    assert!(app.jobs.is_empty());
    assert!(app.assets.is_empty());
    assert_eq!(app.selected_job_index, 0);
    assert_eq!(app.selected_asset_index, 0);
    assert!(!app.show_help);
    assert!(app.status_message.is_none());
}

#[test]
fn ring_three_nexts_returns_to_dashboard() {
    let mut app = App::new(0);
    app.next_view();
    assert!(matches!(app.state, AppState::Jobs));
    app.next_view();
    assert!(matches!(app.state, AppState::Assets));
    app.next_view();
    assert!(matches!(app.state, AppState::Dashboard));
}

#[test]
fn ring_previous_then_next_is_identity_from_jobs() {
    let mut app = App::new(0);
    app.next_view();
    assert!(matches!(app.state, AppState::Jobs));
    app.previous_view();
    app.next_view();
    assert!(matches!(app.state, AppState::Jobs));
}

#[test]
fn help_toggles_back_to_dashboard() {
    let mut app = App::new(0);
    app.next_view();
    app.toggle_help();
    assert!(matches!(app.state, AppState::Help));
    assert!(app.show_help);
    app.toggle_help();
    assert!(matches!(app.state, AppState::Dashboard));
    assert!(!app.show_help);
}

#[test]
fn selection_clamps_at_both_ends() {
    let mut app = App::new(0);
    app.state = AppState::Jobs;
    app.jobs = vec![job(1, "a", "queued"), job(2, "b", "queued"), job(3, "c", "queued")];
    app.selected_job_index = 2;
    app.on_down();
    assert_eq!(app.selected_job_index, 2);
    app.on_up();
    assert_eq!(app.selected_job_index, 1);
    app.on_up();
    app.on_up();
    assert_eq!(app.selected_job_index, 0);
}

#[test]
fn selection_is_a_no_op_on_empty_lists() {
    let mut app = App::new(0);
    app.state = AppState::Jobs;
    app.on_down();
    app.on_up();
    assert_eq!(app.selected_job_index, 0);
    app.state = AppState::Assets;
    app.on_down();
    app.on_up();
    assert_eq!(app.selected_asset_index, 0);
}

#[test]
fn refresh_isolates_failures() {
    let mut app = App::new(0);
    app.assets = vec![asset(7, "keep me", "glb")];
    let fetched = vec![job(1, "fresh", "running")];
    app.apply_refresh(Some(fetched), None, 9000);
    assert_eq!(app.jobs.len(), 1);
    assert_eq!(app.jobs[0].id, 1);
    assert_eq!(app.jobs[0].name, "fresh");
    // the failed asset fetch leaves the old snapshot intact
    assert_eq!(app.assets.len(), 1);
    assert_eq!(app.assets[0].name, "keep me");
}

#[test]
fn refresh_clamps_the_selection_into_a_smaller_snapshot() {
    let mut app = App::new(0);
    app.state = AppState::Jobs;
    app.apply_refresh(
        Some(vec![job(1, "a", "queued"), job(2, "b", "queued"), job(3, "c", "queued")]),
        None,
        1000,
    );
    app.on_down();
    app.on_down();
    assert_eq!(app.selected_job_index, 2);
    // the job list shrinks under the cursor: the cursor moves to the last entry
    app.apply_refresh(Some(vec![job(9, "only", "queued")]), None, 2000);
    assert_eq!(app.selected_job_index, 0);
    assert_eq!(app.jobs.len(), 1);
}

#[test]
fn refresh_resets_the_selection_when_a_snapshot_empties() {
    let mut app = App::new(0);
    app.assets = vec![asset(1, "a", "glb"), asset(2, "b", "glb")];
    app.selected_asset_index = 1;
    app.apply_refresh(None, Some(vec![]), 1000);
    assert_eq!(app.selected_asset_index, 0);
    // a failed fetch keeps the snapshot, so an in-bounds cursor stays put
    app.jobs = vec![job(1, "a", "queued"), job(2, "b", "queued")];
    app.selected_job_index = 1;
    app.apply_refresh(None, None, 2000);
    assert_eq!(app.selected_job_index, 1);
}

#[test]
fn refresh_records_the_attempt_even_on_double_failure() {
    let mut app = App::new(0);
    app.jobs = vec![job(1, "old", "queued")];
    app.apply_refresh(None, None, 7000);
    assert_eq!(app.jobs.len(), 1);
    assert!(!app.should_refresh(7000));
    assert!(!app.should_refresh(12000));
    assert!(app.should_refresh(12001));
}

#[test]
fn job_status_counts() {
    let mut app = App::new(0);
    app.jobs = vec![
        job(1, "a", "running"),
        job(2, "b", "completed"),
        job(3, "c", "running"),
        job(4, "d", "queued"),
        job(5, "e", "failed"),
    ];
    assert_eq!(app.running_jobs_count(), 2);
    assert_eq!(app.completed_jobs_count(), 1);
    assert_eq!(app.queued_jobs_count(), 1);
}

#[test]
fn filter_and_rank_keeps_subsequence_matches_in_order() {
    let mut app = App::new(0);
    app.jobs = vec![
        job(1, "warehouse", "queued"),
        job(2, "Warehouse Test Job", "queued"),
        job(3, "robot arm", "queued"),
    ];
    app.search_box.query = "wrhs".to_string();
    let shown = app.filtered_jobs();
    assert_eq!(shown.len(), 2);
    assert_eq!(shown[0].name, "warehouse");
    assert_eq!(shown[1].name, "Warehouse Test Job");
}

#[test]
fn ranking_puts_better_tiers_first() {
    let mut app = App::new(0);
    app.jobs = vec![
        job(1, "my test", "queued"),
        job(2, "testing", "queued"),
        job(3, "test", "queued"),
        job(4, "other", "queued"),
    ];
    app.search_box.query = "test".to_string();
    let shown = app.filtered_jobs();
    assert_eq!(shown.len(), 3);
    assert_eq!(shown[0].name, "test");
    assert_eq!(shown[1].name, "testing");
    assert_eq!(shown[2].name, "my test");
}

#[test]
fn filtering_also_matches_statuses_and_file_types() {
    let mut app = App::new(0);
    app.jobs = vec![job(1, "alpha", "running"), job(2, "beta", "queued")];
    app.search_box.query = "running".to_string();
    let shown = app.filtered_jobs();
    assert_eq!(shown.len(), 1);
    assert_eq!(shown[0].name, "alpha");

    app.assets = vec![asset(1, "chair", "glb"), asset(2, "desk", "fbx")];
    app.search_box.query = "fbx".to_string();
    let shown = app.filtered_assets();
    assert_eq!(shown.len(), 1);
    assert_eq!(shown[0].name, "desk");
}

#[test]
fn empty_query_shows_everything_unsorted() {
    let mut app = App::new(0);
    app.jobs = vec![job(2, "b", "queued"), job(1, "a", "queued")];
    let shown = app.filtered_jobs();
    assert_eq!(shown.len(), 2);
    assert_eq!(shown[0].name, "b");
    assert_eq!(shown[1].name, "a");
}

#[test]
fn quit_refresh_and_wizard_keys_in_normal_mode() {
    let mut app = App::new(0);
    assert!(matches!(app.handle_key(KeyInput::Char('q')), Action::Quit));
    assert!(matches!(app.handle_key(KeyInput::Char('r')), Action::Refresh));
    assert!(matches!(app.handle_key(KeyInput::Char('c')), Action::Nothing));
    assert!(matches!(app.state, AppState::CreateJob));
}

#[test]
fn wizard_mode_routes_keys_to_the_wizard() {
    let mut app = App::new(0);
    app.handle_key(KeyInput::Char('c'));
    assert!(matches!(app.state, AppState::CreateJob));
    app.handle_key(KeyInput::Char('J'));
    app.handle_key(KeyInput::Char('1'));
    assert_eq!(app.job_wizard.job_name, "J1");
    // ring navigation is suppressed: Tab advances the wizard instead
    app.handle_key(KeyInput::Tab);
    assert!(matches!(app.job_wizard.step, WizardStep::NumScenes));
    assert!(matches!(app.state, AppState::CreateJob));
    app.handle_key(KeyInput::BackTab);
    assert!(matches!(app.job_wizard.step, WizardStep::JobName));
    // Enter asks the caller to submit
    assert!(matches!(app.handle_key(KeyInput::Enter), Action::SubmitJob));
    // Escape cancels to the job list and resets the draft
    app.handle_key(KeyInput::Escape);
    assert!(matches!(app.state, AppState::Jobs));
    assert_eq!(app.job_wizard.job_name, "");
}

#[test]
fn search_mode_routes_keys_to_the_search_box() {
    let mut app = App::new(0);
    app.handle_key(KeyInput::Char('/'));
    assert!(app.search_box.active);
    app.handle_key(KeyInput::Char('a'));
    app.handle_key(KeyInput::Char('b'));
    assert_eq!(app.search_box.query, "ab");
    app.handle_key(KeyInput::Backspace);
    assert_eq!(app.search_box.query, "a");
    // Tab must not leave the dashboard while searching
    app.handle_key(KeyInput::Tab);
    assert!(matches!(app.state, AppState::Dashboard));
    // Enter deactivates but keeps the query
    app.handle_key(KeyInput::Enter);
    assert!(!app.search_box.active);
    assert_eq!(app.search_box.query, "a");
    // Escape clears
    app.handle_key(KeyInput::Char('/'));
    app.handle_key(KeyInput::Escape);
    assert_eq!(app.search_box.query, "");
    assert!(!app.search_box.active);
}

#[test]
fn any_key_clears_a_pending_status_message_first() {
    let mut app = App::new(0);
    app.status_message = Some("note".to_string());
    let a = app.handle_key(KeyInput::Char('q'));
    assert!(matches!(a, Action::Nothing));
    assert!(app.status_message.is_none());
    assert!(matches!(app.handle_key(KeyInput::Char('q')), Action::Quit));
}

#[test]
fn submit_flow_success_and_failure() {
    let mut app = App::new(0);
    app.handle_key(KeyInput::Char('c'));
    // invalid draft: empty name
    assert!(app.prepare_submit().is_none());
    assert_eq!(app.status_message.as_deref(), Some("Invalid job parameters"));
    app.status_message = None;

    app.job_wizard.job_name = "Run A".to_string();
    let req = app.prepare_submit().expect("valid draft");
    assert_eq!(req.name, "Run A");
    assert_eq!(req.num_scenes, 100);
    assert!(req.config_yaml.is_none());
    assert!(app.status_message.is_none());

    app.apply_submit_failure("API error: boom");
    assert_eq!(app.status_message.as_deref(), Some("Failed to create job: API error: boom"));
    assert!(matches!(app.state, AppState::CreateJob));

    app.apply_submit_success();
    assert_eq!(app.status_message.as_deref(), Some("Job created successfully!"));
    assert!(matches!(app.state, AppState::Jobs));
    assert_eq!(app.job_wizard.job_name, "");
    assert_eq!(app.job_wizard.num_scenes, "100");
}

#[test]
fn prepare_submit_carries_the_config_path() {
    let mut app = App::new(0);
    app.job_wizard.job_name = "Run B".to_string();
    app.job_wizard.num_scenes = "25".to_string();
    app.job_wizard.config_file = "scene.yaml".to_string();
    let req = app.prepare_submit().expect("valid draft");
    assert_eq!(req.num_scenes, 25);
    assert_eq!(req.config_yaml.as_deref(), Some("scene.yaml"));
}

#[test]
fn down_clamps_to_the_filtered_list() {
    let mut app = App::new(0);
    app.state = AppState::Jobs;
    app.jobs = vec![
        job(1, "warehouse", "queued"),
        job(2, "robot arm", "queued"),
        job(3, "Warehouse Test Job", "queued"),
    ];
    app.search_box.query = "wrhs".to_string();
    // only two jobs are shown, so the selection stops at index 1
    app.on_down();
    assert_eq!(app.selected_job_index, 1);
    app.on_down();
    assert_eq!(app.selected_job_index, 1);
}

use banana::config::{Config, ConfigSetError, DisplayMode};
use banana::error::BananaError;
use banana::handlers::{
    deleted, generation_refused, handle_input_mode, handle_job_detail_input, handle_key,
    handle_main_input, handle_settings_input, help_text, refreshed, status_line, turn, StatusKind,
};
use banana::job::Job;
use banana::params::GenerateParams;
use banana::session::{App, AppMode, Key, SessionAction, SettingsField};

fn jobs(n: usize) -> Vec<Job> {
    (0..n).map(|i| Job::new_generate(GenerateParams::new(&format!("prompt {}", i)))).collect()
}

fn app_with_jobs(n: usize) -> App {
    let mut app = App::new(Config::default());
    app.load_jobs(jobs(n));
    app
}

fn type_text(app: &mut App, text: &str) {
    for c in text.chars() {
        handle_input_mode(app, Key::Char(c));
    }
}

#[test]
fn new_session_starts_in_main_mode() {
    let app = App::new(Config::default());
    assert_eq!(app.mode, AppMode::Main);
    assert_eq!(app.input, "");
    assert_eq!(app.cursor_pos, 0);
    assert!(app.jobs.is_empty());
    assert_eq!(app.selected_job, 0);
    assert!(app.current_job.is_none());
    assert_eq!(app.status_message, None);
    assert_eq!(app.error_message, None);
    assert!(!app.should_quit);
    assert!(!app.config_changed);
    assert_eq!(app.settings_selected, 0);
    assert!(!app.settings_editing);
    assert_eq!(app.settings_edit_buffer, "");
    assert!(!app.generating);
    assert!(app.is_valid());
}

#[test]
fn invalid_states_are_told_apart() {
    let mut app = app_with_jobs(2);
    assert!(app.is_valid());
    app.selected_job = 2;
    assert!(!app.is_valid());
    app.selected_job = 1;
    app.settings_selected = 8;
    assert!(!app.is_valid());
    app.settings_selected = 7;
    app.cursor_pos = 1;
    assert!(!app.is_valid());
    app.input = "é".to_string();
    assert!(app.is_valid());
    app.cursor_pos = 2;
    assert!(!app.is_valid());
}

#[test]
fn settings_fields_are_listed_in_screen_order() {
    assert_eq!(
        SettingsField::all().to_vec(),
        vec![
            SettingsField::Model,
            SettingsField::AspectRatio,
            SettingsField::Size,
            SettingsField::OutputDirectory,
            SettingsField::AutoDownload,
            SettingsField::Display,
            SettingsField::ShowImages,
            SettingsField::Theme,
        ]
    );
}

#[test]
fn settings_fields_have_labels_and_keys() {
    let labels: Vec<&str> = SettingsField::all().iter().map(|f| f.label()).collect();
    assert_eq!(
        labels,
        vec![
            "Model",
            "Aspect Ratio",
            "Size",
            "Output Directory",
            "Auto Download",
            "Display Mode",
            "Show Images in TUI",
            "Theme",
        ]
    );
    let keys: Vec<&str> = SettingsField::all().iter().map(|f| f.config_key()).collect();
    assert_eq!(
        keys,
        vec![
            "api.model",
            "defaults.aspect_ratio",
            "defaults.size",
            "output.directory",
            "output.auto_download",
            "output.display",
            "tui.show_images",
            "tui.theme",
        ]
    );
}

#[test]
fn every_settings_key_is_a_config_key() {
    for field in SettingsField::all() {
        assert!(Config::keys().contains(&field.config_key()));
    }
}

#[test]
fn messages_replace_each_other() {
    let mut app = App::new(Config::default());
    app.set_status("ok");
    assert_eq!(app.status_message.as_deref(), Some("ok"));
    assert_eq!(app.error_message, None);
    app.set_error("bad");
    assert_eq!(app.status_message, None);
    assert_eq!(app.error_message.as_deref(), Some("bad"));
    app.set_status("fine");
    assert_eq!(app.error_message, None);
    app.clear_messages();
    assert_eq!(app.status_message, None);
    assert_eq!(app.error_message, None);
}

#[test]
fn selection_moves_within_the_list() {
    let mut app = app_with_jobs(3);
    app.select_previous();
    assert_eq!(app.selected_job, 0);
    app.select_next();
    assert_eq!(app.selected_job, 1);
    app.select_next();
    assert_eq!(app.selected_job, 2);
    app.select_next();
    assert_eq!(app.selected_job, 2);
    app.select_previous();
    assert_eq!(app.selected_job, 1);
}

#[test]
fn selection_stays_at_zero_in_an_empty_list() {
    let mut app = App::new(Config::default());
    app.select_next();
    assert_eq!(app.selected_job, 0);
    app.select_previous();
    assert_eq!(app.selected_job, 0);
    assert!(app.selected_job().is_none());
    handle_main_input(&mut app, Key::End);
    assert_eq!(app.selected_job, 0);
}

#[test]
fn selected_job_is_the_one_at_the_selection() {
    let mut app = app_with_jobs(3);
    app.select_next();
    let id = app.jobs[1].id.clone();
    assert_eq!(app.selected_job().map(|j| j.id.clone()), Some(id));
}

#[test]
fn shrinking_list_pulls_the_selection_back() {
    let mut app = app_with_jobs(5);
    handle_main_input(&mut app, Key::End);
    assert_eq!(app.selected_job, 4);
    app.load_jobs(jobs(3));
    assert_eq!(app.selected_job, 2);
    app.load_jobs(jobs(3));
    assert_eq!(app.selected_job, 2);
    app.load_jobs(jobs(1));
    assert_eq!(app.selected_job, 0);
    assert!(app.is_valid());
}

#[test]
fn emptied_list_resets_the_selection() {
    let mut app = app_with_jobs(4);
    handle_main_input(&mut app, Key::Down);
    handle_main_input(&mut app, Key::Down);
    assert_eq!(app.selected_job, 2);
    app.load_jobs(Vec::new());
    assert_eq!(app.selected_job, 0);
    assert!(app.is_valid());
}

#[test]
fn growing_list_keeps_the_selection() {
    let mut app = app_with_jobs(2);
    handle_main_input(&mut app, Key::Down);
    app.load_jobs(jobs(6));
    assert_eq!(app.selected_job, 1);
}

#[test]
fn deleting_the_last_job_moves_the_selection_up() {
    let mut app = app_with_jobs(3);
    handle_main_input(&mut app, Key::End);
    let action = handle_main_input(&mut app, Key::Char('d'));
    let id = match action {
        SessionAction::Delete { id } => id,
        other => panic!("expected a delete, got {:?}", other),
    };
    assert_eq!(id, app.jobs[2].id);
    let mut rest = std::mem::take(&mut app.jobs);
    rest.pop();
    app.jobs = jobs(3);
    deleted(&mut app, &id, rest);
    assert_eq!(app.jobs.len(), 2);
    assert_eq!(app.selected_job, 1);
    assert_eq!(app.status_message, Some(format!("Deleted job: {}", id)));
    assert_eq!(app.error_message, None);
}

#[test]
fn deleting_the_only_job_resets_the_selection() {
    let mut app = app_with_jobs(1);
    let action = handle_main_input(&mut app, Key::Char('d'));
    assert!(matches!(action, SessionAction::Delete { .. }));
    deleted(&mut app, "bn_00000000", Vec::new());
    assert_eq!(app.selected_job, 0);
    assert!(app.jobs.is_empty());
    assert_eq!(app.status_message.as_deref(), Some("Deleted job: bn_00000000"));
}

#[test]
fn delete_without_jobs_asks_for_nothing() {
    let mut app = App::new(Config::default());
    assert!(matches!(handle_main_input(&mut app, Key::Char('d')), SessionAction::Nothing));
}

#[test]
fn refresh_asks_for_a_reload_and_reports_it() {
    let mut app = app_with_jobs(2);
    assert!(matches!(handle_main_input(&mut app, Key::Char('r')), SessionAction::Reload));
    assert_eq!(app.status_message, None);
    refreshed(&mut app, jobs(4));
    assert_eq!(app.jobs.len(), 4);
    assert_eq!(app.status_message.as_deref(), Some("Refreshed job list"));
}

#[test]
fn main_mode_navigation_keys() {
    let mut app = app_with_jobs(4);
    handle_main_input(&mut app, Key::Down);
    assert_eq!(app.selected_job, 1);
    handle_main_input(&mut app, Key::Char('j'));
    assert_eq!(app.selected_job, 2);
    handle_main_input(&mut app, Key::Up);
    assert_eq!(app.selected_job, 1);
    handle_main_input(&mut app, Key::Char('k'));
    assert_eq!(app.selected_job, 0);
    handle_main_input(&mut app, Key::End);
    assert_eq!(app.selected_job, 3);
    handle_main_input(&mut app, Key::Home);
    assert_eq!(app.selected_job, 0);
}

#[test]
fn main_mode_opens_the_prompt_and_clears_messages() {
    for key in [Key::Char('i'), Key::Char('/')] {
        let mut app = App::new(Config::default());
        app.set_error("old");
        handle_main_input(&mut app, key);
        assert_eq!(app.mode, AppMode::Input);
        assert_eq!(app.error_message, None);
        assert_eq!(app.status_message, None);
    }
}

#[test]
fn main_mode_opens_the_details_of_the_selected_job() {
    let mut app = app_with_jobs(3);
    handle_main_input(&mut app, Key::Down);
    handle_main_input(&mut app, Key::Enter);
    assert_eq!(app.mode, AppMode::JobDetail);
    assert_eq!(app.current_job.as_ref().map(|j| j.id.clone()), Some(app.jobs[1].id.clone()));
}

#[test]
fn detail_view_is_a_snapshot() {
    let mut app = app_with_jobs(1);
    handle_main_input(&mut app, Key::Enter);
    app.jobs[0].set_failed("later");
    assert_eq!(app.current_job.as_ref().unwrap().status_name(), "queued");
}

#[test]
fn enter_without_jobs_stays_in_main_mode() {
    let mut app = App::new(Config::default());
    handle_main_input(&mut app, Key::Enter);
    assert_eq!(app.mode, AppMode::Main);
    assert!(app.current_job.is_none());
}

#[test]
fn main_mode_opens_settings_at_the_first_field() {
    let mut app = App::new(Config::default());
    app.settings_selected = 5;
    app.settings_editing = true;
    app.settings_edit_buffer = "half".to_string();
    handle_main_input(&mut app, Key::Char('s'));
    assert_eq!(app.mode, AppMode::Settings);
    assert_eq!(app.settings_selected, 0);
    assert!(!app.settings_editing);
    assert_eq!(app.settings_edit_buffer, "");
}

#[test]
fn main_mode_quits_on_q_and_escape() {
    for key in [Key::Char('q'), Key::Esc] {
        let mut app = App::new(Config::default());
        handle_main_input(&mut app, key);
        assert!(app.should_quit);
    }
}

#[test]
fn main_mode_ignores_other_keys() {
    let mut app = app_with_jobs(2);
    for key in [Key::Other, Key::Char('x'), Key::Left, Key::Right, Key::Backspace, Key::Delete] {
        assert!(matches!(handle_main_input(&mut app, key), SessionAction::Nothing));
    }
    assert_eq!(app.mode, AppMode::Main);
    assert_eq!(app.selected_job, 0);
    assert!(!app.should_quit);
}

#[test]
fn typing_builds_the_prompt() {
    let mut app = App::new(Config::default());
    handle_main_input(&mut app, Key::Char('i'));
    type_text(&mut app, "banana");
    assert_eq!(app.input, "banana");
    assert_eq!(app.cursor_pos, 6);
}

#[test]
fn typing_inserts_at_the_cursor() {
    let mut app = App::new(Config::default());
    app.mode = AppMode::Input;
    type_text(&mut app, "bnana");
    handle_input_mode(&mut app, Key::Home);
    handle_input_mode(&mut app, Key::Right);
    handle_input_mode(&mut app, Key::Char('a'));
    assert_eq!(app.input, "banana");
    assert_eq!(app.cursor_pos, 2);
}

#[test]
fn typing_handles_characters_of_several_bytes() {
    let mut app = App::new(Config::default());
    app.mode = AppMode::Input;
    type_text(&mut app, "日本");
    assert_eq!(app.cursor_pos, 2);
    handle_input_mode(&mut app, Key::Left);
    handle_input_mode(&mut app, Key::Char('é'));
    assert_eq!(app.input, "日é本");
    assert_eq!(app.cursor_pos, 2);
    handle_input_mode(&mut app, Key::Backspace);
    assert_eq!(app.input, "日本");
    assert_eq!(app.cursor_pos, 1);
    handle_input_mode(&mut app, Key::Delete);
    assert_eq!(app.input, "日");
    handle_input_mode(&mut app, Key::Backspace);
    assert_eq!(app.input, "");
    assert_eq!(app.cursor_pos, 0);
    assert!(app.is_valid());
}

#[test]
fn backspace_and_delete_at_the_ends_do_nothing() {
    let mut app = App::new(Config::default());
    app.mode = AppMode::Input;
    type_text(&mut app, "ab");
    handle_input_mode(&mut app, Key::Delete);
    assert_eq!(app.input, "ab");
    handle_input_mode(&mut app, Key::Home);
    handle_input_mode(&mut app, Key::Backspace);
    assert_eq!(app.input, "ab");
    assert_eq!(app.cursor_pos, 0);
}

#[test]
fn cursor_stays_within_the_prompt() {
    let mut app = App::new(Config::default());
    app.mode = AppMode::Input;
    type_text(&mut app, "abc");
    handle_input_mode(&mut app, Key::Right);
    assert_eq!(app.cursor_pos, 3);
    handle_input_mode(&mut app, Key::Home);
    handle_input_mode(&mut app, Key::Left);
    assert_eq!(app.cursor_pos, 0);
    handle_input_mode(&mut app, Key::End);
    assert_eq!(app.cursor_pos, 3);
}

#[test]
fn escape_gives_the_prompt_up() {
    let mut app = App::new(Config::default());
    app.mode = AppMode::Input;
    type_text(&mut app, "half a prompt");
    let action = handle_input_mode(&mut app, Key::Esc);
    assert!(matches!(action, SessionAction::Nothing));
    assert_eq!(app.mode, AppMode::Main);
    assert_eq!(app.input, "");
    assert_eq!(app.cursor_pos, 0);
    assert!(!app.generating);
}

#[test]
fn submitting_a_prompt_starts_a_generation_with_the_settings() {
    let mut config = Config::default();
    config.set("defaults.aspect_ratio", "16:9").unwrap();
    config.set("defaults.size", "2K").unwrap();
    config.set("api.model", "gemini-2.5-flash-image").unwrap();
    let mut app = App::new(config);
    app.mode = AppMode::Input;
    type_text(&mut app, "a cosmic banana");
    let action = handle_input_mode(&mut app, Key::Enter);
    let params = match action {
        SessionAction::Generate { params } => params,
        other => panic!("expected a generation, got {:?}", other),
    };
    assert_eq!(params.prompt, "a cosmic banana");
    assert_eq!(params.aspect_ratio, "16:9");
    assert_eq!(params.size, "2K");
    assert_eq!(params.model, "gemini-2.5-flash-image");
    assert_eq!(params.num_images, 1);
    assert!(!params.is_edit());
    assert_eq!(app.mode, AppMode::Main);
    assert_eq!(app.input, "");
    assert_eq!(app.cursor_pos, 0);
    assert!(app.generating);
    assert_eq!(app.status_message.as_deref(), Some("Generating: a cosmic banana..."));
}

#[test]
fn empty_prompt_is_not_submitted() {
    let mut app = App::new(Config::default());
    app.mode = AppMode::Input;
    let action = handle_input_mode(&mut app, Key::Enter);
    assert!(matches!(action, SessionAction::Nothing));
    assert_eq!(app.mode, AppMode::Input);
    assert!(!app.generating);
}

#[test]
fn second_generation_is_rejected_while_one_runs() {
    let mut app = App::new(Config::default());
    app.mode = AppMode::Input;
    app.generating = true;
    type_text(&mut app, "another");
    let action = handle_input_mode(&mut app, Key::Enter);
    assert!(matches!(action, SessionAction::Nothing));
    assert_eq!(app.mode, AppMode::Input);
    assert_eq!(app.input, "another");
    assert_eq!(app.error_message.as_deref(), Some("A generation is already running"));
    assert!(app.generating);
}

#[test]
fn detail_mode_closes_on_escape_q_and_backspace() {
    for key in [Key::Esc, Key::Char('q'), Key::Backspace] {
        let mut app = app_with_jobs(1);
        handle_main_input(&mut app, Key::Enter);
        handle_job_detail_input(&mut app, key);
        assert_eq!(app.mode, AppMode::Main);
        assert!(app.current_job.is_none());
    }
}

#[test]
fn detail_mode_ignores_other_keys() {
    let mut app = app_with_jobs(1);
    handle_main_input(&mut app, Key::Enter);
    for key in [Key::Enter, Key::Up, Key::Char('x'), Key::Other] {
        handle_job_detail_input(&mut app, key);
    }
    assert_eq!(app.mode, AppMode::JobDetail);
    assert!(app.current_job.is_some());
}

#[test]
fn settings_selection_moves_within_the_fields() {
    let mut app = App::new(Config::default());
    app.mode = AppMode::Settings;
    handle_settings_input(&mut app, Key::Up);
    assert_eq!(app.settings_selected, 0);
    for _ in 0..10 {
        handle_settings_input(&mut app, Key::Down);
    }
    assert_eq!(app.settings_selected, 7);
    handle_settings_input(&mut app, Key::Char('k'));
    assert_eq!(app.settings_selected, 6);
    handle_settings_input(&mut app, Key::Char('j'));
    assert_eq!(app.settings_selected, 7);
}

#[test]
fn activating_a_setting_with_options_switches_to_the_next() {
    let mut app = App::new(Config::default());
    app.mode = AppMode::Settings;
    handle_settings_input(&mut app, Key::Down);
    handle_settings_input(&mut app, Key::Enter);
    assert_eq!(app.config.defaults.aspect_ratio, "2:3");
    assert!(app.config_changed);
    assert!(!app.settings_editing);
    assert_eq!(app.status_message.as_deref(), Some("Updated Aspect Ratio"));
    handle_settings_input(&mut app, Key::Char(' '));
    assert_eq!(app.config.defaults.aspect_ratio, "3:2");
}

#[test]
fn options_wrap_around_after_the_last() {
    let mut app = App::new(Config::default());
    assert_eq!(app.cycle_settings_option(&SettingsField::Size), Ok(()));
    assert_eq!(app.config.defaults.size, "2K");
    assert_eq!(app.cycle_settings_option(&SettingsField::Size), Ok(()));
    assert_eq!(app.config.defaults.size, "4K");
    assert_eq!(app.cycle_settings_option(&SettingsField::Size), Ok(()));
    assert_eq!(app.config.defaults.size, "1K");
}

#[test]
fn switches_toggle_between_true_and_false() {
    let mut app = App::new(Config::default());
    app.cycle_settings_option(&SettingsField::AutoDownload).unwrap();
    assert!(!app.config.output.auto_download);
    app.cycle_settings_option(&SettingsField::AutoDownload).unwrap();
    assert!(app.config.output.auto_download);
    app.cycle_settings_option(&SettingsField::ShowImages).unwrap();
    assert!(!app.config.tui.show_images);
}

#[test]
fn display_and_theme_and_model_cycle_through_their_options() {
    let mut app = App::new(Config::default());
    app.cycle_settings_option(&SettingsField::Display).unwrap();
    assert_eq!(app.config.output.display, DisplayMode::Viewer);
    app.cycle_settings_option(&SettingsField::Display).unwrap();
    assert_eq!(app.config.output.display, DisplayMode::Off);
    app.cycle_settings_option(&SettingsField::Display).unwrap();
    assert_eq!(app.config.output.display, DisplayMode::Terminal);
    app.cycle_settings_option(&SettingsField::Theme).unwrap();
    assert_eq!(app.config.tui.theme, "light");
    app.cycle_settings_option(&SettingsField::Theme).unwrap();
    assert_eq!(app.config.tui.theme, "dark");
    app.cycle_settings_option(&SettingsField::Model).unwrap();
    assert_eq!(app.config.api.model, "gemini-2.5-flash-image");
}

#[test]
fn a_value_outside_the_options_cycles_to_the_second_option() {
    let mut config = Config::default();
    config.set("tui.theme", "solarized").unwrap();
    let mut app = App::new(config);
    app.cycle_settings_option(&SettingsField::Theme).unwrap();
    assert_eq!(app.config.tui.theme, "light");
}

#[test]
fn cycling_a_free_text_setting_changes_nothing() {
    let mut app = App::new(Config::default());
    assert_eq!(app.cycle_settings_option(&SettingsField::OutputDirectory), Ok(()));
    assert_eq!(app.config.output.directory, "./banana-output");
    assert!(!app.config_changed);
}

#[test]
fn settings_values_and_options() {
    let app = App::new(Config::default());
    assert_eq!(app.get_settings_value(&SettingsField::Model), "gemini-3-pro-image-preview");
    assert_eq!(app.get_settings_value(&SettingsField::AspectRatio), "1:1");
    assert_eq!(app.get_settings_value(&SettingsField::Size), "1K");
    assert_eq!(app.get_settings_value(&SettingsField::OutputDirectory), "./banana-output");
    assert_eq!(app.get_settings_value(&SettingsField::AutoDownload), "true");
    assert_eq!(app.get_settings_value(&SettingsField::Display), "terminal");
    assert_eq!(app.get_settings_value(&SettingsField::ShowImages), "true");
    assert_eq!(app.get_settings_value(&SettingsField::Theme), "dark");
    assert_eq!(app.get_settings_options(&SettingsField::OutputDirectory), None);
    assert_eq!(app.get_settings_options(&SettingsField::Size), Some(vec!["1K", "2K", "4K"]));
    assert_eq!(app.get_settings_options(&SettingsField::AutoDownload), Some(vec!["true", "false"]));
    assert_eq!(app.get_settings_options(&SettingsField::ShowImages), Some(vec!["true", "false"]));
    assert_eq!(app.get_settings_options(&SettingsField::Theme), Some(vec!["dark", "light"]));
    assert_eq!(
        app.get_settings_options(&SettingsField::Display),
        Some(vec!["terminal", "viewer", "none"])
    );
    assert_eq!(app.get_settings_options(&SettingsField::Model).map(|o| o.len()), Some(3));
    assert_eq!(app.get_settings_options(&SettingsField::AspectRatio).map(|o| o.len()), Some(10));
}

#[test]
fn set_settings_value_marks_the_settings_as_changed() {
    let mut app = App::new(Config::default());
    assert_eq!(
        app.set_settings_value(&SettingsField::Size, "9K"),
        Err(ConfigSetError::InvalidSize)
    );
    assert!(!app.config_changed);
    assert_eq!(app.set_settings_value(&SettingsField::Size, "4K"), Ok(()));
    assert!(app.config_changed);
    assert_eq!(app.config.defaults.size, "4K");
}

#[test]
fn free_text_setting_is_edited_and_applied() {
    let mut app = App::new(Config::default());
    app.mode = AppMode::Settings;
    for _ in 0..3 {
        handle_settings_input(&mut app, Key::Down);
    }
    handle_settings_input(&mut app, Key::Enter);
    assert!(app.settings_editing);
    assert_eq!(app.settings_edit_buffer, "./banana-output");
    assert!(!app.config_changed);
    for _ in 0..7 {
        handle_settings_input(&mut app, Key::Backspace);
    }
    assert_eq!(app.settings_edit_buffer, "./banana");
    handle_settings_input(&mut app, Key::Char('s'));
    assert_eq!(app.settings_edit_buffer, "./bananas");
    assert_eq!(app.config.output.directory, "./banana-output");
    handle_settings_input(&mut app, Key::Enter);
    assert!(!app.settings_editing);
    assert_eq!(app.settings_edit_buffer, "");
    assert_eq!(app.config.output.directory, "./bananas");
    assert!(app.config_changed);
    assert_eq!(app.status_message.as_deref(), Some("Updated Output Directory"));
    assert_eq!(app.mode, AppMode::Settings);
}

#[test]
fn cancelled_edit_discards_the_text() {
    let mut app = App::new(Config::default());
    app.mode = AppMode::Settings;
    app.settings_selected = 3;
    handle_settings_input(&mut app, Key::Enter);
    handle_settings_input(&mut app, Key::Char('x'));
    handle_settings_input(&mut app, Key::Esc);
    assert!(!app.settings_editing);
    assert_eq!(app.settings_edit_buffer, "");
    assert_eq!(app.config.output.directory, "./banana-output");
    assert!(!app.config_changed);
    assert_eq!(app.mode, AppMode::Settings);
}

#[test]
fn rejected_edit_stays_open_and_shows_the_error() {
    let mut app = App::new(Config::default());
    app.mode = AppMode::Settings;
    app.settings_selected = 2;
    app.settings_editing = true;
    app.settings_edit_buffer = "9K".to_string();
    handle_settings_input(&mut app, Key::Enter);
    assert!(app.settings_editing);
    assert_eq!(app.settings_edit_buffer, "9K");
    assert_eq!(app.config.defaults.size, "1K");
    assert!(!app.config_changed);
    assert_eq!(app.error_message.as_deref(), Some("Invalid size. Valid values: 1K, 2K, 4K"));
    assert_eq!(app.status_message, None);
}

#[test]
fn backspace_on_an_empty_edit_does_nothing() {
    let mut app = App::new(Config::default());
    app.mode = AppMode::Settings;
    app.settings_editing = true;
    handle_settings_input(&mut app, Key::Backspace);
    assert_eq!(app.settings_edit_buffer, "");
    assert!(app.settings_editing);
}

#[test]
fn q_is_text_while_a_setting_is_edited() {
    let mut app = App::new(Config::default());
    app.mode = AppMode::Settings;
    app.settings_selected = 3;
    app.settings_editing = true;
    handle_key(&mut app, Key::Char('q'), false);
    assert_eq!(app.settings_edit_buffer, "q");
    assert!(!app.should_quit);
    assert_eq!(app.mode, AppMode::Settings);
}

#[test]
fn settings_close_only_while_browsing() {
    let mut app = App::new(Config::default());
    app.mode = AppMode::Settings;
    app.set_status("old");
    handle_settings_input(&mut app, Key::Esc);
    assert_eq!(app.mode, AppMode::Main);
    assert_eq!(app.status_message, None);
    let mut app = App::new(Config::default());
    app.mode = AppMode::Settings;
    handle_key(&mut app, Key::Char('q'), false);
    assert_eq!(app.mode, AppMode::Main);
    assert!(!app.should_quit);
}

#[test]
fn control_c_quits_in_every_mode() {
    for mode in [AppMode::Main, AppMode::Input, AppMode::JobDetail, AppMode::Settings] {
        let mut app = app_with_jobs(1);
        app.mode = mode;
        let action = handle_key(&mut app, Key::Char('c'), true);
        assert!(matches!(action, SessionAction::Nothing));
        assert!(app.should_quit);
        assert_eq!(app.input, "");
    }
}

#[test]
fn q_quits_outside_prompt_and_settings() {
    for mode in [AppMode::Main, AppMode::JobDetail] {
        let mut app = app_with_jobs(1);
        app.mode = mode;
        handle_key(&mut app, Key::Char('q'), false);
        assert!(app.should_quit);
    }
    let mut app = App::new(Config::default());
    app.mode = AppMode::Input;
    handle_key(&mut app, Key::Char('q'), false);
    assert!(!app.should_quit);
    assert_eq!(app.input, "q");
}

#[test]
fn plain_c_is_an_ordinary_key() {
    let mut app = App::new(Config::default());
    app.mode = AppMode::Input;
    handle_key(&mut app, Key::Char('c'), false);
    assert_eq!(app.input, "c");
    assert!(!app.should_quit);
}

#[test]
fn keys_go_to_the_handler_of_the_mode() {
    let mut app = app_with_jobs(2);
    handle_key(&mut app, Key::Down, false);
    assert_eq!(app.selected_job, 1);
    handle_key(&mut app, Key::Enter, false);
    assert_eq!(app.mode, AppMode::JobDetail);
    handle_key(&mut app, Key::Esc, false);
    assert_eq!(app.mode, AppMode::Main);
    handle_key(&mut app, Key::Char('s'), false);
    assert_eq!(app.mode, AppMode::Settings);
    handle_key(&mut app, Key::Down, false);
    assert_eq!(app.settings_selected, 1);
    assert_eq!(app.selected_job, 1);
    handle_key(&mut app, Key::Esc, false);
    handle_key(&mut app, Key::Char('i'), false);
    assert_eq!(app.mode, AppMode::Input);
    assert!(matches!(handle_key(&mut app, Key::Char('r'), false), SessionAction::Nothing));
    assert_eq!(app.input, "r");
}

#[test]
fn status_line_prefers_errors_then_status_then_activity() {
    let mut app = App::new(Config::default());
    assert_eq!(status_line(&app), (StatusKind::Ready, "Ready".to_string()));
    app.generating = true;
    assert_eq!(status_line(&app), (StatusKind::Busy, "Generating...".to_string()));
    app.status_message = Some("done".to_string());
    assert_eq!(status_line(&app), (StatusKind::Status, "done".to_string()));
    app.error_message = Some("bad".to_string());
    assert_eq!(status_line(&app), (StatusKind::Error, "bad".to_string()));
}

#[test]
fn help_text_depends_on_the_mode() {
    assert_eq!(help_text(AppMode::Input), "Enter: Generate | Esc: Cancel");
    assert_eq!(
        help_text(AppMode::Main),
        "i: New prompt | Enter: View | s: Settings | d: Delete | r: Refresh | q: Quit"
    );
    assert_eq!(help_text(AppMode::JobDetail), "");
    assert_eq!(help_text(AppMode::Settings), "");
}

#[test]
fn turn_without_a_key_changes_nothing() {
    let mut app = app_with_jobs(2);
    let (action, go_on) = turn(&mut app, None);
    assert!(matches!(action, SessionAction::Nothing));
    assert!(go_on);
    assert_eq!(app.mode, AppMode::Main);
    assert_eq!(app.selected_job, 0);
}

#[test]
fn turn_handles_the_key_and_goes_on() {
    let mut app = app_with_jobs(2);
    let (action, go_on) = turn(&mut app, Some((Key::Down, false)));
    assert!(matches!(action, SessionAction::Nothing));
    assert!(go_on);
    assert_eq!(app.selected_job, 1);
    let (action, go_on) = turn(&mut app, Some((Key::Char('r'), false)));
    assert!(matches!(action, SessionAction::Reload));
    assert!(go_on);
}

#[test]
fn turn_ends_the_loop_on_a_quit_key() {
    let mut app = app_with_jobs(1);
    let (_, go_on) = turn(&mut app, Some((Key::Char('q'), false)));
    assert!(!go_on);
    let mut app = App::new(Config::default());
    app.mode = AppMode::Input;
    let (_, go_on) = turn(&mut app, Some((Key::Char('q'), false)));
    assert!(go_on);
    let (_, go_on) = turn(&mut app, Some((Key::Char('c'), true)));
    assert!(!go_on);
    let (_, go_on) = turn(&mut app, None);
    assert!(!go_on);
}

#[test]
fn refused_generation_shows_the_error_and_frees_the_session() {
    let mut app = app_with_jobs(2);
    app.mode = AppMode::Input;
    type_text(&mut app, "a prompt");
    assert!(matches!(handle_input_mode(&mut app, Key::Enter), SessionAction::Generate { .. }));
    assert!(app.generating);
    generation_refused(&mut app, &BananaError::MissingApiKey);
    assert!(!app.generating);
    assert_eq!(
        app.error_message.as_deref(),
        Some("API key not configured. Set GEMINI_API_KEY environment variable or run: banana config set api.key <your-key>")
    );
    assert_eq!(app.status_message, None);
    assert_eq!(app.mode, AppMode::Main);
    assert_eq!(app.jobs.len(), 2);
    assert!(app.is_valid());
}

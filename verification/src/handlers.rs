//! What each key does in each mode of the session.

use crate::error::{BananaError, BananaErrorView};
use crate::job::{Job, JobView};
use crate::pipeline::{Pipeline, PipelineView};
use crate::session::{
    App, AppMode, AppView, Key, SETTINGS_COUNT, SessionAction, SessionActionView, SettingsField,
    clamped_selection, field_label, jobs_view,
};
use crate::text::{decimal, decimal_string, insert_char, remove_char};
use vstd::prelude::*;
use vstd::string::StrSliceExecFns;
use vstd::string::StringExecFns;

verus! {

/// Whether two keys are the same.
fn same_key(a: Key, b: Key) -> (r: bool)
    ensures
        r == (a == b),
{
    a == b
}

/// The message that a setting was changed.
fn updated_message(field: SettingsField) -> (r: String)
    ensures
        r@ == "Updated "@ + field_label(field),
{
    let mut message = String::from_str("Updated ");
    message.append(field.label());
    message
}

/// Handles a key in main mode: moves the selection, opens the prompt, the
/// details of the selected job or the settings, asks for the list to be
/// reloaded or for the selected job to be deleted, or ends the session.
pub fn handle_main_input(app: &mut App, key: Key) -> (action: SessionAction)
    requires
        old(app)@.wf(),
    ensures
        (final(app)@, action@) == old(app)@.main_step(key),
        final(app)@.wf(),
{
    if same_key(key, Key::Up) || same_key(key, Key::Char('k')) {
        app.select_previous();
    } else if same_key(key, Key::Down) || same_key(key, Key::Char('j')) {
        app.select_next();
    } else if same_key(key, Key::Home) {
        app.selected_job = 0;
    } else if same_key(key, Key::End) {
        if app.jobs.len() > 0 {
            app.selected_job = app.jobs.len() - 1;
        } else {
            app.selected_job = 0;
        }
    } else if same_key(key, Key::Char('i')) || same_key(key, Key::Char('/')) {
        app.mode = AppMode::Input;
        app.clear_messages();
    } else if same_key(key, Key::Enter) {
        if app.selected_job < app.jobs.len() {
            let job = app.jobs[app.selected_job].clone();
            app.current_job = Some(job);
            app.mode = AppMode::JobDetail;
        }
    } else if same_key(key, Key::Char('s')) {
        app.mode = AppMode::Settings;
        app.settings_selected = 0;
        app.settings_editing = false;
        app.settings_edit_buffer = String::new();
    } else if same_key(key, Key::Char('r')) {
        return SessionAction::Reload;
    } else if same_key(key, Key::Char('d')) {
        if app.selected_job < app.jobs.len() {
            let id = app.jobs[app.selected_job].id.clone();
            return SessionAction::Delete { id };
        }
    } else if same_key(key, Key::Char('q')) || same_key(key, Key::Esc) {
        app.should_quit = true;
    }
    SessionAction::Nothing
}

/// Handles a key while a prompt is typed: edits the prompt, moves the
/// cursor, gives the prompt up, or submits it. A submitted prompt starts a
/// generation, unless one is running: then the prompt stays and an error
/// message says so. An empty prompt is not submitted.
pub fn handle_input_mode(app: &mut App, key: Key) -> (action: SessionAction)
    requires
        old(app)@.wf(),
    ensures
        (final(app)@, action@) == old(app)@.input_step(key),
        final(app)@.wf(),
{
    let len = app.input.as_str().unicode_len();
    match key {
        Key::Esc => {
            app.mode = AppMode::Main;
            app.input = String::new();
            app.cursor_pos = 0;
        },
        Key::Enter => {
            if len > 0 {
                if app.generating {
                    app.set_error("A generation is already running");
                } else {
                    let params = app.generation_params(app.input.as_str());
                    let mut message = String::from_str("Generating: ");
                    message.append(app.input.as_str());
                    message.append("...");
                    app.input = String::new();
                    app.cursor_pos = 0;
                    app.mode = AppMode::Main;
                    app.set_status(message.as_str());
                    app.generating = true;
                    return SessionAction::Generate { params };
                }
            }
        },
        Key::Char(c) => {
            if len < usize::MAX {
                app.input = insert_char(app.input.as_str(), app.cursor_pos, c);
                app.cursor_pos = app.cursor_pos + 1;
            }
        },
        Key::Backspace => {
            if app.cursor_pos > 0 {
                app.cursor_pos = app.cursor_pos - 1;
                app.input = remove_char(app.input.as_str(), app.cursor_pos);
            }
        },
        Key::Delete => {
            if app.cursor_pos < len {
                app.input = remove_char(app.input.as_str(), app.cursor_pos);
            }
        },
        Key::Left => {
            if app.cursor_pos > 0 {
                app.cursor_pos = app.cursor_pos - 1;
            }
        },
        Key::Right => {
            if app.cursor_pos < len {
                app.cursor_pos = app.cursor_pos + 1;
            }
        },
        Key::Home => {
            app.cursor_pos = 0;
        },
        Key::End => {
            app.cursor_pos = len;
        },
        _ => {},
    }
    SessionAction::Nothing
}

/// Handles a key while the details of a job are shown: escape, `q` and
/// backspace lead back to the main view.
pub fn handle_job_detail_input(app: &mut App, key: Key)
    requires
        old(app)@.wf(),
    ensures
        final(app)@ == old(app)@.detail_step(key),
        final(app)@.wf(),
{
    if same_key(key, Key::Esc) || same_key(key, Key::Char('q')) || same_key(key, Key::Backspace) {
        app.mode = AppMode::Main;
        app.current_job = None;
    }
}

/// Handles a key on the settings screen. While no setting is edited, keys
/// move the selection, switch a setting with options to its next option,
/// open a free-text setting for editing, or lead back to the main view.
/// While a setting is edited, keys change the text, give it up, or submit
/// it: a text that the setting takes ends the editing, any other leaves
/// the text open and shows the error.
pub fn handle_settings_input(app: &mut App, key: Key)
    requires
        old(app)@.wf(),
    ensures
        final(app)@ == old(app)@.settings_step(key),
        final(app)@.wf(),
{
    let fields = SettingsField::all();
    let field = fields[app.settings_selected];
    if app.settings_editing {
        match key {
            Key::Esc => {
                app.settings_editing = false;
                app.settings_edit_buffer = String::new();
            },
            Key::Enter => {
                let value = app.settings_edit_buffer.clone();
                match app.set_settings_value(&field, value.as_str()) {
                    Ok(()) => {
                        let message = updated_message(field);
                        app.set_status(message.as_str());
                        app.settings_editing = false;
                        app.settings_edit_buffer = String::new();
                    },
                    Err(e) => {
                        let message = e.to_string();
                        app.set_error(message.as_str());
                    },
                }
            },
            Key::Char(c) => {
                app.settings_edit_buffer.push(c);
            },
            Key::Backspace => {
                let len = app.settings_edit_buffer.as_str().unicode_len();
                if len > 0 {
                    app.settings_edit_buffer = remove_char(
                        app.settings_edit_buffer.as_str(),
                        len - 1,
                    );
                    assert(app.settings_edit_buffer@ =~= old(app).settings_edit_buffer@.drop_last());
                }
            },
            _ => {},
        }
    } else {
        if same_key(key, Key::Up) || same_key(key, Key::Char('k')) {
            if app.settings_selected > 0 {
                app.settings_selected = app.settings_selected - 1;
            }
        } else if same_key(key, Key::Down) || same_key(key, Key::Char('j')) {
            if app.settings_selected < SETTINGS_COUNT - 1 {
                app.settings_selected = app.settings_selected + 1;
            }
        } else if same_key(key, Key::Enter) || same_key(key, Key::Char(' ')) {
            if app.get_settings_options(&field).is_some() {
                match app.cycle_settings_option(&field) {
                    Ok(()) => {
                        let message = updated_message(field);
                        app.set_status(message.as_str());
                    },
                    Err(e) => {
                        let message = e.to_string();
                        app.set_error(message.as_str());
                    },
                }
            } else {
                app.settings_edit_buffer = app.get_settings_value(&field);
                app.settings_editing = true;
            }
        } else if same_key(key, Key::Esc) || same_key(key, Key::Char('q')) {
            app.mode = AppMode::Main;
            app.clear_messages();
        }
    }
}

/// Handles a key press. `c` with the control key ends the session in every
/// mode, `q` outside the prompt and the settings; any other key goes to the
/// handler of the current mode.
pub fn handle_key(app: &mut App, key: Key, control: bool) -> (action: SessionAction)
    requires
        old(app)@.wf(),
    ensures
        (final(app)@, action@) == old(app)@.key_step(key, control),
        final(app)@.wf(),
{
    let in_text = match app.mode {
        AppMode::Input => true,
        AppMode::Settings => true,
        _ => false,
    };
    if (same_key(key, Key::Char('c')) && control) || (same_key(key, Key::Char('q')) && !in_text) {
        app.should_quit = true;
        return SessionAction::Nothing;
    }
    match app.mode {
        AppMode::Main => handle_main_input(app, key),
        AppMode::Input => handle_input_mode(app, key),
        AppMode::JobDetail => {
            handle_job_detail_input(app, key);
            SessionAction::Nothing
        },
        AppMode::Settings => {
            handle_settings_input(app, key);
            SessionAction::Nothing
        },
    }
}

/// One turn of the session's loop after the screen was drawn: the key that
/// arrived within the waiting time, if one did, is handled; then the loop
/// goes on unless the session is to end. The result is the session, the
/// work left to the caller, and whether the loop goes on.
pub open spec fn turn_of(app: AppView, pressed: Option<(Key, bool)>) -> (
    AppView,
    SessionActionView,
    bool,
) {
    match pressed {
        Some((key, control)) => {
            let (next, action) = app.key_step(key, control);
            (next, action, !next.should_quit)
        },
        None => (app, SessionActionView::Nothing, !app.should_quit),
    }
}

/// Takes one turn of the session's loop. `pressed` is the key that arrived
/// within the waiting time, with whether the control key was held. The
/// result is the work left to the caller, and whether the loop goes on.
pub fn turn(app: &mut App, pressed: Option<(Key, bool)>) -> (r: (SessionAction, bool))
    requires
        old(app)@.wf(),
    ensures
        (final(app)@, r.0@, r.1) == turn_of(old(app)@, pressed),
        final(app)@.wf(),
{
    let action = match pressed {
        Some((key, control)) => handle_key(app, key, control),
        None => SessionAction::Nothing,
    };
    (action, !app.should_quit)
}

/// Takes over the job list after a reload that the user asked for.
pub fn refreshed(app: &mut App, jobs: Vec<Job>)
    requires
        old(app)@.wf(),
    ensures
        final(app)@ == old(app)@.with_jobs(jobs_view(jobs@)).with_status("Refreshed job list"@),
        final(app)@.wf(),
{
    app.load_jobs(jobs);
    app.set_status("Refreshed job list");
}

/// Takes over the job list after the job `id` was deleted. The selection
/// stays within the list and is zero where the list is empty.
pub fn deleted(app: &mut App, id: &str, jobs: Vec<Job>)
    requires
        old(app)@.wf(),
    ensures
        final(app)@ == old(app)@.with_jobs(jobs_view(jobs@)).with_status("Deleted job: "@ + id@),
        final(app)@.wf(),
        jobs@.len() == 0 ==> final(app)@.selected_job == 0,
        jobs@.len() > 0 ==> final(app)@.selected_job < jobs@.len(),
{
    app.load_jobs(jobs);
    let mut message = String::from_str("Deleted job: ");
    message.append(id);
    app.set_status(message.as_str());
}

/// The message that tells how a generation ended: the error where the run
/// failed; else, where images were to be saved, the first reason why one
/// was not, or how many were saved and where the first went; else how many
/// images the job holds. An error is on the right.
pub open spec fn generation_message(run: PipelineView) -> Result<Seq<char>, Seq<char>> {
    match run.failure {
        Some(e) => Err(e.text()),
        None => if run.download {
            if run.download_errors.len() > 0 {
                Err("Download failed: "@ + run.download_errors[0].text())
            } else {
                Ok(
                    "Generated "@ + decimal(run.saved.len()) + " image(s): "@ + (if run.saved.len()
                        > 0 {
                        run.saved[0]
                    } else {
                        Seq::empty()
                    }),
                )
            }
        } else {
            Ok("Generated "@ + decimal(run.job.images.len()) + " image(s)"@)
        },
    }
}

/// The session once a generation has ended and the job list was read
/// again: the message tells how it ended, and no generation is running.
pub open spec fn after_generation(app: AppView, run: PipelineView, jobs: Seq<JobView>) -> AppView {
    let told = match generation_message(run) {
        Ok(message) => app.with_status(message),
        Err(message) => app.with_error(message),
    };
    AppView { generating: false, ..told.with_jobs(jobs) }
}

/// Takes over the result of a generation and the job list read after it.
/// The session shows how the run ended and is free for the next one.
pub fn generation_finished(app: &mut App, run: &Pipeline, jobs: Vec<Job>)
    requires
        old(app)@.wf(),
    ensures
        final(app)@ == after_generation(old(app)@, run@, jobs_view(jobs@)),
        final(app)@.wf(),
        !final(app)@.generating,
{
    match &run.failure {
        Some(e) => {
            let message = e.to_string();
            app.set_error(message.as_str());
        },
        None => {
            if run.download {
                if run.download_errors.len() > 0 {
                    let mut message = String::from_str("Download failed: ");
                    let reason = run.download_errors[0].to_string();
                    message.append(reason.as_str());
                    app.set_error(message.as_str());
                } else {
                    let mut message = String::from_str("Generated ");
                    let count = decimal_string(run.saved.len());
                    message.append(count.as_str());
                    message.append(" image(s): ");
                    if run.saved.len() > 0 {
                        message.append(run.saved[0].as_str());
                    }
                    assert(message@ =~= generation_message(run@)->Ok_0);
                    app.set_status(message.as_str());
                }
            } else {
                let mut message = String::from_str("Generated ");
                let count = decimal_string(run.job.images.len());
                message.append(count.as_str());
                message.append(" image(s)");
                assert(run.job.images@.len() == run@.job.images.len());
                app.set_status(message.as_str());
            }
        },
    }
    app.load_jobs(jobs);
    app.generating = false;
}

/// The session when a generation that it asked for could not be started:
/// the error is shown, and no generation is running.
pub open spec fn after_refusal(app: AppView, error: BananaErrorView) -> AppView {
    AppView { generating: false, ..app.with_error(error.text()) }
}

/// Takes over the error with which a generation could not be started, such
/// as a missing API key. The session shows the error and is free for the
/// next generation; nothing else changes.
pub fn generation_refused(app: &mut App, error: &BananaError)
    ensures
        final(app)@ == after_refusal(old(app)@, error@),
        old(app)@.wf() ==> final(app)@.wf(),
        !final(app)@.generating,
{
    let message = error.to_string();
    app.set_error(message.as_str());
    app.generating = false;
}

/// What the status line shows and how.
#[derive(Clone, Copy, Debug, PartialEq, Eq, Structural)]
pub enum StatusKind {
    /// An error message.
    Error,
    /// A status message.
    Status,
    /// A generation is running.
    Busy,
    /// Nothing to report.
    Ready,
}

/// The kind and text of the status line: an error before a status, a
/// status before the note that a generation runs, else `Ready`.
pub open spec fn status_line_of(app: AppView) -> (StatusKind, Seq<char>) {
    match app.error_message {
        Some(message) => (StatusKind::Error, message),
        None => match app.status_message {
            Some(message) => (StatusKind::Status, message),
            None => if app.generating {
                (StatusKind::Busy, "Generating..."@)
            } else {
                (StatusKind::Ready, "Ready"@)
            },
        },
    }
}

/// The kind and text of the status line.
pub fn status_line(app: &App) -> (r: (StatusKind, String))
    ensures
        (r.0, r.1@) == status_line_of(app@),
{
    match &app.error_message {
        Some(message) => (StatusKind::Error, message.clone()),
        None => match &app.status_message {
            Some(message) => (StatusKind::Status, message.clone()),
            None => if app.generating {
                (StatusKind::Busy, String::from_str("Generating..."))
            } else {
                (StatusKind::Ready, String::from_str("Ready"))
            },
        },
    }
}

/// The help line of a mode of the main screen.
pub open spec fn help_of(mode: AppMode) -> Seq<char> {
    match mode {
        AppMode::Input => "Enter: Generate | Esc: Cancel"@,
        AppMode::Main =>
            "i: New prompt | Enter: View | s: Settings | d: Delete | r: Refresh | q: Quit"@,
        _ => ""@,
    }
}

/// The help line of a mode of the main screen.
pub fn help_text(mode: AppMode) -> (r: &'static str)
    ensures
        r@ == help_of(mode),
{
    match mode {
        AppMode::Input => "Enter: Generate | Esc: Cancel",
        AppMode::Main =>
            "i: New prompt | Enter: View | s: Settings | d: Delete | r: Refresh | q: Quit",
        _ => "",
    }
}

/// Whatever list takes the place of the job list, the selection then lies
/// within it, and is zero where the list is empty.
pub proof fn lemma_selection_stays_in_list(app: AppView, jobs: Seq<JobView>)
    ensures
        jobs.len() == 0 ==> app.with_jobs(jobs).selected_job == 0,
        jobs.len() > 0 ==> app.with_jobs(jobs).selected_job < jobs.len(),
        app.with_jobs(jobs).selected_job == clamped_selection(
            app.with_jobs(jobs).selected_job,
            jobs.len(),
        ),
{
}

/// No key takes a session out of the states it can be in.
pub proof fn lemma_keys_keep_the_session_sound(app: AppView, key: Key, control: bool)
    requires
        app.wf(),
    ensures
        app.key_step(key, control).0.wf(),
{
}

/// While a generation runs, no key starts another.
pub proof fn lemma_one_generation_at_a_time(app: AppView, key: Key, control: bool)
    requires
        app.generating,
    ensures
        !(app.key_step(key, control).1 is Generate),
        app.key_step(key, control).0.generating,
{
}

/// A key that starts a generation marks the session as busy and leads back
/// to the main view.
pub proof fn lemma_generation_marks_busy(app: AppView, key: Key, control: bool)
    requires
        app.key_step(key, control).1 is Generate,
    ensures
        app.mode == AppMode::Input,
        !app.generating,
        app.input.len() > 0,
        app.key_step(key, control).0.generating,
        app.key_step(key, control).0.mode == AppMode::Main,
{
}

/// The settings are left only while no setting is edited: a key pressed
/// during an edit never leads out of the settings.
pub proof fn lemma_editing_stays_in_settings(app: AppView, key: Key, control: bool)
    requires
        app.mode == AppMode::Settings,
        app.settings_editing,
    ensures
        app.key_step(key, control).0.mode == AppMode::Settings,
{
}

/// The settings change only on the settings screen.
pub proof fn lemma_settings_change_in_settings_only(app: AppView, key: Key, control: bool)
    requires
        app.mode != AppMode::Settings,
    ensures
        app.key_step(key, control).0.config == app.config,
        app.key_step(key, control).0.config_changed == app.config_changed,
{
}

/// The loop ends with the turn in which a key asks for the end, and with
/// every turn after the session was marked to end.
pub proof fn lemma_loop_ends_on_quit(app: AppView, pressed: Option<(Key, bool)>)
    ensures
        app.should_quit ==> !turn_of(app, pressed).2,
        pressed matches Some((key, control)) && app.quits(key, control) ==> !turn_of(
            app,
            pressed,
        ).2,
        turn_of(app, pressed).2 == !turn_of(app, pressed).0.should_quit,
{
}

} // verus!

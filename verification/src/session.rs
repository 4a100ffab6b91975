//! The state of the interactive session and what each key does to it.
//!
//! The session is in one of four modes. A key changes the state and may ask
//! the caller for work that the session cannot do itself: to reload the job
//! list, to delete a job, or to run a generation. The caller does the work
//! and reports back through the methods that take its result.

use crate::config::{
    Config, ConfigSetError, ConfigSetErrorView, ConfigView, DisplayMode, display_mode_name,
};
use crate::job::{Job, JobView};
use crate::params::{GenerateParams, GenerateParamsView};
use crate::text::{bool_string, bool_text, opt_view, str_eq, with_char_at, without_char_at};
use vstd::prelude::*;
use vstd::slice::slice_to_vec;
use vstd::string::StrSliceExecFns;
use vstd::string::StringExecFns;

verus! {

/// How many jobs the session lists at most.
pub const JOB_LIST_LIMIT: u32 = 50;

/// How many settings the settings screen shows.
pub const SETTINGS_COUNT: usize = 8;

/// Mode of the session.
#[derive(Clone, Copy, Debug, PartialEq, Eq, Structural)]
pub enum AppMode {
    /// Main view with the job list.
    Main,
    /// Text input for a prompt.
    Input,
    /// Details of one job.
    JobDetail,
    /// Settings screen.
    Settings,
}

/// A setting that the settings screen shows.
#[derive(Clone, Copy, Debug, PartialEq, Eq, Structural)]
pub enum SettingsField {
    Model,
    AspectRatio,
    Size,
    OutputDirectory,
    AutoDownload,
    Display,
    ShowImages,
    Theme,
}

/// A key press, as far as the session tells keys apart.
#[derive(Clone, Copy, Debug, PartialEq, Eq, Structural)]
pub enum Key {
    Up,
    Down,
    Left,
    Right,
    Home,
    End,
    Enter,
    Esc,
    Backspace,
    Delete,
    /// A key that types a character.
    Char(char),
    /// Any other key.
    Other,
}

/// The settings in the order in which the screen shows them.
pub open spec fn all_fields() -> Seq<SettingsField> {
    seq![
        SettingsField::Model,
        SettingsField::AspectRatio,
        SettingsField::Size,
        SettingsField::OutputDirectory,
        SettingsField::AutoDownload,
        SettingsField::Display,
        SettingsField::ShowImages,
        SettingsField::Theme,
    ]
}

/// The label of a setting.
pub open spec fn field_label(field: SettingsField) -> Seq<char> {
    match field {
        SettingsField::Model => "Model"@,
        SettingsField::AspectRatio => "Aspect Ratio"@,
        SettingsField::Size => "Size"@,
        SettingsField::OutputDirectory => "Output Directory"@,
        SettingsField::AutoDownload => "Auto Download"@,
        SettingsField::Display => "Display Mode"@,
        SettingsField::ShowImages => "Show Images in TUI"@,
        SettingsField::Theme => "Theme"@,
    }
}

/// The key under which a setting is stored.
pub open spec fn field_key(field: SettingsField) -> Seq<char> {
    match field {
        SettingsField::Model => "api.model"@,
        SettingsField::AspectRatio => "defaults.aspect_ratio"@,
        SettingsField::Size => "defaults.size"@,
        SettingsField::OutputDirectory => "output.directory"@,
        SettingsField::AutoDownload => "output.auto_download"@,
        SettingsField::Display => "output.display"@,
        SettingsField::ShowImages => "tui.show_images"@,
        SettingsField::Theme => "tui.theme"@,
    }
}

/// The value of a setting as text.
pub open spec fn field_value(config: ConfigView, field: SettingsField) -> Seq<char> {
    match field {
        SettingsField::Model => config.api.model,
        SettingsField::AspectRatio => config.defaults.aspect_ratio,
        SettingsField::Size => config.defaults.size,
        SettingsField::OutputDirectory => config.output.directory,
        SettingsField::AutoDownload => bool_text(config.output.auto_download),
        SettingsField::Display => display_mode_name(config.output.display),
        SettingsField::ShowImages => bool_text(config.tui.show_images),
        SettingsField::Theme => config.tui.theme,
    }
}

/// The values a setting can be switched through; none for a setting that
/// takes free text.
pub open spec fn field_options(field: SettingsField) -> Option<Seq<Seq<char>>> {
    match field {
        SettingsField::Model => Some(
            seq!["gemini-3-pro-image-preview"@, "gemini-2.5-flash-image"@, "imagen-4.0-generate-001"@],
        ),
        SettingsField::AspectRatio => Some(
            seq![
                "1:1"@,
                "2:3"@,
                "3:2"@,
                "3:4"@,
                "4:3"@,
                "4:5"@,
                "5:4"@,
                "9:16"@,
                "16:9"@,
                "21:9"@,
            ],
        ),
        SettingsField::Size => Some(seq!["1K"@, "2K"@, "4K"@]),
        SettingsField::OutputDirectory => None,
        SettingsField::AutoDownload => Some(seq!["true"@, "false"@]),
        SettingsField::Display => Some(seq!["terminal"@, "viewer"@, "none"@]),
        SettingsField::ShowImages => Some(seq!["true"@, "false"@]),
        SettingsField::Theme => Some(seq!["dark"@, "light"@]),
    }
}

/// The position of the first of the first `n` options that equals `value`.
pub open spec fn position_in(options: Seq<Seq<char>>, value: Seq<char>, n: nat) -> Option<int>
    decreases n,
{
    if n == 0 {
        None
    } else {
        match position_in(options, value, (n - 1) as nat) {
            Some(i) => Some(i),
            None => if options[n - 1] == value {
                Some(n - 1)
            } else {
                None
            },
        }
    }
}

/// The option that follows `current`, the first following the last; the
/// second option where `current` is none of them.
pub open spec fn option_after(options: Seq<Seq<char>>, current: Seq<char>) -> Seq<char>
    recommends
        options.len() > 0,
{
    let at = match position_in(options, current, options.len()) {
        Some(i) => i,
        None => 0,
    };
    options[(at + 1) % (options.len() as int)]
}

impl SettingsField {
    /// The settings in the order in which the screen shows them.
    pub fn all() -> (r: &'static [SettingsField])
        ensures
            r@ == all_fields(),
    {
        let fields: &'static [SettingsField] = &[
            SettingsField::Model,
            SettingsField::AspectRatio,
            SettingsField::Size,
            SettingsField::OutputDirectory,
            SettingsField::AutoDownload,
            SettingsField::Display,
            SettingsField::ShowImages,
            SettingsField::Theme,
        ];
        assert(fields@ =~= all_fields());
        fields
    }

    /// The label of the setting.
    pub fn label(&self) -> (r: &'static str)
        ensures
            r@ == field_label(*self),
    {
        match self {
            SettingsField::Model => "Model",
            SettingsField::AspectRatio => "Aspect Ratio",
            SettingsField::Size => "Size",
            SettingsField::OutputDirectory => "Output Directory",
            SettingsField::AutoDownload => "Auto Download",
            SettingsField::Display => "Display Mode",
            SettingsField::ShowImages => "Show Images in TUI",
            SettingsField::Theme => "Theme",
        }
    }

    /// The key under which the setting is stored.
    pub fn config_key(&self) -> (r: &'static str)
        ensures
            r@ == field_key(*self),
    {
        match self {
            SettingsField::Model => "api.model",
            SettingsField::AspectRatio => "defaults.aspect_ratio",
            SettingsField::Size => "defaults.size",
            SettingsField::OutputDirectory => "output.directory",
            SettingsField::AutoDownload => "output.auto_download",
            SettingsField::Display => "output.display",
            SettingsField::ShowImages => "tui.show_images",
            SettingsField::Theme => "tui.theme",
        }
    }
}

/// The work a key press leaves to the caller.
#[derive(Debug)]
pub enum SessionAction {
    /// Nothing is left to do.
    Nothing,
    /// Read the job list from the store and hand it to `App::refreshed`.
    Reload,
    /// Delete the job `id` from the store, read the job list and hand both
    /// to `App::deleted`.
    Delete { id: String },
    /// Run a generation with `params` and hand its result to
    /// `App::generation_finished`.
    Generate { params: GenerateParams },
}

/// The mathematical value of a `SessionAction`.
pub enum SessionActionView {
    Nothing,
    Reload,
    Delete { id: Seq<char> },
    Generate { params: GenerateParamsView },
}

impl View for SessionAction {
    type V = SessionActionView;

    open spec fn view(&self) -> SessionActionView {
        match self {
            SessionAction::Nothing => SessionActionView::Nothing,
            SessionAction::Reload => SessionActionView::Reload,
            SessionAction::Delete { id } => SessionActionView::Delete { id: id@ },
            SessionAction::Generate { params } => SessionActionView::Generate { params: params@ },
        }
    }
}

/// State of the interactive session.
#[derive(Debug)]
pub struct App {
    /// Current mode.
    pub mode: AppMode,
    /// The settings in use.
    pub config: Config,
    /// The prompt being typed.
    pub input: String,
    /// Cursor position in the prompt, counted in characters.
    pub cursor_pos: usize,
    /// The job list.
    pub jobs: Vec<Job>,
    /// Position of the selected job in the list.
    pub selected_job: usize,
    /// The job whose details are shown.
    pub current_job: Option<Job>,
    /// Status message.
    pub status_message: Option<String>,
    /// Error message.
    pub error_message: Option<String>,
    /// Whether the session is to end.
    pub should_quit: bool,
    /// Whether a setting was changed.
    pub config_changed: bool,
    /// Position of the selected setting.
    pub settings_selected: usize,
    /// Whether a setting is being edited as text.
    pub settings_editing: bool,
    /// The text of the setting being edited.
    pub settings_edit_buffer: String,
    /// Whether a generation is running.
    pub generating: bool,
}

/// The views of a list of jobs, in order.
pub open spec fn jobs_view(jobs: Seq<Job>) -> Seq<JobView> {
    jobs.map_values(|job: Job| job@)
}

/// The view of an optional job.
pub open spec fn opt_job_view(job: Option<Job>) -> Option<JobView> {
    match job {
        Some(job) => Some(job@),
        None => None,
    }
}

/// The mathematical value of an `App`.
pub struct AppView {
    pub mode: AppMode,
    pub config: ConfigView,
    pub input: Seq<char>,
    pub cursor_pos: nat,
    pub jobs: Seq<JobView>,
    pub selected_job: nat,
    pub current_job: Option<JobView>,
    pub status_message: Option<Seq<char>>,
    pub error_message: Option<Seq<char>>,
    pub should_quit: bool,
    pub config_changed: bool,
    pub settings_selected: nat,
    pub settings_editing: bool,
    pub settings_edit_buffer: Seq<char>,
    pub generating: bool,
}

/// The selection brought back into a list of `len` jobs: the last job where
/// it pointed past the end, and zero for an empty list.
pub open spec fn clamped_selection(selected: nat, len: nat) -> nat {
    if len == 0 {
        0
    } else if selected >= len {
        (len - 1) as nat
    } else {
        selected
    }
}

/// The parameters of a generation started from the session: the prompt
/// with the aspect ratio, size and model of the settings.
pub open spec fn session_params(config: ConfigView, prompt: Seq<char>) -> GenerateParamsView {
    GenerateParamsView {
        aspect_ratio: config.defaults.aspect_ratio,
        size: config.defaults.size,
        model: config.api.model,
        ..GenerateParamsView::initial(prompt)
    }
}

impl AppView {
    /// A session as it starts: main mode, nothing typed, no jobs, no
    /// messages.
    pub open spec fn initial(config: ConfigView) -> AppView {
        AppView {
            mode: AppMode::Main,
            config,
            input: Seq::empty(),
            cursor_pos: 0,
            jobs: Seq::empty(),
            selected_job: 0,
            current_job: None,
            status_message: None,
            error_message: None,
            should_quit: false,
            config_changed: false,
            settings_selected: 0,
            settings_editing: false,
            settings_edit_buffer: Seq::empty(),
            generating: false,
        }
    }

    /// What holds of a session at all times: the selection points into the
    /// job list, or is zero where the list is empty; the selected setting
    /// is one of the settings; the cursor lies within the prompt.
    pub open spec fn wf(self) -> bool {
        &&& self.selected_job == clamped_selection(self.selected_job, self.jobs.len())
        &&& self.settings_selected < SETTINGS_COUNT
        &&& self.cursor_pos <= self.input.len()
        &&& self.jobs.len() <= usize::MAX
        &&& self.input.len() <= usize::MAX
    }

    /// The session with a status message in place of any message.
    pub open spec fn with_status(self, message: Seq<char>) -> AppView {
        AppView { status_message: Some(message), error_message: None, ..self }
    }

    /// The session with an error message in place of any message.
    pub open spec fn with_error(self, message: Seq<char>) -> AppView {
        AppView { error_message: Some(message), status_message: None, ..self }
    }

    /// The session without messages.
    pub open spec fn without_messages(self) -> AppView {
        AppView { status_message: None, error_message: None, ..self }
    }

    /// The session with a new job list; the selection stays where it still
    /// points into the list.
    pub open spec fn with_jobs(self, jobs: Seq<JobView>) -> AppView {
        AppView { jobs, selected_job: clamped_selection(self.selected_job, jobs.len()), ..self }
    }

    /// The selected job, if the list has one.
    pub open spec fn selected(self) -> Option<JobView> {
        if self.selected_job < self.jobs.len() {
            Some(self.jobs[self.selected_job as int])
        } else {
            None
        }
    }

    /// The session with the selection one job up, if there is one.
    pub open spec fn selection_up(self) -> AppView {
        if self.selected_job > 0 {
            AppView { selected_job: (self.selected_job - 1) as nat, ..self }
        } else {
            self
        }
    }

    /// The session with the selection one job down, if there is one.
    pub open spec fn selection_down(self) -> AppView {
        if self.selected_job + 1 < self.jobs.len() {
            AppView { selected_job: self.selected_job + 1, ..self }
        } else {
            self
        }
    }

    /// The session after an attempt to write `value` to `field`: changed
    /// settings and the mark that they changed, or no change and the error.
    pub open spec fn with_setting(self, field: SettingsField, value: Seq<char>) -> (
        AppView,
        Option<ConfigSetErrorView>,
    ) {
        match self.config.after_set(field_key(field), value) {
            Ok(config) => (AppView { config, config_changed: true, ..self }, None),
            Err(e) => (self, Some(e)),
        }
    }

    /// The session after `field` was switched to its next option; unchanged
    /// for a setting that takes free text.
    pub open spec fn with_next_option(self, field: SettingsField) -> (
        AppView,
        Option<ConfigSetErrorView>,
    ) {
        match field_options(field) {
            Some(options) => self.with_setting(
                field,
                option_after(options, field_value(self.config, field)),
            ),
            None => (self, None),
        }
    }

    /// What a key does in main mode.
    pub open spec fn main_step(self, key: Key) -> (AppView, SessionActionView) {
        if key == Key::Up || key == Key::Char('k') {
            (self.selection_up(), SessionActionView::Nothing)
        } else if key == Key::Down || key == Key::Char('j') {
            (self.selection_down(), SessionActionView::Nothing)
        } else if key == Key::Home {
            (AppView { selected_job: 0, ..self }, SessionActionView::Nothing)
        } else if key == Key::End {
            (
                AppView { selected_job: clamped_selection(self.jobs.len(), self.jobs.len()), ..self },
                SessionActionView::Nothing,
            )
        } else if key == Key::Char('i') || key == Key::Char('/') {
            (
                AppView { mode: AppMode::Input, ..self.without_messages() },
                SessionActionView::Nothing,
            )
        } else if key == Key::Enter {
            match self.selected() {
                Some(job) => (
                    AppView { current_job: Some(job), mode: AppMode::JobDetail, ..self },
                    SessionActionView::Nothing,
                ),
                None => (self, SessionActionView::Nothing),
            }
        } else if key == Key::Char('s') {
            (
                AppView {
                    mode: AppMode::Settings,
                    settings_selected: 0,
                    settings_editing: false,
                    settings_edit_buffer: Seq::empty(),
                    ..self
                },
                SessionActionView::Nothing,
            )
        } else if key == Key::Char('r') {
            (self, SessionActionView::Reload)
        } else if key == Key::Char('d') {
            match self.selected() {
                Some(job) => (self, SessionActionView::Delete { id: job.id }),
                None => (self, SessionActionView::Nothing),
            }
        } else if key == Key::Char('q') || key == Key::Esc {
            (AppView { should_quit: true, ..self }, SessionActionView::Nothing)
        } else {
            (self, SessionActionView::Nothing)
        }
    }

    /// What a key does while a prompt is typed.
    pub open spec fn input_step(self, key: Key) -> (AppView, SessionActionView) {
        match key {
            Key::Esc => (
                AppView { mode: AppMode::Main, input: Seq::empty(), cursor_pos: 0, ..self },
                SessionActionView::Nothing,
            ),
            Key::Enter => if self.input.len() == 0 {
                (self, SessionActionView::Nothing)
            } else if self.generating {
                (self.with_error("A generation is already running"@), SessionActionView::Nothing)
            } else {
                (
                    AppView {
                        mode: AppMode::Main,
                        input: Seq::empty(),
                        cursor_pos: 0,
                        generating: true,
                        ..self.with_status("Generating: "@ + self.input + "..."@)
                    },
                    SessionActionView::Generate { params: session_params(self.config, self.input) },
                )
            },
            Key::Char(c) => if self.input.len() < usize::MAX {
                (
                    AppView {
                        input: with_char_at(self.input, self.cursor_pos as int, c),
                        cursor_pos: self.cursor_pos + 1,
                        ..self
                    },
                    SessionActionView::Nothing,
                )
            } else {
                (self, SessionActionView::Nothing)
            },
            Key::Backspace => if self.cursor_pos > 0 {
                (
                    AppView {
                        input: without_char_at(self.input, self.cursor_pos - 1),
                        cursor_pos: (self.cursor_pos - 1) as nat,
                        ..self
                    },
                    SessionActionView::Nothing,
                )
            } else {
                (self, SessionActionView::Nothing)
            },
            Key::Delete => if self.cursor_pos < self.input.len() {
                (
                    AppView { input: without_char_at(self.input, self.cursor_pos as int), ..self },
                    SessionActionView::Nothing,
                )
            } else {
                (self, SessionActionView::Nothing)
            },
            Key::Left => if self.cursor_pos > 0 {
                (
                    AppView { cursor_pos: (self.cursor_pos - 1) as nat, ..self },
                    SessionActionView::Nothing,
                )
            } else {
                (self, SessionActionView::Nothing)
            },
            Key::Right => if self.cursor_pos < self.input.len() {
                (AppView { cursor_pos: self.cursor_pos + 1, ..self }, SessionActionView::Nothing)
            } else {
                (self, SessionActionView::Nothing)
            },
            Key::Home => (AppView { cursor_pos: 0, ..self }, SessionActionView::Nothing),
            Key::End => (
                AppView { cursor_pos: self.input.len(), ..self },
                SessionActionView::Nothing,
            ),
            _ => (self, SessionActionView::Nothing),
        }
    }

    /// What a key does while the details of a job are shown.
    pub open spec fn detail_step(self, key: Key) -> AppView {
        if key == Key::Esc || key == Key::Char('q') || key == Key::Backspace {
            AppView { mode: AppMode::Main, current_job: None, ..self }
        } else {
            self
        }
    }

    /// What a key does on the settings screen while a setting is edited as
    /// text.
    pub open spec fn editing_step(self, key: Key) -> AppView {
        let field = all_fields()[self.settings_selected as int];
        match key {
            Key::Esc => AppView {
                settings_editing: false,
                settings_edit_buffer: Seq::empty(),
                ..self
            },
            Key::Enter => match self.with_setting(field, self.settings_edit_buffer) {
                (changed, None) => AppView {
                    settings_editing: false,
                    settings_edit_buffer: Seq::empty(),
                    ..changed.with_status("Updated "@ + field_label(field))
                },
                (_, Some(e)) => self.with_error(e.text()),
            },
            Key::Char(c) => AppView {
                settings_edit_buffer: self.settings_edit_buffer.push(c),
                ..self
            },
            Key::Backspace => if self.settings_edit_buffer.len() > 0 {
                AppView { settings_edit_buffer: self.settings_edit_buffer.drop_last(), ..self }
            } else {
                self
            },
            _ => self,
        }
    }

    /// What a key does on the settings screen while no setting is edited.
    pub open spec fn browsing_step(self, key: Key) -> AppView {
        let field = all_fields()[self.settings_selected as int];
        if key == Key::Up || key == Key::Char('k') {
            if self.settings_selected > 0 {
                AppView { settings_selected: (self.settings_selected - 1) as nat, ..self }
            } else {
                self
            }
        } else if key == Key::Down || key == Key::Char('j') {
            if self.settings_selected + 1 < SETTINGS_COUNT {
                AppView { settings_selected: self.settings_selected + 1, ..self }
            } else {
                self
            }
        } else if key == Key::Enter || key == Key::Char(' ') {
            if field_options(field) is Some {
                match self.with_next_option(field) {
                    (changed, None) => changed.with_status("Updated "@ + field_label(field)),
                    (_, Some(e)) => self.with_error(e.text()),
                }
            } else {
                AppView {
                    settings_editing: true,
                    settings_edit_buffer: field_value(self.config, field),
                    ..self
                }
            }
        } else if key == Key::Esc || key == Key::Char('q') {
            AppView { mode: AppMode::Main, ..self.without_messages() }
        } else {
            self
        }
    }

    /// What a key does on the settings screen.
    pub open spec fn settings_step(self, key: Key) -> AppView {
        if self.settings_editing {
            self.editing_step(key)
        } else {
            self.browsing_step(key)
        }
    }

    /// Whether a key ends the session whatever the mode does with it:
    /// `c` with the control key anywhere, `q` outside the prompt and the
    /// settings.
    pub open spec fn quits(self, key: Key, control: bool) -> bool {
        ||| key == Key::Char('c') && control
        ||| key == Key::Char('q') && self.mode != AppMode::Input && self.mode != AppMode::Settings
    }

    /// What a key does to the session.
    pub open spec fn key_step(self, key: Key, control: bool) -> (AppView, SessionActionView) {
        if self.quits(key, control) {
            (AppView { should_quit: true, ..self }, SessionActionView::Nothing)
        } else {
            match self.mode {
                AppMode::Main => self.main_step(key),
                AppMode::Input => self.input_step(key),
                AppMode::JobDetail => (self.detail_step(key), SessionActionView::Nothing),
                AppMode::Settings => (self.settings_step(key), SessionActionView::Nothing),
            }
        }
    }
}

impl View for App {
    type V = AppView;

    open spec fn view(&self) -> AppView {
        AppView {
            mode: self.mode,
            config: self.config@,
            input: self.input@,
            cursor_pos: self.cursor_pos as nat,
            jobs: jobs_view(self.jobs@),
            selected_job: self.selected_job as nat,
            current_job: opt_job_view(self.current_job),
            status_message: opt_view(self.status_message),
            error_message: opt_view(self.error_message),
            should_quit: self.should_quit,
            config_changed: self.config_changed,
            settings_selected: self.settings_selected as nat,
            settings_editing: self.settings_editing,
            settings_edit_buffer: self.settings_edit_buffer@,
            generating: self.generating,
        }
    }
}

/// The names as a list of their own.
fn names_of(names: &'static [&'static str]) -> (r: Vec<&'static str>)
    ensures
        r@ == names@,
{
    slice_to_vec(names)
}

/// The views of a list of names, in order.
pub open spec fn names_view(names: Seq<&'static str>) -> Seq<Seq<char>> {
    names.map_values(|name: &'static str| name@)
}

impl App {
    /// A session as it starts.
    pub fn new(config: Config) -> (r: Self)
        ensures
            r@ == AppView::initial(config@),
            r@.wf(),
    {
        let app = App {
            mode: AppMode::Main,
            config,
            input: String::new(),
            cursor_pos: 0,
            jobs: Vec::new(),
            selected_job: 0,
            current_job: None,
            status_message: None,
            error_message: None,
            should_quit: false,
            config_changed: false,
            settings_selected: 0,
            settings_editing: false,
            settings_edit_buffer: String::new(),
            generating: false,
        };
        assert(app@.jobs =~= Seq::empty());
        app
    }

    /// Whether the state is one that a session can be in.
    pub fn is_valid(&self) -> (r: bool)
        ensures
            r == self@.wf(),
    {
        let selection_fits = if self.jobs.len() == 0 {
            self.selected_job == 0
        } else {
            self.selected_job < self.jobs.len()
        };
        let input_len = self.input.as_str().unicode_len();
        selection_fits && self.settings_selected < SETTINGS_COUNT && self.cursor_pos <= input_len
    }

    /// Takes over the job list read from the store. The selection is
    /// brought back into the list: onto the last job where it pointed past
    /// the end, to zero where the list is empty.
    pub fn load_jobs(&mut self, jobs: Vec<Job>)
        ensures
            final(self)@ == old(self)@.with_jobs(jobs_view(jobs@)),
            old(self)@.wf() ==> final(self)@.wf(),
    {
        let len = jobs.len();
        self.jobs = jobs;
        if len == 0 {
            self.selected_job = 0;
        } else if self.selected_job >= len {
            self.selected_job = len - 1;
        }
    }

    /// Sets the status message and drops the error message.
    pub fn set_status(&mut self, msg: &str)
        ensures
            final(self)@ == old(self)@.with_status(msg@),
    {
        self.status_message = Some(String::from_str(msg));
        self.error_message = None;
    }

    /// Sets the error message and drops the status message.
    pub fn set_error(&mut self, msg: &str)
        ensures
            final(self)@ == old(self)@.with_error(msg@),
    {
        self.error_message = Some(String::from_str(msg));
        self.status_message = None;
    }

    /// Drops both messages.
    pub fn clear_messages(&mut self)
        ensures
            final(self)@ == old(self)@.without_messages(),
    {
        self.status_message = None;
        self.error_message = None;
    }

    /// The selected job, if the list has one.
    pub fn selected_job(&self) -> (r: Option<&Job>)
        ensures
            match r {
                Some(job) => self@.selected() == Some(job@),
                None => self@.selected() is None,
            },
    {
        if self.selected_job < self.jobs.len() {
            Some(&self.jobs[self.selected_job])
        } else {
            None
        }
    }

    /// Moves the selection up.
    pub fn select_previous(&mut self)
        ensures
            final(self)@ == old(self)@.selection_up(),
    {
        if self.selected_job > 0 {
            self.selected_job = self.selected_job - 1;
        }
    }

    /// Moves the selection down.
    pub fn select_next(&mut self)
        ensures
            final(self)@ == old(self)@.selection_down(),
    {
        let len = self.jobs.len();
        if len > 0 && self.selected_job < len - 1 {
            self.selected_job = self.selected_job + 1;
        }
    }

    /// The value of a setting as text.
    pub fn get_settings_value(&self, field: &SettingsField) -> (r: String)
        ensures
            r@ == field_value(self@.config, *field),
    {
        match field {
            SettingsField::Model => self.config.api.model.clone(),
            SettingsField::AspectRatio => self.config.defaults.aspect_ratio.clone(),
            SettingsField::Size => self.config.defaults.size.clone(),
            SettingsField::OutputDirectory => self.config.output.directory.clone(),
            SettingsField::AutoDownload => bool_string(self.config.output.auto_download),
            SettingsField::Display => String::from_str(self.config.output.display.as_str()),
            SettingsField::ShowImages => bool_string(self.config.tui.show_images),
            SettingsField::Theme => self.config.tui.theme.clone(),
        }
    }

    /// Writes `value` to a setting and marks the settings as changed. On an
    /// error nothing changes.
    pub fn set_settings_value(&mut self, field: &SettingsField, value: &str) -> (r: Result<
        (),
        ConfigSetError,
    >)
        ensures
            final(self)@ == old(self)@.with_setting(*field, value@).0,
            match r {
                Ok(()) => old(self)@.with_setting(*field, value@).1 is None,
                Err(e) => old(self)@.with_setting(*field, value@).1 == Some(e@),
            },
    {
        match self.config.set(field.config_key(), value) {
            Ok(()) => {
                self.config_changed = true;
                Ok(())
            },
            Err(e) => Err(e),
        }
    }

    /// The values a setting can be switched through; none for a setting
    /// that takes free text.
    pub fn get_settings_options(&self, field: &SettingsField) -> (r: Option<Vec<&'static str>>)
        ensures
            match r {
                Some(options) => field_options(*field) == Some(names_view(options@)),
                None => field_options(*field) is None,
            },
    {
        match field {
            SettingsField::Model => {
                let options = names_of(Config::models());
                assert(names_view(options@) =~= field_options(*field)->0);
                Some(options)
            },
            SettingsField::AspectRatio => {
                let options = names_of(Config::aspect_ratios());
                assert(names_view(options@) =~= field_options(*field)->0);
                Some(options)
            },
            SettingsField::Size => {
                let options = names_of(Config::sizes());
                assert(names_view(options@) =~= field_options(*field)->0);
                Some(options)
            },
            SettingsField::AutoDownload => {
                let options = vec!["true", "false"];
                assert(names_view(options@) =~= field_options(*field)->0);
                Some(options)
            },
            SettingsField::Display => {
                let options = names_of(DisplayMode::variants());
                assert(names_view(options@) =~= field_options(*field)->0);
                Some(options)
            },
            SettingsField::ShowImages => {
                let options = vec!["true", "false"];
                assert(names_view(options@) =~= field_options(*field)->0);
                Some(options)
            },
            SettingsField::Theme => {
                let options = vec!["dark", "light"];
                assert(names_view(options@) =~= field_options(*field)->0);
                Some(options)
            },
            SettingsField::OutputDirectory => None,
        }
    }

    /// Switches a setting to its next option, the first following the last.
    /// A setting that takes free text stays as it is.
    pub fn cycle_settings_option(&mut self, field: &SettingsField) -> (r: Result<(), ConfigSetError>)
        ensures
            final(self)@ == old(self)@.with_next_option(*field).0,
            match r {
                Ok(()) => old(self)@.with_next_option(*field).1 is None,
                Err(e) => old(self)@.with_next_option(*field).1 == Some(e@),
            },
    {
        match self.get_settings_options(field) {
            Some(options) => {
                assert(options@.len() > 0);
                let current = self.get_settings_value(field);
                let ghost names = names_view(options@);
                let mut found: Option<usize> = None;
                let mut i: usize = 0;
                while i < options.len()
                    invariant
                        i <= options.len(),
                        names == names_view(options@),
                        match found {
                            Some(at) => position_in(names, current@, i as nat) == Some(at as int)
                                && at < i,
                            None => position_in(names, current@, i as nat) is None,
                        },
                    decreases options.len() - i,
                {
                    if found.is_none() && str_eq(options[i], current.as_str()) {
                        found = Some(i);
                    }
                    i = i + 1;
                }
                let at = match found {
                    Some(at) => at,
                    None => 0,
                };
                let next = (at + 1) % options.len();
                self.set_settings_value(field, options[next])
            },
            None => Ok(()),
        }
    }

    /// The parameters of a generation for `prompt` with the aspect ratio,
    /// size and model of the settings.
    pub fn generation_params(&self, prompt: &str) -> (r: GenerateParams)
        ensures
            r@ == session_params(self@.config, prompt@),
    {
        GenerateParams::new(prompt).with_aspect_ratio(
            self.config.defaults.aspect_ratio.as_str(),
        ).with_size(self.config.defaults.size.as_str()).with_model(self.config.api.model.as_str())
    }
}

} // verus!

//! The settings: what they hold, their defaults, and reading and writing
//! them by key.

use crate::text::{bool_string, bool_text, clone_opt, lowercase_of, opt_view, parse_bool, parsed_bool, str_eq, to_lowercase};
use vstd::prelude::*;
use vstd::string::StringExecFns;

verus! {

/// How a finished image is shown.
#[derive(Clone, Copy, Debug, PartialEq, Eq, Structural)]
pub enum DisplayMode {
    /// Draw it in the terminal.
    Terminal,
    /// Open it in a viewer.
    Viewer,
    /// Do not show it.
    Off,
}

/// The display mode that `name` names exactly; an unknown name stands for
/// the terminal.
pub open spec fn display_mode_named(name: Seq<char>) -> DisplayMode {
    if name == "terminal"@ {
        DisplayMode::Terminal
    } else if name == "viewer"@ {
        DisplayMode::Viewer
    } else if name == "none"@ {
        DisplayMode::Off
    } else {
        DisplayMode::Terminal
    }
}

/// The name of a display mode.
pub open spec fn display_mode_name(mode: DisplayMode) -> Seq<char> {
    match mode {
        DisplayMode::Terminal => "terminal"@,
        DisplayMode::Viewer => "viewer"@,
        DisplayMode::Off => "none"@,
    }
}

impl Default for DisplayMode {
    fn default() -> (r: Self)
        ensures
            r == DisplayMode::Terminal,
    {
        DisplayMode::Terminal
    }
}

impl DisplayMode {
    /// The name of the mode.
    pub fn as_str(&self) -> (r: &'static str)
        ensures
            r@ == display_mode_name(*self),
    {
        match self {
            DisplayMode::Terminal => "terminal",
            DisplayMode::Viewer => "viewer",
            DisplayMode::Off => "none",
        }
    }

    /// The mode that `name` names, letter for letter; an unknown name stands
    /// for the terminal.
    pub fn from_exact(name: &str) -> (r: Self)
        ensures
            r == display_mode_named(name@),
    {
        if str_eq(name, "terminal") {
            DisplayMode::Terminal
        } else if str_eq(name, "viewer") {
            DisplayMode::Viewer
        } else if str_eq(name, "none") {
            DisplayMode::Off
        } else {
            DisplayMode::Terminal
        }
    }

    /// The mode that `s` names, whatever the case of its letters; an unknown
    /// name stands for the terminal.
    pub fn from_str(s: &str) -> (r: Self)
        ensures
            r == display_mode_named(lowercase_of(s@)),
    {
        let lower = to_lowercase(s);
        DisplayMode::from_exact(lower.as_str())
    }

    /// The names of all modes.
    pub fn variants() -> (r: &'static [&'static str])
        ensures
            r@.len() == 3,
            r@[0]@ == "terminal"@,
            r@[1]@ == "viewer"@,
            r@[2]@ == "none"@,
    {
        &["terminal", "viewer", "none"]
    }
}

pub(crate) fn default_model() -> (r: String)
    ensures
        r@ == "gemini-3-pro-image-preview"@,
{
    String::from_str("gemini-3-pro-image-preview")
}

pub(crate) fn default_base_url() -> (r: String)
    ensures
        r@ == "https://generativelanguage.googleapis.com/v1beta"@,
{
    String::from_str("https://generativelanguage.googleapis.com/v1beta")
}

pub(crate) fn default_aspect_ratio() -> (r: String)
    ensures
        r@ == "1:1"@,
{
    String::from_str("1:1")
}

pub(crate) fn default_size() -> (r: String)
    ensures
        r@ == "1K"@,
{
    String::from_str("1K")
}

pub(crate) fn default_output_directory() -> (r: String)
    ensures
        r@ == "./banana-output"@,
{
    String::from_str("./banana-output")
}

pub(crate) fn default_true() -> (r: bool)
    ensures
        r,
{
    true
}

pub(crate) fn default_display() -> (r: DisplayMode)
    ensures
        r == DisplayMode::Terminal,
{
    DisplayMode::Terminal
}

pub(crate) fn default_theme() -> (r: String)
    ensures
        r@ == "dark"@,
{
    String::from_str("dark")
}

/// Settings of the service connection.
#[derive(Debug)]
pub struct ApiConfig {
    pub key: Option<String>,
    pub model: String,
    pub base_url: String,
}

/// The mathematical value of an `ApiConfig`.
pub struct ApiConfigView {
    pub key: Option<Seq<char>>,
    pub model: Seq<char>,
    pub base_url: Seq<char>,
}

impl ApiConfigView {
    pub open spec fn initial() -> ApiConfigView {
        ApiConfigView {
            key: None,
            model: "gemini-3-pro-image-preview"@,
            base_url: "https://generativelanguage.googleapis.com/v1beta"@,
        }
    }
}

impl View for ApiConfig {
    type V = ApiConfigView;

    open spec fn view(&self) -> ApiConfigView {
        ApiConfigView { key: opt_view(self.key), model: self.model@, base_url: self.base_url@ }
    }
}

impl Clone for ApiConfig {
    fn clone(&self) -> (r: Self)
        ensures
            r@ == self@,
    {
        ApiConfig {
            key: clone_opt(&self.key),
            model: self.model.clone(),
            base_url: self.base_url.clone(),
        }
    }
}

impl Default for ApiConfig {
    fn default() -> (r: Self)
        ensures
            r@ == ApiConfigView::initial(),
    {
        ApiConfig { key: None, model: default_model(), base_url: default_base_url() }
    }
}

/// Defaults for new requests.
#[derive(Debug)]
pub struct DefaultsConfig {
    pub aspect_ratio: String,
    pub size: String,
}

/// The mathematical value of a `DefaultsConfig`.
pub struct DefaultsConfigView {
    pub aspect_ratio: Seq<char>,
    pub size: Seq<char>,
}

impl DefaultsConfigView {
    pub open spec fn initial() -> DefaultsConfigView {
        DefaultsConfigView { aspect_ratio: "1:1"@, size: "1K"@ }
    }
}

impl View for DefaultsConfig {
    type V = DefaultsConfigView;

    open spec fn view(&self) -> DefaultsConfigView {
        DefaultsConfigView { aspect_ratio: self.aspect_ratio@, size: self.size@ }
    }
}

impl Clone for DefaultsConfig {
    fn clone(&self) -> (r: Self)
        ensures
            r@ == self@,
    {
        DefaultsConfig { aspect_ratio: self.aspect_ratio.clone(), size: self.size.clone() }
    }
}

impl Default for DefaultsConfig {
    fn default() -> (r: Self)
        ensures
            r@ == DefaultsConfigView::initial(),
    {
        DefaultsConfig { aspect_ratio: default_aspect_ratio(), size: default_size() }
    }
}

/// Where images go and how they are shown.
#[derive(Debug)]
pub struct OutputConfig {
    pub directory: String,
    pub auto_download: bool,
    pub display: DisplayMode,
}

/// The mathematical value of an `OutputConfig`.
pub struct OutputConfigView {
    pub directory: Seq<char>,
    pub auto_download: bool,
    pub display: DisplayMode,
}

impl OutputConfigView {
    pub open spec fn initial() -> OutputConfigView {
        OutputConfigView {
            directory: "./banana-output"@,
            auto_download: true,
            display: DisplayMode::Terminal,
        }
    }
}

impl View for OutputConfig {
    type V = OutputConfigView;

    open spec fn view(&self) -> OutputConfigView {
        OutputConfigView {
            directory: self.directory@,
            auto_download: self.auto_download,
            display: self.display,
        }
    }
}

impl Clone for OutputConfig {
    fn clone(&self) -> (r: Self)
        ensures
            r@ == self@,
    {
        OutputConfig {
            directory: self.directory.clone(),
            auto_download: self.auto_download,
            display: self.display,
        }
    }
}

impl Default for OutputConfig {
    fn default() -> (r: Self)
        ensures
            r@ == OutputConfigView::initial(),
    {
        OutputConfig {
            directory: default_output_directory(),
            auto_download: default_true(),
            display: default_display(),
        }
    }
}

/// Settings of the interactive session.
#[derive(Debug)]
pub struct TuiConfig {
    pub show_images: bool,
    pub theme: String,
}

/// The mathematical value of a `TuiConfig`.
pub struct TuiConfigView {
    pub show_images: bool,
    pub theme: Seq<char>,
}

impl TuiConfigView {
    pub open spec fn initial() -> TuiConfigView {
        TuiConfigView { show_images: true, theme: "dark"@ }
    }
}

impl View for TuiConfig {
    type V = TuiConfigView;

    open spec fn view(&self) -> TuiConfigView {
        TuiConfigView { show_images: self.show_images, theme: self.theme@ }
    }
}

impl Clone for TuiConfig {
    fn clone(&self) -> (r: Self)
        ensures
            r@ == self@,
    {
        TuiConfig { show_images: self.show_images, theme: self.theme.clone() }
    }
}

impl Default for TuiConfig {
    fn default() -> (r: Self)
        ensures
            r@ == TuiConfigView::initial(),
    {
        TuiConfig { show_images: default_true(), theme: default_theme() }
    }
}

/// All settings, and the place of the file that keeps them.
#[derive(Debug)]
pub struct Config {
    pub api: ApiConfig,
    pub defaults: DefaultsConfig,
    pub output: OutputConfig,
    pub tui: TuiConfig,
    /// Where the settings are kept; not itself a setting.
    pub config_path: String,
}

/// Why a setting was not changed.
#[derive(Debug, PartialEq, Eq)]
pub enum ConfigSetError {
    /// The value is none of the aspect ratios.
    InvalidAspectRatio,
    /// The value is none of the sizes.
    InvalidSize,
    /// The value is neither `true` nor `false`.
    InvalidBoolean,
    /// No setting has this key.
    UnknownKey(String),
}

/// The mathematical value of a `ConfigSetError`.
pub enum ConfigSetErrorView {
    InvalidAspectRatio,
    InvalidSize,
    InvalidBoolean,
    UnknownKey(Seq<char>),
}

impl ConfigSetErrorView {
    /// The error as shown to a reader.
    pub open spec fn text(self) -> Seq<char> {
        match self {
            ConfigSetErrorView::InvalidAspectRatio =>
                "Invalid aspect ratio. Valid values: 1:1, 2:3, 3:2, 3:4, 4:3, 4:5, 5:4, 9:16, 16:9, 21:9"@,
            ConfigSetErrorView::InvalidSize => "Invalid size. Valid values: 1K, 2K, 4K"@,
            ConfigSetErrorView::InvalidBoolean => "Invalid boolean value"@,
            ConfigSetErrorView::UnknownKey(key) => "Unknown config key: "@ + key,
        }
    }
}

impl View for ConfigSetError {
    type V = ConfigSetErrorView;

    open spec fn view(&self) -> ConfigSetErrorView {
        match self {
            ConfigSetError::InvalidAspectRatio => ConfigSetErrorView::InvalidAspectRatio,
            ConfigSetError::InvalidSize => ConfigSetErrorView::InvalidSize,
            ConfigSetError::InvalidBoolean => ConfigSetErrorView::InvalidBoolean,
            ConfigSetError::UnknownKey(key) => ConfigSetErrorView::UnknownKey(key@),
        }
    }
}

impl ConfigSetError {
    /// The error as shown to a reader.
    pub fn to_string(&self) -> (r: String)
        ensures
            r@ == self@.text(),
    {
        match self {
            ConfigSetError::InvalidAspectRatio => String::from_str(
                "Invalid aspect ratio. Valid values: 1:1, 2:3, 3:2, 3:4, 4:3, 4:5, 5:4, 9:16, 16:9, 21:9",
            ),
            ConfigSetError::InvalidSize => String::from_str("Invalid size. Valid values: 1K, 2K, 4K"),
            ConfigSetError::InvalidBoolean => String::from_str("Invalid boolean value"),
            ConfigSetError::UnknownKey(key) => {
                let mut s = String::from_str("Unknown config key: ");
                s.append(key.as_str());
                s
            },
        }
    }
}

/// Whether `value` is one of the aspect ratios the service offers.
pub open spec fn is_aspect_ratio(value: Seq<char>) -> bool {
    value == "1:1"@ || value == "2:3"@ || value == "3:2"@ || value == "3:4"@ || value == "4:3"@
        || value == "4:5"@ || value == "5:4"@ || value == "9:16"@ || value == "16:9"@ || value
        == "21:9"@
}

/// Whether `value` is one of the sizes the service offers.
pub open spec fn is_size(value: Seq<char>) -> bool {
    value == "1K"@ || value == "2K"@ || value == "4K"@
}

/// Whether `key` is the key of a setting.
pub open spec fn is_config_key(key: Seq<char>) -> bool {
    key == "api.key"@ || key == "api.model"@ || key == "api.base_url"@ || key
        == "defaults.aspect_ratio"@ || key == "defaults.size"@ || key == "output.directory"@ || key
        == "output.auto_download"@ || key == "output.display"@ || key == "tui.show_images"@ || key
        == "tui.theme"@
}

/// What stands for an API key when it is shown.
pub open spec fn masked_key() -> Seq<char> {
    "****"@
}

/// The mathematical value of a `Config`.
pub struct ConfigView {
    pub api: ApiConfigView,
    pub defaults: DefaultsConfigView,
    pub output: OutputConfigView,
    pub tui: TuiConfigView,
    pub config_path: Seq<char>,
}

impl ConfigView {
    /// The settings before anything was changed, kept at `config_path`.
    pub open spec fn initial(config_path: Seq<char>) -> ConfigView {
        ConfigView {
            api: ApiConfigView::initial(),
            defaults: DefaultsConfigView::initial(),
            output: OutputConfigView::initial(),
            tui: TuiConfigView::initial(),
            config_path,
        }
    }

    /// The settings with the API key replaced where the environment gives
    /// one.
    pub open spec fn with_env_key(self, env_key: Option<Seq<char>>) -> ConfigView {
        match env_key {
            Some(key) => ConfigView { api: ApiConfigView { key: Some(key), ..self.api }, ..self },
            None => self,
        }
    }

    /// The outcome of writing `value` under `key`: the changed settings, or
    /// the reason why nothing changes. Aspect ratio and size take only the
    /// values the service offers, the two switches only `true` and `false`;
    /// the display mode takes any text, read without regard to case, and the
    /// other settings take the text as it is.
    pub open spec fn after_set(self, key: Seq<char>, value: Seq<char>) -> Result<
        ConfigView,
        ConfigSetErrorView,
    > {
        if key == "api.key"@ {
            Ok(ConfigView { api: ApiConfigView { key: Some(value), ..self.api }, ..self })
        } else if key == "api.model"@ {
            Ok(ConfigView { api: ApiConfigView { model: value, ..self.api }, ..self })
        } else if key == "api.base_url"@ {
            Ok(ConfigView { api: ApiConfigView { base_url: value, ..self.api }, ..self })
        } else if key == "defaults.aspect_ratio"@ {
            if is_aspect_ratio(value) {
                Ok(
                    ConfigView {
                        defaults: DefaultsConfigView { aspect_ratio: value, ..self.defaults },
                        ..self
                    },
                )
            } else {
                Err(ConfigSetErrorView::InvalidAspectRatio)
            }
        } else if key == "defaults.size"@ {
            if is_size(value) {
                Ok(ConfigView { defaults: DefaultsConfigView { size: value, ..self.defaults }, ..self })
            } else {
                Err(ConfigSetErrorView::InvalidSize)
            }
        } else if key == "output.directory"@ {
            Ok(ConfigView { output: OutputConfigView { directory: value, ..self.output }, ..self })
        } else if key == "output.auto_download"@ {
            match parsed_bool(value) {
                Some(b) => Ok(
                    ConfigView { output: OutputConfigView { auto_download: b, ..self.output }, ..self },
                ),
                None => Err(ConfigSetErrorView::InvalidBoolean),
            }
        } else if key == "output.display"@ {
            Ok(
                ConfigView {
                    output: OutputConfigView {
                        display: display_mode_named(lowercase_of(value)),
                        ..self.output
                    },
                    ..self
                },
            )
        } else if key == "tui.show_images"@ {
            match parsed_bool(value) {
                Some(b) => Ok(ConfigView { tui: TuiConfigView { show_images: b, ..self.tui }, ..self }),
                None => Err(ConfigSetErrorView::InvalidBoolean),
            }
        } else if key == "tui.theme"@ {
            Ok(ConfigView { tui: TuiConfigView { theme: value, ..self.tui }, ..self })
        } else {
            Err(ConfigSetErrorView::UnknownKey(key))
        }
    }

    /// What reading `key` gives: the setting as text, four stars in place of
    /// an API key, nothing for an unset API key or an unknown key.
    pub open spec fn value_of(self, key: Seq<char>) -> Option<Seq<char>> {
        if key == "api.key"@ {
            match self.api.key {
                Some(_) => Some(masked_key()),
                None => None,
            }
        } else if key == "api.model"@ {
            Some(self.api.model)
        } else if key == "api.base_url"@ {
            Some(self.api.base_url)
        } else if key == "defaults.aspect_ratio"@ {
            Some(self.defaults.aspect_ratio)
        } else if key == "defaults.size"@ {
            Some(self.defaults.size)
        } else if key == "output.directory"@ {
            Some(self.output.directory)
        } else if key == "output.auto_download"@ {
            Some(bool_text(self.output.auto_download))
        } else if key == "output.display"@ {
            Some(display_mode_name(self.output.display))
        } else if key == "tui.show_images"@ {
            Some(bool_text(self.tui.show_images))
        } else if key == "tui.theme"@ {
            Some(self.tui.theme)
        } else {
            None
        }
    }
}

impl View for Config {
    type V = ConfigView;

    open spec fn view(&self) -> ConfigView {
        ConfigView {
            api: self.api@,
            defaults: self.defaults@,
            output: self.output@,
            tui: self.tui@,
            config_path: self.config_path@,
        }
    }
}

impl Clone for Config {
    fn clone(&self) -> (r: Self)
        ensures
            r@ == self@,
    {
        Config {
            api: self.api.clone(),
            defaults: self.defaults.clone(),
            output: self.output.clone(),
            tui: self.tui.clone(),
            config_path: self.config_path.clone(),
        }
    }
}

impl Default for Config {
    fn default() -> (r: Self)
        ensures
            r@ == ConfigView::initial(Seq::empty()),
    {
        Config {
            api: ApiConfig::default(),
            defaults: DefaultsConfig::default(),
            output: OutputConfig::default(),
            tui: TuiConfig::default(),
            config_path: String::new(),
        }
    }
}

/// Whether `value` is one of the aspect ratios the service offers.
pub fn valid_aspect_ratio(value: &str) -> (r: bool)
    ensures
        r == is_aspect_ratio(value@),
{
    str_eq(value, "1:1") || str_eq(value, "2:3") || str_eq(value, "3:2") || str_eq(value, "3:4")
        || str_eq(value, "4:3") || str_eq(value, "4:5") || str_eq(value, "5:4") || str_eq(
        value,
        "9:16",
    ) || str_eq(value, "16:9") || str_eq(value, "21:9")
}

/// Whether `value` is one of the sizes the service offers.
pub fn valid_size(value: &str) -> (r: bool)
    ensures
        r == is_size(value@),
{
    str_eq(value, "1K") || str_eq(value, "2K") || str_eq(value, "4K")
}

impl Config {
    /// The API key, if one is set.
    pub fn api_key(&self) -> (r: Option<&str>)
        ensures
            match r {
                Some(key) => self@.api.key == Some(key@),
                None => self@.api.key is None,
            },
    {
        match &self.api.key {
            Some(key) => Some(key.as_str()),
            None => None,
        }
    }

    /// Lets an API key from the environment take the place of the stored
    /// one.
    pub fn apply_env_key(&mut self, env_key: Option<String>)
        ensures
            final(self)@ == old(self)@.with_env_key(opt_view(env_key)),
    {
        match env_key {
            Some(key) => {
                self.api.key = Some(key);
            },
            None => {},
        }
    }

    /// Puts every setting back to its default. The place of the settings
    /// file stays, and an API key from the environment is taken over.
    pub fn reset(&mut self, env_key: Option<String>)
        ensures
            final(self)@ == ConfigView::initial(old(self)@.config_path).with_env_key(
                opt_view(env_key),
            ),
    {
        self.api = ApiConfig::default();
        self.defaults = DefaultsConfig::default();
        self.output = OutputConfig::default();
        self.tui = TuiConfig::default();
        self.apply_env_key(env_key);
    }

    /// Writes `value` under `key`, such as `api.key` or
    /// `defaults.aspect_ratio`. On an error nothing changes.
    pub fn set(&mut self, key: &str, value: &str) -> (r: Result<(), ConfigSetError>)
        ensures
            match r {
                Ok(()) => old(self)@.after_set(key@, value@) == Ok::<ConfigView, ConfigSetErrorView>(
                    final(self)@,
                ),
                Err(e) => old(self)@.after_set(key@, value@) == Err::<ConfigView, ConfigSetErrorView>(
                    e@,
                ) && final(self)@ == old(self)@,
            },
    {
        if str_eq(key, "api.key") {
            self.api.key = Some(String::from_str(value));
        } else if str_eq(key, "api.model") {
            self.api.model = String::from_str(value);
        } else if str_eq(key, "api.base_url") {
            self.api.base_url = String::from_str(value);
        } else if str_eq(key, "defaults.aspect_ratio") {
            if valid_aspect_ratio(value) {
                self.defaults.aspect_ratio = String::from_str(value);
            } else {
                return Err(ConfigSetError::InvalidAspectRatio);
            }
        } else if str_eq(key, "defaults.size") {
            if valid_size(value) {
                self.defaults.size = String::from_str(value);
            } else {
                return Err(ConfigSetError::InvalidSize);
            }
        } else if str_eq(key, "output.directory") {
            self.output.directory = String::from_str(value);
        } else if str_eq(key, "output.auto_download") {
            match parse_bool(value) {
                Some(b) => {
                    self.output.auto_download = b;
                },
                None => {
                    return Err(ConfigSetError::InvalidBoolean);
                },
            }
        } else if str_eq(key, "output.display") {
            self.output.display = DisplayMode::from_str(value);
        } else if str_eq(key, "tui.show_images") {
            match parse_bool(value) {
                Some(b) => {
                    self.tui.show_images = b;
                },
                None => {
                    return Err(ConfigSetError::InvalidBoolean);
                },
            }
        } else if str_eq(key, "tui.theme") {
            self.tui.theme = String::from_str(value);
        } else {
            return Err(ConfigSetError::UnknownKey(String::from_str(key)));
        }
        Ok(())
    }

    /// Reads the setting under `key` as text. An API key is never shown:
    /// four stars stand for it.
    pub fn get(&self, key: &str) -> (r: Option<String>)
        ensures
            opt_view(r) == self@.value_of(key@),
    {
        if str_eq(key, "api.key") {
            match &self.api.key {
                Some(_) => Some(String::from_str("****")),
                None => None,
            }
        } else if str_eq(key, "api.model") {
            Some(self.api.model.clone())
        } else if str_eq(key, "api.base_url") {
            Some(self.api.base_url.clone())
        } else if str_eq(key, "defaults.aspect_ratio") {
            Some(self.defaults.aspect_ratio.clone())
        } else if str_eq(key, "defaults.size") {
            Some(self.defaults.size.clone())
        } else if str_eq(key, "output.directory") {
            Some(self.output.directory.clone())
        } else if str_eq(key, "output.auto_download") {
            Some(bool_string(self.output.auto_download))
        } else if str_eq(key, "output.display") {
            Some(String::from_str(self.output.display.as_str()))
        } else if str_eq(key, "tui.show_images") {
            Some(bool_string(self.tui.show_images))
        } else if str_eq(key, "tui.theme") {
            Some(self.tui.theme.clone())
        } else {
            None
        }
    }

    /// The keys of all settings.
    pub fn keys() -> (r: &'static [&'static str])
        ensures
            r@.len() == 10,
            forall|i: int| 0 <= i < 10 ==> is_config_key(#[trigger] r@[i]@),
            r@[0]@ == "api.key"@,
            r@[1]@ == "api.model"@,
            r@[2]@ == "api.base_url"@,
            r@[3]@ == "defaults.aspect_ratio"@,
            r@[4]@ == "defaults.size"@,
            r@[5]@ == "output.directory"@,
            r@[6]@ == "output.auto_download"@,
            r@[7]@ == "output.display"@,
            r@[8]@ == "tui.show_images"@,
            r@[9]@ == "tui.theme"@,
    {
        &[
            "api.key",
            "api.model",
            "api.base_url",
            "defaults.aspect_ratio",
            "defaults.size",
            "output.directory",
            "output.auto_download",
            "output.display",
            "tui.show_images",
            "tui.theme",
        ]
    }

    /// The aspect ratios the service offers.
    pub fn aspect_ratios() -> (r: &'static [&'static str])
        ensures
            r@.len() == 10,
            forall|i: int| 0 <= i < 10 ==> is_aspect_ratio(#[trigger] r@[i]@),
            r@[0]@ == "1:1"@,
            r@[1]@ == "2:3"@,
            r@[2]@ == "3:2"@,
            r@[3]@ == "3:4"@,
            r@[4]@ == "4:3"@,
            r@[5]@ == "4:5"@,
            r@[6]@ == "5:4"@,
            r@[7]@ == "9:16"@,
            r@[8]@ == "16:9"@,
            r@[9]@ == "21:9"@,
    {
        &["1:1", "2:3", "3:2", "3:4", "4:3", "4:5", "5:4", "9:16", "16:9", "21:9"]
    }

    /// The sizes the service offers.
    pub fn sizes() -> (r: &'static [&'static str])
        ensures
            r@.len() == 3,
            forall|i: int| 0 <= i < 3 ==> is_size(#[trigger] r@[i]@),
            r@[0]@ == "1K"@,
            r@[1]@ == "2K"@,
            r@[2]@ == "4K"@,
    {
        &["1K", "2K", "4K"]
    }

    /// The models the service offers.
    pub fn models() -> (r: &'static [&'static str])
        ensures
            r@.len() == 3,
            r@[0]@ == "gemini-3-pro-image-preview"@,
            r@[1]@ == "gemini-2.5-flash-image"@,
            r@[2]@ == "imagen-4.0-generate-001"@,
    {
        &["gemini-3-pro-image-preview", "gemini-2.5-flash-image", "imagen-4.0-generate-001"]
    }
}

} // verus!

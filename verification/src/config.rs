//! The editor's configuration: working directory, theme and tool commands,
//! with their built-in defaults and the rules by which a working directory is
//! chosen and changed.
//!
//! Reading and writing the configuration file is left to the host, which also
//! answers the one question these rules cannot: whether a path is a directory.

use crate::text::{trim, trim_spec};
use vstd::prelude::*;

verus! {

/// The view of an optional text.
pub open spec fn option_text(text: Option<String>) -> Option<Seq<char>> {
    match text {
        Some(t) => Some(t@),
        None => None,
    }
}

/// The view of an optional command line.
pub open spec fn option_command(command: Option<Vec<String>>) -> Option<Seq<Seq<char>>> {
    match command {
        Some(c) => Some(c.deep_view()),
        None => None,
    }
}

/// The command line `rumdl check`.
pub open spec fn lint_command_spec() -> Seq<Seq<char>> {
    seq!["rumdl"@, "check"@]
}

/// The command line `rumdl fmt`.
pub open spec fn format_command_spec() -> Seq<Seq<char>> {
    seq!["rumdl"@, "fmt"@]
}

/// Colours of the theme: a base palette and optional overrides, each a hex
/// string.
#[derive(Clone, Debug, PartialEq, Eq)]
pub struct ThemeConfig {
    pub base: String,
    pub background: Option<String>,
    pub panel: Option<String>,
    pub text: Option<String>,
    pub accent: Option<String>,
    pub hyperlink: Option<String>,
}

/// The lint and format commands, and whether each runs on the open file
/// itself rather than on a temporary copy.
#[derive(Clone, Debug, PartialEq, Eq)]
pub struct ToolsConfig {
    pub lint: Option<Vec<String>>,
    pub lint_use_open_file: bool,
    pub format: Option<Vec<String>>,
    pub format_use_open_file: bool,
}

/// The whole configuration.
#[derive(Clone, Debug, PartialEq, Eq)]
pub struct AppConfig {
    pub working_dir: Option<String>,
    pub theme: ThemeConfig,
    pub tools: ToolsConfig,
}

/// What came of loading the configuration file.
#[derive(Debug, PartialEq, Eq)]
pub enum ConfigLoad {
    /// There is no file, or no place to look for one.
    Missing,
    /// The file could not be read.
    Unreadable,
    /// The file could not be parsed.
    Invalid,
    /// The file was read and parsed.
    Parsed(AppConfig),
}

/// A theme as a mathematical value.
pub struct ThemeConfigView {
    pub base: Seq<char>,
    pub background: Option<Seq<char>>,
    pub panel: Option<Seq<char>>,
    pub text: Option<Seq<char>>,
    pub accent: Option<Seq<char>>,
    pub hyperlink: Option<Seq<char>>,
}

/// The tool commands as a mathematical value.
pub struct ToolsConfigView {
    pub lint: Option<Seq<Seq<char>>>,
    pub lint_use_open_file: bool,
    pub format: Option<Seq<Seq<char>>>,
    pub format_use_open_file: bool,
}

/// A configuration as a mathematical value.
pub struct AppConfigView {
    pub working_dir: Option<Seq<char>>,
    pub theme: ThemeConfigView,
    pub tools: ToolsConfigView,
}

impl View for ThemeConfig {
    type V = ThemeConfigView;

    open spec fn view(&self) -> ThemeConfigView {
        ThemeConfigView {
            base: self.base@,
            background: option_text(self.background),
            panel: option_text(self.panel),
            text: option_text(self.text),
            accent: option_text(self.accent),
            hyperlink: option_text(self.hyperlink),
        }
    }
}

impl View for ToolsConfig {
    type V = ToolsConfigView;

    open spec fn view(&self) -> ToolsConfigView {
        ToolsConfigView {
            lint: option_command(self.lint),
            lint_use_open_file: self.lint_use_open_file,
            format: option_command(self.format),
            format_use_open_file: self.format_use_open_file,
        }
    }
}

impl View for AppConfig {
    type V = AppConfigView;

    open spec fn view(&self) -> AppConfigView {
        AppConfigView {
            working_dir: option_text(self.working_dir),
            theme: self.theme@,
            tools: self.tools@,
        }
    }
}

impl ThemeConfigView {
    /// The dark palette with no overrides.
    pub open spec fn default_spec() -> ThemeConfigView {
        ThemeConfigView {
            base: "dark"@,
            background: None,
            panel: None,
            text: None,
            accent: None,
            hyperlink: None,
        }
    }
}

impl ToolsConfigView {
    /// `rumdl check` and `rumdl fmt`, each on a temporary copy.
    pub open spec fn default_spec() -> ToolsConfigView {
        ToolsConfigView {
            lint: Some(lint_command_spec()),
            lint_use_open_file: false,
            format: Some(format_command_spec()),
            format_use_open_file: false,
        }
    }
}

impl AppConfigView {
    /// No working directory, the default theme and the default tools.
    pub open spec fn default_spec() -> AppConfigView {
        AppConfigView {
            working_dir: None,
            theme: ThemeConfigView::default_spec(),
            tools: ToolsConfigView::default_spec(),
        }
    }

    /// The configuration with the working directory that the legacy settings
    /// name, if it has none of its own and the named path is a directory.
    pub open spec fn with_legacy(self, candidate: Seq<char>, is_dir: bool) -> AppConfigView {
        if self.working_dir is None && is_dir {
            AppConfigView { working_dir: Some(candidate), ..self }
        } else {
            self
        }
    }
}

/// The lint command used when none is configured: `rumdl check`.
pub fn default_lint_command() -> (command: Option<Vec<String>>)
    ensures
        option_command(command) == Some(lint_command_spec()),
{
    let mut command: Vec<String> = Vec::new();
    command.push(String::from_str("rumdl"));
    command.push(String::from_str("check"));
    proof {
        assert(command.deep_view() =~= lint_command_spec());
    }
    Some(command)
}

/// The format command used when none is configured: `rumdl fmt`.
pub fn default_format_command() -> (command: Option<Vec<String>>)
    ensures
        option_command(command) == Some(format_command_spec()),
{
    let mut command: Vec<String> = Vec::new();
    command.push(String::from_str("rumdl"));
    command.push(String::from_str("fmt"));
    proof {
        assert(command.deep_view() =~= format_command_spec());
    }
    Some(command)
}

impl Default for ThemeConfig {
    fn default() -> (theme: ThemeConfig)
        ensures
            theme@ == ThemeConfigView::default_spec(),
    {
        ThemeConfig {
            base: String::from_str("dark"),
            background: None,
            panel: None,
            text: None,
            accent: None,
            hyperlink: None,
        }
    }
}

impl Default for ToolsConfig {
    fn default() -> (tools: ToolsConfig)
        ensures
            tools@ == ToolsConfigView::default_spec(),
    {
        ToolsConfig {
            lint: default_lint_command(),
            lint_use_open_file: false,
            format: default_format_command(),
            format_use_open_file: false,
        }
    }
}

impl Default for AppConfig {
    fn default() -> (config: AppConfig)
        ensures
            config@ == AppConfigView::default_spec(),
    {
        AppConfig { working_dir: None, theme: ThemeConfig::default(), tools: ToolsConfig::default() }
    }
}

/// The path that a legacy settings file names: its contents without the white
/// space around them.
pub fn legacy_candidate(contents: &str) -> (candidate: String)
    ensures
        candidate@ == trim_spec(contents@),
{
    String::from_str(trim(contents))
}

/// Whether the defaults have to be written out: there is a place for the
/// configuration file and no file in it yet.
pub fn is_first_run(config_path_known: bool, config_file_exists: bool) -> (first: bool)
    ensures
        first == (config_path_known && !config_file_exists),
{
    config_path_known && !config_file_exists
}

impl AppConfig {
    /// The configuration to start from: the one that was parsed, or the
    /// defaults when the file is missing, unreadable or invalid.
    pub fn from_load(load: ConfigLoad) -> (config: AppConfig)
        ensures
            config@ == (match load {
                ConfigLoad::Parsed(parsed) => parsed@,
                _ => AppConfigView::default_spec(),
            }),
    {
        match load {
            ConfigLoad::Parsed(parsed) => parsed,
            _ => AppConfig::default(),
        }
    }

    /// Whether the legacy settings file has to be consulted: only when no
    /// working directory is configured.
    pub fn needs_legacy_working_dir(&self) -> (needed: bool)
        ensures
            needed == (self@.working_dir is None),
    {
        self.working_dir.is_none()
    }

    /// The working directory to start in: the configured one if there is one
    /// and it is a directory, else `current_dir`, which the configuration then
    /// records.
    pub fn initial_working_directory(
        &mut self,
        configured_is_dir: bool,
        current_dir: String,
    ) -> (working_dir: String)
        ensures
            working_dir@ == WorkspaceView::initial(
                old(self)@,
                configured_is_dir,
                current_dir@,
            ).working_dir,
            final(self)@ == WorkspaceView::initial(
                old(self)@,
                configured_is_dir,
                current_dir@,
            ).config,
    {
        if configured_is_dir {
            match &self.working_dir {
                Some(dir) => {
                    return dir.clone();
                },
                None => {},
            }
        }
        self.working_dir = Some(current_dir.clone());
        current_dir
    }

    /// Takes the working directory from the legacy settings, if none is
    /// configured and `candidate` is a directory.
    pub fn adopt_legacy_working_dir(&mut self, candidate: String, is_dir: bool)
        ensures
            final(self)@ == old(self)@.with_legacy(candidate@, is_dir),
    {
        if self.working_dir.is_none() && is_dir {
            self.working_dir = Some(candidate);
        }
    }
}

/// The working directory in use, together with the configuration that
/// remembers it.
#[derive(Debug, PartialEq, Eq)]
pub struct Workspace {
    pub working_dir: String,
    pub config: AppConfig,
}

/// A workspace as a mathematical value.
pub struct WorkspaceView {
    pub working_dir: Seq<char>,
    pub config: AppConfigView,
}

impl View for Workspace {
    type V = WorkspaceView;

    open spec fn view(&self) -> WorkspaceView {
        WorkspaceView { working_dir: self.working_dir@, config: self.config@ }
    }
}

impl WorkspaceView {
    /// The workspace at start: the configured directory if there is one and
    /// it is a directory, else the current directory, which the configuration
    /// then records.
    pub open spec fn initial(
        config: AppConfigView,
        configured_is_dir: bool,
        current_dir: Seq<char>,
    ) -> WorkspaceView {
        match config.working_dir {
            Some(dir) if configured_is_dir => WorkspaceView { working_dir: dir, config },
            _ => WorkspaceView {
                working_dir: current_dir,
                config: AppConfigView { working_dir: Some(current_dir), ..config },
            },
        }
    }

    /// The workspace after a request to move to `new_dir`: moved there if it
    /// is a directory, unchanged if not.
    pub open spec fn moved_to(self, new_dir: Seq<char>, is_dir: bool) -> WorkspaceView {
        if is_dir {
            WorkspaceView {
                working_dir: new_dir,
                config: AppConfigView { working_dir: Some(new_dir), ..self.config },
            }
        } else {
            self
        }
    }
}

impl Workspace {
    /// Chooses the working directory at start. `configured_is_dir` says
    /// whether the configured working directory, if any, is a directory;
    /// `current_dir` is the directory to fall back to.
    pub fn initial(config: AppConfig, configured_is_dir: bool, current_dir: String) -> (workspace:
        Workspace)
        ensures
            workspace@ == WorkspaceView::initial(config@, configured_is_dir, current_dir@),
    {
        let mut config = config;
        let working_dir = config.initial_working_directory(configured_is_dir, current_dir);
        Workspace { working_dir, config }
    }

    /// Moves to `new_dir` if it is a directory and says so; the host then
    /// writes the configuration out. A path that is no directory is rejected
    /// and the workspace stays as it was.
    pub fn set_working_directory(&mut self, new_dir: String, is_dir: bool) -> (accepted: bool)
        ensures
            accepted == is_dir,
            final(self)@ == old(self)@.moved_to(new_dir@, is_dir),
    {
        if is_dir {
            self.working_dir = new_dir.clone();
            self.config.working_dir = Some(new_dir);
            true
        } else {
            false
        }
    }
}

} // verus!

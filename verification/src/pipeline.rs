//! The run as a state machine: each step takes what the outside work handed
//! back and decides the next state and the next piece of outside work.

use vstd::prelude::*;
use vstd::string::StringExecFns;

use crate::config::{
    config_error_message, resolve_outcome, Config, ConfigError, ConfigErrorView, ConfigFile,
    ConfigView,
};
use crate::output::{
    content_changed, copy_bytes, differs, exit_code_after_write, option_bytes, written_exit_code,
    EXIT_CHANGED, EXIT_FAILURE, EXIT_SUCCESS,
};
use crate::package::{
    locate_outcome, location_error_message, LocationError, LocationErrorView, PackageIdentity,
    PackageIdentityView, WorkspaceMetadata, WorkspaceMetadataView,
};
use crate::settings::{settings_of, GeneratorSettings, GeneratorSettingsView};
use crate::text::{copy_option_text, join3, option_text, texts};

verus! {

/// What the user asked for.
#[derive(Debug)]
pub struct Options {
    /// Path of a package directory or of a file inside one.
    pub input: String,
    /// Lockfile to consult instead of the one that the resolver finds.
    pub lockfile: Option<String>,
    /// Name of the binding package, where the default choice is not wanted.
    pub package_name: Option<String>,
    /// Whether the metadata must be resolved afresh.
    pub clean: bool,
    /// File that holds metadata resolved beforehand.
    pub metadata_file: Option<String>,
    /// File to write the header to; the standard output where there is none.
    pub output: Option<String>,
    /// Whether a change of the output file is to be reported.
    pub verify: bool,
}

/// [`Options`] as mathematical values.
pub struct OptionsView {
    pub input: Seq<char>,
    pub lockfile: Option<Seq<char>>,
    pub package_name: Option<Seq<char>>,
    pub clean: bool,
    pub metadata_file: Option<Seq<char>>,
    pub output: Option<Seq<char>>,
    pub verify: bool,
}

/// What the metadata resolver is asked.
#[derive(Debug)]
pub struct LocateRequest {
    pub input: String,
    pub lockfile: Option<String>,
    pub package_name: Option<String>,
    pub clean: bool,
    pub metadata_file: Option<String>,
}

/// A [`LocateRequest`] as mathematical values.
pub struct LocateRequestView {
    pub input: Seq<char>,
    pub lockfile: Option<Seq<char>>,
    pub package_name: Option<Seq<char>>,
    pub clean: bool,
    pub metadata_file: Option<Seq<char>>,
}

/// Where a run stands.
#[derive(Debug)]
#[allow(inconsistent_fields)]
pub enum State {
    /// Nothing is known yet; the metadata is awaited.
    Start,
    /// The binding package is known; its configuration file is awaited.
    Located { identity: PackageIdentity },
    /// The binding package could not be located.
    LocationFailed { error: LocationError },
    /// The configuration is known; the settings are composed next.
    Configured { identity: PackageIdentity, config: Config },
    /// The configuration could not be had.
    ConfigurationFailed { error: ConfigError },
    /// The settings went to the generator; its artifact is awaited.
    VersionComposed,
    /// The version macros could not be composed: there is no namespace.
    VersionCompositionFailed,
    /// The artifact is there; the write is awaited.
    Generated { artifact: Vec<u8> },
    /// The generator failed, with its own message.
    GenerationFailed { message: String },
    /// The artifact was written; `changed` says whether a file's content changed.
    Written { changed: bool },
    /// The destination could not be written.
    WriteFailed { message: String },
}

/// A [`State`] as mathematical values.
#[allow(inconsistent_fields)]
pub enum StateView {
    Start,
    Located { identity: PackageIdentityView },
    LocationFailed { error: LocationErrorView },
    Configured { identity: PackageIdentityView, config: ConfigView },
    ConfigurationFailed { error: ConfigErrorView },
    VersionComposed,
    VersionCompositionFailed,
    Generated { artifact: Seq<u8> },
    GenerationFailed { message: Seq<char> },
    Written { changed: bool },
    WriteFailed { message: Seq<char> },
}

/// What the outside work handed back.
#[derive(Debug)]
pub enum Event {
    /// The resolver's report on the input path.
    MetadataResolved { metadata: WorkspaceMetadata },
    /// The resolver failed, with its message.
    MetadataUnresolved { message: String },
    /// What was found at `path`, the place of the configuration file.
    ConfigProbed { path: String, file: ConfigFile },
    /// No outside work was asked for.
    Proceeded,
    /// The generator's artifact.
    Generated { content: Vec<u8> },
    /// The generator failed, with its message.
    GenerationFailed { message: String },
    /// The output file was written; `previous` is what it held before, if it existed.
    FileWritten { previous: Option<Vec<u8>> },
    /// The artifact was written to the standard output.
    StreamWritten,
    /// The write failed, with its message.
    WriteFailed { message: String },
}

/// An [`Event`] as mathematical values.
pub enum EventView {
    MetadataResolved { metadata: WorkspaceMetadataView },
    MetadataUnresolved { message: Seq<char> },
    ConfigProbed { path: Seq<char>, file: ConfigFile },
    Proceeded,
    Generated { content: Seq<u8> },
    GenerationFailed { message: Seq<char> },
    FileWritten { previous: Option<Seq<u8>> },
    StreamWritten,
    WriteFailed { message: Seq<char> },
}

/// The outside work to do next.
#[derive(Debug)]
pub enum Action {
    /// Resolve the metadata of the package at the input path.
    ResolveMetadata { request: LocateRequest },
    /// Look for the configuration file directly inside `root`.
    ProbeConfig { root: String },
    /// Nothing to do outside: step again.
    Proceed,
    /// Run the binding generator on the located package.
    Generate { settings: GeneratorSettings },
    /// Write `content` to the file at `path`, and report what it held before.
    WriteFile { path: String, content: Vec<u8> },
    /// Write `content` to the standard output.
    WriteStream { content: Vec<u8> },
    /// End the process.
    Exit { code: i32 },
}

/// An [`Action`] as mathematical values.
pub enum ActionView {
    ResolveMetadata { request: LocateRequestView },
    ProbeConfig { root: Seq<char> },
    Proceed,
    Generate { settings: GeneratorSettingsView },
    WriteFile { path: Seq<char>, content: Seq<u8> },
    WriteStream { content: Seq<u8> },
    Exit { code: i32 },
}

impl View for Options {
    type V = OptionsView;

    open spec fn view(&self) -> OptionsView {
        OptionsView {
            input: self.input@,
            lockfile: option_text(self.lockfile),
            package_name: option_text(self.package_name),
            clean: self.clean,
            metadata_file: option_text(self.metadata_file),
            output: option_text(self.output),
            verify: self.verify,
        }
    }
}

impl View for LocateRequest {
    type V = LocateRequestView;

    open spec fn view(&self) -> LocateRequestView {
        LocateRequestView {
            input: self.input@,
            lockfile: option_text(self.lockfile),
            package_name: option_text(self.package_name),
            clean: self.clean,
            metadata_file: option_text(self.metadata_file),
        }
    }
}

impl View for State {
    type V = StateView;

    open spec fn view(&self) -> StateView {
        match *self {
            State::Start => StateView::Start,
            State::Located { identity } => StateView::Located { identity: identity@ },
            State::LocationFailed { error } => StateView::LocationFailed { error: error@ },
            State::Configured { identity, config } => StateView::Configured {
                identity: identity@,
                config: config@,
            },
            State::ConfigurationFailed { error } => StateView::ConfigurationFailed {
                error: error@,
            },
            State::VersionComposed => StateView::VersionComposed,
            State::VersionCompositionFailed => StateView::VersionCompositionFailed,
            State::Generated { artifact } => StateView::Generated { artifact: artifact@ },
            State::GenerationFailed { message } => StateView::GenerationFailed {
                message: message@,
            },
            State::Written { changed } => StateView::Written { changed },
            State::WriteFailed { message } => StateView::WriteFailed { message: message@ },
        }
    }
}

impl View for Event {
    type V = EventView;

    open spec fn view(&self) -> EventView {
        match *self {
            Event::MetadataResolved { metadata } => EventView::MetadataResolved {
                metadata: metadata@,
            },
            Event::MetadataUnresolved { message } => EventView::MetadataUnresolved {
                message: message@,
            },
            Event::ConfigProbed { path, file } => EventView::ConfigProbed { path: path@, file },
            Event::Proceeded => EventView::Proceeded,
            Event::Generated { content } => EventView::Generated { content: content@ },
            Event::GenerationFailed { message } => EventView::GenerationFailed {
                message: message@,
            },
            Event::FileWritten { previous } => EventView::FileWritten {
                previous: option_bytes(previous),
            },
            Event::StreamWritten => EventView::StreamWritten,
            Event::WriteFailed { message } => EventView::WriteFailed { message: message@ },
        }
    }
}

impl View for Action {
    type V = ActionView;

    open spec fn view(&self) -> ActionView {
        match *self {
            Action::ResolveMetadata { request } => ActionView::ResolveMetadata {
                request: request@,
            },
            Action::ProbeConfig { root } => ActionView::ProbeConfig { root: root@ },
            Action::Proceed => ActionView::Proceed,
            Action::Generate { settings } => ActionView::Generate { settings: settings@ },
            Action::WriteFile { path, content } => ActionView::WriteFile {
                path: path@,
                content: content@,
            },
            Action::WriteStream { content } => ActionView::WriteStream { content: content@ },
            Action::Exit { code } => ActionView::Exit { code },
        }
    }
}

/// Whether a run in `state` has ended.
pub open spec fn is_terminal(state: StateView) -> bool {
    is_failed(state) || state is Written
}

/// Whether a run in `state` has ended in failure.
pub open spec fn is_failed(state: StateView) -> bool {
    ||| state is LocationFailed
    ||| state is ConfigurationFailed
    ||| state is VersionCompositionFailed
    ||| state is GenerationFailed
    ||| state is WriteFailed
}

/// The exit code of a run that has ended in `state`: failure for the failed
/// states, and for a written artifact what the verify directive makes of it.
pub open spec fn exit_code(options: OptionsView, state: StateView) -> i32 {
    match state {
        StateView::Written { changed } => written_exit_code(options.verify, changed),
        _ => EXIT_FAILURE,
    }
}

/// The question that the options put to the metadata resolver.
pub open spec fn locate_request(options: OptionsView) -> LocateRequestView {
    LocateRequestView {
        input: options.input,
        lockfile: options.lockfile,
        package_name: options.package_name,
        clean: options.clean,
        metadata_file: options.metadata_file,
    }
}

/// The outside work that a run begins with.
pub open spec fn initial_action(options: OptionsView) -> ActionView {
    ActionView::ResolveMetadata { request: locate_request(options) }
}

/// The outside work that writes `content` where the options want it.
pub open spec fn write_action(options: OptionsView, content: Seq<u8>) -> ActionView {
    match options.output {
        Some(path) => ActionView::WriteFile { path, content },
        None => ActionView::WriteStream { content },
    }
}

/// The step from the start: the resolver's report gives the identity of the
/// binding package, or the run fails.
pub open spec fn after_start(options: OptionsView, event: EventView) -> (StateView, ActionView) {
    match event {
        EventView::MetadataResolved { metadata } => match locate_outcome(
            options.input,
            options.package_name,
            metadata,
        ) {
            Ok(identity) => (
                StateView::Located { identity },
                ActionView::ProbeConfig { root: identity.root_directory },
            ),
            Err(error) => (
                StateView::LocationFailed { error },
                ActionView::Exit { code: EXIT_FAILURE },
            ),
        },
        EventView::MetadataUnresolved { message } => (
            StateView::LocationFailed { error: LocationErrorView::Unresolved { message } },
            ActionView::Exit { code: EXIT_FAILURE },
        ),
        _ => (StateView::Start, ActionView::Exit { code: EXIT_FAILURE }),
    }
}

/// The step from a located package: what was found at the place of the
/// configuration file gives the configuration, or the run fails.
pub open spec fn after_located(identity: PackageIdentityView, event: EventView) -> (
    StateView,
    ActionView,
) {
    match event {
        EventView::ConfigProbed { path, file } => match resolve_outcome(path, file) {
            Ok(config) => (StateView::Configured { identity, config }, ActionView::Proceed),
            Err(error) => (
                StateView::ConfigurationFailed { error },
                ActionView::Exit { code: EXIT_FAILURE },
            ),
        },
        _ => (StateView::Located { identity }, ActionView::Exit { code: EXIT_FAILURE }),
    }
}

/// The step from a configured run: the settings are composed and go to the
/// generator, or the run fails for want of a namespace.
pub open spec fn after_configured(
    identity: PackageIdentityView,
    config: ConfigView,
    event: EventView,
) -> (StateView, ActionView) {
    match event {
        EventView::Proceeded => match settings_of(identity, config) {
            Ok(settings) => (StateView::VersionComposed, ActionView::Generate { settings }),
            Err(_) => (
                StateView::VersionCompositionFailed,
                ActionView::Exit { code: EXIT_FAILURE },
            ),
        },
        _ => (
            StateView::Configured { identity, config },
            ActionView::Exit { code: EXIT_FAILURE },
        ),
    }
}

/// The step from composed settings: the generator's artifact is to be
/// written, or the run fails with the generator's message.
pub open spec fn after_composed(options: OptionsView, event: EventView) -> (
    StateView,
    ActionView,
) {
    match event {
        EventView::Generated { content } => (
            StateView::Generated { artifact: content },
            write_action(options, content),
        ),
        EventView::GenerationFailed { message } => (
            StateView::GenerationFailed { message },
            ActionView::Exit { code: EXIT_FAILURE },
        ),
        _ => (StateView::VersionComposed, ActionView::Exit { code: EXIT_FAILURE }),
    }
}

/// The step from a generated artifact: the write is done, and a written
/// file is compared with what it held before, or the run fails with the
/// writer's message.
pub open spec fn after_generated(options: OptionsView, artifact: Seq<u8>, event: EventView) -> (
    StateView,
    ActionView,
) {
    match event {
        EventView::FileWritten { previous } if options.output is Some => {
            let changed = differs(previous, artifact);
            (
                StateView::Written { changed },
                ActionView::Exit { code: written_exit_code(options.verify, changed) },
            )
        },
        EventView::StreamWritten if options.output is None => (
            StateView::Written { changed: false },
            ActionView::Exit { code: EXIT_SUCCESS },
        ),
        EventView::WriteFailed { message } => (
            StateView::WriteFailed { message },
            ActionView::Exit { code: EXIT_FAILURE },
        ),
        _ => (StateView::Generated { artifact }, ActionView::Exit { code: EXIT_FAILURE }),
    }
}

/// One step of a run: the state after `event` and the outside work to do
/// next.
///
/// A run that has ended stays where it is and exits with its code. An event
/// that the state does not await ends the run with the failure code and
/// leaves the state as it is.
pub open spec fn next(options: OptionsView, state: StateView, event: EventView) -> (
    StateView,
    ActionView,
) {
    match state {
        StateView::Start => after_start(options, event),
        StateView::Located { identity } => after_located(identity, event),
        StateView::Configured { identity, config } => after_configured(identity, config, event),
        StateView::VersionComposed => after_composed(options, event),
        StateView::Generated { artifact } => after_generated(options, artifact, event),
        _ => (state, ActionView::Exit { code: exit_code(options, state) }),
    }
}

/// The step from the start.
fn step_from_start(options: &Options, event: Event) -> (r: (State, Action))
    ensures
        (r.0@, r.1@) == after_start(options@, event@),
{
    match event {
        Event::MetadataResolved { metadata } => {
            let explicit = match &options.package_name {
                Some(name) => Some(name.as_str()),
                None => None,
            };
            match PackageIdentity::locate(options.input.as_str(), explicit, &metadata) {
                Ok(identity) => {
                    let root = identity.root_directory.clone();
                    (State::Located { identity }, Action::ProbeConfig { root })
                },
                Err(error) => (
                    State::LocationFailed { error },
                    Action::Exit { code: EXIT_FAILURE },
                ),
            }
        },
        Event::MetadataUnresolved { message } => (
            State::LocationFailed { error: LocationError::Unresolved { message } },
            Action::Exit { code: EXIT_FAILURE },
        ),
        _ => (State::Start, Action::Exit { code: EXIT_FAILURE }),
    }
}

/// The step from a located package.
fn step_from_located(identity: PackageIdentity, event: Event) -> (r: (State, Action))
    ensures
        (r.0@, r.1@) == after_located(identity@, event@),
{
    match event {
        Event::ConfigProbed { path, file } => {
            match Config::from_root_or_default(path.as_str(), &file) {
                Ok(config) => (State::Configured { identity, config }, Action::Proceed),
                Err(error) => (
                    State::ConfigurationFailed { error },
                    Action::Exit { code: EXIT_FAILURE },
                ),
            }
        },
        _ => (State::Located { identity }, Action::Exit { code: EXIT_FAILURE }),
    }
}

/// The step from a configured run.
fn step_from_configured(identity: PackageIdentity, config: Config, event: Event) -> (r: (
    State,
    Action,
))
    ensures
        (r.0@, r.1@) == after_configured(identity@, config@, event@),
{
    match event {
        Event::Proceeded => match GeneratorSettings::compose(&identity, config) {
            Ok(settings) => (State::VersionComposed, Action::Generate { settings }),
            Err(_) => (State::VersionCompositionFailed, Action::Exit { code: EXIT_FAILURE }),
        },
        _ => (State::Configured { identity, config }, Action::Exit { code: EXIT_FAILURE }),
    }
}

/// The step from composed settings.
fn step_from_composed(options: &Options, event: Event) -> (r: (State, Action))
    ensures
        (r.0@, r.1@) == after_composed(options@, event@),
{
    match event {
        Event::Generated { content } => {
            let action = match &options.output {
                Some(path) => Action::WriteFile { path: path.clone(), content: copy_bytes(&content) },
                None => Action::WriteStream { content: copy_bytes(&content) },
            };
            (State::Generated { artifact: content }, action)
        },
        Event::GenerationFailed { message } => (
            State::GenerationFailed { message },
            Action::Exit { code: EXIT_FAILURE },
        ),
        _ => (State::VersionComposed, Action::Exit { code: EXIT_FAILURE }),
    }
}

/// The step from a generated artifact.
fn step_from_generated(options: &Options, artifact: Vec<u8>, event: Event) -> (r: (
    State,
    Action,
))
    ensures
        (r.0@, r.1@) == after_generated(options@, artifact@, event@),
{
    match event {
        Event::FileWritten { previous } => {
            if options.output.is_some() {
                let changed = content_changed(&previous, &artifact);
                (
                    State::Written { changed },
                    Action::Exit { code: exit_code_after_write(options.verify, changed) },
                )
            } else {
                (State::Generated { artifact }, Action::Exit { code: EXIT_FAILURE })
            }
        },
        Event::StreamWritten => {
            if options.output.is_none() {
                (State::Written { changed: false }, Action::Exit { code: EXIT_SUCCESS })
            } else {
                (State::Generated { artifact }, Action::Exit { code: EXIT_FAILURE })
            }
        },
        Event::WriteFailed { message } => (
            State::WriteFailed { message },
            Action::Exit { code: EXIT_FAILURE },
        ),
        _ => (State::Generated { artifact }, Action::Exit { code: EXIT_FAILURE }),
    }
}

/// The outside work that a run begins with: the question to the metadata
/// resolver. The run's first state is [`State::Start`].
pub fn begin(options: &Options) -> (r: Action)
    ensures
        r@ == initial_action(options@),
{
    Action::ResolveMetadata {
        request: LocateRequest {
            input: options.input.clone(),
            lockfile: copy_option_text(&options.lockfile),
            package_name: copy_option_text(&options.package_name),
            clean: options.clean,
            metadata_file: copy_option_text(&options.metadata_file),
        },
    }
}

/// Takes one step of a run: from the state and what the outside work handed
/// back to the next state and the outside work to do next.
pub fn step(options: &Options, state: State, event: Event) -> (r: (State, Action))
    ensures
        (r.0@, r.1@) == next(options@, state@, event@),
{
    match state {
        State::Start => step_from_start(options, event),
        State::Located { identity } => step_from_located(identity, event),
        State::Configured { identity, config } => step_from_configured(identity, config, event),
        State::VersionComposed => step_from_composed(options, event),
        State::Generated { artifact } => step_from_generated(options, artifact, event),
        State::LocationFailed { error } => (
            State::LocationFailed { error },
            Action::Exit { code: EXIT_FAILURE },
        ),
        State::ConfigurationFailed { error } => (
            State::ConfigurationFailed { error },
            Action::Exit { code: EXIT_FAILURE },
        ),
        State::VersionCompositionFailed => (
            State::VersionCompositionFailed,
            Action::Exit { code: EXIT_FAILURE },
        ),
        State::GenerationFailed { message } => (
            State::GenerationFailed { message },
            Action::Exit { code: EXIT_FAILURE },
        ),
        State::WriteFailed { message } => (
            State::WriteFailed { message },
            Action::Exit { code: EXIT_FAILURE },
        ),
        State::Written { changed } => (
            State::Written { changed },
            Action::Exit { code: exit_code_after_write(options.verify, changed) },
        ),
    }
}

/// What is said of a run that failed on the way to its bindings.
pub open spec fn cannot_generate(input: Seq<char>) -> Seq<char> {
    "Couldn't generate bindings for "@ + input + "."@
}

/// What is said of a verifying run that changed its output file.
pub open spec fn bindings_changed(file: Seq<char>) -> Seq<char> {
    "Bindings changed: "@ + file
}

/// What is said of a configuration without a namespace.
pub open spec fn namespace_missing_message() -> Seq<char> {
    "No namespace is configured: the version macros cannot be named."@
}

/// The lines that are logged as errors when a run has ended in `state`.
///
/// A run that failed before its artifact was there gives the message of its
/// error and then names the input. A failed write gives the writer's message.
/// A verifying run that changed its output file names the file. Every other
/// run gives nothing.
pub open spec fn report(options: OptionsView, state: StateView) -> Seq<Seq<char>> {
    match state {
        StateView::LocationFailed { error } => seq![
            location_error_message(error),
            cannot_generate(options.input),
        ],
        StateView::ConfigurationFailed { error } => seq![
            config_error_message(error),
            cannot_generate(options.input),
        ],
        StateView::VersionCompositionFailed => seq![
            namespace_missing_message(),
            cannot_generate(options.input),
        ],
        StateView::GenerationFailed { message } => seq![message, cannot_generate(options.input)],
        StateView::WriteFailed { message } => seq![message],
        StateView::Written { changed } => match options.output {
            Some(file) if options.verify && changed => seq![bindings_changed(file)],
            _ => Seq::empty(),
        },
        _ => Seq::empty(),
    }
}

/// The error lines of a run that failed on the way to its bindings.
fn failure_lines(options: &Options, message: String) -> (r: Vec<String>)
    ensures
        texts(r@) == seq![message@, cannot_generate(options@.input)],
{
    let mut lines: Vec<String> = Vec::new();
    lines.push(message);
    lines.push(join3("Couldn't generate bindings for ", options.input.as_str(), "."));
    assert(texts(lines@) =~= seq![message@, cannot_generate(options@.input)]);
    lines
}

/// The lines to log as errors when a run has ended in `state`.
pub fn report_lines(options: &Options, state: &State) -> (r: Vec<String>)
    ensures
        texts(r@) == report(options@, state@),
{
    let mut lines: Vec<String> = Vec::new();
    match state {
        State::LocationFailed { error } => {
            return failure_lines(options, error.message());
        },
        State::ConfigurationFailed { error } => {
            return failure_lines(options, error.message());
        },
        State::VersionCompositionFailed => {
            return failure_lines(
                options,
                String::from_str("No namespace is configured: the version macros cannot be named."),
            );
        },
        State::GenerationFailed { message } => {
            return failure_lines(options, message.clone());
        },
        State::WriteFailed { message } => {
            lines.push(message.clone());
            assert(texts(lines@) =~= seq![message@]);
        },
        State::Written { changed } => {
            match &options.output {
                Some(file) => {
                    if options.verify && *changed {
                        let mut line = String::from_str("Bindings changed: ");
                        line.append(file.as_str());
                        lines.push(line);
                        assert(texts(lines@) =~= seq![bindings_changed(file@)]);
                    } else {
                        assert(texts(lines@) =~= Seq::<Seq<char>>::empty());
                    }
                },
                None => {
                    assert(texts(lines@) =~= Seq::<Seq<char>>::empty());
                },
            }
        },
        _ => {
            assert(texts(lines@) =~= Seq::<Seq<char>>::empty());
        },
    }
    lines
}

/// A run that has failed stays failed: whatever comes, the state is kept and
/// the process is to exit with the failure code, which is not zero.
pub proof fn lemma_failed_states_are_terminal(
    options: OptionsView,
    state: StateView,
    event: EventView,
)
    requires
        is_failed(state),
    ensures
        next(options, state, event) == (state, ActionView::Exit { code: EXIT_FAILURE }),
        EXIT_FAILURE != 0,
{
}

/// A run that has ended stays where it is: whatever comes, the state is kept
/// and the process is to exit with the code of that state.
pub proof fn lemma_ended_runs_stay(options: OptionsView, state: StateView, event: EventView)
    requires
        is_terminal(state),
    ensures
        next(options, state, event) == (
            state,
            ActionView::Exit { code: exit_code(options, state) },
        ),
        is_terminal(next(options, state, event).0),
{
}

/// A run that has written its artifact has ended: whatever comes, the state
/// is kept, and the exit code is the one for drift exactly when the verify
/// directive is on and the content changed, else the one for success.
pub proof fn lemma_written_is_terminal(
    options: OptionsView,
    changed: bool,
    event: EventView,
)
    ensures
        next(options, StateView::Written { changed }, event) == (
            StateView::Written { changed },
            ActionView::Exit { code: if options.verify && changed {
                EXIT_CHANGED
            } else {
                EXIT_SUCCESS
            } },
        ),
{
}

/// Without a namespace the run fails right after its configuration: the
/// state is the failed composition and the process is to exit with the
/// failure code, so neither the generator nor a write is asked for.
pub proof fn lemma_missing_namespace_ends_run(
    options: OptionsView,
    identity: PackageIdentityView,
    config: ConfigView,
)
    requires
        config.namespace is None,
    ensures
        next(options, StateView::Configured { identity, config }, EventView::Proceeded) == (
            StateView::VersionCompositionFailed,
            ActionView::Exit { code: EXIT_FAILURE },
        ),
{
}

/// The generator is asked for only by a configured run whose configuration
/// has a namespace.
pub proof fn lemma_generation_needs_namespace(
    options: OptionsView,
    state: StateView,
    event: EventView,
)
    requires
        next(options, state, event).1 is Generate,
    ensures
        state matches StateView::Configured { config, .. } && config.namespace is Some,
        event is Proceeded,
{
}

/// A write is asked for only when the generator has handed over its
/// artifact, and it writes that artifact where the options say.
pub proof fn lemma_write_follows_generation(
    options: OptionsView,
    state: StateView,
    event: EventView,
)
    requires
        next(options, state, event).1 is WriteFile || next(options, state, event).1 is WriteStream,
    ensures
        state is VersionComposed,
        event matches EventView::Generated { content } && next(options, state, event).1
            == write_action(options, content),
        next(options, state, event).1 is WriteFile <==> options.output is Some,
{
}

/// Writing to a file the content that it already holds reports no drift:
/// the run ends with the success code, with or without the verify directive.
pub proof fn lemma_rewrite_reports_no_drift(options: OptionsView, content: Seq<u8>)
    requires
        options.output is Some,
    ensures
        next(
            options,
            StateView::Generated { artifact: content },
            EventView::FileWritten { previous: Some(content) },
        ) == (StateView::Written { changed: false }, ActionView::Exit { code: EXIT_SUCCESS }),
{
}

/// Every exit code is one of the three, and the one for drift is given only
/// by a verifying run that wrote a file whose content changed.
pub proof fn lemma_exit_codes(options: OptionsView, state: StateView, event: EventView)
    requires
        next(options, state, event).1 is Exit,
    ensures
        ({
            let code = next(options, state, event).1->code;
            &&& code == EXIT_SUCCESS || code == EXIT_FAILURE || code == EXIT_CHANGED
            &&& code == EXIT_CHANGED ==> options.verify && next(options, state, event).0
                == StateView::Written { changed: true }
        }),
{
}

/// The outside work that a run in `state` asks for, step by step, while
/// `events` come in, one after the other.
pub open spec fn actions_of(options: OptionsView, state: StateView, events: Seq<EventView>) -> Seq<
    ActionView,
>
    decreases events.len(),
{
    if events.len() == 0 {
        Seq::empty()
    } else {
        let (after, action) = next(options, state, events[0]);
        seq![action] + actions_of(options, after, events.drop_first())
    }
}

/// Whether a run in `state` can never get to its artifact: its configuration
/// has no namespace, or it has failed for want of one.
pub open spec fn lacks_namespace(state: StateView) -> bool {
    match state {
        StateView::Configured { config, .. } => config.namespace is None,
        StateView::VersionCompositionFailed => true,
        _ => false,
    }
}

/// Once the configuration is known to have no namespace, whatever events
/// come in, every step asks for the exit with the failure code: the
/// generator is never run and nothing is ever written.
pub proof fn lemma_no_output_without_namespace(
    options: OptionsView,
    state: StateView,
    events: Seq<EventView>,
)
    requires
        lacks_namespace(state),
    ensures
        actions_of(options, state, events).len() == events.len(),
        forall|i: int|
            0 <= i < events.len() ==> (#[trigger] actions_of(options, state, events)[i])
                == (ActionView::Exit { code: EXIT_FAILURE }),
    decreases events.len(),
{
    if events.len() > 0 {
        let (after, action) = next(options, state, events[0]);
        assert(lacks_namespace(after));
        assert(action == ActionView::Exit { code: EXIT_FAILURE });
        lemma_no_output_without_namespace(options, after, events.drop_first());
        let rest = actions_of(options, after, events.drop_first());
        assert forall|i: int| 0 <= i < events.len() implies (#[trigger] actions_of(
            options,
            state,
            events,
        )[i]) == (ActionView::Exit { code: EXIT_FAILURE }) by {
            if i > 0 {
                assert(actions_of(options, state, events)[i] == rest[i - 1]);
            }
        }
    }
}

} // verus!

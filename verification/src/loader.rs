//! Acquiring the configuration, step by step.
//!
//! Loading touches the disk several times: the configuration directory is
//! resolved, the settings file is looked for and, on the first run, written,
//! and its text is read. The loader decides what is to be done next and what a
//! failure means; the caller carries each request out and reports the reply.

use crate::configuration::{Configuration, ConfigurationView, DEFAULT_CONFIG, SETTINGS_FILE, TOKEN_FILE};
use crate::error::LoadError;
use crate::settings::{load_configuration, loaded, toml_entries};
use vstd::prelude::*;

verus! {

/// What the loader asks its caller to do.
#[derive(Debug, PartialEq, Eq)]
pub enum LoadRequest {
    /// Resolve the path of the file `name` inside the configuration directory,
    /// creating the directory where it does not exist.
    PlaceFile { name: &'static str },
    /// Find out whether a file exists at `path`.
    CheckExists { path: String },
    /// Create the file at `path` with `content`.
    WriteDefault { path: String, content: &'static str },
    /// Read the text of the file at `path`.
    ReadSettings { path: String },
}

/// What the caller reports back.
#[derive(Debug, PartialEq, Eq)]
pub enum LoadReply {
    /// The file's path was resolved and its directory exists.
    Placed { path: String },
    /// The configuration directory could not be resolved or created.
    PlaceFailed,
    /// Whether the file exists.
    Exists { present: bool },
    /// The file was written.
    Written,
    /// The file could not be created or written.
    WriteFailed,
    /// The text of the file.
    Contents { text: String },
    /// The file could not be read.
    ReadFailed,
}

/// Where the loader stands: the request that is pending, and the paths that
/// it has learnt so far.
#[derive(Debug, PartialEq, Eq)]
pub enum Loader {
    /// Waiting for the path of the settings file.
    PlacingSettings,
    /// Waiting to hear whether the settings file exists.
    CheckingSettings { settings_path: String },
    /// Waiting for the default settings file to be written.
    WritingDefault { settings_path: String },
    /// Waiting for the path of the credential file.
    PlacingToken { settings_path: String },
    /// Waiting for the text of the settings file.
    ReadingSettings { settings_path: String, token_path: String },
}

/// How the loader goes on after a reply.
#[derive(Debug, PartialEq, Eq)]
pub enum LoadProgress {
    /// The loader needs `request` carried out.
    Next { loader: Loader, request: LoadRequest },
    /// Loading has ended, with a configuration or with the reason for none.
    Done { result: Result<Configuration, LoadError> },
}

/// A request as a mathematical value.
pub enum LoadRequestView {
    PlaceFile { name: Seq<char> },
    CheckExists { path: Seq<char> },
    WriteDefault { path: Seq<char>, content: Seq<char> },
    ReadSettings { path: Seq<char> },
}

/// A reply as a mathematical value.
pub enum LoadReplyView {
    Placed { path: Seq<char> },
    PlaceFailed,
    Exists { present: bool },
    Written,
    WriteFailed,
    Contents { text: Seq<char> },
    ReadFailed,
}

/// A loader state as a mathematical value.
pub enum LoaderView {
    PlacingSettings,
    CheckingSettings { settings_path: Seq<char> },
    WritingDefault { settings_path: Seq<char> },
    PlacingToken { settings_path: Seq<char> },
    ReadingSettings { settings_path: Seq<char>, token_path: Seq<char> },
}

/// A step of progress as a mathematical value.
pub enum LoadProgressView {
    Next { loader: LoaderView, request: LoadRequestView },
    Done { result: Result<ConfigurationView, LoadError> },
}

impl View for LoadRequest {
    type V = LoadRequestView;

    open spec fn view(&self) -> LoadRequestView {
        match *self {
            LoadRequest::PlaceFile { name } => LoadRequestView::PlaceFile { name: name@ },
            LoadRequest::CheckExists { path } => LoadRequestView::CheckExists { path: path@ },
            LoadRequest::WriteDefault { path, content } => LoadRequestView::WriteDefault {
                path: path@,
                content: content@,
            },
            LoadRequest::ReadSettings { path } => LoadRequestView::ReadSettings { path: path@ },
        }
    }
}

impl View for LoadReply {
    type V = LoadReplyView;

    open spec fn view(&self) -> LoadReplyView {
        match *self {
            LoadReply::Placed { path } => LoadReplyView::Placed { path: path@ },
            LoadReply::PlaceFailed => LoadReplyView::PlaceFailed,
            LoadReply::Exists { present } => LoadReplyView::Exists { present },
            LoadReply::Written => LoadReplyView::Written,
            LoadReply::WriteFailed => LoadReplyView::WriteFailed,
            LoadReply::Contents { text } => LoadReplyView::Contents { text: text@ },
            LoadReply::ReadFailed => LoadReplyView::ReadFailed,
        }
    }
}

impl View for Loader {
    type V = LoaderView;

    open spec fn view(&self) -> LoaderView {
        match *self {
            Loader::PlacingSettings => LoaderView::PlacingSettings,
            Loader::CheckingSettings { settings_path } => LoaderView::CheckingSettings {
                settings_path: settings_path@,
            },
            Loader::WritingDefault { settings_path } => LoaderView::WritingDefault {
                settings_path: settings_path@,
            },
            Loader::PlacingToken { settings_path } => LoaderView::PlacingToken {
                settings_path: settings_path@,
            },
            Loader::ReadingSettings { settings_path, token_path } => LoaderView::ReadingSettings {
                settings_path: settings_path@,
                token_path: token_path@,
            },
        }
    }
}

impl View for LoadProgress {
    type V = LoadProgressView;

    open spec fn view(&self) -> LoadProgressView {
        match *self {
            LoadProgress::Next { loader, request } => LoadProgressView::Next {
                loader: loader@,
                request: request@,
            },
            LoadProgress::Done { result } => LoadProgressView::Done {
                result: match result {
                    Ok(config) => Ok(config@),
                    Err(error) => Err(error),
                },
            },
        }
    }
}

/// The request that opens a load: the path of the settings file.
pub open spec fn first_request() -> LoadRequestView {
    LoadRequestView::PlaceFile { name: SETTINGS_FILE@ }
}

/// The result of loading from `text` with `token_path` as the credential
/// path: the configuration that the text gives, or `InvalidConfig`.
pub open spec fn load_result(text: Seq<char>, token_path: Seq<char>) -> Result<
    ConfigurationView,
    LoadError,
> {
    match loaded(toml_entries(text), token_path) {
        Some(config) => Ok(config),
        None => Err(LoadError::InvalidConfig),
    }
}

/// How the loader in state `loader` goes on after `reply`.
///
/// The order is fixed: settings path, existence check, default file where
/// none exists, credential path, settings text. A reply that does not answer
/// the pending request counts as the failure of that request.
pub open spec fn advance_spec(loader: LoaderView, reply: LoadReplyView) -> LoadProgressView {
    match loader {
        LoaderView::PlacingSettings => match reply {
            LoadReplyView::Placed { path } => LoadProgressView::Next {
                loader: LoaderView::CheckingSettings { settings_path: path },
                request: LoadRequestView::CheckExists { path },
            },
            _ => LoadProgressView::Done { result: Err(LoadError::ConfigDir) },
        },
        LoaderView::CheckingSettings { settings_path } => match reply {
            LoadReplyView::Exists { present } => if present {
                LoadProgressView::Next {
                    loader: LoaderView::PlacingToken { settings_path },
                    request: LoadRequestView::PlaceFile { name: TOKEN_FILE@ },
                }
            } else {
                LoadProgressView::Next {
                    loader: LoaderView::WritingDefault { settings_path },
                    request: LoadRequestView::WriteDefault {
                        path: settings_path,
                        content: DEFAULT_CONFIG@,
                    },
                }
            },
            _ => LoadProgressView::Done { result: Err(LoadError::ConfigDir) },
        },
        LoaderView::WritingDefault { settings_path } => match reply {
            LoadReplyView::Written => LoadProgressView::Next {
                loader: LoaderView::PlacingToken { settings_path },
                request: LoadRequestView::PlaceFile { name: TOKEN_FILE@ },
            },
            _ => LoadProgressView::Done { result: Err(LoadError::ConfigFileWrite) },
        },
        LoaderView::PlacingToken { settings_path } => match reply {
            LoadReplyView::Placed { path } => LoadProgressView::Next {
                loader: LoaderView::ReadingSettings { settings_path, token_path: path },
                request: LoadRequestView::ReadSettings { path: settings_path },
            },
            _ => LoadProgressView::Done { result: Err(LoadError::ConfigDir) },
        },
        LoaderView::ReadingSettings { settings_path, token_path } => match reply {
            LoadReplyView::Contents { text } => LoadProgressView::Done {
                result: load_result(text, token_path),
            },
            _ => LoadProgressView::Done { result: Err(LoadError::InvalidConfig) },
        },
    }
}

impl Loader {
    /// Opens a load. The first thing to be done is to resolve the path of the
    /// settings file.
    pub fn start() -> (opening: (Loader, LoadRequest))
        ensures
            opening.0@ == LoaderView::PlacingSettings,
            opening.1@ == first_request(),
    {
        (Loader::PlacingSettings, LoadRequest::PlaceFile { name: SETTINGS_FILE })
    }

    /// Takes the reply to the pending request and says how loading goes on.
    ///
    /// The default settings file is asked for only when the settings file was
    /// reported absent, and before anything is read. The credential path of a
    /// configuration that comes out is the path that was reported for the
    /// credential file.
    pub fn advance(self, reply: LoadReply) -> (progress: LoadProgress)
        ensures
            progress@ == advance_spec(self@, reply@),
    {
        match self {
            Loader::PlacingSettings => match reply {
                LoadReply::Placed { path } => {
                    let settings_path = path.clone();
                    LoadProgress::Next {
                        loader: Loader::CheckingSettings { settings_path },
                        request: LoadRequest::CheckExists { path },
                    }
                },
                _ => LoadProgress::Done { result: Err(LoadError::ConfigDir) },
            },
            Loader::CheckingSettings { settings_path } => match reply {
                LoadReply::Exists { present } => if present {
                    LoadProgress::Next {
                        loader: Loader::PlacingToken { settings_path },
                        request: LoadRequest::PlaceFile { name: TOKEN_FILE },
                    }
                } else {
                    let path = settings_path.clone();
                    LoadProgress::Next {
                        loader: Loader::WritingDefault { settings_path },
                        request: LoadRequest::WriteDefault { path, content: DEFAULT_CONFIG },
                    }
                },
                _ => LoadProgress::Done { result: Err(LoadError::ConfigDir) },
            },
            Loader::WritingDefault { settings_path } => match reply {
                LoadReply::Written => LoadProgress::Next {
                    loader: Loader::PlacingToken { settings_path },
                    request: LoadRequest::PlaceFile { name: TOKEN_FILE },
                },
                _ => LoadProgress::Done { result: Err(LoadError::ConfigFileWrite) },
            },
            Loader::PlacingToken { settings_path } => match reply {
                LoadReply::Placed { path } => {
                    let read_from = settings_path.clone();
                    LoadProgress::Next {
                        loader: Loader::ReadingSettings { settings_path, token_path: path },
                        request: LoadRequest::ReadSettings { path: read_from },
                    }
                },
                _ => LoadProgress::Done { result: Err(LoadError::ConfigDir) },
            },
            Loader::ReadingSettings { settings_path, token_path } => match reply {
                LoadReply::Contents { text } => LoadProgress::Done {
                    result: load_configuration(text.as_str(), token_path),
                },
                _ => LoadProgress::Done { result: Err(LoadError::InvalidConfig) },
            },
        }
    }
}

/// The part of the disk that loading touches.
pub struct Disk {
    /// The text of the settings file, where the file exists.
    pub settings: Option<Seq<char>>,
    /// How often the settings file has been written.
    pub writes: nat,
}

/// Where the files of the configuration directory lie.
pub struct Layout {
    pub settings_path: Seq<char>,
    pub token_path: Seq<char>,
}

/// What a caller reports that carries `request` out on `disk` and meets no
/// failure on the way, and the disk that it leaves.
pub open spec fn carry_out(request: LoadRequestView, disk: Disk, layout: Layout) -> (
    LoadReplyView,
    Disk,
) {
    match request {
        LoadRequestView::PlaceFile { name } => (
            LoadReplyView::Placed {
                path: if name == TOKEN_FILE@ {
                    layout.token_path
                } else {
                    layout.settings_path
                },
            },
            disk,
        ),
        LoadRequestView::CheckExists { path } => (
            LoadReplyView::Exists { present: disk.settings is Some },
            disk,
        ),
        LoadRequestView::WriteDefault { path, content } => (
            LoadReplyView::Written,
            Disk { settings: Some(content), writes: disk.writes + 1 },
        ),
        LoadRequestView::ReadSettings { path } => (
            match disk.settings {
                Some(text) => LoadReplyView::Contents { text },
                None => LoadReplyView::ReadFailed,
            },
            disk,
        ),
    }
}

/// The result of at most `budget` requests, starting with `request` pending
/// in state `loader`, and the disk that they leave. The result is `None`
/// where the loader has not finished by then.
pub open spec fn run(
    loader: LoaderView,
    request: LoadRequestView,
    disk: Disk,
    layout: Layout,
    budget: nat,
) -> (Option<Result<ConfigurationView, LoadError>>, Disk)
    decreases budget,
{
    if budget == 0 {
        (None, disk)
    } else {
        let (reply, after) = carry_out(request, disk, layout);
        match advance_spec(loader, reply) {
            LoadProgressView::Next { loader, request } => run(
                loader,
                request,
                after,
                layout,
                (budget - 1) as nat,
            ),
            LoadProgressView::Done { result } => (Some(result), after),
        }
    }
}

/// A whole load on `disk`: its result and the disk that it leaves. No load
/// makes more than five requests.
pub open spec fn load_on(disk: Disk, layout: Layout) -> (
    Option<Result<ConfigurationView, LoadError>>,
    Disk,
) {
    run(LoaderView::PlacingSettings, first_request(), disk, layout, 5)
}

/// Two loads in a row, where no settings file exists before the first, write
/// the file once: the first load leaves it with the default content, and the
/// second neither changes nor rewrites it. Both give the configuration that
/// the default content describes.
pub proof fn lemma_default_is_written_once(layout: Layout)
    ensures
        ({
            let first = load_on(Disk { settings: None, writes: 0 }, layout);
            let second = load_on(first.1, layout);
            &&& first.1 == Disk { settings: Some(DEFAULT_CONFIG@), writes: 1 }
            &&& second.1 == first.1
            &&& first.0 == Some(load_result(DEFAULT_CONFIG@, layout.token_path))
            &&& second.0 == first.0
        }),
{
    reveal_with_fuel(run, 6);
}

/// A load never touches a settings file that exists: the disk is left as it
/// was found, and the result is what the file's text gives.
pub proof fn lemma_existing_file_is_kept(disk: Disk, layout: Layout)
    requires
        disk.settings is Some,
    ensures
        load_on(disk, layout).1 == disk,
        load_on(disk, layout).0 == Some(load_result(disk.settings->0, layout.token_path)),
{
    reveal_with_fuel(run, 6);
}

/// Whatever the settings file holds, a configuration that a load gives has
/// the resolved credential path as its credential path.
pub proof fn lemma_credential_path_is_derived(disk: Disk, layout: Layout)
    ensures
        load_on(disk, layout).0 matches Some(Ok(config)) ==> config.token_path == Some(
            layout.token_path,
        ),
{
    reveal_with_fuel(run, 6);
}

} // verus!

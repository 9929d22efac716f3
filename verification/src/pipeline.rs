//! The launch as a state machine.
//!
//! A launch is a fixed sequence of steps: the token, the manifest list, the
//! image manifest, each layer in turn, the preparation of the isolated root,
//! the change of root, the request for a process-id namespace, and the
//! target command. The machine hands out one [`Action`] at a time and takes
//! the outcome back as an [`Event`]. The first failure ends the launch: no
//! later step is taken, and the target command is never run.

use vstd::prelude::*;
use vstd::string::*;

use crate::error::ErrorKind;
use crate::layer::{decompress_layer, gzip_member};
use crate::manifest::{
    layer_views, selection, select_platform, ImageLayer, ImageLayerView, ImageManifest,
    ImageManifestView, ManifestResponse, ManifestView,
};
use crate::reference::{parse_image, parsed_reference};
use crate::request::{
    auth_request, download_layer_request, fetch_image_manifest_request, fetch_manifest_request,
    image_manifest_request, layer_request, manifest_list_request, token_request, Request,
    RequestView,
};
use crate::root::{below, path_below, BIN_DIRECTORY, HELPER, NULL_DEVICE};

verus! {

/// One step of a launch, in the order in which the steps are taken. The
/// steps for a layer carry the layer's position in the image manifest.
#[derive(Clone, Copy, Debug, PartialEq, Eq, Structural)]
pub enum Step {
    /// The image reference is split into name and tag.
    Reference,
    /// A pull-scoped token is asked for.
    Token,
    /// The manifest list is fetched.
    ManifestList,
    /// The image manifest of the chosen platform is fetched.
    ImageManifest,
    /// The blob of a layer is downloaded.
    Download(usize),
    /// The archive of a layer is extracted into the isolated root.
    Unpack(usize),
    /// The isolated root is created.
    CreateRoot,
    /// The directory for the helper binary is created.
    CreateBinDirectory,
    /// The placeholder for the null device is created.
    CreateNullDevice,
    /// The helper binary is copied into the isolated root.
    CopyHelper,
    /// The filesystem root of the process is changed.
    ChangeRoot,
    /// A new process-id namespace is requested.
    NewPidNamespace,
    /// The target command runs.
    Run,
}

/// The failure that ended a launch: its kind, and the step that failed.
#[derive(Clone, Copy, Debug, PartialEq, Eq, Structural)]
pub struct Failure {
    pub kind: ErrorKind,
    pub step: Step,
}

/// Where a launch stands.
#[derive(Clone, Copy, Debug, PartialEq, Eq, Structural)]
pub enum Stage {
    /// The outcome of this step is awaited.
    Pending(Step),
    /// The target command has ended and the launcher exits with this code.
    Exited(i32),
    /// The launch was given up.
    Aborted(Failure),
}

/// How an action went wrong, as far as the driver can tell.
#[derive(Clone, Copy, Debug, PartialEq, Eq, Structural)]
pub enum Fault {
    /// The action could not be carried out.
    Failed,
    /// The action brought back data that could not be decoded.
    Undecodable,
}

/// The outcome of the action that was handed out last.
#[derive(Clone, Debug, PartialEq, Eq)]
pub enum Event {
    /// The token service answered with this token.
    Token(String),
    /// The registry answered with this manifest list.
    ManifestList(ManifestResponse),
    /// The registry answered with this image manifest.
    ImageManifest(ImageManifest),
    /// The registry answered with this blob; the whole body is held here.
    Layer(Vec<u8>),
    /// An action that brings nothing back has succeeded.
    Done,
    /// The target command has ended, with an exit code unless a signal
    /// ended it.
    Exited(Option<i32>),
    /// The action failed.
    Failed(Fault),
}

/// An [`Event`] as plain values.
pub enum EventView {
    Token(Seq<char>),
    ManifestList(Seq<ManifestView>),
    ImageManifest(ImageManifestView),
    Layer(Seq<u8>),
    Done,
    Exited(Option<i32>),
    Failed(Fault),
}

impl View for Event {
    type V = EventView;

    open spec fn view(&self) -> EventView {
        match self {
            Event::Token(token) => EventView::Token(token@),
            Event::ManifestList(list) => EventView::ManifestList(list@),
            Event::ImageManifest(manifest) => EventView::ImageManifest(manifest@),
            Event::Layer(blob) => EventView::Layer(blob@),
            Event::Done => EventView::Done,
            Event::Exited(status) => EventView::Exited(*status),
            Event::Failed(fault) => EventView::Failed(*fault),
        }
    }
}

/// What the driver is to do next.
#[derive(Clone, Debug, PartialEq, Eq)]
pub enum Action {
    /// Send the request and decode the response body as a token response.
    FetchToken(Request),
    /// Send the request and decode the response body as a manifest list.
    FetchManifestList(Request),
    /// Send the request and decode the response body as an image manifest.
    FetchImageManifest(Request),
    /// Send the request and buffer the whole response body.
    FetchLayer(Request),
    /// Extract every entry of the archive into the directory `root`,
    /// overwriting what is there.
    Unpack { archive: Vec<u8>, root: String },
    /// Create the directory and its parents; one that exists is no failure.
    CreateDirectory(String),
    /// Copy the file at `from` to `to`.
    CopyFile { from: String, to: String },
    /// Change the filesystem root of the process to this directory.
    ChangeRoot(String),
    /// Request a new process-id namespace for the process.
    NewPidNamespace,
    /// Run the command with these arguments, its output and error streams
    /// connected to the launcher's own, and wait for it to end.
    Run { command: String, args: Vec<String> },
    /// Exit with this code.
    Exit(i32),
    /// Report the failure and give up.
    Abort(Failure),
}

/// An [`Action`] as plain values.
pub enum ActionView {
    FetchToken(RequestView),
    FetchManifestList(RequestView),
    FetchImageManifest(RequestView),
    FetchLayer(RequestView),
    Unpack { archive: Seq<u8>, root: Seq<char> },
    CreateDirectory(Seq<char>),
    CopyFile { from: Seq<char>, to: Seq<char> },
    ChangeRoot(Seq<char>),
    NewPidNamespace,
    Run { command: Seq<char>, args: Seq<Seq<char>> },
    Exit(i32),
    Abort(Failure),
}

/// The strings of `v`, each by its view.
pub open spec fn string_views(v: Seq<String>) -> Seq<Seq<char>> {
    v.map_values(|s: String| s@)
}

impl View for Action {
    type V = ActionView;

    open spec fn view(&self) -> ActionView {
        match self {
            Action::FetchToken(request) => ActionView::FetchToken(request@),
            Action::FetchManifestList(request) => ActionView::FetchManifestList(request@),
            Action::FetchImageManifest(request) => ActionView::FetchImageManifest(request@),
            Action::FetchLayer(request) => ActionView::FetchLayer(request@),
            Action::Unpack { archive, root } => ActionView::Unpack {
                archive: archive@,
                root: root@,
            },
            Action::CreateDirectory(path) => ActionView::CreateDirectory(path@),
            Action::CopyFile { from, to } => ActionView::CopyFile { from: from@, to: to@ },
            Action::ChangeRoot(path) => ActionView::ChangeRoot(path@),
            Action::NewPidNamespace => ActionView::NewPidNamespace,
            Action::Run { command, args } => ActionView::Run {
                command: command@,
                args: string_views(args@),
            },
            Action::Exit(code) => ActionView::Exit(*code),
            Action::Abort(failure) => ActionView::Abort(*failure),
        }
    }
}

/// The state of a launch.
#[derive(Clone, Debug, PartialEq, Eq)]
pub struct Pipeline {
    name: String,
    tag: String,
    token: String,
    layers: Vec<ImageLayer>,
    command: String,
    args: Vec<String>,
    root: String,
    stage: Stage,
}

/// The state of a launch as plain values: the image's name and tag, the
/// token (empty until it is known), the layers of the image manifest (none
/// until it is known), the target command and its arguments, the isolated
/// root, and the stage.
pub struct PipelineView {
    pub name: Seq<char>,
    pub tag: Seq<char>,
    pub token: Seq<char>,
    pub layers: Seq<ImageLayerView>,
    pub command: Seq<char>,
    pub args: Seq<Seq<char>>,
    pub root: Seq<char>,
    pub stage: Stage,
}

impl View for Pipeline {
    type V = PipelineView;

    closed spec fn view(&self) -> PipelineView {
        PipelineView {
            name: self.name@,
            tag: self.tag@,
            token: self.token@,
            layers: layer_views(self.layers@),
            command: self.command@,
            args: string_views(self.args@),
            root: self.root@,
            stage: self.stage,
        }
    }
}

impl PipelineView {
    /// The layers can be counted in a machine word, as those of every
    /// [`Pipeline`] can.
    pub open spec fn wf(self) -> bool {
        self.layers.len() <= usize::MAX
    }
}

impl EventView {
    /// The layers of an image manifest can be counted in a machine word, as
    /// those of every [`Event`] can.
    pub open spec fn wf(self) -> bool {
        self matches EventView::ImageManifest(manifest) ==> manifest.layers.len() <= usize::MAX
    }
}

/// The view of a state is well formed.
pub proof fn lemma_pipeline_wf(pipeline: Pipeline)
    ensures
        pipeline@.wf(),
{
    assert(pipeline.layers.len() == pipeline.layers@.len());
}

/// The view of an event is well formed.
pub proof fn lemma_event_wf(event: Event)
    ensures
        event@.wf(),
{
    if let Event::ImageManifest(manifest) = event {
        assert(manifest.layers.len() == manifest.layers@.len());
    }
}

/// The exit code of the launcher for a target command that ended with
/// `status`: the command's own exit code, or 1 where it has none.
pub open spec fn exit_code_of(status: Option<i32>) -> i32 {
    match status {
        Some(code) => code,
        None => 1,
    }
}

/// The kind of failure that a fault at `step` is.
///
/// A fetch fails in transport, unless what it brought back could not be
/// decoded. Unpacking fails on the filesystem, unless the archive could not
/// be decoded. Whatever prepares or changes the root fails on the
/// filesystem.
pub open spec fn classify(step: Step, fault: Fault) -> ErrorKind {
    match step {
        Step::Reference => ErrorKind::ReferenceFormat,
        Step::Token | Step::ManifestList | Step::ImageManifest | Step::Download(_) => match fault {
            Fault::Failed => ErrorKind::Transport,
            Fault::Undecodable => ErrorKind::Decode,
        },
        Step::Unpack(_) => match fault {
            Fault::Failed => ErrorKind::Filesystem,
            Fault::Undecodable => ErrorKind::Decode,
        },
        Step::CreateRoot
        | Step::CreateBinDirectory
        | Step::CreateNullDevice
        | Step::CopyHelper
        | Step::ChangeRoot => ErrorKind::Filesystem,
        Step::NewPidNamespace => ErrorKind::IsolationSetup,
        Step::Run => ErrorKind::ProcessSpawn,
    }
}

/// The launch is given up for `failure`.
pub open spec fn abort(s: PipelineView, failure: Failure) -> (PipelineView, ActionView) {
    (PipelineView { stage: Stage::Aborted(failure), ..s }, ActionView::Abort(failure))
}

/// The launch goes on with `step`, for which `action` is handed out.
pub open spec fn advance(s: PipelineView, step: Step, action: ActionView) -> (
    PipelineView,
    ActionView,
) {
    (PipelineView { stage: Stage::Pending(step), ..s }, action)
}

/// What follows once the layers before position `i` are unpacked: the
/// download of layer `i`, or, where there is no such layer, the creation of
/// the isolated root.
pub open spec fn proceed_to_layer(s: PipelineView, i: int) -> (PipelineView, ActionView) {
    if 0 <= i < s.layers.len() {
        advance(
            s,
            Step::Download(i as usize),
            ActionView::FetchLayer(layer_request(s.name, s.token, s.layers[i])),
        )
    } else {
        advance(s, Step::CreateRoot, ActionView::CreateDirectory(s.root))
    }
}

/// What follows once the blob of the pending download has been decompressed
/// to `archive`, or could not be (`None`): the archive is unpacked into the
/// isolated root, or the launch is given up for a decode error. Where no
/// download is pending, the outcome answers no action.
pub open spec fn next_decoded(s: PipelineView, archive: Option<Seq<u8>>) -> (
    PipelineView,
    ActionView,
) {
    match s.stage {
        Stage::Exited(code) => (s, ActionView::Exit(code)),
        Stage::Aborted(failure) => (s, ActionView::Abort(failure)),
        Stage::Pending(Step::Download(i)) => match archive {
            Some(archive) => advance(
                s,
                Step::Unpack(i),
                ActionView::Unpack { archive, root: s.root },
            ),
            None => abort(s, Failure { kind: ErrorKind::Decode, step: Step::Download(i) }),
        },
        Stage::Pending(step) => abort(s, Failure { kind: ErrorKind::UnexpectedEvent, step }),
    }
}

/// What follows when the pending `step` of `s` has succeeded with `e`, an
/// event other than a failure and other than a blob.
pub open spec fn answered(s: PipelineView, step: Step, e: EventView) -> (
    PipelineView,
    ActionView,
) {
    match (step, e) {
        (Step::Token, EventView::Token(token)) => advance(
            PipelineView { token, ..s },
            Step::ManifestList,
            ActionView::FetchManifestList(manifest_list_request(s.name, s.tag, token)),
        ),
        (Step::ManifestList, EventView::ManifestList(list)) => match selection(list) {
            Some(i) => advance(
                s,
                Step::ImageManifest,
                ActionView::FetchImageManifest(image_manifest_request(s.name, s.token, list[i])),
            ),
            None => abort(s, Failure { kind: ErrorKind::PlatformNotFound, step }),
        },
        (Step::ImageManifest, EventView::ImageManifest(manifest)) => proceed_to_layer(
            PipelineView { layers: manifest.layers, ..s },
            0,
        ),
        (Step::Unpack(i), EventView::Done) => proceed_to_layer(s, i + 1),
        (Step::CreateRoot, EventView::Done) => advance(
            s,
            Step::CreateBinDirectory,
            ActionView::CreateDirectory(below(s.root, BIN_DIRECTORY@)),
        ),
        (Step::CreateBinDirectory, EventView::Done) => advance(
            s,
            Step::CreateNullDevice,
            ActionView::CreateDirectory(below(s.root, NULL_DEVICE@)),
        ),
        (Step::CreateNullDevice, EventView::Done) => advance(
            s,
            Step::CopyHelper,
            ActionView::CopyFile { from: HELPER@, to: below(s.root, HELPER@) },
        ),
        (Step::CopyHelper, EventView::Done) => advance(
            s,
            Step::ChangeRoot,
            ActionView::ChangeRoot(s.root),
        ),
        (Step::ChangeRoot, EventView::Done) => advance(
            s,
            Step::NewPidNamespace,
            ActionView::NewPidNamespace,
        ),
        (Step::NewPidNamespace, EventView::Done) => advance(
            s,
            Step::Run,
            ActionView::Run { command: s.command, args: s.args },
        ),
        (Step::Run, EventView::Exited(status)) => (
            PipelineView { stage: Stage::Exited(exit_code_of(status)), ..s },
            ActionView::Exit(exit_code_of(status)),
        ),
        _ => abort(s, Failure { kind: ErrorKind::UnexpectedEvent, step }),
    }
}

/// The state that follows `s` on the event `e`, and the action that is
/// handed out with it.
///
/// A launch that has ended stays as it is and repeats its last word. A
/// failure ends the launch, whatever step was pending. A blob is
/// decompressed first. Any other event must answer the pending step.
pub open spec fn next(s: PipelineView, e: EventView) -> (PipelineView, ActionView) {
    match s.stage {
        Stage::Exited(code) => (s, ActionView::Exit(code)),
        Stage::Aborted(failure) => (s, ActionView::Abort(failure)),
        Stage::Pending(step) => match e {
            EventView::Failed(fault) => abort(s, Failure { kind: classify(step, fault), step }),
            EventView::Layer(blob) => next_decoded(s, gzip_member(blob)),
            _ => answered(s, step, e),
        },
    }
}

/// The first state of the launch of `command` with `args` from the image
/// `image` inside `root`, and the first action.
///
/// A reference with more than one colon ends the launch at once. Otherwise
/// the first action asks for a token for the image's name.
pub open spec fn launch(
    image: Seq<char>,
    command: Seq<char>,
    args: Seq<Seq<char>>,
    root: Seq<char>,
) -> (PipelineView, ActionView) {
    let blank = PipelineView {
        name: Seq::empty(),
        tag: Seq::empty(),
        token: Seq::empty(),
        layers: Seq::empty(),
        command,
        args,
        root,
        stage: Stage::Pending(Step::Reference),
    };
    match parsed_reference(image) {
        Some((name, tag)) => advance(
            PipelineView { name, tag, ..blank },
            Step::Token,
            ActionView::FetchToken(token_request(name)),
        ),
        None => abort(blank, Failure { kind: ErrorKind::ReferenceFormat, step: Step::Reference }),
    }
}

/// The exit code of the launcher for a target command that ended with
/// `status`.
pub fn exit_code(status: Option<i32>) -> (code: i32)
    ensures
        code == exit_code_of(status),
        status matches Some(c) ==> code == c,
        status is None ==> code == 1,
{
    match status {
        Some(code) => code,
        None => 1,
    }
}

/// The kind of failure that a fault at `step` is.
pub fn classify_fault(step: Step, fault: Fault) -> (kind: ErrorKind)
    ensures
        kind == classify(step, fault),
{
    match step {
        Step::Reference => ErrorKind::ReferenceFormat,
        Step::Token | Step::ManifestList | Step::ImageManifest | Step::Download(_) => match fault {
            Fault::Failed => ErrorKind::Transport,
            Fault::Undecodable => ErrorKind::Decode,
        },
        Step::Unpack(_) => match fault {
            Fault::Failed => ErrorKind::Filesystem,
            Fault::Undecodable => ErrorKind::Decode,
        },
        Step::CreateRoot
        | Step::CreateBinDirectory
        | Step::CreateNullDevice
        | Step::CopyHelper
        | Step::ChangeRoot => ErrorKind::Filesystem,
        Step::NewPidNamespace => ErrorKind::IsolationSetup,
        Step::Run => ErrorKind::ProcessSpawn,
    }
}

/// A copy of `v`.
fn copy_strings(v: &Vec<String>) -> (r: Vec<String>)
    ensures
        string_views(r@) == string_views(v@),
{
    let mut r: Vec<String> = Vec::new();
    let mut i: usize = 0;
    while i < v.len()
        invariant
            i <= v.len(),
            r.len() == i,
            forall|j: int| 0 <= j < i ==> r@[j]@ == v@[j]@,
        decreases v.len() - i,
    {
        r.push(v[i].clone());
        i = i + 1;
    }
    r
}

impl Pipeline {
    /// Where the launch stands.
    pub fn stage(&self) -> (stage: Stage)
        ensures
            stage == self@.stage,
    {
        self.stage
    }

    /// Whether the launch has ended: the launcher has been told to exit or
    /// to give up.
    pub fn is_finished(&self) -> (finished: bool)
        ensures
            finished == !(self@.stage is Pending),
    {
        match self.stage {
            Stage::Pending(_) => false,
            _ => true,
        }
    }

    /// Begins the launch of `command` with `args` from the image `image`
    /// inside the isolated root `root`.
    pub fn start(image: &str, command: String, args: Vec<String>, root: String) -> (r: (
        Pipeline,
        Action,
    ))
        ensures
            (r.0@, r.1@) == launch(image@, command@, string_views(args@), root@),
    {
        match parse_image(image) {
            Ok((name, tag)) => {
                let action = Action::FetchToken(auth_request(name.as_str()));
                let pipeline = Pipeline {
                    name,
                    tag,
                    token: String::new(),
                    layers: Vec::new(),
                    command,
                    args,
                    root,
                    stage: Stage::Pending(Step::Token),
                };
                proof {
                    assert(pipeline@.layers =~= Seq::empty());
                }
                (pipeline, action)
            },
            Err(_) => {
                let failure = Failure { kind: ErrorKind::ReferenceFormat, step: Step::Reference };
                let pipeline = Pipeline {
                    name: String::new(),
                    tag: String::new(),
                    token: String::new(),
                    layers: Vec::new(),
                    command,
                    args,
                    root,
                    stage: Stage::Aborted(failure),
                };
                proof {
                    assert(pipeline@.layers =~= Seq::empty());
                }
                (pipeline, Action::Abort(failure))
            },
        }
    }

    /// Gives the launch up for `failure`.
    fn give_up(self, failure: Failure) -> (r: (Pipeline, Action))
        ensures
            (r.0@, r.1@) == abort(self@, failure),
    {
        (Pipeline { stage: Stage::Aborted(failure), ..self }, Action::Abort(failure))
    }

    /// Goes on to the download of layer `i`, or to the creation of the
    /// isolated root where there is no such layer.
    fn go_to_layer(self, i: usize) -> (r: (Pipeline, Action))
        ensures
            (r.0@, r.1@) == proceed_to_layer(self@, i as int),
    {
        if i < self.layers.len() {
            let request = download_layer_request(
                self.name.as_str(),
                self.token.as_str(),
                &self.layers[i],
            );
            (Pipeline { stage: Stage::Pending(Step::Download(i)), ..self }, Action::FetchLayer(request))
        } else {
            let root = self.root.clone();
            (Pipeline { stage: Stage::Pending(Step::CreateRoot), ..self }, Action::CreateDirectory(root))
        }
    }

    /// Takes the step that follows when the blob of the pending download has
    /// been decompressed to `archive`, or could not be (`None`).
    pub fn step_decoded(self, archive: Option<Vec<u8>>) -> (r: (Pipeline, Action))
        ensures
            (r.0@, r.1@) == next_decoded(
                self@,
                match archive {
                    Some(a) => Some(a@),
                    None => None,
                },
            ),
    {
        match self.stage {
            Stage::Exited(code) => (self, Action::Exit(code)),
            Stage::Aborted(failure) => (self, Action::Abort(failure)),
            Stage::Pending(Step::Download(i)) => match archive {
                Some(archive) => {
                    let root = self.root.clone();
                    (
                        Pipeline { stage: Stage::Pending(Step::Unpack(i)), ..self },
                        Action::Unpack { archive, root },
                    )
                },
                None => self.give_up(Failure { kind: ErrorKind::Decode, step: Step::Download(i) }),
            },
            Stage::Pending(step) => self.give_up(
                Failure { kind: ErrorKind::UnexpectedEvent, step },
            ),
        }
    }

    /// Takes the step that follows on `event`, the outcome of the action
    /// that was handed out last, and hands out the next action.
    pub fn step(self, event: Event) -> (r: (Pipeline, Action))
        ensures
            (r.0@, r.1@) == next(self@, event@),
    {
        let step = match self.stage {
            Stage::Exited(code) => {
                return (self, Action::Exit(code));
            },
            Stage::Aborted(failure) => {
                return (self, Action::Abort(failure));
            },
            Stage::Pending(step) => step,
        };
        match (step, event) {
            (_, Event::Failed(fault)) => {
                let kind = classify_fault(step, fault);
                self.give_up(Failure { kind, step })
            },
            (Step::Download(_), Event::Layer(blob)) => {
                match decompress_layer(&blob) {
                    Ok(archive) => self.step_decoded(Some(archive)),
                    Err(_) => self.step_decoded(None),
                }
            },
            (_, Event::Layer(_)) => self.step_decoded(None),
            (Step::Token, Event::Token(token)) => {
                let request = fetch_manifest_request(
                    self.name.as_str(),
                    self.tag.as_str(),
                    token.as_str(),
                );
                (
                    Pipeline { token, stage: Stage::Pending(Step::ManifestList), ..self },
                    Action::FetchManifestList(request),
                )
            },
            (Step::ManifestList, Event::ManifestList(list)) => {
                match select_platform(&list) {
                    Some(i) => {
                        let request = fetch_image_manifest_request(
                            self.name.as_str(),
                            self.token.as_str(),
                            &list.manifests[i],
                        );
                        (
                            Pipeline { stage: Stage::Pending(Step::ImageManifest), ..self },
                            Action::FetchImageManifest(request),
                        )
                    },
                    None => self.give_up(Failure { kind: ErrorKind::PlatformNotFound, step }),
                }
            },
            (Step::ImageManifest, Event::ImageManifest(manifest)) => {
                let with_layers = Pipeline { layers: manifest.layers, ..self };
                with_layers.go_to_layer(0)
            },
            (Step::Unpack(i), Event::Done) => {
                if i < self.layers.len() {
                    self.go_to_layer(i + 1)
                } else {
                    self.go_to_layer(i)
                }
            },
            (Step::CreateRoot, Event::Done) => {
                let path = path_below(self.root.as_str(), BIN_DIRECTORY);
                (
                    Pipeline { stage: Stage::Pending(Step::CreateBinDirectory), ..self },
                    Action::CreateDirectory(path),
                )
            },
            (Step::CreateBinDirectory, Event::Done) => {
                let path = path_below(self.root.as_str(), NULL_DEVICE);
                (
                    Pipeline { stage: Stage::Pending(Step::CreateNullDevice), ..self },
                    Action::CreateDirectory(path),
                )
            },
            (Step::CreateNullDevice, Event::Done) => {
                let to = path_below(self.root.as_str(), HELPER);
                (
                    Pipeline { stage: Stage::Pending(Step::CopyHelper), ..self },
                    Action::CopyFile { from: HELPER.to_owned(), to },
                )
            },
            (Step::CopyHelper, Event::Done) => {
                let root = self.root.clone();
                (
                    Pipeline { stage: Stage::Pending(Step::ChangeRoot), ..self },
                    Action::ChangeRoot(root),
                )
            },
            (Step::ChangeRoot, Event::Done) => {
                (
                    Pipeline { stage: Stage::Pending(Step::NewPidNamespace), ..self },
                    Action::NewPidNamespace,
                )
            },
            (Step::NewPidNamespace, Event::Done) => {
                let command = self.command.clone();
                let args = copy_strings(&self.args);
                (
                    Pipeline { stage: Stage::Pending(Step::Run), ..self },
                    Action::Run { command, args },
                )
            },
            (Step::Run, Event::Exited(status)) => {
                let code = exit_code(status);
                (Pipeline { stage: Stage::Exited(code), ..self }, Action::Exit(code))
            },
            _ => self.give_up(Failure { kind: ErrorKind::UnexpectedEvent, step }),
        }
    }
}

} // verus!

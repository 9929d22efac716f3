//! What holds of every launch, whatever the driver reports.
//!
//! The statements speak of the launch of a command from an image and of an
//! arbitrary sequence of events: of the state after the first `k` events
//! and of the action that was handed out for it.

use vstd::prelude::*;

use crate::error::ErrorKind;
use crate::layer::gzip_member;
use crate::pipeline::{
    abort, classify, exit_code_of, launch, next, ActionView, EventView, Failure, PipelineView,
    Stage, Step,
};
use crate::reference::parsed_reference;
use crate::request::{layer_request, manifest_list_request, token_request};
use crate::root::{below, BIN_DIRECTORY, HELPER, NULL_DEVICE};

verus! {

/// The state of a launch that began with `start`, after the first `k` of
/// `events`.
pub open spec fn state_at(
    start: (PipelineView, ActionView),
    events: Seq<EventView>,
    k: nat,
) -> PipelineView
    decreases k,
{
    if k == 0 {
        start.0
    } else {
        next(state_at(start, events, (k - 1) as nat), events[k - 1]).0
    }
}

/// The action that was handed out after the first `k` of `events`; the
/// driver answers it with `events[k]`.
pub open spec fn action_at(
    start: (PipelineView, ActionView),
    events: Seq<EventView>,
    k: nat,
) -> ActionView {
    if k == 0 {
        start.1
    } else {
        next(state_at(start, events, (k - 1) as nat), events[k - 1]).1
    }
}

/// Every event of `events` is well formed.
pub open spec fn events_wf(events: Seq<EventView>) -> bool {
    forall|j: int| 0 <= j < events.len() ==> (#[trigger] events[j]).wf()
}

/// `action` is what a launch in state `s` has handed out last.
///
/// The state fixes the action, but for two things that it does not hold:
/// the entry that was chosen from the manifest list, and the archive that is
/// being unpacked.
pub open spec fn fits(s: PipelineView, action: ActionView) -> bool {
    match s.stage {
        Stage::Pending(Step::Reference) => false,
        Stage::Pending(Step::Token) => action == ActionView::FetchToken(token_request(s.name)),
        Stage::Pending(Step::ManifestList) => action == ActionView::FetchManifestList(
            manifest_list_request(s.name, s.tag, s.token),
        ),
        Stage::Pending(Step::ImageManifest) => action matches ActionView::FetchImageManifest(r)
            && r.bearer == Some(s.token),
        Stage::Pending(Step::Download(i)) => i < s.layers.len() && action
            == ActionView::FetchLayer(layer_request(s.name, s.token, s.layers[i as int])),
        Stage::Pending(Step::Unpack(i)) => i < s.layers.len() && (action matches ActionView::Unpack {
            root,
            ..
        } && root == s.root),
        Stage::Pending(Step::CreateRoot) => action == ActionView::CreateDirectory(s.root),
        Stage::Pending(Step::CreateBinDirectory) => action == ActionView::CreateDirectory(
            below(s.root, BIN_DIRECTORY@),
        ),
        Stage::Pending(Step::CreateNullDevice) => action == ActionView::CreateDirectory(
            below(s.root, NULL_DEVICE@),
        ),
        Stage::Pending(Step::CopyHelper) => action == (ActionView::CopyFile {
            from: HELPER@,
            to: below(s.root, HELPER@),
        }),
        Stage::Pending(Step::ChangeRoot) => action == ActionView::ChangeRoot(s.root),
        Stage::Pending(Step::NewPidNamespace) => action == ActionView::NewPidNamespace,
        Stage::Pending(Step::Run) => action == (ActionView::Run {
            command: s.command,
            args: s.args,
        }),
        Stage::Exited(code) => action == ActionView::Exit(code),
        Stage::Aborted(failure) => action == ActionView::Abort(failure),
    }
}

/// `b` is a step that may follow directly on `a`.
pub open spec fn follows(a: Step, b: Step) -> bool {
    match a {
        Step::Reference => b == Step::Token,
        Step::Token => b == Step::ManifestList,
        Step::ManifestList => b == Step::ImageManifest,
        Step::ImageManifest => b == Step::Download(0) || b == Step::CreateRoot,
        Step::Download(i) => b == Step::Unpack(i),
        Step::Unpack(i) => (i < usize::MAX && b == Step::Download((i + 1) as usize)) || b
            == Step::CreateRoot,
        Step::CreateRoot => b == Step::CreateBinDirectory,
        Step::CreateBinDirectory => b == Step::CreateNullDevice,
        Step::CreateNullDevice => b == Step::CopyHelper,
        Step::CopyHelper => b == Step::ChangeRoot,
        Step::ChangeRoot => b == Step::NewPidNamespace,
        Step::NewPidNamespace => b == Step::Run,
        Step::Run => false,
    }
}

/// A launch begins with the request for a token, or ends at once; either
/// way the first action fits the first state.
pub proof fn lemma_launch_fits(
    image: Seq<char>,
    command: Seq<char>,
    args: Seq<Seq<char>>,
    root: Seq<char>,
)
    ensures
        launch(image, command, args, root).0.wf(),
        fits(launch(image, command, args, root).0, launch(image, command, args, root).1),
        launch(image, command, args, root).0.command == command,
        launch(image, command, args, root).0.args == args,
        launch(image, command, args, root).0.root == root,
        parsed_reference(image) matches Some((name, tag)) ==> launch(
            image,
            command,
            args,
            root,
        ).0.name == name && launch(image, command, args, root).0.tag == tag,
{
}

/// Every step hands out the action that fits the state it leads to, and
/// keeps the image's name and tag, the command, its arguments and the root
/// as they are.
pub proof fn lemma_step_fits(s: PipelineView, last: ActionView, e: EventView)
    requires
        s.wf(),
        e.wf(),
        fits(s, last),
    ensures
        next(s, e).0.wf(),
        fits(next(s, e).0, next(s, e).1),
        next(s, e).0.name == s.name,
        next(s, e).0.tag == s.tag,
        next(s, e).0.command == s.command,
        next(s, e).0.args == s.args,
        next(s, e).0.root == s.root,
{
}

/// Every request to the registry carries the token that the token service
/// gave. The token is taken from the answer of the token service and is not
/// changed afterwards.
pub proof fn lemma_requests_carry_token(s: PipelineView, e: EventView)
    ensures
        next(s, e).1 matches ActionView::FetchManifestList(r) ==> r.bearer == Some(
            next(s, e).0.token,
        ),
        next(s, e).1 matches ActionView::FetchImageManifest(r) ==> r.bearer == Some(
            next(s, e).0.token,
        ),
        next(s, e).1 matches ActionView::FetchLayer(r) ==> r.bearer == Some(next(s, e).0.token),
        s.stage == Stage::Pending(Step::Token) ==> (e matches EventView::Token(token) ==> next(
            s,
            e,
        ).0.token == token),
        !(s.stage == Stage::Pending(Step::Token) && e is Token) ==> next(s, e).0.token == s.token,
{
}

/// Steps are taken in their order, one at a time: where a step is pending
/// after another, it is one that follows on it.
pub proof fn lemma_step_in_order(s: PipelineView, e: EventView)
    requires
        s.wf(),
    ensures
        s.stage matches Stage::Pending(a) ==> (next(s, e).0.stage matches Stage::Pending(b)
            ==> follows(a, b)),
        !(s.stage is Pending) ==> next(s, e).0 == s,
{
}

/// A failure ends the launch, whatever step was pending: the launch is
/// given up for a failure of the kind that the fault is at that step.
pub proof fn lemma_failure_ends_launch(s: PipelineView, fault: crate::pipeline::Fault)
    ensures
        s.stage matches Stage::Pending(step) ==> next(s, EventView::Failed(fault)) == abort(
            s,
            Failure { kind: classify(step, fault), step },
        ),
{
}

/// The target command is run only in answer to a namespace request that
/// went through.
pub proof fn lemma_run_answers_namespace(s: PipelineView, e: EventView)
    requires
        s.stage is Pending,
        next(s, e).1 is Run,
    ensures
        s.stage == Stage::Pending(Step::NewPidNamespace),
        e == EventView::Done,
        next(s, e).1 == (ActionView::Run { command: s.command, args: s.args }),
{
}

/// The launcher exits with the exit code of the target command, and with 1
/// where the command has none.
pub proof fn lemma_exit_code_forwarded(s: PipelineView, status: Option<i32>)
    requires
        s.stage == Stage::Pending(Step::Run),
    ensures
        next(s, EventView::Exited(status)).1 == ActionView::Exit(exit_code_of(status)),
        status matches Some(code) ==> next(s, EventView::Exited(status)).1 == ActionView::Exit(
            code,
        ),
        status is None ==> next(s, EventView::Exited(status)).1 == ActionView::Exit(1),
{
}

/// The launcher is told to exit only when the target command has ended.
pub proof fn lemma_exit_answers_run(s: PipelineView, e: EventView)
    requires
        s.stage is Pending,
        next(s, e).1 is Exit,
    ensures
        s.stage == Stage::Pending(Step::Run),
        e matches EventView::Exited(status) && next(s, e).1 == ActionView::Exit(
            exit_code_of(status),
        ),
{
}

/// Layers are taken strictly in the order of the image manifest. The
/// manifest's layers become the layers of the launch, and the first one is
/// asked for first. A layer's archive is unpacked when its blob has arrived,
/// and the next layer is asked for only when that archive has been unpacked.
/// The isolated root is prepared after the last one.
pub proof fn lemma_layers_in_manifest_order(s: PipelineView, e: EventView)
    requires
        s.wf(),
        e.wf(),
    ensures
        s.stage == Stage::Pending(Step::ImageManifest) ==> (e matches EventView::ImageManifest(m)
            ==> next(s, e).0.layers == m.layers && if m.layers.len() > 0 {
            next(s, e).0.stage == Stage::Pending(Step::Download(0)) && next(s, e).1
                == ActionView::FetchLayer(layer_request(s.name, s.token, m.layers[0]))
        } else {
            next(s, e).0.stage == Stage::Pending(Step::CreateRoot)
        }),
        !(s.stage == Stage::Pending(Step::ImageManifest) && e is ImageManifest) ==> next(
            s,
            e,
        ).0.layers == s.layers,
        s.stage matches Stage::Pending(Step::Download(i)) ==> (e matches EventView::Layer(blob)
            ==> match gzip_member(blob) {
            Some(archive) => next(s, e).0.stage == Stage::Pending(Step::Unpack(i)) && next(s, e).1
                == (ActionView::Unpack { archive, root: s.root }),
            None => next(s, e).1 == ActionView::Abort(
                Failure { kind: ErrorKind::Decode, step: Step::Download(i) },
            ),
        }),
        s.stage matches Stage::Pending(Step::Unpack(i)) ==> (e is Done ==> if i + 1
            < s.layers.len() {
            next(s, e).0.stage == Stage::Pending(Step::Download((i + 1) as usize)) && next(s, e).1
                == ActionView::FetchLayer(layer_request(s.name, s.token, s.layers[i + 1]))
        } else {
            next(s, e).0.stage == Stage::Pending(Step::CreateRoot)
        }),
{
}

/// Throughout a launch, the action that was handed out last fits the state,
/// and the image's name and tag, the command, its arguments and the root
/// stay what the launch began with.
pub proof fn lemma_history_fits(
    image: Seq<char>,
    command: Seq<char>,
    args: Seq<Seq<char>>,
    root: Seq<char>,
    events: Seq<EventView>,
    k: nat,
)
    requires
        events_wf(events),
        k <= events.len(),
    ensures
        state_at(launch(image, command, args, root), events, k).wf(),
        fits(
            state_at(launch(image, command, args, root), events, k),
            action_at(launch(image, command, args, root), events, k),
        ),
        state_at(launch(image, command, args, root), events, k).command == command,
        state_at(launch(image, command, args, root), events, k).args == args,
        state_at(launch(image, command, args, root), events, k).root == root,
        parsed_reference(image) matches Some((name, tag)) ==> state_at(
            launch(image, command, args, root),
            events,
            k,
        ).name == name && state_at(launch(image, command, args, root), events, k).tag == tag,
    decreases k,
{
    let start = launch(image, command, args, root);
    lemma_launch_fits(image, command, args, root);
    if k > 0 {
        lemma_history_fits(image, command, args, root, events, (k - 1) as nat);
        let s = state_at(start, events, (k - 1) as nat);
        lemma_step_fits(s, action_at(start, events, (k - 1) as nat), events[k - 1]);
    }
}

/// A new process-id namespace is requested before the target command is
/// run: whenever the driver is told to run the command, the action just
/// before was the request for the namespace, and the driver has reported
/// that it went through. The command and the arguments are those that the
/// launch began with.
pub proof fn lemma_namespace_before_run(
    image: Seq<char>,
    command: Seq<char>,
    args: Seq<Seq<char>>,
    root: Seq<char>,
    events: Seq<EventView>,
    k: nat,
)
    requires
        events_wf(events),
        k <= events.len(),
        action_at(launch(image, command, args, root), events, k) is Run,
    ensures
        k >= 1,
        action_at(launch(image, command, args, root), events, (k - 1) as nat)
            == ActionView::NewPidNamespace,
        events[k - 1] == EventView::Done,
        action_at(launch(image, command, args, root), events, k) == (ActionView::Run {
            command,
            args,
        }),
{
    let start = launch(image, command, args, root);
    lemma_launch_fits(image, command, args, root);
    lemma_history_fits(image, command, args, root, events, k);
    if k > 0 {
        let s = state_at(start, events, (k - 1) as nat);
        lemma_history_fits(image, command, args, root, events, (k - 1) as nat);
        lemma_run_answers_namespace(s, events[k - 1]);
    }
}

/// The isolated root is complete before it becomes the root: whenever the
/// driver is told to change the root, the four actions just before were, in
/// this order, to create the root, the directory for the helper binary and
/// the placeholder for the null device, and to copy the helper binary, all
/// inside the root that the launch began with.
pub proof fn lemma_root_prepared_before_change(
    image: Seq<char>,
    command: Seq<char>,
    args: Seq<Seq<char>>,
    root: Seq<char>,
    events: Seq<EventView>,
    k: nat,
)
    requires
        events_wf(events),
        k <= events.len(),
        action_at(launch(image, command, args, root), events, k) is ChangeRoot,
    ensures
        k >= 4,
        action_at(launch(image, command, args, root), events, k) == ActionView::ChangeRoot(root),
        action_at(launch(image, command, args, root), events, (k - 1) as nat)
            == (ActionView::CopyFile { from: HELPER@, to: below(root, HELPER@) }),
        action_at(launch(image, command, args, root), events, (k - 2) as nat)
            == ActionView::CreateDirectory(below(root, NULL_DEVICE@)),
        action_at(launch(image, command, args, root), events, (k - 3) as nat)
            == ActionView::CreateDirectory(below(root, BIN_DIRECTORY@)),
        action_at(launch(image, command, args, root), events, (k - 4) as nat)
            == ActionView::CreateDirectory(root),
{
    // Each of the five states fits its action, which fixes the step before.
    lemma_launch_fits(image, command, args, root);
    lemma_history_fits(image, command, args, root, events, k);
    lemma_history_fits(image, command, args, root, events, (k - 1) as nat);
    lemma_history_fits(image, command, args, root, events, (k - 2) as nat);
    lemma_history_fits(image, command, args, root, events, (k - 3) as nat);
    lemma_history_fits(image, command, args, root, events, (k - 4) as nat);
}

/// Nothing follows a failure: once an event reports one, the launch has
/// ended, and every later action repeats that the launcher is to give up or,
/// where the launch had ended before, to exit. The target command is not run
/// afterwards.
pub proof fn lemma_nothing_after_failure(
    start: (PipelineView, ActionView),
    events: Seq<EventView>,
    j: nat,
    k: nat,
)
    requires
        j < k <= events.len(),
        events[j as int] is Failed,
    ensures
        !(state_at(start, events, k).stage is Pending),
        action_at(start, events, k) is Abort || action_at(start, events, k) is Exit,
        action_at(start, events, k) == action_at(start, events, (j + 1) as nat),
        state_at(start, events, k) == state_at(start, events, (j + 1) as nat),
    decreases k,
{
    if k > j + 1 {
        lemma_nothing_after_failure(start, events, j, (k - 1) as nat);
        assert(action_at(start, events, (j + 1) as nat) == next(
            state_at(start, events, j),
            events[j as int],
        ).1);
    }
}

/// The blob of a layer is asked for only when every layer before it has been
/// unpacked: whenever the download of a layer other than the first is
/// pending, the two actions just before were the download of the layer
/// before it and the unpacking of what that download brought.
pub proof fn lemma_layer_after_its_predecessor(
    image: Seq<char>,
    command: Seq<char>,
    args: Seq<Seq<char>>,
    root: Seq<char>,
    events: Seq<EventView>,
    k: nat,
    i: usize,
)
    requires
        events_wf(events),
        k <= events.len(),
        state_at(launch(image, command, args, root), events, k).stage == Stage::Pending(
            Step::Download(i),
        ),
        i > 0,
    ensures
        k >= 2,
        state_at(launch(image, command, args, root), events, (k - 1) as nat).stage
            == Stage::Pending(Step::Unpack((i - 1) as usize)),
        state_at(launch(image, command, args, root), events, (k - 2) as nat).stage
            == Stage::Pending(Step::Download((i - 1) as usize)),
        events[k - 2] matches EventView::Layer(blob) && gzip_member(blob) matches Some(archive)
            && action_at(launch(image, command, args, root), events, (k - 1) as nat)
            == (ActionView::Unpack { archive, root }),
        events[k - 1] == EventView::Done,
{
    // The states one and two events earlier are well formed and fit their
    // actions; the steps that led here are the only ones that could.
    let start = launch(image, command, args, root);
    lemma_launch_fits(image, command, args, root);
    lemma_history_fits(image, command, args, root, events, k);
    lemma_history_fits(image, command, args, root, events, (k - 1) as nat);
    lemma_step_in_order(state_at(start, events, (k - 1) as nat), events[k - 1]);
    lemma_history_fits(image, command, args, root, events, (k - 2) as nat);
    lemma_step_in_order(state_at(start, events, (k - 2) as nat), events[k - 2]);
}

} // verus!

use std::io::Write;

use container_launch::error::ErrorKind;
use container_launch::manifest::{
    ImageConfig, ImageLayer, ImageManifest, Manifest, ManifestPlatform, ManifestResponse,
};
use container_launch::pipeline::{
    classify_fault, exit_code, Action, Event, Failure, Fault, Pipeline, Stage, Step,
};
use container_launch::request::Request;
use flate2::write::GzEncoder;
use flate2::Compression;

const ROOT: &str = "/srv/box";
const LAYER_TYPE: &str = "application/vnd.oci.image.layer.v1.tar+gzip";
const MANIFEST_TYPE: &str = "application/vnd.oci.image.manifest.v1+json";

fn gzip(data: &[u8]) -> Vec<u8> {
    let mut encoder = GzEncoder::new(Vec::new(), Compression::default());
    encoder.write_all(data).unwrap();
    encoder.finish().unwrap()
}

fn begin(image: &str) -> (Pipeline, Action) {
    Pipeline::start(
        image,
        "/bin/hello".to_string(),
        vec!["a".to_string(), "b c".to_string()],
        ROOT.to_string(),
    )
}

fn entry(digest: &str, architecture: &str, os: &str) -> Manifest {
    Manifest {
        digest: digest.to_string(),
        media_type: MANIFEST_TYPE.to_string(),
        platform: ManifestPlatform {
            architecture: architecture.to_string(),
            os: os.to_string(),
        },
        size: 1,
    }
}

fn layer(digest: &str) -> ImageLayer {
    ImageLayer {
        media_type: LAYER_TYPE.to_string(),
        digest: digest.to_string(),
        size: 10,
        urls: None,
    }
}

fn image(layers: Vec<ImageLayer>) -> ImageManifest {
    ImageManifest {
        config: ImageConfig {
            media_type: "application/vnd.oci.image.config.v1+json".to_string(),
            digest: "sha256:config".to_string(),
            size: 2,
        },
        layers,
    }
}

fn blob_request(name: &str, digest: &str) -> Action {
    Action::FetchLayer(Request {
        url: format!("https://registry.hub.docker.com/v2/library/{}/blobs/{}", name, digest),
        bearer: Some("tok".to_string()),
        accept: Some(LAYER_TYPE.to_string()),
    })
}

/// Drives a launch of `test-image` up to the point where the image manifest
/// with `layers` has arrived.
fn pulled(layers: Vec<ImageLayer>) -> (Pipeline, Action) {
    let (p, _) = begin("test-image");
    let (p, _) = p.step(Event::Token("tok".to_string()));
    let (p, _) = p.step(Event::ManifestList(ManifestResponse {
        manifests: vec![entry("sha256:amd", "amd64", "linux")],
    }));
    p.step(Event::ImageManifest(image(layers)))
}

/// Drives a launch with no layers up to the point where `step` is pending.
fn prepared_until(step: Step) -> (Pipeline, Action) {
    let (mut p, mut a) = pulled(vec![]);
    while p.stage() != Stage::Pending(step) {
        assert!(!p.is_finished());
        (p, a) = p.step(Event::Done);
    }
    (p, a)
}

#[test]
fn one_layer_image_is_pulled_prepared_and_run() {
    let (p, a) = begin("test-image");
    assert_eq!(p.stage(), Stage::Pending(Step::Token));
    assert_eq!(
        a,
        Action::FetchToken(Request {
            url: "https://auth.docker.io/token?service=registry.docker.io&scope=repository:library/test-image:pull".to_string(),
            bearer: None,
            accept: None,
        })
    );

    let (p, a) = p.step(Event::Token("tok".to_string()));
    assert_eq!(p.stage(), Stage::Pending(Step::ManifestList));
    assert_eq!(
        a,
        Action::FetchManifestList(Request {
            url: "https://registry.hub.docker.com/v2/library/test-image/manifests/latest"
                .to_string(),
            bearer: Some("tok".to_string()),
            accept: Some("application/vnd.docker.distribution.manifest.list.v2+json".to_string()),
        })
    );

    let (p, a) = p.step(Event::ManifestList(ManifestResponse {
        manifests: vec![entry("sha256:amd", "amd64", "linux")],
    }));
    assert_eq!(p.stage(), Stage::Pending(Step::ImageManifest));
    assert_eq!(
        a,
        Action::FetchImageManifest(Request {
            url: "https://registry.hub.docker.com/v2/library/test-image/manifests/sha256:amd"
                .to_string(),
            bearer: Some("tok".to_string()),
            accept: Some(MANIFEST_TYPE.to_string()),
        })
    );

    let (p, a) = p.step(Event::ImageManifest(image(vec![layer("sha256:l0")])));
    assert_eq!(p.stage(), Stage::Pending(Step::Download(0)));
    assert_eq!(a, blob_request("test-image", "sha256:l0"));

    let (p, a) = p.step(Event::Layer(gzip(b"archive bytes")));
    assert_eq!(p.stage(), Stage::Pending(Step::Unpack(0)));
    assert_eq!(
        a,
        Action::Unpack { archive: b"archive bytes".to_vec(), root: ROOT.to_string() }
    );

    let (p, a) = p.step(Event::Done);
    assert_eq!(p.stage(), Stage::Pending(Step::CreateRoot));
    assert_eq!(a, Action::CreateDirectory("/srv/box".to_string()));

    let (p, a) = p.step(Event::Done);
    assert_eq!(p.stage(), Stage::Pending(Step::CreateBinDirectory));
    assert_eq!(a, Action::CreateDirectory("/srv/box/usr/local/bin".to_string()));

    let (p, a) = p.step(Event::Done);
    assert_eq!(p.stage(), Stage::Pending(Step::CreateNullDevice));
    assert_eq!(a, Action::CreateDirectory("/srv/box/dev/null".to_string()));

    let (p, a) = p.step(Event::Done);
    assert_eq!(p.stage(), Stage::Pending(Step::CopyHelper));
    assert_eq!(
        a,
        Action::CopyFile {
            from: "/usr/local/bin/docker-explorer".to_string(),
            to: "/srv/box/usr/local/bin/docker-explorer".to_string(),
        }
    );

    let (p, a) = p.step(Event::Done);
    assert_eq!(p.stage(), Stage::Pending(Step::ChangeRoot));
    assert_eq!(a, Action::ChangeRoot("/srv/box".to_string()));

    let (p, a) = p.step(Event::Done);
    assert_eq!(p.stage(), Stage::Pending(Step::NewPidNamespace));
    assert_eq!(a, Action::NewPidNamespace);

    let (p, a) = p.step(Event::Done);
    assert_eq!(p.stage(), Stage::Pending(Step::Run));
    assert!(!p.is_finished());
    assert_eq!(
        a,
        Action::Run {
            command: "/bin/hello".to_string(),
            args: vec!["a".to_string(), "b c".to_string()],
        }
    );

    let (p, a) = p.step(Event::Exited(Some(42)));
    assert_eq!(p.stage(), Stage::Exited(42));
    assert!(p.is_finished());
    assert_eq!(a, Action::Exit(42));
}

#[test]
fn tag_of_the_reference_names_the_manifest_list() {
    let (p, a) = begin("alpine:3.19");
    match a {
        Action::FetchToken(r) => assert!(r.url.ends_with("library/alpine:pull")),
        other => panic!("{:?}", other),
    }
    let (_, a) = p.step(Event::Token("t".to_string()));
    match a {
        Action::FetchManifestList(r) => assert_eq!(
            r.url,
            "https://registry.hub.docker.com/v2/library/alpine/manifests/3.19"
        ),
        other => panic!("{:?}", other),
    }
}

#[test]
fn malformed_reference_ends_the_launch_at_once() {
    let (p, a) = begin("foo:bar:baz");
    let failure = Failure { kind: ErrorKind::ReferenceFormat, step: Step::Reference };
    assert_eq!(a, Action::Abort(failure));
    assert_eq!(p.stage(), Stage::Aborted(failure));
    assert!(p.is_finished());
    let (p, a) = p.step(Event::Token("tok".to_string()));
    assert_eq!(a, Action::Abort(failure));
    assert_eq!(p.stage(), Stage::Aborted(failure));
}

#[test]
fn exit_code_of_the_command_is_forwarded() {
    let (p, _) = prepared_until(Step::Run);
    let (p, a) = p.step(Event::Exited(Some(7)));
    assert_eq!(a, Action::Exit(7));
    assert_eq!(p.stage(), Stage::Exited(7));
}

#[test]
fn command_without_exit_code_gives_one() {
    let (p, _) = prepared_until(Step::Run);
    let (p, a) = p.step(Event::Exited(None));
    assert_eq!(a, Action::Exit(1));
    assert_eq!(p.stage(), Stage::Exited(1));
}

#[test]
fn exit_codes() {
    assert_eq!(exit_code(Some(7)), 7);
    assert_eq!(exit_code(Some(0)), 0);
    assert_eq!(exit_code(Some(-1)), -1);
    assert_eq!(exit_code(Some(i32::MAX)), i32::MAX);
    assert_eq!(exit_code(Some(i32::MIN)), i32::MIN);
    assert_eq!(exit_code(None), 1);
}

#[test]
fn exited_launch_repeats_its_exit() {
    let (p, _) = prepared_until(Step::Run);
    let (p, _) = p.step(Event::Exited(Some(3)));
    for event in [Event::Done, Event::Failed(Fault::Failed), Event::Exited(Some(9))] {
        let (q, a) = p.clone().step(event);
        assert_eq!(a, Action::Exit(3));
        assert_eq!(q, p);
    }
    let (q, a) = p.clone().step_decoded(Some(vec![1]));
    assert_eq!(a, Action::Exit(3));
    assert_eq!(q, p);
}

#[test]
fn missing_platform_ends_the_launch() {
    let (p, _) = begin("test-image");
    let (p, _) = p.step(Event::Token("tok".to_string()));
    let (p, a) = p.step(Event::ManifestList(ManifestResponse {
        manifests: vec![entry("sha256:arm", "arm64", "linux"), entry("sha256:w", "amd64", "windows")],
    }));
    let failure = Failure { kind: ErrorKind::PlatformNotFound, step: Step::ManifestList };
    assert_eq!(a, Action::Abort(failure));
    assert_eq!(p.stage(), Stage::Aborted(failure));
}

#[test]
fn platform_is_chosen_in_either_order() {
    let arm = entry("sha256:arm", "arm64", "linux");
    let amd = entry("sha256:amd", "amd64", "linux");
    for manifests in [vec![arm.clone(), amd.clone()], vec![amd.clone(), arm.clone()]] {
        let (p, _) = begin("test-image");
        let (p, _) = p.step(Event::Token("tok".to_string()));
        let (_, a) = p.step(Event::ManifestList(ManifestResponse { manifests }));
        match a {
            Action::FetchImageManifest(r) => assert_eq!(
                r.url,
                "https://registry.hub.docker.com/v2/library/test-image/manifests/sha256:amd"
            ),
            other => panic!("{:?}", other),
        }
    }
}

#[test]
fn image_without_layers_goes_straight_to_the_root() {
    let (p, a) = pulled(vec![]);
    assert_eq!(p.stage(), Stage::Pending(Step::CreateRoot));
    assert_eq!(a, Action::CreateDirectory(ROOT.to_string()));
}

#[test]
fn layers_are_taken_in_manifest_order() {
    let (p, a) = pulled(vec![layer("sha256:l0"), layer("sha256:l1"), layer("sha256:l2")]);
    assert_eq!(p.stage(), Stage::Pending(Step::Download(0)));
    assert_eq!(a, blob_request("test-image", "sha256:l0"));

    let (p, a) = p.step(Event::Layer(gzip(b"zero")));
    assert_eq!(p.stage(), Stage::Pending(Step::Unpack(0)));
    assert_eq!(a, Action::Unpack { archive: b"zero".to_vec(), root: ROOT.to_string() });

    let (p, a) = p.step(Event::Done);
    assert_eq!(p.stage(), Stage::Pending(Step::Download(1)));
    assert_eq!(a, blob_request("test-image", "sha256:l1"));

    let (p, a) = p.step(Event::Layer(gzip(b"one")));
    assert_eq!(p.stage(), Stage::Pending(Step::Unpack(1)));
    assert_eq!(a, Action::Unpack { archive: b"one".to_vec(), root: ROOT.to_string() });

    let (p, a) = p.step(Event::Done);
    assert_eq!(p.stage(), Stage::Pending(Step::Download(2)));
    assert_eq!(a, blob_request("test-image", "sha256:l2"));

    let (p, a) = p.step(Event::Layer(gzip(b"two")));
    assert_eq!(a, Action::Unpack { archive: b"two".to_vec(), root: ROOT.to_string() });

    let (p, a) = p.step(Event::Done);
    assert_eq!(p.stage(), Stage::Pending(Step::CreateRoot));
    assert_eq!(a, Action::CreateDirectory(ROOT.to_string()));
}

#[test]
fn later_layer_is_unpacked_after_the_earlier_one() {
    let (mut p, mut a) = pulled(vec![layer("sha256:base"), layer("sha256:top")]);
    let blobs = [gzip(b"base content"), gzip(b"top content")];
    let mut unpacked: Vec<Vec<u8>> = Vec::new();
    let mut next_blob = 0;
    while p.stage() != Stage::Pending(Step::CreateRoot) {
        let event = match a {
            Action::FetchLayer(_) => {
                next_blob += 1;
                Event::Layer(blobs[next_blob - 1].clone())
            }
            Action::Unpack { archive, .. } => {
                unpacked.push(archive);
                Event::Done
            }
            other => panic!("{:?}", other),
        };
        (p, a) = p.step(event);
    }
    assert_eq!(unpacked, vec![b"base content".to_vec(), b"top content".to_vec()]);
}

#[test]
fn undecodable_blob_ends_the_launch() {
    let (p, _) = pulled(vec![layer("sha256:l0"), layer("sha256:l1")]);
    let (p, a) = p.step(Event::Layer(b"no gzip".to_vec()));
    let failure = Failure { kind: ErrorKind::Decode, step: Step::Download(0) };
    assert_eq!(a, Action::Abort(failure));
    assert_eq!(p.stage(), Stage::Aborted(failure));
}

#[test]
fn decoded_archive_is_unpacked_into_the_root() {
    let (p, _) = pulled(vec![layer("sha256:l0")]);
    let (p, a) = p.step_decoded(Some(vec![1, 2, 3]));
    assert_eq!(p.stage(), Stage::Pending(Step::Unpack(0)));
    assert_eq!(a, Action::Unpack { archive: vec![1, 2, 3], root: ROOT.to_string() });
}

#[test]
fn undecoded_archive_ends_the_launch() {
    let (p, _) = pulled(vec![layer("sha256:l0")]);
    let (p, a) = p.step_decoded(None);
    let failure = Failure { kind: ErrorKind::Decode, step: Step::Download(0) };
    assert_eq!(a, Action::Abort(failure));
    assert_eq!(p.stage(), Stage::Aborted(failure));
}

#[test]
fn archive_without_a_pending_download_answers_nothing() {
    let (p, _) = begin("test-image");
    let (p, a) = p.step_decoded(Some(vec![1]));
    let failure = Failure { kind: ErrorKind::UnexpectedEvent, step: Step::Token };
    assert_eq!(a, Action::Abort(failure));
    assert_eq!(p.stage(), Stage::Aborted(failure));

    let (p, _) = begin("test-image");
    let (_, a) = p.step(Event::Layer(gzip(b"x")));
    assert_eq!(a, Action::Abort(failure));
}

#[test]
fn failure_at_any_step_ends_the_launch() {
    let cases: Vec<(Step, Fault, ErrorKind)> = vec![
        (Step::CreateRoot, Fault::Failed, ErrorKind::Filesystem),
        (Step::CreateBinDirectory, Fault::Failed, ErrorKind::Filesystem),
        (Step::CreateNullDevice, Fault::Failed, ErrorKind::Filesystem),
        (Step::CopyHelper, Fault::Failed, ErrorKind::Filesystem),
        (Step::ChangeRoot, Fault::Failed, ErrorKind::Filesystem),
        (Step::ChangeRoot, Fault::Undecodable, ErrorKind::Filesystem),
        (Step::NewPidNamespace, Fault::Failed, ErrorKind::IsolationSetup),
        (Step::Run, Fault::Failed, ErrorKind::ProcessSpawn),
    ];
    for (step, fault, kind) in cases {
        let (p, _) = prepared_until(step);
        let (p, a) = p.step(Event::Failed(fault));
        let failure = Failure { kind, step };
        assert_eq!(a, Action::Abort(failure));
        assert_eq!(p.stage(), Stage::Aborted(failure));
        assert!(p.is_finished());
        let (p, a) = p.step(Event::Done);
        assert_eq!(a, Action::Abort(failure));
        assert_eq!(p.stage(), Stage::Aborted(failure));
    }
}

#[test]
fn failed_fetches_end_the_launch() {
    let (p, _) = begin("test-image");
    let (_, a) = p.clone().step(Event::Failed(Fault::Failed));
    assert_eq!(a, Action::Abort(Failure { kind: ErrorKind::Transport, step: Step::Token }));
    let (_, a) = p.clone().step(Event::Failed(Fault::Undecodable));
    assert_eq!(a, Action::Abort(Failure { kind: ErrorKind::Decode, step: Step::Token }));

    let (p, _) = p.step(Event::Token("tok".to_string()));
    let (_, a) = p.clone().step(Event::Failed(Fault::Failed));
    assert_eq!(a, Action::Abort(Failure { kind: ErrorKind::Transport, step: Step::ManifestList }));
    let (_, a) = p.clone().step(Event::Failed(Fault::Undecodable));
    assert_eq!(a, Action::Abort(Failure { kind: ErrorKind::Decode, step: Step::ManifestList }));

    let (p, _) = p.step(Event::ManifestList(ManifestResponse {
        manifests: vec![entry("sha256:amd", "amd64", "linux")],
    }));
    let (_, a) = p.clone().step(Event::Failed(Fault::Failed));
    assert_eq!(a, Action::Abort(Failure { kind: ErrorKind::Transport, step: Step::ImageManifest }));

    let (p, _) = p.step(Event::ImageManifest(image(vec![layer("sha256:l0")])));
    let (_, a) = p.clone().step(Event::Failed(Fault::Failed));
    assert_eq!(a, Action::Abort(Failure { kind: ErrorKind::Transport, step: Step::Download(0) }));

    let (p, _) = p.step(Event::Layer(gzip(b"x")));
    let (_, a) = p.clone().step(Event::Failed(Fault::Failed));
    assert_eq!(a, Action::Abort(Failure { kind: ErrorKind::Filesystem, step: Step::Unpack(0) }));
    let (_, a) = p.step(Event::Failed(Fault::Undecodable));
    assert_eq!(a, Action::Abort(Failure { kind: ErrorKind::Decode, step: Step::Unpack(0) }));
}

#[test]
fn failed_launch_never_runs_the_command() {
    let (p, _) = prepared_until(Step::ChangeRoot);
    let (mut p, _) = p.step(Event::Failed(Fault::Failed));
    for _ in 0..20 {
        let (q, a) = p.step(Event::Done);
        assert!(matches!(a, Action::Abort(_)));
        p = q;
    }
}

#[test]
fn event_that_answers_no_action_ends_the_launch() {
    let (p, _) = begin("test-image");
    let (p, a) = p.step(Event::Done);
    let failure = Failure { kind: ErrorKind::UnexpectedEvent, step: Step::Token };
    assert_eq!(a, Action::Abort(failure));
    assert_eq!(p.stage(), Stage::Aborted(failure));

    let (p, _) = prepared_until(Step::NewPidNamespace);
    let (_, a) = p.step(Event::Exited(Some(0)));
    assert_eq!(
        a,
        Action::Abort(Failure { kind: ErrorKind::UnexpectedEvent, step: Step::NewPidNamespace })
    );

    let (p, _) = prepared_until(Step::Run);
    let (_, a) = p.step(Event::Done);
    assert_eq!(a, Action::Abort(Failure { kind: ErrorKind::UnexpectedEvent, step: Step::Run }));

    let (p, _) = pulled(vec![layer("sha256:l0")]);
    let (_, a) = p.step(Event::Done);
    assert_eq!(
        a,
        Action::Abort(Failure { kind: ErrorKind::UnexpectedEvent, step: Step::Download(0) })
    );
}

#[test]
fn faults_are_classified_by_step() {
    for fault in [Fault::Failed, Fault::Undecodable] {
        assert_eq!(classify_fault(Step::Reference, fault), ErrorKind::ReferenceFormat);
        assert_eq!(classify_fault(Step::CreateRoot, fault), ErrorKind::Filesystem);
        assert_eq!(classify_fault(Step::CreateBinDirectory, fault), ErrorKind::Filesystem);
        assert_eq!(classify_fault(Step::CreateNullDevice, fault), ErrorKind::Filesystem);
        assert_eq!(classify_fault(Step::CopyHelper, fault), ErrorKind::Filesystem);
        assert_eq!(classify_fault(Step::ChangeRoot, fault), ErrorKind::Filesystem);
        assert_eq!(classify_fault(Step::NewPidNamespace, fault), ErrorKind::IsolationSetup);
        assert_eq!(classify_fault(Step::Run, fault), ErrorKind::ProcessSpawn);
    }
    for step in [Step::Token, Step::ManifestList, Step::ImageManifest, Step::Download(4)] {
        assert_eq!(classify_fault(step, Fault::Failed), ErrorKind::Transport);
        assert_eq!(classify_fault(step, Fault::Undecodable), ErrorKind::Decode);
    }
    assert_eq!(classify_fault(Step::Unpack(4), Fault::Failed), ErrorKind::Filesystem);
    assert_eq!(classify_fault(Step::Unpack(4), Fault::Undecodable), ErrorKind::Decode);
}

#[test]
fn namespace_is_requested_just_before_the_command_runs() {
    let (mut p, mut a) = pulled(vec![layer("sha256:l0")]);
    let mut actions: Vec<Action> = Vec::new();
    loop {
        let event = match &a {
            Action::FetchLayer(_) => Event::Layer(gzip(b"x")),
            Action::Run { .. } => break,
            _ => Event::Done,
        };
        actions.push(a);
        (p, a) = p.step(event);
    }
    assert_eq!(p.stage(), Stage::Pending(Step::Run));
    let n = actions.len();
    assert_eq!(actions[n - 1], Action::NewPidNamespace);
    assert_eq!(actions[n - 2], Action::ChangeRoot(ROOT.to_string()));
    assert!(matches!(actions[n - 3], Action::CopyFile { .. }));
    assert!(matches!(actions[n - 4], Action::CreateDirectory(_)));
    assert!(matches!(actions[n - 5], Action::CreateDirectory(_)));
    assert!(matches!(actions[n - 6], Action::CreateDirectory(_)));
    assert!(matches!(actions[n - 7], Action::Unpack { .. }));
}

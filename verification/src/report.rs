//! How a failure reads to the person who started the launcher.

use vstd::prelude::*;
use vstd::string::*;

use crate::error::ErrorKind;
use crate::pipeline::{Failure, Step};

verus! {

/// The description of the operation that failed.
///
/// An event that answers no action, a reference that cannot be parsed and a
/// manifest list without the supported platform each have their own words.
/// Any other failure is described by the step that failed; a fetch and the
/// unpacking of an archive read differently where what they met could not be
/// decoded.
pub open spec fn description(failure: Failure) -> Seq<char> {
    match failure.kind {
        ErrorKind::UnexpectedEvent => "the driver reported an outcome that answers no action"@,
        ErrorKind::ReferenceFormat => "Unexpected image name"@,
        ErrorKind::PlatformNotFound => "Failed to get platform image digest"@,
        kind => match failure.step {
            Step::Reference => "Unexpected image name"@,
            Step::Token => if kind == ErrorKind::Decode {
                "failed to deserialize json response"@
            } else {
                "failed to send request"@
            },
            Step::ManifestList | Step::ImageManifest => if kind == ErrorKind::Decode {
                "failed to deserialize manifest"@
            } else {
                "failed to fetch manifest"@
            },
            Step::Download(_) => if kind == ErrorKind::Decode {
                "failed to unpack archive"@
            } else {
                "failed to download image layer"@
            },
            Step::Unpack(_) => if kind == ErrorKind::Decode {
                "failed to unpack archive"@
            } else {
                "failed to copy layer bytes to temp file"@
            },
            Step::CreateRoot => "failed to create chroot directory"@,
            Step::CreateBinDirectory => "failed to create chroot /usr/local/bin directory"@,
            Step::CreateNullDevice => "failed to create chroot /dev/null directory"@,
            Step::CopyHelper => "failed to copy docker-explorer"@,
            Step::ChangeRoot => "failed to chroot"@,
            Step::NewPidNamespace => "failed to unshare the process-id namespace"@,
            Step::Run => "failed to run the target command"@,
        },
    }
}

/// Describes the operation that failed, for the message that the launcher
/// ends with.
pub fn describe(failure: Failure) -> (text: String)
    ensures
        text@ == description(failure),
{
    let text = match failure.kind {
        ErrorKind::UnexpectedEvent => "the driver reported an outcome that answers no action",
        ErrorKind::ReferenceFormat => "Unexpected image name",
        ErrorKind::PlatformNotFound => "Failed to get platform image digest",
        kind => match failure.step {
            Step::Reference => "Unexpected image name",
            Step::Token => match kind {
                ErrorKind::Decode => "failed to deserialize json response",
                _ => "failed to send request",
            },
            Step::ManifestList | Step::ImageManifest => match kind {
                ErrorKind::Decode => "failed to deserialize manifest",
                _ => "failed to fetch manifest",
            },
            Step::Download(_) => match kind {
                ErrorKind::Decode => "failed to unpack archive",
                _ => "failed to download image layer",
            },
            Step::Unpack(_) => match kind {
                ErrorKind::Decode => "failed to unpack archive",
                _ => "failed to copy layer bytes to temp file",
            },
            Step::CreateRoot => "failed to create chroot directory",
            Step::CreateBinDirectory => "failed to create chroot /usr/local/bin directory",
            Step::CreateNullDevice => "failed to create chroot /dev/null directory",
            Step::CopyHelper => "failed to copy docker-explorer",
            Step::ChangeRoot => "failed to chroot",
            Step::NewPidNamespace => "failed to unshare the process-id namespace",
            Step::Run => "failed to run the target command",
        },
    };
    text.to_owned()
}

} // verus!

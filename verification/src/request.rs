//! The requests that the launcher makes of the token service and of the
//! registry.

use vstd::prelude::*;
use vstd::string::*;

use crate::manifest::{ImageLayer, ImageLayerView, Manifest, ManifestView};

verus! {

/// Where a pull-scoped token for an image is asked for; the image's name
/// follows, then [`PULL_SCOPE`].
pub const TOKEN_ENDPOINT: &'static str =
    "https://auth.docker.io/token?service=registry.docker.io&scope=repository:library/";

/// The end of a token request: access is asked for pulling only.
pub const PULL_SCOPE: &'static str = ":pull";

/// Where the registry serves the images of the default namespace; the
/// image's name follows.
pub const REGISTRY_ENDPOINT: &'static str = "https://registry.hub.docker.com/v2/library/";

/// The path segment between an image's name and a tag or digest.
pub const MANIFESTS_SEGMENT: &'static str = "/manifests/";

/// The path segment between an image's name and the digest of a blob.
pub const BLOBS_SEGMENT: &'static str = "/blobs/";

/// The media type that is accepted when the manifest list is asked for:
/// that of a list of platform-specific manifests, not that of the manifest
/// of a single image.
pub const MANIFEST_LIST_ACCEPT: &'static str =
    "application/vnd.docker.distribution.manifest.list.v2+json";

/// A `GET` request: its address, the bearer token that it carries, and the
/// media type that it accepts.
#[derive(Clone, Debug, PartialEq, Eq)]
pub struct Request {
    pub url: String,
    pub bearer: Option<String>,
    pub accept: Option<String>,
}

/// A [`Request`] as plain values.
pub struct RequestView {
    pub url: Seq<char>,
    pub bearer: Option<Seq<char>>,
    pub accept: Option<Seq<char>>,
}

impl View for Request {
    type V = RequestView;

    open spec fn view(&self) -> RequestView {
        RequestView {
            url: self.url@,
            bearer: match self.bearer {
                Some(t) => Some(t@),
                None => None,
            },
            accept: match self.accept {
                Some(a) => Some(a@),
                None => None,
            },
        }
    }
}

/// The request for a token that allows pulling the image `name`. It carries
/// no token itself and names no media type.
pub open spec fn token_request(name: Seq<char>) -> RequestView {
    RequestView { url: TOKEN_ENDPOINT@ + name + PULL_SCOPE@, bearer: None, accept: None }
}

/// The address of the manifest of image `name` under `reference`, a tag or a
/// digest.
pub open spec fn manifest_url(name: Seq<char>, reference: Seq<char>) -> Seq<char> {
    REGISTRY_ENDPOINT@ + name + MANIFESTS_SEGMENT@ + reference
}

/// The request for the manifest list of `name` at `tag`. It asks for the
/// multi-platform list format.
pub open spec fn manifest_list_request(
    name: Seq<char>,
    tag: Seq<char>,
    token: Seq<char>,
) -> RequestView {
    RequestView {
        url: manifest_url(name, tag),
        bearer: Some(token),
        accept: Some(MANIFEST_LIST_ACCEPT@),
    }
}

/// The request for the image manifest that `entry` of a manifest list points
/// to: the same address as for the list, with the entry's digest in place of
/// the tag, accepting the entry's own media type.
pub open spec fn image_manifest_request(
    name: Seq<char>,
    token: Seq<char>,
    entry: ManifestView,
) -> RequestView {
    RequestView {
        url: manifest_url(name, entry.digest),
        bearer: Some(token),
        accept: Some(entry.media_type),
    }
}

/// The request for the blob of `layer`, accepting the layer's declared media
/// type.
pub open spec fn layer_request(
    name: Seq<char>,
    token: Seq<char>,
    layer: ImageLayerView,
) -> RequestView {
    RequestView {
        url: REGISTRY_ENDPOINT@ + name + BLOBS_SEGMENT@ + layer.digest,
        bearer: Some(token),
        accept: Some(layer.media_type),
    }
}

/// The four parts, one after the other.
fn join(a: &str, b: &str, c: &str, d: &str) -> (r: String)
    ensures
        r@ == a@ + b@ + c@ + d@,
{
    let mut r = a.to_owned();
    r.append(b);
    r.append(c);
    r.append(d);
    r
}

/// Builds the request for a pull-scoped token for the image `name`.
pub fn auth_request(name: &str) -> (r: Request)
    ensures
        r@ == token_request(name@),
{
    let url = join(TOKEN_ENDPOINT, name, PULL_SCOPE, "");
    proof {
        reveal_strlit("");
    }
    Request { url, bearer: None, accept: None }
}

/// Builds the request for the manifest list of `name` at `tag`.
pub fn fetch_manifest_request(name: &str, tag: &str, token: &str) -> (r: Request)
    ensures
        r@ == manifest_list_request(name@, tag@, token@),
{
    Request {
        url: join(REGISTRY_ENDPOINT, name, MANIFESTS_SEGMENT, tag),
        bearer: Some(token.to_owned()),
        accept: Some(MANIFEST_LIST_ACCEPT.to_owned()),
    }
}

/// Builds the request for the image manifest that `entry` points to.
pub fn fetch_image_manifest_request(name: &str, token: &str, entry: &Manifest) -> (r: Request)
    ensures
        r@ == image_manifest_request(name@, token@, entry@),
{
    Request {
        url: join(REGISTRY_ENDPOINT, name, MANIFESTS_SEGMENT, entry.digest.as_str()),
        bearer: Some(token.to_owned()),
        accept: Some(entry.media_type.clone()),
    }
}

/// Builds the request for the blob of `layer`.
pub fn download_layer_request(name: &str, token: &str, layer: &ImageLayer) -> (r: Request)
    ensures
        r@ == layer_request(name@, token@, layer@),
{
    Request {
        url: join(REGISTRY_ENDPOINT, name, BLOBS_SEGMENT, layer.digest.as_str()),
        bearer: Some(token.to_owned()),
        accept: Some(layer.media_type.clone()),
    }
}

} // verus!

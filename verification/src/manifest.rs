//! Registry documents and the choice of a platform image.

use vstd::prelude::*;

verus! {

/// The operating system of the one supported platform.
pub const TARGET_OS: &'static str = "linux";

/// The architecture of the one supported platform.
pub const TARGET_ARCHITECTURE: &'static str = "amd64";

/// The platform that an entry of a manifest list was built for.
#[derive(Clone, Debug, PartialEq, Eq)]
pub struct ManifestPlatform {
    pub architecture: String,
    pub os: String,
}

/// A [`ManifestPlatform`] as plain values.
pub struct ManifestPlatformView {
    pub architecture: Seq<char>,
    pub os: Seq<char>,
}

impl View for ManifestPlatform {
    type V = ManifestPlatformView;

    open spec fn view(&self) -> ManifestPlatformView {
        ManifestPlatformView { architecture: self.architecture@, os: self.os@ }
    }
}

/// One entry of a manifest list: a platform-specific variant of an image.
#[derive(Clone, Debug, PartialEq, Eq)]
pub struct Manifest {
    pub digest: String,
    pub media_type: String,
    pub platform: ManifestPlatform,
    pub size: u32,
}

/// A [`Manifest`] as plain values.
pub struct ManifestView {
    pub digest: Seq<char>,
    pub media_type: Seq<char>,
    pub platform: ManifestPlatformView,
    pub size: u32,
}

impl View for Manifest {
    type V = ManifestView;

    open spec fn view(&self) -> ManifestView {
        ManifestView {
            digest: self.digest@,
            media_type: self.media_type@,
            platform: self.platform@,
            size: self.size,
        }
    }
}

impl ManifestView {
    /// The entry was built for the supported platform: both the operating
    /// system and the architecture match exactly.
    pub open spec fn supported(self) -> bool {
        self.platform.architecture == TARGET_ARCHITECTURE@ && self.platform.os == TARGET_OS@
    }
}

/// A manifest list: the platform-specific variants of an image, in the order
/// in which the registry lists them.
#[derive(Clone, Debug, PartialEq, Eq)]
pub struct ManifestResponse {
    pub manifests: Vec<Manifest>,
}

impl View for ManifestResponse {
    type V = Seq<ManifestView>;

    open spec fn view(&self) -> Seq<ManifestView> {
        self.manifests@.map_values(|m: Manifest| m@)
    }
}

/// The descriptor of an image's configuration.
#[derive(Clone, Debug, PartialEq, Eq)]
pub struct ImageConfig {
    pub media_type: String,
    pub digest: String,
    pub size: u32,
}

/// An [`ImageConfig`] as plain values.
pub struct ImageConfigView {
    pub media_type: Seq<char>,
    pub digest: Seq<char>,
    pub size: u32,
}

impl View for ImageConfig {
    type V = ImageConfigView;

    open spec fn view(&self) -> ImageConfigView {
        ImageConfigView { media_type: self.media_type@, digest: self.digest@, size: self.size }
    }
}

/// The descriptor of one layer: a filesystem delta, distributed as a
/// compressed archive.
#[derive(Clone, Debug, PartialEq, Eq)]
pub struct ImageLayer {
    pub media_type: String,
    pub digest: String,
    pub size: u32,
    pub urls: Option<Vec<String>>,
}

/// An [`ImageLayer`] as plain values.
pub struct ImageLayerView {
    pub media_type: Seq<char>,
    pub digest: Seq<char>,
    pub size: u32,
    pub urls: Option<Seq<Seq<char>>>,
}

impl View for ImageLayer {
    type V = ImageLayerView;

    open spec fn view(&self) -> ImageLayerView {
        ImageLayerView {
            media_type: self.media_type@,
            digest: self.digest@,
            size: self.size,
            urls: match self.urls {
                Some(urls) => Some(urls@.map_values(|u: String| u@)),
                None => None,
            },
        }
    }
}

/// The layers of `layers`, each by its view.
pub open spec fn layer_views(layers: Seq<ImageLayer>) -> Seq<ImageLayerView> {
    layers.map_values(|l: ImageLayer| l@)
}

/// The manifest of one platform variant: its configuration and its layers,
/// base first.
#[derive(Clone, Debug, PartialEq, Eq)]
pub struct ImageManifest {
    pub config: ImageConfig,
    pub layers: Vec<ImageLayer>,
}

/// An [`ImageManifest`] as plain values.
pub struct ImageManifestView {
    pub config: ImageConfigView,
    pub layers: Seq<ImageLayerView>,
}

impl View for ImageManifest {
    type V = ImageManifestView;

    open spec fn view(&self) -> ImageManifestView {
        ImageManifestView { config: self.config@, layers: layer_views(self.layers@) }
    }
}

/// `i` is the position of the first entry of `list` that was built for the
/// supported platform.
pub open spec fn is_selection(list: Seq<ManifestView>, i: int) -> bool {
    &&& 0 <= i < list.len()
    &&& list[i].supported()
    &&& forall|j: int| 0 <= j < i ==> !(#[trigger] list[j]).supported()
}

/// The position of the entry that is chosen from `list`: the first one built
/// for the supported platform, or `None` where there is none.
pub open spec fn selection(list: Seq<ManifestView>) -> Option<int> {
    if exists|i: int| is_selection(list, i) {
        Some(choose|i: int| is_selection(list, i))
    } else {
        None
    }
}

/// There is at most one first supported entry.
pub proof fn lemma_selection_unique(list: Seq<ManifestView>, i: int, j: int)
    requires
        is_selection(list, i),
        is_selection(list, j),
    ensures
        i == j,
{
}

/// Whether `entry` was built for the supported platform.
pub fn is_supported(entry: &Manifest) -> (r: bool)
    ensures
        r == entry@.supported(),
{
    let architecture = TARGET_ARCHITECTURE.to_owned();
    let os = TARGET_OS.to_owned();
    entry.platform.architecture == architecture && entry.platform.os == os
}

/// Chooses the platform image to pull: the position of the first entry of
/// the list that was built for the supported platform.
pub fn select_platform(list: &ManifestResponse) -> (r: Option<usize>)
    ensures
        r matches Some(i) ==> is_selection(list@, i as int),
        r is None ==> forall|i: int| 0 <= i < list@.len() ==> !(#[trigger] list@[i]).supported(),
        match r {
            Some(i) => selection(list@) == Some(i as int),
            None => selection(list@) is None,
        },
{
    let mut i: usize = 0;
    while i < list.manifests.len()
        invariant
            i <= list.manifests.len(),
            list@.len() == list.manifests.len(),
            forall|j: int| 0 <= j < i ==> !(#[trigger] list@[j]).supported(),
        decreases list.manifests.len() - i,
    {
        if is_supported(&list.manifests[i]) {
            proof {
                let k = choose|k: int| is_selection(list@, k);
                lemma_selection_unique(list@, i as int, k);
            }
            return Some(i);
        }
        i = i + 1;
    }
    None
}

/// The choice does not depend on the order of the list: where the entries
/// built for the supported platform do not differ from one another, any
/// reordering of the list leads to the same chosen entry, and to none where
/// the list holds none.
pub proof fn lemma_selection_ignores_order(a: Seq<ManifestView>, b: Seq<ManifestView>)
    requires
        a.to_multiset() == b.to_multiset(),
        forall|i: int, j: int|
            0 <= i < a.len() && 0 <= j < a.len() && (#[trigger] a[i]).supported()
                && (#[trigger] a[j]).supported() ==> a[i] == a[j],
    ensures
        selection(a) is Some <==> selection(b) is Some,
        selection(a) matches Some(i) ==> selection(b) matches Some(j) && a[i] == b[j],
{
    a.to_multiset_ensures();
    b.to_multiset_ensures();
    if selection(a) is Some {
        let i = selection(a)->0;
        assert(b.to_multiset().count(a[i]) > 0);
        let k = choose|k: int| 0 <= k < b.len() && b[k] == a[i];
        lemma_first_supported_exists(b, k);
    } else if selection(b) is Some {
        let j = selection(b)->0;
        assert(a.to_multiset().count(b[j]) > 0);
        let m = choose|m: int| 0 <= m < a.len() && a[m] == b[j];
        lemma_first_supported_exists(a, m);
    }
}

/// A list that holds a supported entry has a first one.
pub proof fn lemma_first_supported_exists(list: Seq<ManifestView>, k: int)
    requires
        0 <= k < list.len(),
        list[k].supported(),
    ensures
        selection(list) matches Some(i) && i <= k && is_selection(list, i),
    decreases k,
{
    if forall|j: int| 0 <= j < k ==> !(#[trigger] list[j]).supported() {
        assert(is_selection(list, k));
        let i = choose|i: int| is_selection(list, i);
        lemma_selection_unique(list, i, k);
    } else {
        let j = choose|j: int| 0 <= j < k && (#[trigger] list[j]).supported();
        lemma_first_supported_exists(list, j);
    }
}

} // verus!

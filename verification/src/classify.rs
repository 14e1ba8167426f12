//! Discovery and classification: turns a one-level directory listing into
//! model descriptors by an ordered rule set.
//!
//! Rules, applied per directory group, first match wins:
//! 1. a GGUF weights file classifies the group as plain or vision weights;
//! 2. otherwise packed quantized shards classify it by the directory name
//!    (compact-reasoning, packed-quantized) or, failing those, by the
//!    presence of a configuration file (MatFormer);
//! 3. a group matching neither rule yields no descriptor, so a partly
//!    downloaded directory never looks usable.
//!
//! Standalone files at the root of the models directory are classified one
//! by one, by rule 1 alone.
use vstd::prelude::*;
use vstd::string::*;

use crate::model::{DescriptorView, Family, ModelDescriptor};
use crate::strutil::{
    contains_ci, has_ext, join2, names_view, stem_of, str_contains_ci, str_eq, str_has_ext,
    strip_ext,
};

verus! {

/// One sub-directory of the models root, with the regular files directly
/// inside it.
#[derive(Clone, Debug)]
pub struct DirListing {
    pub name: String,
    pub files: Vec<String>,
}

/// The mathematical content of a directory listing.
#[verifier::ext_equal]
pub struct DirListingView {
    pub name: Seq<char>,
    pub files: Seq<Seq<char>>,
}

impl View for DirListing {
    type V = DirListingView;

    open spec fn view(&self) -> DirListingView {
        DirListingView { name: self.name@, files: names_view(self.files@) }
    }
}

/// The index of the first file carrying the given extension.
pub open spec fn first_with_ext(files: Seq<Seq<char>>, ext: Seq<char>) -> Option<int>
    decreases files.len(),
{
    if files.len() == 0 {
        Option::None
    } else if has_ext(files[0], ext) {
        Option::Some(0int)
    } else {
        match first_with_ext(files.drop_first(), ext) {
            Option::Some(i) => Option::Some(i + 1),
            Option::None => Option::None,
        }
    }
}

/// Some file in the group carries the given extension.
pub open spec fn has_any_ext(files: Seq<Seq<char>>, ext: Seq<char>) -> bool {
    exists|i: int| 0 <= i < files.len() && has_ext(#[trigger] files[i], ext)
}

/// Some packed shard name marks the model as a vision model.
pub open spec fn any_uqff_vision(files: Seq<Seq<char>>) -> bool {
    exists|i: int|
        0 <= i < files.len() && has_ext(#[trigger] files[i], "uqff"@) && contains_ci(
            files[i],
            "vision"@,
        )
}

/// The group holds a configuration file.
pub open spec fn has_config(files: Seq<Seq<char>>) -> bool {
    exists|i: int| 0 <= i < files.len() && #[trigger] files[i] == "config.json"@
}

/// The packed shard names of the group, in listing order.
pub open spec fn uqff_of(files: Seq<Seq<char>>) -> Seq<Seq<char>> {
    files.filter(|f: Seq<char>| has_ext(f, "uqff"@))
}

/// One step of `uqff_of` over a listing extended by one file.
pub(crate) proof fn lemma_uqff_push(s: Seq<Seq<char>>, x: Seq<char>)
    ensures
        uqff_of(s.push(x)) == if has_ext(x, "uqff"@) {
            uqff_of(s).push(x)
        } else {
            uqff_of(s)
        },
{
    reveal(Seq::filter);
    assert(s.push(x).drop_last() =~= s);
}

/// An empty listing has no packed shards.
proof fn lemma_uqff_empty()
    ensures
        uqff_of(Seq::<Seq<char>>::empty()) == Seq::<Seq<char>>::empty(),
{
    reveal(Seq::filter);
}

proof fn lemma_first_with_ext_some(files: Seq<Seq<char>>, ext: Seq<char>, i: int)
    requires
        0 <= i < files.len(),
        has_ext(files[i], ext),
        forall|j: int| 0 <= j < i ==> !has_ext(#[trigger] files[j], ext),
    ensures
        first_with_ext(files, ext) == Option::Some(i),
    decreases i,
{
    if i > 0 {
        let rest = files.drop_first();
        assert(forall|j: int| 0 <= j < i - 1 ==> rest[j] == files[j + 1]);
        lemma_first_with_ext_some(rest, ext, i - 1);
    }
}

proof fn lemma_first_with_ext_none(files: Seq<Seq<char>>, ext: Seq<char>)
    requires
        forall|j: int| 0 <= j < files.len() ==> !has_ext(#[trigger] files[j], ext),
    ensures
        first_with_ext(files, ext) is None,
    decreases files.len(),
{
    if files.len() > 0 {
        lemma_first_with_ext_none(files.drop_first(), ext);
    }
}

/// The classification of one sub-directory, as described at the top of the
/// module. `None` means the group is ambiguous and yields no descriptor.
pub open spec fn spec_classify_dir(name: Seq<char>, files: Seq<Seq<char>>) -> Option<
    DescriptorView,
> {
    match first_with_ext(files, "gguf"@) {
        Option::Some(i) => {
            let f = files[i];
            let vision = contains_ci(name, "vision"@) || contains_ci(name, "llama"@)
                || contains_ci(f, "vision"@) || contains_ci(f, "llama"@);
            Option::Some(
                DescriptorView {
                    identifier: "local-"@ + name,
                    directory: Option::Some(name),
                    primary_file: f,
                    support_files: Seq::empty(),
                    family: if vision {
                        Family::VisionWeights
                    } else {
                        Family::PlainWeights
                    },
                },
            )
        },
        Option::None => {
            if !has_any_ext(files, "uqff"@) {
                Option::None
            } else if contains_ci(name, "smollm"@) {
                Option::Some(
                    DescriptorView {
                        identifier: "local-"@ + name,
                        directory: Option::Some(name),
                        primary_file: "smollm3"@,
                        support_files: uqff_of(files),
                        family: Family::CompactReasoningText,
                    },
                )
            } else if contains_ci(name, "llama"@) {
                let vision = contains_ci(name, "vision"@) || any_uqff_vision(files);
                Option::Some(
                    DescriptorView {
                        identifier: "local-"@ + name,
                        directory: Option::Some(name),
                        primary_file: "llama-uqff"@,
                        support_files: uqff_of(files),
                        family: if vision {
                            Family::PackedQuantizedVision
                        } else {
                            Family::PackedQuantizedText
                        },
                    },
                )
            } else if has_config(files) {
                let vision = contains_ci(name, "vision"@) || contains_ci(name, "gemma-3n"@)
                    || contains_ci(name, "llama"@);
                Option::Some(
                    DescriptorView {
                        identifier: "local-"@ + name,
                        directory: Option::Some(name),
                        primary_file: "matformer"@,
                        support_files: uqff_of(files),
                        family: if vision {
                            Family::MatformerVision
                        } else {
                            Family::MatformerText
                        },
                    },
                )
            } else {
                Option::None
            }
        },
    }
}

/// The classification of one standalone file at the root of the models
/// directory: only GGUF weights files count, with the identifier derived
/// from the file name with its extension stripped.
pub open spec fn spec_classify_root(fname: Seq<char>) -> Option<DescriptorView> {
    if has_ext(fname, "gguf"@) {
        let vision = contains_ci(fname, "vision"@) || contains_ci(fname, "llama"@);
        Option::Some(
            DescriptorView {
                identifier: "local-"@ + stem_of(fname, 4),
                directory: Option::None,
                primary_file: fname,
                support_files: Seq::empty(),
                family: if vision {
                    Family::VisionWeights
                } else {
                    Family::PlainWeights
                },
            },
        )
    } else {
        Option::None
    }
}

/// Classifies one sub-directory.
pub fn classify_dir(d: &DirListing) -> (r: Option<ModelDescriptor>)
    ensures
        r is Some <==> spec_classify_dir(d@.name, d@.files) is Some,
        r matches Some(m) ==> Option::Some(m@) == spec_classify_dir(d@.name, d@.files),
{
    let files = &d.files;
    let n: usize = files.len();
    let ghost fv: Seq<Seq<char>> = d@.files;
    let mut i: usize = 0;
    let mut first_gguf: Option<usize> = None;
    let mut has_uqff: bool = false;
    let mut uqff: Vec<String> = Vec::new();
    let mut any_vis: bool = false;
    let mut has_cfg: bool = false;
    proof {
        lemma_uqff_empty();
        assert(fv.subrange(0, 0) =~= Seq::<Seq<char>>::empty());
        assert(names_view(uqff@) =~= Seq::<Seq<char>>::empty());
    }
    while i < n
        invariant
            n == fv.len(),
            fv == names_view(files@),
            n == files@.len(),
            i <= n,
            match first_gguf {
                Option::Some(j) => j < i && has_ext(fv[j as int], "gguf"@) && forall|k: int|
                    0 <= k < j ==> !has_ext(#[trigger] fv[k], "gguf"@),
                Option::None => forall|k: int| 0 <= k < i ==> !has_ext(#[trigger] fv[k], "gguf"@),
            },
            has_uqff == has_any_ext(fv.subrange(0, i as int), "uqff"@),
            names_view(uqff@) == uqff_of(fv.subrange(0, i as int)),
            any_vis == any_uqff_vision(fv.subrange(0, i as int)),
            has_cfg == has_config(fv.subrange(0, i as int)),
        decreases n - i,
    {
        let f: &String = &files[i];
        let ghost pre = fv.subrange(0, i as int);
        let ghost post = fv.subrange(0, i + 1 as int);
        proof {
            assert(post =~= pre.push(fv[i as int]));
            assert(post.last() == fv[i as int]);
            lemma_uqff_push(pre, fv[i as int]);
        }
        if first_gguf.is_none() && str_has_ext(f.as_str(), "gguf") {
            first_gguf = Some(i);
        }
        if str_has_ext(f.as_str(), "uqff") {
            has_uqff = true;
            if str_contains_ci(f.as_str(), "vision") {
                any_vis = true;
            }
            let ghost oldnames = names_view(uqff@);
            uqff.push(f.clone());
            proof {
                assert(names_view(uqff@) =~= oldnames.push(fv[i as int]));
            }
        }
        if str_eq(f.as_str(), "config.json") {
            has_cfg = true;
        }
        i += 1;
        proof {
            if !has_uqff {
                assert(forall|k: int|
                    0 <= k < post.len() ==> !has_ext(#[trigger] post[k], "uqff"@));
            }
            if !any_vis {
                assert(forall|k: int|
                    0 <= k < post.len() ==> !(has_ext(#[trigger] post[k], "uqff"@) && contains_ci(
                        post[k],
                        "vision"@,
                    )));
            }
            if !has_cfg {
                assert(forall|k: int|
                    0 <= k < post.len() ==> #[trigger] post[k] != "config.json"@);
            }
        }
    }
    proof {
        assert(fv.subrange(0, n as int) =~= fv);
    }
    match first_gguf {
        Some(j) => {
            let f: &String = &files[j];
            proof {
                lemma_first_with_ext_some(fv, "gguf"@, j as int);
            }
            let vision: bool = str_contains_ci(d.name.as_str(), "vision") || str_contains_ci(
                d.name.as_str(),
                "llama",
            ) || str_contains_ci(f.as_str(), "vision") || str_contains_ci(f.as_str(), "llama");
            Some(
                ModelDescriptor {
                    identifier: join2("local-", d.name.as_str()),
                    directory: Some(d.name.clone()),
                    primary_file: f.clone(),
                    support_files: Vec::new(),
                    family: if vision {
                        Family::VisionWeights
                    } else {
                        Family::PlainWeights
                    },
                },
            )
        },
        None => {
            proof {
                lemma_first_with_ext_none(fv, "gguf"@);
            }
            if !has_uqff {
                None
            } else if str_contains_ci(d.name.as_str(), "smollm") {
                Some(
                    ModelDescriptor {
                        identifier: join2("local-", d.name.as_str()),
                        directory: Some(d.name.clone()),
                        primary_file: String::from_str("smollm3"),
                        support_files: uqff,
                        family: Family::CompactReasoningText,
                    },
                )
            } else if str_contains_ci(d.name.as_str(), "llama") {
                let vision: bool = str_contains_ci(d.name.as_str(), "vision") || any_vis;
                Some(
                    ModelDescriptor {
                        identifier: join2("local-", d.name.as_str()),
                        directory: Some(d.name.clone()),
                        primary_file: String::from_str("llama-uqff"),
                        support_files: uqff,
                        family: if vision {
                            Family::PackedQuantizedVision
                        } else {
                            Family::PackedQuantizedText
                        },
                    },
                )
            } else if has_cfg {
                let vision: bool = str_contains_ci(d.name.as_str(), "vision") || str_contains_ci(
                    d.name.as_str(),
                    "gemma-3n",
                ) || str_contains_ci(d.name.as_str(), "llama");
                Some(
                    ModelDescriptor {
                        identifier: join2("local-", d.name.as_str()),
                        directory: Some(d.name.clone()),
                        primary_file: String::from_str("matformer"),
                        support_files: uqff,
                        family: if vision {
                            Family::MatformerVision
                        } else {
                            Family::MatformerText
                        },
                    },
                )
            } else {
                None
            }
        },
    }
}

/// Classifies one standalone file at the root of the models directory.
pub fn classify_root_file(fname: &String) -> (r: Option<ModelDescriptor>)
    ensures
        r is Some <==> spec_classify_root(fname@) is Some,
        r matches Some(m) ==> Option::Some(m@) == spec_classify_root(fname@),
{
    if !str_has_ext(fname.as_str(), "gguf") {
        return None;
    }
    let vision: bool = str_contains_ci(fname.as_str(), "vision") || str_contains_ci(
        fname.as_str(),
        "llama",
    );
    proof {
        reveal_strlit("gguf");
        assert(has_ext(fname@, "gguf"@) && "gguf"@.len() == 4);
    }
    let stem: String = strip_ext(fname.as_str(), 4);
    Some(
        ModelDescriptor {
            identifier: join2("local-", stem.as_str()),
            directory: None,
            primary_file: fname.clone(),
            support_files: Vec::new(),
            family: if vision {
                Family::VisionWeights
            } else {
                Family::PlainWeights
            },
        },
    )
}

/// The descriptors of a sequence of sub-directories, in order.
pub open spec fn spec_classify_dirs(dirs: Seq<DirListingView>) -> Seq<DescriptorView>
    decreases dirs.len(),
{
    if dirs.len() == 0 {
        Seq::empty()
    } else {
        let rest = spec_classify_dirs(dirs.drop_last());
        match spec_classify_dir(dirs.last().name, dirs.last().files) {
            Option::Some(d) => rest.push(d),
            Option::None => rest,
        }
    }
}

/// The descriptors of a sequence of standalone root files, in order.
pub open spec fn spec_classify_roots(roots: Seq<Seq<char>>) -> Seq<DescriptorView>
    decreases roots.len(),
{
    if roots.len() == 0 {
        Seq::empty()
    } else {
        let rest = spec_classify_roots(roots.drop_last());
        match spec_classify_root(roots.last()) {
            Option::Some(d) => rest.push(d),
            Option::None => rest,
        }
    }
}

/// The discovery result for one scan: the descriptors of every
/// sub-directory, then of every standalone root file.
pub open spec fn spec_discover(dirs: Seq<DirListingView>, roots: Seq<Seq<char>>) -> Seq<
    DescriptorView,
> {
    spec_classify_dirs(dirs) + spec_classify_roots(roots)
}

/// The view of a vector of directory listings.
pub open spec fn listings_view(v: Seq<DirListing>) -> Seq<DirListingView> {
    v.map_values(|d: DirListing| d@)
}

/// The view of a vector of descriptors.
pub open spec fn descriptors_view(v: Seq<ModelDescriptor>) -> Seq<DescriptorView> {
    v.map_values(|d: ModelDescriptor| d@)
}

/// Walks one scan listing and produces the descriptors of every model it
/// holds, in a fixed order: sub-directories first, then standalone root
/// files.
pub fn discover(dirs: &Vec<DirListing>, root_files: &Vec<String>) -> (r: Vec<ModelDescriptor>)
    ensures
        descriptors_view(r@) == spec_discover(listings_view(dirs@), names_view(root_files@)),
{
    let mut out: Vec<ModelDescriptor> = Vec::new();
    let nd: usize = dirs.len();
    let mut i: usize = 0;
    while i < nd
        invariant
            nd == dirs@.len(),
            i <= nd,
            descriptors_view(out@) == spec_classify_dirs(
                listings_view(dirs@).subrange(0, i as int),
            ),
        decreases nd - i,
    {
        let ghost pre = listings_view(dirs@).subrange(0, i as int);
        let ghost post = listings_view(dirs@).subrange(0, i + 1 as int);
        proof {
            assert(post.drop_last() =~= pre);
            assert(post.last() == dirs@[i as int]@);
        }
        match classify_dir(&dirs[i]) {
            Some(m) => {
                out.push(m);
                proof {
                    assert(descriptors_view(out@) =~= descriptors_view(out@.drop_last()).push(
                        out@.last()@,
                    ));
                }
            },
            None => {},
        }
        i += 1;
    }
    proof {
        assert(listings_view(dirs@).subrange(0, nd as int) =~= listings_view(dirs@));
    }
    let nr: usize = root_files.len();
    let mut k: usize = 0;
    while k < nr
        invariant
            nr == root_files@.len(),
            k <= nr,
            descriptors_view(out@) == spec_classify_dirs(listings_view(dirs@))
                + spec_classify_roots(names_view(root_files@).subrange(0, k as int)),
        decreases nr - k,
    {
        let ghost pre = names_view(root_files@).subrange(0, k as int);
        let ghost post = names_view(root_files@).subrange(0, k + 1 as int);
        proof {
            assert(post.drop_last() =~= pre);
            assert(post.last() == root_files@[k as int]@);
        }
        let ghost base = spec_classify_dirs(listings_view(dirs@));
        match classify_root_file(&root_files[k]) {
            Some(m) => {
                out.push(m);
                proof {
                    assert(descriptors_view(out@) =~= descriptors_view(out@.drop_last()).push(
                        out@.last()@,
                    ));
                    assert(base + spec_classify_roots(pre).push(out@.last()@) =~= (base
                        + spec_classify_roots(pre)).push(out@.last()@));
                }
            },
            None => {},
        }
        k += 1;
    }
    proof {
        assert(names_view(root_files@).subrange(0, nr as int) =~= names_view(root_files@));
    }
    out
}

/// A descriptor is well formed when its fields fit its family: a
/// directory-scoped family names its directory, and a standalone weights
/// file carries the extension its identifier was stripped of. Every
/// descriptor the classifier emits is well formed.
pub open spec fn descriptor_wf(d: DescriptorView) -> bool {
    match d.family {
        Family::PlainWeights | Family::VisionWeights => d.directory is None ==> has_ext(
            d.primary_file,
            "gguf"@,
        ),
        _ => d.directory is Some,
    }
}

/// Every descriptor out of `spec_classify_dir` is well formed.
pub proof fn lemma_classify_dir_wf(name: Seq<char>, files: Seq<Seq<char>>)
    ensures
        spec_classify_dir(name, files) matches Some(d) ==> descriptor_wf(d),
{
}

/// Every descriptor out of `spec_classify_root` is well formed.
pub proof fn lemma_classify_root_wf(fname: Seq<char>)
    ensures
        spec_classify_root(fname) matches Some(d) ==> descriptor_wf(d),
{
    reveal_strlit("gguf");
}

proof fn lemma_classify_dirs_wf(dirs: Seq<DirListingView>)
    ensures
        forall|j: int|
            0 <= j < spec_classify_dirs(dirs).len() ==> descriptor_wf(
                #[trigger] spec_classify_dirs(dirs)[j],
            ),
    decreases dirs.len(),
{
    if dirs.len() > 0 {
        lemma_classify_dirs_wf(dirs.drop_last());
        lemma_classify_dir_wf(dirs.last().name, dirs.last().files);
        let rest = spec_classify_dirs(dirs.drop_last());
        let all = spec_classify_dirs(dirs);
        assert forall|j: int| 0 <= j < all.len() implies descriptor_wf(#[trigger] all[j]) by {
            match spec_classify_dir(dirs.last().name, dirs.last().files) {
                Option::Some(d) => {
                    assert(all == rest.push(d));
                    if j < rest.len() {
                        assert(all[j] == rest[j]);
                    } else {
                        assert(all[j] == d);
                    }
                },
                Option::None => {
                    assert(all == rest);
                },
            }
        }
    }
}

proof fn lemma_classify_roots_wf(roots: Seq<Seq<char>>)
    ensures
        forall|j: int|
            0 <= j < spec_classify_roots(roots).len() ==> descriptor_wf(
                #[trigger] spec_classify_roots(roots)[j],
            ),
    decreases roots.len(),
{
    if roots.len() > 0 {
        lemma_classify_roots_wf(roots.drop_last());
        lemma_classify_root_wf(roots.last());
        let rest = spec_classify_roots(roots.drop_last());
        let all = spec_classify_roots(roots);
        assert forall|j: int| 0 <= j < all.len() implies descriptor_wf(#[trigger] all[j]) by {
            match spec_classify_root(roots.last()) {
                Option::Some(d) => {
                    assert(all == rest.push(d));
                    if j < rest.len() {
                        assert(all[j] == rest[j]);
                    } else {
                        assert(all[j] == d);
                    }
                },
                Option::None => {
                    assert(all == rest);
                },
            }
        }
    }
}

/// Every descriptor a scan discovers is well formed.
pub proof fn lemma_discover_wf(dirs: Seq<DirListingView>, roots: Seq<Seq<char>>)
    ensures
        forall|j: int|
            0 <= j < spec_discover(dirs, roots).len() ==> descriptor_wf(
                #[trigger] spec_discover(dirs, roots)[j],
            ),
{
    lemma_classify_dirs_wf(dirs);
    lemma_classify_roots_wf(roots);
}

/// Discovery is deterministic and idempotent: scanning the same tree twice,
/// with no change to the listing in between, yields the same descriptors.
pub proof fn lemma_discovery_deterministic(
    dirs1: Seq<DirListingView>,
    roots1: Seq<Seq<char>>,
    dirs2: Seq<DirListingView>,
    roots2: Seq<Seq<char>>,
)
    requires
        dirs1 == dirs2,
        roots1 == roots2,
    ensures
        spec_discover(dirs1, roots1) == spec_discover(dirs2, roots2),
{
}

} // verus!

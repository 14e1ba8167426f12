//! Presentation: turns descriptors into the records a user interface
//! lists, with a human-readable name and description per family. The
//! wording carries no behavioural weight; the identifying fields do.
use vstd::prelude::*;
use vstd::string::*;

use crate::classify::descriptor_wf;
use crate::model::{DescriptorView, Family, ModelDescriptor, ModelInfo, ModelInfoView};
use crate::strutil::{has_ext, join2, join3, stem_of, strip_ext};

verus! {

/// The presentation record of one descriptor: name and description follow
/// the family; the identifier, capability and file list carry over.
pub open spec fn spec_describe(d: DescriptorView) -> ModelInfoView {
    let dir = match d.directory {
        Option::Some(n) => n,
        Option::None => Seq::<char>::empty(),
    };
    let named: (Seq<char>, Seq<char>, Seq<char>, bool) = match d.family {
        Family::MatformerVision => (
            dir + " (Vision)"@,
            "Local MatFormer vision model with .uqff files"@,
            "local-matformer-vision"@,
            true,
        ),
        Family::MatformerText => (
            dir + " (MatFormer)"@,
            "Local MatFormer model with .uqff files"@,
            "local-matformer"@,
            false,
        ),
        Family::CompactReasoningText => (
            dir + " (SmolLM3)"@,
            "Local SmolLM3 3B model with UQFF files - hybrid reasoning"@,
            "local-smollm3"@,
            false,
        ),
        Family::PackedQuantizedVision => (
            dir + " (Vision)"@,
            "Local Llama vision model with .uqff files"@,
            "local-llama-uqff-vision"@,
            true,
        ),
        Family::PackedQuantizedText => (
            dir + " (Llama)"@,
            "Local Llama model with .uqff files"@,
            "local-llama-uqff"@,
            false,
        ),
        Family::VisionWeights => (
            (match d.directory {
                Option::Some(n) => n,
                Option::None => stem_of(d.primary_file, 4),
            }) + " (Vision)"@,
            "Local GGUF vision model file"@,
            "local-gguf-vision"@,
            true,
        ),
        Family::PlainWeights => (
            dir + "/"@ + d.primary_file,
            "Local GGUF model file"@,
            "local-gguf"@,
            false,
        ),
    };
    ModelInfoView {
        id: d.identifier,
        name: named.0,
        description: named.1,
        model_type: named.2,
        size_estimate: Option::None,
        is_available: true,
        repo: Option::None,
        files: seq![d.primary_file],
        is_vision: named.3,
    }
}

/// Builds the presentation record for one well-formed descriptor.
pub fn describe(d: &ModelDescriptor) -> (r: ModelInfo)
    requires
        descriptor_wf(d@),
    ensures
        r@ == spec_describe(d@),
{
    let display_dir: &str = match &d.directory {
        Some(n) => n.as_str(),
        None => "",
    };
    proof {
        reveal_strlit("");
        if d@.directory is None {
            assert(display_dir@ =~= Seq::<char>::empty());
        }
    }
    let (name, description, model_type, is_vision): (String, String, String, bool) = match d
        .family {
        Family::MatformerVision => (
            join2(display_dir, " (Vision)"),
            String::from_str("Local MatFormer vision model with .uqff files"),
            String::from_str("local-matformer-vision"),
            true,
        ),
        Family::MatformerText => (
            join2(display_dir, " (MatFormer)"),
            String::from_str("Local MatFormer model with .uqff files"),
            String::from_str("local-matformer"),
            false,
        ),
        Family::CompactReasoningText => (
            join2(display_dir, " (SmolLM3)"),
            String::from_str("Local SmolLM3 3B model with UQFF files - hybrid reasoning"),
            String::from_str("local-smollm3"),
            false,
        ),
        Family::PackedQuantizedVision => (
            join2(display_dir, " (Vision)"),
            String::from_str("Local Llama vision model with .uqff files"),
            String::from_str("local-llama-uqff-vision"),
            true,
        ),
        Family::PackedQuantizedText => (
            join2(display_dir, " (Llama)"),
            String::from_str("Local Llama model with .uqff files"),
            String::from_str("local-llama-uqff"),
            false,
        ),
        Family::VisionWeights => {
            let base: String = match &d.directory {
                Some(n) => n.clone(),
                None => {
                    proof {
                        reveal_strlit("gguf");
                        assert(has_ext(d@.primary_file, "gguf"@) && "gguf"@.len() == 4);
                    }
                    strip_ext(d.primary_file.as_str(), 4)
                },
            };
            (
                join2(base.as_str(), " (Vision)"),
                String::from_str("Local GGUF vision model file"),
                String::from_str("local-gguf-vision"),
                true,
            )
        },
        Family::PlainWeights => (
            join3(display_dir, "/", d.primary_file.as_str()),
            String::from_str("Local GGUF model file"),
            String::from_str("local-gguf"),
            false,
        ),
    };
    let mut files: Vec<String> = Vec::new();
    files.push(d.primary_file.clone());
    let r = ModelInfo {
        id: d.identifier.clone(),
        name,
        description,
        model_type,
        size_estimate: None,
        is_available: true,
        repo: None,
        files,
        is_vision,
    };
    proof {
        assert(r@.files =~= seq![d@.primary_file]);
        assert(r@ =~= spec_describe(d@));
    }
    r
}

/// One whole discovery pass, as the surrounding application calls it:
/// classifies the scan listing and renders one presentation record per
/// discovered model, in scan order.
pub fn discover_models(dirs: &Vec<crate::classify::DirListing>, root_files: &Vec<String>) -> (r:
    Vec<ModelInfo>)
    ensures
        ({
            let found = crate::classify::spec_discover(
                crate::classify::listings_view(dirs@),
                crate::strutil::names_view(root_files@),
            );
            &&& r@.len() == found.len()
            &&& forall|j: int|
                0 <= j < found.len() ==> #[trigger] r@[j]@ == spec_describe(found[j])
        }),
{
    let descs = crate::classify::discover(dirs, root_files);
    proof {
        crate::classify::lemma_discover_wf(
            crate::classify::listings_view(dirs@),
            crate::strutil::names_view(root_files@),
        );
        assert(forall|j: int|
            0 <= j < descs@.len() ==> #[trigger] descs@[j]@ == crate::classify::descriptors_view(
                descs@,
            )[j]);
    }
    describe_all(&descs)
}

/// The presentation records of a whole scan, in scan order.
pub fn describe_all(descs: &Vec<ModelDescriptor>) -> (r: Vec<ModelInfo>)
    requires
        forall|j: int| 0 <= j < descs@.len() ==> descriptor_wf(#[trigger] descs@[j]@),
    ensures
        r@.len() == descs@.len(),
        forall|j: int|
            0 <= j < descs@.len() ==> #[trigger] r@[j]@ == spec_describe(descs@[j]@),
{
    let n: usize = descs.len();
    let mut out: Vec<ModelInfo> = Vec::new();
    let mut i: usize = 0;
    while i < n
        invariant
            n == descs@.len(),
            i <= n,
            out@.len() == i,
            forall|j: int| 0 <= j < descs@.len() ==> descriptor_wf(#[trigger] descs@[j]@),
            forall|j: int| 0 <= j < i ==> #[trigger] out@[j]@ == spec_describe(descs@[j]@),
        decreases n - i,
    {
        out.push(describe(&descs[i]));
        i += 1;
    }
    out
}

} // verus!

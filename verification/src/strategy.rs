//! The loader strategy table: which engine builder, default quantization
//! and support files each family requires, and how a load operation is
//! planned from a descriptor. The plan is plain data; the surrounding
//! application hands it to the inference engine.
use vstd::prelude::*;
use vstd::string::*;

use crate::classify::{has_any_ext, lemma_uqff_push, uqff_of};
use crate::model::{DescriptorView, Family, ModelDescriptor, ModelError};
use crate::strutil::{
    has_ext, insert_sorted, join2, join3, names_sorted, names_view, str_has_ext,
};

verus! {

/// The engine builder variant a family is loaded through.
#[derive(Clone, Copy, Debug, PartialEq, Eq, Structural)]
pub enum BuilderKind {
    /// Builder for plain GGUF weights files.
    Gguf,
    /// Builder for vision models described by a configuration file.
    Vision,
    /// Builder for text models resolved from a remote repository.
    Text,
    /// Builder for packed quantized vision shards.
    UqffVision,
    /// Builder for packed quantized text shards.
    UqffText,
}

/// A quantization level the engine is asked for.
#[derive(Clone, Copy, Debug, PartialEq, Eq, Structural)]
pub enum Quant {
    Q4K,
    Q5_0,
    Q8_0,
}

/// One row of the loader strategy table.
#[derive(Clone, Copy, Debug, PartialEq, Eq, Structural)]
pub struct StrategyEntry {
    /// The builder variant the engine must be driven through.
    pub builder: BuilderKind,
    /// The quantization requested at load time, where the family fixes one.
    pub quant: Option<Quant>,
    /// Whether a chat template is searched for beside the model.
    pub searches_chat_template: bool,
    /// Whether the packed shard list must be handed to the builder.
    pub needs_shards: bool,
}

/// The loader strategy table. `None` marks a family the engine cannot load
/// yet; a request for it fails permanently rather than retrying.
pub fn loader_strategy(f: Family) -> (r: Option<StrategyEntry>)
    ensures
        r == spec_loader_strategy(f),
{
    match f {
        Family::PlainWeights | Family::VisionWeights => Some(
            StrategyEntry {
                builder: BuilderKind::Gguf,
                quant: None,
                searches_chat_template: true,
                needs_shards: false,
            },
        ),
        Family::PackedQuantizedText => Some(
            StrategyEntry {
                builder: BuilderKind::UqffText,
                quant: Some(Quant::Q5_0),
                searches_chat_template: false,
                needs_shards: true,
            },
        ),
        Family::PackedQuantizedVision => Some(
            StrategyEntry {
                builder: BuilderKind::UqffVision,
                quant: Some(Quant::Q5_0),
                searches_chat_template: false,
                needs_shards: true,
            },
        ),
        Family::CompactReasoningText => Some(
            StrategyEntry {
                builder: BuilderKind::Text,
                quant: Some(Quant::Q8_0),
                searches_chat_template: false,
                needs_shards: false,
            },
        ),
        Family::MatformerVision => Some(
            StrategyEntry {
                builder: BuilderKind::Vision,
                quant: Some(Quant::Q4K),
                searches_chat_template: false,
                needs_shards: false,
            },
        ),
        Family::MatformerText => None,
    }
}

/// The strategy table as a function.
pub open spec fn spec_loader_strategy(f: Family) -> Option<StrategyEntry> {
    match f {
        Family::PlainWeights | Family::VisionWeights => Option::Some(
            StrategyEntry {
                builder: BuilderKind::Gguf,
                quant: Option::None,
                searches_chat_template: true,
                needs_shards: false,
            },
        ),
        Family::PackedQuantizedText => Option::Some(
            StrategyEntry {
                builder: BuilderKind::UqffText,
                quant: Option::Some(Quant::Q5_0),
                searches_chat_template: false,
                needs_shards: true,
            },
        ),
        Family::PackedQuantizedVision => Option::Some(
            StrategyEntry {
                builder: BuilderKind::UqffVision,
                quant: Option::Some(Quant::Q5_0),
                searches_chat_template: false,
                needs_shards: true,
            },
        ),
        Family::CompactReasoningText => Option::Some(
            StrategyEntry {
                builder: BuilderKind::Text,
                quant: Option::Some(Quant::Q8_0),
                searches_chat_template: false,
                needs_shards: false,
            },
        ),
        Family::MatformerVision => Option::Some(
            StrategyEntry {
                builder: BuilderKind::Vision,
                quant: Option::Some(Quant::Q4K),
                searches_chat_template: false,
                needs_shards: false,
            },
        ),
        Family::MatformerText => Option::None,
    }
}

/// Picks out the packed shard names from a directory's file names and
/// returns them sorted; fails when there is none, so an empty shard list
/// never reaches the engine.
pub fn select_uqff(names: &Vec<String>) -> (r: Result<Vec<String>, ModelError>)
    ensures
        r is Ok <==> has_any_ext(names_view(names@), "uqff"@),
        r matches Ok(v) ==> {
            &&& names_sorted(names_view(v@))
            &&& names_view(v@).to_multiset() == uqff_of(names_view(names@)).to_multiset()
            &&& v@.len() > 0
        },
        r matches Err(e) ==> e matches ModelError::NotFound(m) && m@
            == "no uqff files found in model directory"@,
{
    broadcast use vstd::seq_lib::group_to_multiset_ensures;

    let ghost fv = names_view(names@);
    let n: usize = names.len();
    let mut out: Vec<String> = Vec::new();
    let mut i: usize = 0;
    proof {
        assert(fv.subrange(0, 0) =~= Seq::<Seq<char>>::empty());
        assert(names_view(out@) =~= Seq::<Seq<char>>::empty());
        assert(uqff_of(Seq::<Seq<char>>::empty()) =~= Seq::<Seq<char>>::empty()) by {
            reveal(Seq::filter);
        }
    }
    while i < n
        invariant
            n == fv.len(),
            fv == names_view(names@),
            n == names@.len(),
            i <= n,
            names_sorted(names_view(out@)),
            names_view(out@).to_multiset() == uqff_of(fv.subrange(0, i as int)).to_multiset(),
            (out@.len() > 0) == has_any_ext(fv.subrange(0, i as int), "uqff"@),
        decreases n - i,
    {
        broadcast use vstd::seq_lib::group_to_multiset_ensures;

        let f: &String = &names[i];
        let ghost pre = fv.subrange(0, i as int);
        let ghost post = fv.subrange(0, i + 1 as int);
        proof {
            assert(post =~= pre.push(fv[i as int]));
            lemma_uqff_push(pre, fv[i as int]);
        }
        if str_has_ext(f.as_str(), "uqff") {
            insert_sorted(&mut out, f.clone());
        } else {
            proof {
                if out@.len() == 0 {
                    assert(forall|k: int|
                        0 <= k < post.len() ==> !has_ext(#[trigger] post[k], "uqff"@));
                }
            }
        }
        proof {
            if has_ext(fv[i as int], "uqff"@) {
                assert(has_ext(post[i as int], "uqff"@));
                assert(has_any_ext(post, "uqff"@));
            }
            if has_any_ext(pre, "uqff"@) {
                let k = choose|k: int| 0 <= k < pre.len() && has_ext(#[trigger] pre[k], "uqff"@);
                assert(has_ext(post[k], "uqff"@));
                assert(has_any_ext(post, "uqff"@));
            }
        }
        i += 1;
    }
    proof {
        assert(fv.subrange(0, n as int) =~= fv);
    }
    if out.len() == 0 {
        Err(ModelError::NotFound(String::from_str("no uqff files found in model directory")))
    } else {
        Ok(out)
    }
}

/// The mathematical content of a load plan.
#[verifier::ext_equal]
pub struct LoadPlanView {
    pub builder: BuilderKind,
    pub model_path: Seq<char>,
    pub weight_files: Seq<Seq<char>>,
    pub chat_template: Option<Seq<char>>,
    pub tokenizer_model: Option<Seq<char>>,
    pub quant: Option<Quant>,
}

/// Everything the engine needs for one load operation: the builder
/// variant, where the weights live, which shard or weights files to read,
/// the chat template to apply, and the quantization to request.
#[derive(Clone, Debug)]
pub struct LoadPlan {
    pub builder: BuilderKind,
    /// A directory path for local models, a repository name for remote
    /// ones.
    pub model_path: String,
    pub weight_files: Vec<String>,
    pub chat_template: Option<String>,
    /// A separate repository to take the tokenizer from, where no local
    /// chat template applies.
    pub tokenizer_model: Option<String>,
    pub quant: Option<Quant>,
}

impl View for LoadPlan {
    type V = LoadPlanView;

    open spec fn view(&self) -> LoadPlanView {
        LoadPlanView {
            builder: self.builder,
            model_path: self.model_path@,
            weight_files: names_view(self.weight_files@),
            chat_template: match self.chat_template {
                Option::Some(t) => Option::Some(t@),
                Option::None => Option::None,
            },
            tokenizer_model: match self.tokenizer_model {
                Option::Some(t) => Option::Some(t@),
                Option::None => Option::None,
            },
            quant: self.quant,
        }
    }
}

/// The view of an optional text value.
pub open spec fn opt_text_view(o: Option<String>) -> Option<Seq<char>> {
    match o {
        Option::Some(t) => Option::Some(t@),
        Option::None => Option::None,
    }
}

/// Plans the load of one locally discovered model, following the strategy
/// table: succeeds for every family the engine supports, with the shard
/// list sorted where one is required; fails exactly for the MatFormer text
/// family and for a packed family whose descriptor carries no shard.
pub fn build_local_plan(d: &ModelDescriptor, base_path: &str, chat_template: Option<String>) -> (r:
    Result<LoadPlan, ModelError>)
    requires
        crate::classify::descriptor_wf(d@),
    ensures
        d.family == Family::MatformerVision ==> (r matches Ok(p) && p@ == LoadPlanView {
            builder: BuilderKind::Vision,
            model_path: base_path@ + "/"@ + d@.directory.unwrap(),
            weight_files: Seq::empty(),
            chat_template: Option::None,
            tokenizer_model: Option::None,
            quant: Option::Some(Quant::Q4K),
        }),
        d.family == Family::PlainWeights || d.family == Family::VisionWeights ==> (r matches Ok(
            p,
        ) && p@ == LoadPlanView {
            builder: BuilderKind::Gguf,
            model_path: match d@.directory {
                Option::Some(dir) => base_path@ + "/"@ + dir + "/"@,
                Option::None => base_path@ + "/"@,
            },
            weight_files: seq![d@.primary_file],
            chat_template: opt_text_view(chat_template),
            tokenizer_model: Option::None,
            quant: Option::None,
        }),
        d.family == Family::CompactReasoningText ==> (r matches Ok(p) && p@ == LoadPlanView {
            builder: BuilderKind::Text,
            model_path: "HuggingFaceTB/SmolLM3-3B"@,
            weight_files: Seq::empty(),
            chat_template: Option::None,
            tokenizer_model: Option::None,
            quant: Option::Some(Quant::Q8_0),
        }),
        d.family == Family::PackedQuantizedText || d.family == Family::PackedQuantizedVision ==> {
            &&& r is Ok <==> has_any_ext(d@.support_files, "uqff"@)
            &&& r matches Ok(p) ==> {
                &&& p@.builder == (if d.family == Family::PackedQuantizedVision {
                    BuilderKind::UqffVision
                } else {
                    BuilderKind::UqffText
                })
                &&& p@.model_path == base_path@ + "/"@ + d@.directory.unwrap()
                &&& names_sorted(p@.weight_files)
                &&& p@.weight_files.to_multiset() == uqff_of(d@.support_files).to_multiset()
                &&& p@.chat_template is None
                &&& p@.tokenizer_model is None
                &&& p@.quant == Option::Some(Quant::Q5_0)
            }
            &&& r matches Err(e) ==> e matches ModelError::NotFound(m) && m@
                == "no uqff files found in model directory"@
        },
        d.family == Family::MatformerText ==> (r matches Err(e) && e
            matches ModelError::Configuration(m) && m@
            == "matformer text models are not yet supported"@),
{
    match d.family {
        Family::MatformerVision => {
            let dir: &str = match &d.directory {
                Some(n) => n.as_str(),
                None => "",
            };
            let p = LoadPlan {
                builder: BuilderKind::Vision,
                model_path: join3(base_path, "/", dir),
                weight_files: Vec::new(),
                chat_template: None,
                tokenizer_model: None,
                quant: Some(Quant::Q4K),
            };
            proof {
                assert(p@.weight_files =~= Seq::<Seq<char>>::empty());
            }
            Ok(p)
        },
        Family::PlainWeights | Family::VisionWeights => {
            let model_path: String = match &d.directory {
                Some(n) => {
                    let mut s: String = join3(base_path, "/", n.as_str());
                    s.append("/");
                    s
                },
                None => join2(base_path, "/"),
            };
            let mut weight_files: Vec<String> = Vec::new();
            weight_files.push(d.primary_file.clone());
            let p = LoadPlan {
                builder: BuilderKind::Gguf,
                model_path,
                weight_files,
                chat_template,
                tokenizer_model: None,
                quant: None,
            };
            proof {
                assert(p@.weight_files =~= seq![d@.primary_file]);
            }
            Ok(p)
        },
        Family::CompactReasoningText => {
            let p = LoadPlan {
                builder: BuilderKind::Text,
                model_path: String::from_str("HuggingFaceTB/SmolLM3-3B"),
                weight_files: Vec::new(),
                chat_template: None,
                tokenizer_model: None,
                quant: Some(Quant::Q8_0),
            };
            proof {
                assert(p@.weight_files =~= Seq::<Seq<char>>::empty());
            }
            Ok(p)
        },
        Family::PackedQuantizedText | Family::PackedQuantizedVision => {
            let shards: Vec<String> = match select_uqff(&d.support_files) {
                Ok(v) => v,
                Err(e) => {
                    return Err(e);
                },
            };
            let dir: &str = match &d.directory {
                Some(n) => n.as_str(),
                None => "",
            };
            let is_vision: bool = match d.family {
                Family::PackedQuantizedVision => true,
                _ => false,
            };
            let p = LoadPlan {
                builder: if is_vision {
                    BuilderKind::UqffVision
                } else {
                    BuilderKind::UqffText
                },
                model_path: join3(base_path, "/", dir),
                weight_files: shards,
                chat_template: None,
                tokenizer_model: None,
                quant: Some(Quant::Q5_0),
            };
            Ok(p)
        },
        Family::MatformerText => Err(
            ModelError::Configuration(
                String::from_str("matformer text models are not yet supported"),
            ),
        ),
    }
}

/// Plans the load of the well-known remote instruct model. Without an
/// access token the plan is refused; with one, the weights repository is
/// fixed and the tokenizer falls back to its own repository exactly when
/// no local chat template was found.
pub fn plan_remote_mistral(has_token: bool, chat_template: Option<String>) -> (r: Result<
    LoadPlan,
    ModelError,
>)
    ensures
        !has_token ==> (r matches Err(e) && e matches ModelError::Configuration(m) && m@
            == "HF_TOKEN not found. Set HF_TOKEN in .env file for remote model access"@),
        has_token ==> (r matches Ok(p) && p@ == LoadPlanView {
            builder: BuilderKind::Gguf,
            model_path: "TheBloke/Mistral-7B-Instruct-v0.1-GGUF"@,
            weight_files: seq!["mistral-7b-instruct-v0.1.Q4_K_M.gguf"@],
            chat_template: opt_text_view(chat_template),
            tokenizer_model: if chat_template is Some {
                Option::None
            } else {
                Option::Some("mistralai/Mistral-7B-Instruct-v0.1"@)
            },
            quant: Option::None,
        }),
{
    if !has_token {
        return Err(
            ModelError::Configuration(
                String::from_str("HF_TOKEN not found. Set HF_TOKEN in .env file for remote model access"),
            ),
        );
    }
    let tokenizer_model: Option<String> = if chat_template.is_some() {
        None
    } else {
        Some(String::from_str("mistralai/Mistral-7B-Instruct-v0.1"))
    };
    let mut weight_files: Vec<String> = Vec::new();
    weight_files.push(String::from_str("mistral-7b-instruct-v0.1.Q4_K_M.gguf"));
    let p = LoadPlan {
        builder: BuilderKind::Gguf,
        model_path: String::from_str("TheBloke/Mistral-7B-Instruct-v0.1-GGUF"),
        weight_files,
        chat_template,
        tokenizer_model,
        quant: None,
    };
    proof {
        assert(p@.weight_files =~= seq!["mistral-7b-instruct-v0.1.Q4_K_M.gguf"@]);
    }
    Ok(p)
}

/// Plans the load of the well-known remote compact reasoning model.
pub fn plan_remote_smollm3() -> (r: LoadPlan)
    ensures
        r@ == (LoadPlanView {
            builder: BuilderKind::Text,
            model_path: "HuggingFaceTB/SmolLM3-3B"@,
            weight_files: Seq::<Seq<char>>::empty(),
            chat_template: Option::None,
            tokenizer_model: Option::None,
            quant: Option::Some(Quant::Q8_0),
        }),
{
    let p = LoadPlan {
        builder: BuilderKind::Text,
        model_path: String::from_str("HuggingFaceTB/SmolLM3-3B"),
        weight_files: Vec::new(),
        chat_template: None,
        tokenizer_model: None,
        quant: Some(Quant::Q8_0),
    };
    proof {
        assert(p@.weight_files =~= Seq::<Seq<char>>::empty());
    }
    p
}

/// The fixed chat-template search order for a GGUF model: the project-root
/// override, the package-level override, then the two well-known names
/// beside the model, first existing wins.
pub fn template_search_order(root_override: &str, package_override: &str, model_path: &str) -> (r:
    Vec<String>)
    ensures
        names_view(r@) == seq![
            root_override@,
            package_override@,
            model_path@ + "mistral.json"@,
            model_path@ + "tokenizer_config.json"@,
        ],
{
    let mut out: Vec<String> = Vec::new();
    out.push(String::from_str(root_override));
    out.push(String::from_str(package_override));
    out.push(join2(model_path, "mistral.json"));
    out.push(join2(model_path, "tokenizer_config.json"));
    proof {
        assert(names_view(out@) =~= seq![
            root_override@,
            package_override@,
            model_path@ + "mistral.json"@,
            model_path@ + "tokenizer_config.json"@,
        ]);
    }
    out
}

/// The index of the first existing candidate, given one existence flag per
/// candidate; `None` when none exists.
pub fn first_existing(found: &Vec<bool>) -> (r: Option<usize>)
    ensures
        match r {
            Option::Some(i) => i < found@.len() && found@[i as int] && forall|j: int|
                0 <= j < i ==> !found@[j],
            Option::None => forall|j: int| 0 <= j < found@.len() ==> !found@[j],
        },
{
    let n: usize = found.len();
    let mut i: usize = 0;
    while i < n
        invariant
            n == found@.len(),
            i <= n,
            forall|j: int| 0 <= j < i ==> !found@[j],
        decreases n - i,
    {
        if found[i] {
            return Some(i);
        }
        i += 1;
    }
    None
}

} // verus!

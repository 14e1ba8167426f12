use modelkit::model::{Family, ModelDescriptor, ModelError};
use modelkit::payload::{decode_image, decode_image_payload};
use modelkit::strategy::{
    build_local_plan, first_existing, loader_strategy, plan_remote_mistral, plan_remote_smollm3,
    select_uqff, template_search_order, BuilderKind, Quant,
};

fn descriptor(id: &str, dir: Option<&str>, primary: &str, support: &[&str], family: Family)
    -> ModelDescriptor {
    ModelDescriptor {
        identifier: id.to_string(),
        directory: dir.map(|d| d.to_string()),
        primary_file: primary.to_string(),
        support_files: support.iter().map(|f| f.to_string()).collect(),
        family,
    }
}

#[test]
fn strategy_table_rows() {
    let gguf = loader_strategy(Family::PlainWeights).unwrap();
    assert_eq!(gguf.builder, BuilderKind::Gguf);
    assert_eq!(gguf.quant, None);
    assert!(gguf.searches_chat_template);
    assert!(!gguf.needs_shards);
    assert_eq!(loader_strategy(Family::VisionWeights).unwrap(), gguf);

    let packed = loader_strategy(Family::PackedQuantizedVision).unwrap();
    assert_eq!(packed.builder, BuilderKind::UqffVision);
    assert_eq!(packed.quant, Some(Quant::Q5_0));
    assert!(packed.needs_shards);

    let compact = loader_strategy(Family::CompactReasoningText).unwrap();
    assert_eq!(compact.builder, BuilderKind::Text);
    assert_eq!(compact.quant, Some(Quant::Q8_0));

    let mat_v = loader_strategy(Family::MatformerVision).unwrap();
    assert_eq!(mat_v.builder, BuilderKind::Vision);
    assert_eq!(mat_v.quant, Some(Quant::Q4K));

    assert!(loader_strategy(Family::MatformerText).is_none());
}

#[test]
fn shards_are_filtered_and_sorted() {
    let names = vec![
        "b.uqff".to_string(),
        "readme.md".to_string(),
        "a.uqff".to_string(),
        "c.gguf".to_string(),
    ];
    let picked = select_uqff(&names).unwrap();
    assert_eq!(picked, vec!["a.uqff".to_string(), "b.uqff".to_string()]);
}

#[test]
fn missing_shards_are_an_error() {
    let names = vec!["readme.md".to_string()];
    match select_uqff(&names) {
        Err(ModelError::NotFound(m)) => {
            assert_eq!(m, "no uqff files found in model directory");
        },
        _ => panic!("an empty shard list must be refused"),
    }
}

#[test]
fn matformer_vision_plan() {
    let d = descriptor(
        "local-gemma-3n-e2b",
        Some("gemma-3n-e2b"),
        "matformer",
        &["w1.uqff"],
        Family::MatformerVision,
    );
    let p = build_local_plan(&d, "models", None).unwrap();
    assert_eq!(p.builder, BuilderKind::Vision);
    assert_eq!(p.model_path, "models/gemma-3n-e2b");
    assert_eq!(p.quant, Some(Quant::Q4K));
    assert!(p.weight_files.is_empty());
    assert!(p.chat_template.is_none());
}

#[test]
fn gguf_plan_points_into_the_directory() {
    let d = descriptor(
        "local-mymodel",
        Some("mymodel"),
        "model.gguf",
        &[],
        Family::PlainWeights,
    );
    let p = build_local_plan(&d, "models", Some("mistral.json".to_string())).unwrap();
    assert_eq!(p.builder, BuilderKind::Gguf);
    assert_eq!(p.model_path, "models/mymodel/");
    assert_eq!(p.weight_files, vec!["model.gguf".to_string()]);
    assert_eq!(p.chat_template.as_deref(), Some("mistral.json"));
    assert!(p.tokenizer_model.is_none());
    assert_eq!(p.quant, None);
}

#[test]
fn root_gguf_plan_points_at_the_models_root() {
    let d = descriptor("local-model", None, "model.gguf", &[], Family::PlainWeights);
    let p = build_local_plan(&d, "models", None).unwrap();
    assert_eq!(p.model_path, "models/");
    assert_eq!(p.weight_files, vec!["model.gguf".to_string()]);
}

#[test]
fn packed_plan_sorts_its_shards() {
    let d = descriptor(
        "local-llama-3b",
        Some("llama-3b"),
        "llama-uqff",
        &["w2.uqff", "w1.uqff", "notes.txt"],
        Family::PackedQuantizedText,
    );
    let p = build_local_plan(&d, "models", None).unwrap();
    assert_eq!(p.builder, BuilderKind::UqffText);
    assert_eq!(p.model_path, "models/llama-3b");
    assert_eq!(p.weight_files, vec!["w1.uqff".to_string(), "w2.uqff".to_string()]);
    assert_eq!(p.quant, Some(Quant::Q5_0));
}

#[test]
fn packed_plan_without_shards_fails() {
    let d = descriptor(
        "local-llama-3b",
        Some("llama-3b"),
        "llama-uqff",
        &[],
        Family::PackedQuantizedText,
    );
    assert!(matches!(
        build_local_plan(&d, "models", None),
        Err(ModelError::NotFound(_))
    ));
}

#[test]
fn matformer_text_is_refused() {
    let d = descriptor(
        "local-quietmodel",
        Some("quietmodel"),
        "matformer",
        &["w1.uqff"],
        Family::MatformerText,
    );
    match build_local_plan(&d, "models", None) {
        Err(ModelError::Configuration(m)) => {
            assert_eq!(m, "matformer text models are not yet supported");
        },
        _ => panic!("the matformer text family has no loader yet"),
    }
}

#[test]
fn compact_reasoning_loads_remotely() {
    let d = descriptor(
        "local-smollm3-3b",
        Some("SmolLM3-3B"),
        "smollm3",
        &["w.uqff"],
        Family::CompactReasoningText,
    );
    let p = build_local_plan(&d, "models", None).unwrap();
    assert_eq!(p.builder, BuilderKind::Text);
    assert_eq!(p.model_path, "HuggingFaceTB/SmolLM3-3B");
    assert_eq!(p.quant, Some(Quant::Q8_0));

    let remote = plan_remote_smollm3();
    assert_eq!(remote.builder, BuilderKind::Text);
    assert_eq!(remote.model_path, "HuggingFaceTB/SmolLM3-3B");
    assert_eq!(remote.quant, Some(Quant::Q8_0));
}

#[test]
fn remote_mistral_needs_a_token() {
    match plan_remote_mistral(false, None) {
        Err(ModelError::Configuration(m)) => {
            assert_eq!(m, "HF_TOKEN not found. Set HF_TOKEN in .env file for remote model access");
        },
        _ => panic!("a remote plan without a token must be refused"),
    }
}

#[test]
fn remote_mistral_falls_back_to_remote_tokenizer() {
    let with_template = plan_remote_mistral(true, Some("mistral.json".to_string())).unwrap();
    assert_eq!(with_template.model_path, "TheBloke/Mistral-7B-Instruct-v0.1-GGUF");
    assert_eq!(with_template.weight_files, vec!["mistral-7b-instruct-v0.1.Q4_K_M.gguf".to_string()]);
    assert_eq!(with_template.chat_template.as_deref(), Some("mistral.json"));
    assert!(with_template.tokenizer_model.is_none());

    let without = plan_remote_mistral(true, None).unwrap();
    assert!(without.chat_template.is_none());
    assert_eq!(without.tokenizer_model.as_deref(), Some("mistralai/Mistral-7B-Instruct-v0.1"));
}

#[test]
fn template_candidates_keep_the_search_order() {
    let order = template_search_order("mistral.json", "pkg/mistral.json", "models/mymodel/");
    assert_eq!(order, vec![
        "mistral.json".to_string(),
        "pkg/mistral.json".to_string(),
        "models/mymodel/mistral.json".to_string(),
        "models/mymodel/tokenizer_config.json".to_string(),
    ]);
}

#[test]
fn first_existing_candidate_wins() {
    assert_eq!(first_existing(&vec![false, true, true]), Some(1));
    assert_eq!(first_existing(&vec![true, false]), Some(0));
    assert_eq!(first_existing(&vec![false, false]), None);
    assert_eq!(first_existing(&vec![]), None);
}

#[test]
fn base64_payload_is_decoded() {
    let bytes = decode_image_payload("aGVsbG8=").unwrap();
    assert_eq!(bytes, b"hello".to_vec());
    let empty = decode_image_payload("").unwrap();
    assert!(empty.is_empty());
}

#[test]
fn invalid_base64_is_classified() {
    match decode_image_payload("%%%") {
        Err(ModelError::Base64Error(m)) => assert_eq!(m, "invalid base64 image payload"),
        _ => panic!("junk payload text must be refused"),
    }
}

#[test]
fn image_bytes_are_decoded() {
    let mut png: Vec<u8> = Vec::new();
    let img = image::DynamicImage::ImageRgb8(image::RgbImage::new(1, 1));
    img.write_to(&mut std::io::Cursor::new(&mut png), image::ImageFormat::Png)
        .expect("encoding a one-pixel image");
    let decoded = decode_image(&png).unwrap();
    assert_eq!(decoded.width(), 1);
    assert_eq!(decoded.height(), 1);
}

#[test]
fn junk_image_bytes_are_classified() {
    match decode_image(&vec![1, 2, 3, 4]) {
        Err(ModelError::ImageError(m)) => assert_eq!(m, "unsupported or corrupt image data"),
        _ => panic!("junk image bytes must be refused"),
    }
}

#[test]
fn error_messages_render() {
    assert_eq!(
        ModelError::LoadingError("engine fault".to_string()).message(),
        "model loading failed: engine fault"
    );
    assert_eq!(ModelError::MissingImage.message(), "vision model requires image input");
    assert_eq!(ModelError::NoContent.message(), "no content in response");
    assert_eq!(
        ModelError::NotFound("local-x".to_string()).message(),
        "model not found: local-x"
    );
    assert_eq!(
        ModelError::Configuration("bad".to_string()).message(),
        "invalid configuration: bad"
    );
    assert_eq!(
        ModelError::ImageError("x".to_string()).message(),
        "image processing failed: x"
    );
    assert_eq!(
        ModelError::Base64Error("x".to_string()).message(),
        "base64 decode error: x"
    );
    assert_eq!(ModelError::IoError("x".to_string()).message(), "io error: x");
    assert_eq!(ModelError::JsonError("x".to_string()).message(), "json parsing error: x");
}

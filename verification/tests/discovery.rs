use modelkit::classify::{classify_dir, classify_root_file, discover, DirListing};
use modelkit::model::{family_capability, Family, ModelDescriptor};
use modelkit::present::discover_models;

fn dir(name: &str, files: &[&str]) -> DirListing {
    DirListing {
        name: name.to_string(),
        files: files.iter().map(|f| f.to_string()).collect(),
    }
}

fn same_descriptor(a: &ModelDescriptor, b: &ModelDescriptor) -> bool {
    a.identifier == b.identifier && a.directory == b.directory
        && a.primary_file == b.primary_file && a.support_files == b.support_files
        && a.family == b.family
}

#[test]
fn gguf_only_directory_is_plain_weights() {
    let d = dir("mymodel", &["model.gguf"]);
    let descs = discover(&vec![d], &vec![]);
    assert_eq!(descs.len(), 1);
    assert_eq!(descs[0].family, Family::PlainWeights);
    assert_eq!(descs[0].identifier, "local-mymodel");
    assert_eq!(descs[0].primary_file, "model.gguf");
    assert_eq!(descs[0].directory.as_deref(), Some("mymodel"));
    assert!(!descs[0].is_vision());
    assert!(descs[0].support_files.is_empty());
}

#[test]
fn llama_named_uqff_directory_wins_over_matformer_rule() {
    // The packed-quantized rule fires before the configuration-file rule,
    // so a llama-named directory with shards and a config file is packed.
    let d = dir("llama-vision", &["config.json", "a.uqff"]);
    let descs = discover(&vec![d], &vec![]);
    assert_eq!(descs.len(), 1);
    assert_eq!(descs[0].family, Family::PackedQuantizedVision);
    assert!(descs[0].is_vision());
    assert_eq!(descs[0].identifier, "local-llama-vision");
    assert_eq!(descs[0].support_files, vec!["a.uqff".to_string()]);
}

#[test]
fn config_file_with_shards_is_matformer() {
    let d = dir("gemma-3n-e2b", &["config.json", "w1.uqff"]);
    let descs = discover(&vec![d], &vec![]);
    assert_eq!(descs.len(), 1);
    assert_eq!(descs[0].family, Family::MatformerVision);
    assert!(descs[0].is_vision());

    let plain = dir("quietmodel", &["config.json", "w1.uqff"]);
    let descs2 = discover(&vec![plain], &vec![]);
    assert_eq!(descs2.len(), 1);
    assert_eq!(descs2[0].family, Family::MatformerText);
    assert!(!descs2[0].is_vision());
}

#[test]
fn unmarked_uqff_directory_yields_no_descriptor() {
    let d = dir("mystery", &["x.uqff", "y.uqff"]);
    let descs = discover(&vec![d], &vec![]);
    assert!(descs.is_empty());
}

#[test]
fn discovery_is_deterministic() {
    let dirs = vec![
        dir("mymodel", &["model.gguf"]),
        dir("SmolLM3-3B", &["w.uqff"]),
        dir("mystery", &["x.uqff"]),
    ];
    let roots = vec!["llama-7b.gguf".to_string(), "notes.txt".to_string()];
    let first = discover(&dirs, &roots);
    let second = discover(&dirs, &roots);
    assert_eq!(first.len(), second.len());
    for (a, b) in first.iter().zip(second.iter()) {
        assert!(same_descriptor(a, b));
    }
}

#[test]
fn standalone_root_gguf_uses_stripped_filename() {
    let descs = discover(&vec![], &vec!["model.gguf".to_string()]);
    assert_eq!(descs.len(), 1);
    assert_eq!(descs[0].identifier, "local-model");
    assert_eq!(descs[0].family, Family::PlainWeights);
    assert!(descs[0].directory.is_none());
}

#[test]
fn root_llama_gguf_is_vision_by_name() {
    let r = classify_root_file(&"llama-7b.gguf".to_string()).unwrap();
    assert_eq!(r.family, Family::VisionWeights);
    assert_eq!(r.identifier, "local-llama-7b");
}

#[test]
fn root_non_gguf_files_are_ignored() {
    assert!(classify_root_file(&"notes.txt".to_string()).is_none());
    assert!(classify_root_file(&"model.uqff".to_string()).is_none());
    // A leading dot marks a hidden file, not an extension.
    assert!(classify_root_file(&".gguf".to_string()).is_none());
}

#[test]
fn name_matching_is_case_insensitive() {
    let d = dir("SmolLM3-3B", &["w.uqff"]);
    let r = classify_dir(&d).unwrap();
    assert_eq!(r.family, Family::CompactReasoningText);
    assert_eq!(r.primary_file, "smollm3");

    let v = dir("LLaMA-11B", &["W-VISION.uqff"]);
    let rv = classify_dir(&v).unwrap();
    assert_eq!(rv.family, Family::PackedQuantizedVision);
}

#[test]
fn gguf_rule_takes_precedence_over_shards() {
    let d = dir("plainbox", &["b.uqff", "a.gguf"]);
    let r = classify_dir(&d).unwrap();
    assert_eq!(r.family, Family::PlainWeights);
    assert_eq!(r.primary_file, "a.gguf");
    assert!(r.support_files.is_empty());
}

#[test]
fn presentation_records_follow_family() {
    let dirs = vec![
        dir("mymodel", &["model.gguf"]),
        dir("gemma-3n-e2b", &["config.json", "w1.uqff"]),
        dir("llama-3b", &["w1.uqff"]),
    ];
    let infos = discover_models(&dirs, &vec![]);
    assert_eq!(infos.len(), 3);

    assert_eq!(infos[0].id, "local-mymodel");
    assert_eq!(infos[0].name, "mymodel/model.gguf");
    assert_eq!(infos[0].description, "Local GGUF model file");
    assert_eq!(infos[0].model_type, "local-gguf");
    assert!(!infos[0].is_vision);
    assert!(infos[0].is_available);
    assert!(infos[0].size_estimate.is_none());
    assert!(infos[0].repo.is_none());
    assert_eq!(infos[0].files, vec!["model.gguf".to_string()]);

    assert_eq!(infos[1].name, "gemma-3n-e2b (Vision)");
    assert_eq!(infos[1].description, "Local MatFormer vision model with .uqff files");
    assert_eq!(infos[1].model_type, "local-matformer-vision");
    assert!(infos[1].is_vision);

    assert_eq!(infos[2].name, "llama-3b (Llama)");
    assert_eq!(infos[2].model_type, "local-llama-uqff");
    assert!(!infos[2].is_vision);
}

#[test]
fn vision_gguf_presentation_strips_extension_at_root() {
    let infos = discover_models(&vec![], &vec!["llava-vision.gguf".to_string()]);
    assert_eq!(infos.len(), 1);
    assert_eq!(infos[0].name, "llava-vision (Vision)");
    assert_eq!(infos[0].model_type, "local-gguf-vision");
    assert_eq!(infos[0].description, "Local GGUF vision model file");
    assert!(infos[0].is_vision);
}

#[test]
fn extension_is_the_text_after_the_last_dot() {
    let r = classify_root_file(&"a.b.gguf".to_string()).unwrap();
    assert_eq!(r.identifier, "local-a.b");
    // No dot means no extension.
    assert!(classify_root_file(&"gguf".to_string()).is_none());
    // The extension match is exact, not a suffix match.
    assert!(classify_root_file(&"model.gguf.bak".to_string()).is_none());
}

#[test]
fn capability_follows_the_family() {
    for f in [Family::PlainWeights, Family::PackedQuantizedText, Family::CompactReasoningText,
        Family::MatformerText] {
        let c = family_capability(f);
        assert!(c.text && !c.vision);
    }
    for f in [Family::VisionWeights, Family::PackedQuantizedVision, Family::MatformerVision] {
        let c = family_capability(f);
        assert!(c.vision && !c.text);
    }
}

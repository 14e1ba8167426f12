use modelkit::cache::{EntryState, LoadOutcome, ModelCache, ResolveAction};
use modelkit::dispatch::{
    extract_content, find_descriptor, plan_request, route_model_id, ChatRequest, GenerateCall,
    ModelRoute,
};
use modelkit::model::{Family, ModelDescriptor, ModelError};

#[test]
fn concurrent_requests_trigger_one_load() {
    // Five requesters race for one uncached identifier: exactly one is
    // told to load, the others wait for that load's outcome.
    let mut cache = ModelCache::new();
    let mut starts = 0;
    let mut waits = 0;
    for _ in 0..5 {
        match cache.begin_resolve("local-mymodel") {
            ResolveAction::StartLoad => starts += 1,
            ResolveAction::Wait => waits += 1,
            _ => panic!("unexpected action before any outcome"),
        }
    }
    assert_eq!(starts, 1);
    assert_eq!(waits, 4);
}

#[test]
fn published_handle_reaches_every_requester() {
    let mut cache = ModelCache::new();
    assert!(matches!(cache.begin_resolve("m"), ResolveAction::StartLoad));
    cache.complete_load("m", LoadOutcome::Loaded(42));
    for _ in 0..3 {
        match cache.begin_resolve("m") {
            ResolveAction::Hit(h) => assert_eq!(h, 42),
            _ => panic!("expected a cache hit"),
        }
    }
    assert!(matches!(cache.lookup("m"), Some(EntryState::Ready(42))));
}

#[test]
fn failed_load_is_retried_exactly_once_per_round() {
    let mut cache = ModelCache::new();
    assert!(matches!(cache.begin_resolve("m"), ResolveAction::StartLoad));
    cache.complete_load(
        "m",
        LoadOutcome::Rejected {
            error: ModelError::LoadingError("engine fault".to_string()),
            permanent: false,
        },
    );
    // The retry round again starts exactly one new load.
    let mut starts = 0;
    for _ in 0..4 {
        if matches!(cache.begin_resolve("m"), ResolveAction::StartLoad) {
            starts += 1;
        }
    }
    assert_eq!(starts, 1);
}

#[test]
fn permanent_failure_is_not_retried() {
    let mut cache = ModelCache::new();
    assert!(matches!(cache.begin_resolve("m"), ResolveAction::StartLoad));
    cache.complete_load(
        "m",
        LoadOutcome::Rejected { error: ModelError::NoContent, permanent: true },
    );
    for _ in 0..3 {
        match cache.begin_resolve("m") {
            ResolveAction::Refused(e) => assert!(matches!(e, ModelError::NoContent)),
            _ => panic!("a permanent failure must refuse further loads"),
        }
    }
}

#[test]
fn identifiers_are_independent() {
    // While B's load is in flight, A is answered on its own.
    let mut cache = ModelCache::new();
    assert!(matches!(cache.begin_resolve("b"), ResolveAction::StartLoad));
    assert!(matches!(cache.begin_resolve("a"), ResolveAction::StartLoad));
    cache.complete_load("a", LoadOutcome::Loaded(7));
    assert!(matches!(cache.begin_resolve("a"), ResolveAction::Hit(7)));
    // B's entry is untouched by A's traffic.
    assert!(matches!(cache.begin_resolve("b"), ResolveAction::Wait));
}

#[test]
fn text_model_ignores_attached_image() {
    let with_image = plan_request(false, "hello", Some(vec![1, 2, 3])).unwrap();
    let without = plan_request(false, "hello", None).unwrap();
    let expected =
        "You are a helpful AI assistant. Keep your responses concise and friendly.\n\nhello";
    match (&with_image, &without) {
        (GenerateCall::TextOnly { prompt: p1 }, GenerateCall::TextOnly { prompt: p2 }) => {
            assert_eq!(p1, p2);
            assert_eq!(p1, expected);
        },
        _ => panic!("a text model must never take the vision path"),
    }
}

#[test]
fn vision_model_requires_image() {
    let missing = plan_request(true, "look", None);
    assert!(matches!(missing, Err(ModelError::MissingImage)));

    let ok = plan_request(true, "look", Some(vec![9, 9])).unwrap();
    match ok {
        GenerateCall::WithImage { prompt, image } => {
            assert_eq!(prompt, "look");
            assert_eq!(image, vec![9, 9]);
        },
        _ => panic!("a vision request with an image must take the vision path"),
    }
}

#[test]
fn first_choice_content_is_extracted() {
    let choices = vec![Some("answer".to_string()), Some("ignored".to_string())];
    assert_eq!(extract_content(&choices).unwrap(), "answer");
}

#[test]
fn response_without_content_is_a_distinct_error() {
    let none_at_all: Vec<Option<String>> = vec![];
    assert!(matches!(extract_content(&none_at_all), Err(ModelError::NoContent)));
    let empty_first: Vec<Option<String>> = vec![None, Some("late".to_string())];
    assert!(matches!(extract_content(&empty_first), Err(ModelError::NoContent)));
}

#[test]
fn identifiers_route_to_their_loaders() {
    assert_eq!(route_model_id("mistral-7b-remote"), ModelRoute::RemoteMistral);
    assert_eq!(route_model_id("smollm3-remote"), ModelRoute::RemoteSmolLm3);
    assert_eq!(route_model_id("local-mymodel"), ModelRoute::Local);
    assert_eq!(route_model_id("local-"), ModelRoute::Local);
    assert_eq!(route_model_id("elsewhere"), ModelRoute::Unknown);
}

#[test]
fn descriptor_lookup_finds_first_match() {
    let make = |id: &str| ModelDescriptor {
        identifier: id.to_string(),
        directory: Some("d".to_string()),
        primary_file: "f.gguf".to_string(),
        support_files: vec![],
        family: Family::PlainWeights,
    };
    let descs = vec![make("local-a"), make("local-b"), make("local-a")];
    assert_eq!(find_descriptor(&descs, "local-b"), Some(1));
    assert_eq!(find_descriptor(&descs, "local-a"), Some(0));
    assert_eq!(find_descriptor(&descs, "local-c"), None);
}

#[test]
fn chat_request_carries_decoded_bytes() {
    let req = ChatRequest {
        model_id: "local-mymodel".to_string(),
        message: "hi".to_string(),
        image: Some(vec![0xde, 0xad]),
    };
    assert_eq!(req.model_id, "local-mymodel");
    assert_eq!(req.image.as_deref(), Some(&[0xde, 0xad][..]));
}

#[test]
fn unknown_identifier_has_no_entry() {
    let cache = ModelCache::new();
    assert!(cache.lookup("never-asked").is_none());
}

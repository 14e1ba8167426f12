//! Dispatch: routing an identifier to its loading path, shaping the
//! generate call from a model's capability and the request, and reading
//! the engine's answer back out.
use vstd::prelude::*;
use vstd::string::*;

use crate::model::{ModelDescriptor, ModelError};
use crate::strutil::{has_prefix, str_eq, str_has_prefix};

verus! {

/// A chat request as it reaches the dispatcher: the caller has already
/// decoded any transport encoding, so the image is plain bytes.
#[derive(Debug)]
pub struct ChatRequest {
    pub model_id: String,
    pub message: String,
    pub image: Option<Vec<u8>>,
}

/// The mathematical content of a chat request.
#[verifier::ext_equal]
pub struct ChatRequestView {
    pub model_id: Seq<char>,
    pub message: Seq<char>,
    pub image: Option<Seq<u8>>,
}

impl View for ChatRequest {
    type V = ChatRequestView;

    open spec fn view(&self) -> ChatRequestView {
        ChatRequestView {
            model_id: self.model_id@,
            message: self.message@,
            image: match self.image {
                Option::Some(b) => Option::Some(b@),
                Option::None => Option::None,
            },
        }
    }
}

/// A chat answer: the first choice's content and the engine's token
/// count.
#[derive(Debug)]
pub struct ChatResponse {
    pub content: String,
    pub total_tokens: u64,
}

/// Which loading path an identifier selects.
#[derive(Clone, Copy, Debug, PartialEq, Eq, Structural)]
pub enum ModelRoute {
    /// The well-known remote instruct model.
    RemoteMistral,
    /// The well-known remote compact reasoning model.
    RemoteSmolLm3,
    /// A locally discovered model.
    Local,
    /// No loading path; the request fails.
    Unknown,
}

/// The route of an identifier: the two well-known remote names bypass
/// discovery, a scan-derived prefix selects the local path, anything else
/// is refused.
pub open spec fn spec_route(id: Seq<char>) -> ModelRoute {
    if id == "mistral-7b-remote"@ {
        ModelRoute::RemoteMistral
    } else if id == "smollm3-remote"@ {
        ModelRoute::RemoteSmolLm3
    } else if has_prefix(id, "local-"@) {
        ModelRoute::Local
    } else {
        ModelRoute::Unknown
    }
}

/// Routes an identifier to its loading path.
pub fn route_model_id(id: &str) -> (r: ModelRoute)
    ensures
        r == spec_route(id@),
{
    if str_eq(id, "mistral-7b-remote") {
        ModelRoute::RemoteMistral
    } else if str_eq(id, "smollm3-remote") {
        ModelRoute::RemoteSmolLm3
    } else if str_has_prefix(id, "local-") {
        ModelRoute::Local
    } else {
        ModelRoute::Unknown
    }
}

/// The index of the descriptor carrying an identifier, first match.
pub fn find_descriptor(descs: &Vec<ModelDescriptor>, id: &str) -> (r: Option<usize>)
    ensures
        match r {
            Option::Some(i) => {
                &&& i < descs@.len()
                &&& descs@[i as int]@.identifier == id@
                &&& forall|j: int| 0 <= j < i ==> #[trigger] descs@[j]@.identifier != id@
            },
            Option::None => forall|j: int|
                0 <= j < descs@.len() ==> #[trigger] descs@[j]@.identifier != id@,
        },
{
    let n: usize = descs.len();
    let mut i: usize = 0;
    while i < n
        invariant
            n == descs@.len(),
            i <= n,
            forall|j: int| 0 <= j < i ==> #[trigger] descs@[j]@.identifier != id@,
        decreases n - i,
    {
        if str_eq(descs[i].identifier.as_str(), id) {
            return Some(i);
        }
        i += 1;
    }
    None
}

/// The shape of one generate call handed to the engine.
#[derive(Debug)]
pub enum GenerateCall {
    /// A text-only call; the prompt carries the fixed system preamble.
    TextOnly { prompt: String },
    /// A multimodal call: the user's message beside the decoded image.
    WithImage { prompt: String, image: Vec<u8> },
}

/// The mathematical content of a generate call.
pub enum GenerateCallView {
    TextOnly { prompt: Seq<char> },
    WithImage { prompt: Seq<char>, image: Seq<u8> },
}

impl View for GenerateCall {
    type V = GenerateCallView;

    open spec fn view(&self) -> GenerateCallView {
        match self {
            GenerateCall::TextOnly { prompt } => GenerateCallView::TextOnly { prompt: prompt@ },
            GenerateCall::WithImage { prompt, image } => GenerateCallView::WithImage {
                prompt: prompt@,
                image: image@,
            },
        }
    }
}

/// The prompt a text-only model receives: the fixed system preamble, then
/// the user's message.
pub open spec fn spec_text_prompt(message: Seq<char>) -> Seq<char> {
    "You are a helpful AI assistant. Keep your responses concise and friendly.\n\n"@ + message
}

/// The planned call for one request against a model of the given
/// capability: a vision model takes the image and fails without one; a
/// text model answers from the text alone, ignoring any attached image.
pub open spec fn spec_plan(vision: bool, message: Seq<char>, image: Option<Seq<u8>>) -> Result<
    GenerateCallView,
    ModelError,
> {
    if vision {
        match image {
            Option::Some(b) => Result::Ok(
                GenerateCallView::WithImage { prompt: message, image: b },
            ),
            Option::None => Result::Err(ModelError::MissingImage),
        }
    } else {
        Result::Ok(GenerateCallView::TextOnly { prompt: spec_text_prompt(message) })
    }
}

/// Shapes the generate call for one request, as `spec_plan` describes.
pub fn plan_request(vision: bool, message: &str, image: Option<Vec<u8>>) -> (r: Result<
    GenerateCall,
    ModelError,
>)
    ensures
        r is Ok <==> spec_plan(vision, message@, opt_bytes_view(image)) is Ok,
        r matches Ok(c) ==> Result::<GenerateCallView, ModelError>::Ok(c@) == spec_plan(
            vision,
            message@,
            opt_bytes_view(image),
        ),
        r matches Err(e) ==> {
            &&& e == ModelError::MissingImage
            &&& vision
            &&& image is None
        },
{
    if vision {
        match image {
            Some(b) => Ok(
                GenerateCall::WithImage { prompt: String::from_str(message), image: b },
            ),
            None => Err(ModelError::MissingImage),
        }
    } else {
        let prompt: String = crate::strutil::join2(
            "You are a helpful AI assistant. Keep your responses concise and friendly.\n\n",
            message,
        );
        Ok(GenerateCall::TextOnly { prompt })
    }
}

/// The view of an optional byte buffer.
pub open spec fn opt_bytes_view(o: Option<Vec<u8>>) -> Option<Seq<u8>> {
    match o {
        Option::Some(b) => Option::Some(b@),
        Option::None => Option::None,
    }
}

/// A capability-text model never takes the vision path: whatever image is
/// attached, the planned call equals the image-less one and has the
/// text-only shape.
pub proof fn lemma_text_model_ignores_image(message: Seq<char>, image: Option<Seq<u8>>)
    ensures
        spec_plan(false, message, image) == spec_plan(false, message, Option::None),
        spec_plan(false, message, image) matches Ok(c) && c is TextOnly,
{
}

/// A vision model is owed an answer exactly when an image is attached;
/// without one the request fails before any engine call.
pub proof fn lemma_vision_model_needs_image(message: Seq<char>, image: Option<Seq<u8>>)
    ensures
        spec_plan(true, message, image) is Ok <==> image is Some,
        image is None ==> spec_plan(true, message, image) == Result::<
            GenerateCallView,
            ModelError,
        >::Err(ModelError::MissingImage),
{
}

/// Reads the engine's answer: the first choice's content, or a distinct
/// error when the engine answered without content.
pub fn extract_content(choices: &Vec<Option<String>>) -> (r: Result<String, ModelError>)
    ensures
        choices@.len() > 0 && choices@[0] is Some ==> (r matches Ok(c) && c@
            == choices@[0].unwrap()@),
        choices@.len() == 0 || choices@[0] is None ==> r == Result::<String, ModelError>::Err(
            ModelError::NoContent,
        ),
{
    if choices.len() == 0 {
        return Err(ModelError::NoContent);
    }
    match &choices[0] {
        Some(c) => Ok(c.clone()),
        None => Err(ModelError::NoContent),
    }
}

} // verus!

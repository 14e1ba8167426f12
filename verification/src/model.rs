//! The data model: model families, capabilities, descriptors, presentation
//! records, and the library's error type.
use vstd::prelude::*;
use vstd::string::*;

use crate::strutil::{join2, names_view};

verus! {

/// The packaging and loading convention of a discovered model. Each family
/// selects one loader strategy.
#[derive(Clone, Copy, Debug, PartialEq, Eq, Structural)]
pub enum Family {
    /// A plain GGUF weights file, text only.
    PlainWeights,
    /// A GGUF weights file recognised as a vision model by name.
    VisionWeights,
    /// Packed quantized shards for a text model.
    PackedQuantizedText,
    /// Packed quantized shards for a vision model.
    PackedQuantizedVision,
    /// A compact reasoning text model; satisfied remotely by the engine.
    CompactReasoningText,
    /// A MatFormer text model described by a configuration file.
    MatformerText,
    /// A MatFormer vision model described by a configuration file.
    MatformerVision,
}

/// The input modalities a model accepts.
#[derive(Clone, Copy, Debug, PartialEq, Eq, Structural)]
pub struct Capability {
    pub text: bool,
    pub vision: bool,
}

/// The vision families are exactly these three.
pub open spec fn spec_is_vision(f: Family) -> bool {
    match f {
        Family::VisionWeights => true,
        Family::PackedQuantizedVision => true,
        Family::MatformerVision => true,
        _ => false,
    }
}

/// The capability set of a family: vision families take an image, the
/// others take text.
pub fn family_capability(f: Family) -> (r: Capability)
    ensures
        r.vision == spec_is_vision(f),
        r.text == !spec_is_vision(f),
{
    match f {
        Family::VisionWeights | Family::PackedQuantizedVision | Family::MatformerVision => {
            Capability { text: false, vision: true }
        },
        _ => Capability { text: true, vision: false },
    }
}

/// The mathematical content of a descriptor: every text field as a
/// character sequence.
#[verifier::ext_equal]
pub struct DescriptorView {
    pub identifier: Seq<char>,
    pub directory: Option<Seq<char>>,
    pub primary_file: Seq<char>,
    pub support_files: Seq<Seq<char>>,
    pub family: Family,
}

/// The immutable record describing one discovered model: where it lives,
/// which family classified it, and which shard files support it. Produced
/// by a scan, never mutated afterwards.
#[derive(Clone, Debug)]
pub struct ModelDescriptor {
    /// Unique within one scan; derived from the directory or file name.
    pub identifier: String,
    /// The sub-directory holding the model; absent for a standalone file at
    /// the root of the models directory.
    pub directory: Option<String>,
    /// The weights file, or a family marker where no single file applies.
    pub primary_file: String,
    /// The packed quantized shard names found beside the model, in listing
    /// order.
    pub support_files: Vec<String>,
    pub family: Family,
}

impl View for ModelDescriptor {
    type V = DescriptorView;

    open spec fn view(&self) -> DescriptorView {
        DescriptorView {
            identifier: self.identifier@,
            directory: match self.directory {
                Option::Some(d) => Option::Some(d@),
                Option::None => Option::None,
            },
            primary_file: self.primary_file@,
            support_files: names_view(self.support_files@),
            family: self.family,
        }
    }
}

impl ModelDescriptor {
    /// Whether this model consumes images.
    pub fn is_vision(&self) -> (r: bool)
        ensures
            r == spec_is_vision(self.family),
    {
        family_capability(self.family).vision
    }
}

/// The mathematical content of a presentation record.
#[verifier::ext_equal]
pub struct ModelInfoView {
    pub id: Seq<char>,
    pub name: Seq<char>,
    pub description: Seq<char>,
    pub model_type: Seq<char>,
    pub size_estimate: Option<Seq<char>>,
    pub is_available: bool,
    pub repo: Option<Seq<char>>,
    pub files: Seq<Seq<char>>,
    pub is_vision: bool,
}

/// Presentation record for one discovered model, as handed to a user
/// interface: a human-readable name and description beside the identifying
/// fields.
#[derive(Clone, Debug)]
pub struct ModelInfo {
    pub id: String,
    pub name: String,
    pub description: String,
    pub model_type: String,
    pub size_estimate: Option<String>,
    pub is_available: bool,
    pub repo: Option<String>,
    pub files: Vec<String>,
    pub is_vision: bool,
}

impl View for ModelInfo {
    type V = ModelInfoView;

    open spec fn view(&self) -> ModelInfoView {
        ModelInfoView {
            id: self.id@,
            name: self.name@,
            description: self.description@,
            model_type: self.model_type@,
            size_estimate: match self.size_estimate {
                Option::Some(s) => Option::Some(s@),
                Option::None => Option::None,
            },
            is_available: self.is_available,
            repo: match self.repo {
                Option::Some(s) => Option::Some(s@),
                Option::None => Option::None,
            },
            files: names_view(self.files@),
            is_vision: self.is_vision,
        }
    }
}

/// Errors surfaced by loading and dispatch. Payloads are plain text so the
/// values stay inspectable; the surrounding application renders them.
#[derive(Clone, Debug)]
pub enum ModelError {
    /// The engine failed to construct a handle.
    LoadingError(String),
    /// No model is known under the requested identifier.
    NotFound(String),
    /// The request or the model layout is invalid for the chosen strategy.
    Configuration(String),
    /// A vision model was asked to answer without an image.
    MissingImage,
    /// The supplied image bytes could not be decoded.
    ImageError(String),
    /// The supplied image payload was not valid base64 text.
    Base64Error(String),
    /// A directory could not be read.
    IoError(String),
    /// A support file held unusable JSON.
    JsonError(String),
    /// The engine answered without any content.
    NoContent,
}

impl ModelError {
    /// An equal copy of the error. A hand-written copy, unlike a derived
    /// clone, lets callers rely on the equality.
    pub fn duplicate(&self) -> (r: ModelError)
        ensures
            r == *self,
    {
        match self {
            ModelError::LoadingError(m) => ModelError::LoadingError(m.clone()),
            ModelError::NotFound(m) => ModelError::NotFound(m.clone()),
            ModelError::Configuration(m) => ModelError::Configuration(m.clone()),
            ModelError::MissingImage => ModelError::MissingImage,
            ModelError::ImageError(m) => ModelError::ImageError(m.clone()),
            ModelError::Base64Error(m) => ModelError::Base64Error(m.clone()),
            ModelError::IoError(m) => ModelError::IoError(m.clone()),
            ModelError::JsonError(m) => ModelError::JsonError(m.clone()),
            ModelError::NoContent => ModelError::NoContent,
        }
    }

    /// A single-line rendering of the error, in place of a display
    /// implementation.
    pub fn message(&self) -> (r: String)
        ensures
            r@ == spec_message(*self),
    {
        match self {
            ModelError::LoadingError(m) => join2("model loading failed: ", m.as_str()),
            ModelError::NotFound(m) => join2("model not found: ", m.as_str()),
            ModelError::Configuration(m) => join2("invalid configuration: ", m.as_str()),
            ModelError::MissingImage => String::from_str("vision model requires image input"),
            ModelError::ImageError(m) => join2("image processing failed: ", m.as_str()),
            ModelError::Base64Error(m) => join2("base64 decode error: ", m.as_str()),
            ModelError::IoError(m) => join2("io error: ", m.as_str()),
            ModelError::JsonError(m) => join2("json parsing error: ", m.as_str()),
            ModelError::NoContent => String::from_str("no content in response"),
        }
    }
}

/// The text `message` returns for each error.
pub open spec fn spec_message(e: ModelError) -> Seq<char> {
    match e {
        ModelError::LoadingError(m) => "model loading failed: "@ + m@,
        ModelError::NotFound(m) => "model not found: "@ + m@,
        ModelError::Configuration(m) => "invalid configuration: "@ + m@,
        ModelError::MissingImage => "vision model requires image input"@,
        ModelError::ImageError(m) => "image processing failed: "@ + m@,
        ModelError::Base64Error(m) => "base64 decode error: "@ + m@,
        ModelError::IoError(m) => "io error: "@ + m@,
        ModelError::JsonError(m) => "json parsing error: "@ + m@,
        ModelError::NoContent => "no content in response"@,
    }
}

} // verus!

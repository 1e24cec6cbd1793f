//! Message contents.
//!
//! A [`Message`] forms part of a conversation: the conversation history
//! is a list of messages, ending with a `user`, `developer` or `system`
//! message. Each message holds [`Content`]: plain text or a list of
//! [`ContentPart`]s (text, refusal, image, audio or file).

use vstd::prelude::*;
use crate::json::text;
use super::request::AudioFormat;

verus! {

/// A message of a conversation, by the role of its sender.
#[derive(Debug, Clone)]
pub enum Message {
    /// Developer-provided instructions that the model should follow.
    Developer { content: Content },
    /// Developer-provided instructions (for older models).
    System { content: Content },
    /// Messages sent by an end user.
    User { content: Content },
    /// Messages sent by the model in response to user messages.
    Assistant {
        /// Data about a previous audio response from the model.
        audio: Option<AudioResponse>,
        /// The contents of the assistant message.
        content: Option<Content>,
        /// The refusal message by the assistant.
        refusal: Option<String>,
        /// The tool calls generated by the model.
        tool_calls: Option<Vec<ToolCall>>,
    },
    /// The result of a tool call.
    Tool {
        content: Content,
        /// Tool call that this message is responding to.
        tool_call_id: String,
    },
}

/// Message content: plain text or a list of parts.
#[derive(Debug, Clone)]
pub enum Content {
    Text(String),
    ContentParts(Vec<ContentPart>),
}

impl Content {
    /// The parts of this content; plain text is a single text part.
    pub open spec fn parts(self) -> Seq<ContentPart> {
        match self {
            Content::Text(t) => seq![ContentPart::Text { text: t }],
            Content::ContentParts(ps) => ps@,
        }
    }

    /// Whether `r` is a list of parts holding the parts of `a` followed
    /// by those of `b`.
    pub open spec fn is_combination(r: Content, a: Content, b: Content) -> bool {
        r is ContentParts && r.parts() == a.parts() + b.parts()
    }

    /// Combines two contents into a single list of parts: the parts of
    /// `self` followed by those of `other`, where plain text becomes a
    /// text part.
    pub fn combine(self, other: Self) -> (r: Self)
        ensures
            Content::is_combination(r, self, other),
    {
        let ghost a = self.parts();
        let ghost b = other.parts();
        let mut new_parts: Vec<ContentPart> = Vec::new();
        match self {
            Content::Text(t) => {
                new_parts.push(ContentPart::from(t));
            },
            Content::ContentParts(parts) => {
                let mut parts = parts;
                new_parts.append(&mut parts);
            },
        }
        assert(new_parts@ =~= a);
        match other {
            Content::Text(t) => {
                new_parts.push(ContentPart::from(t));
            },
            Content::ContentParts(parts) => {
                let mut parts = parts;
                new_parts.append(&mut parts);
            },
        }
        assert(new_parts@ =~= a + b);
        Content::ContentParts(new_parts)
    }
}

/// Combining puts the parts of the first content before those of the
/// second, each in its order: two lists of parts are concatenated, and
/// plain text becomes one text part at its place.
pub proof fn lemma_combine_parts(r: Content, a: Content, b: Content)
    requires
        Content::is_combination(r, a, b),
    ensures
        a is ContentParts && b is ContentParts ==> (r is ContentParts && r->ContentParts_0@ == a->ContentParts_0@ + b->ContentParts_0@),
        a is Text ==> (r is ContentParts && r->ContentParts_0@.len() >= 1 && r->ContentParts_0@[0] == (ContentPart::Text { text: a->Text_0 })),
        b is Text ==> (r is ContentParts && r->ContentParts_0@.len() >= 1 && r->ContentParts_0@[r->ContentParts_0@.len() - 1] == (ContentPart::Text {
            text: b->Text_0,
        })),
        a is Text && b is Text ==> (r is ContentParts && r->ContentParts_0@.len() == 2),
{
}

/// Combining contents is associative: combining `a` with `b` and then
/// with `c` gives the same parts as combining `a` with the combination
/// of `b` and `c`; the parts of a combination are as many as those of
/// its two sides together.
pub proof fn lemma_combine_associative(
    a: Content,
    b: Content,
    c: Content,
    ab: Content,
    ab_c: Content,
    bc: Content,
    a_bc: Content,
)
    requires
        Content::is_combination(ab, a, b),
        Content::is_combination(ab_c, ab, c),
        Content::is_combination(bc, b, c),
        Content::is_combination(a_bc, a, bc),
    ensures
        ab_c.parts() == a_bc.parts(),
        ab_c.parts().len() == a.parts().len() + b.parts().len() + c.parts().len(),
{
    assert(ab_c.parts() =~= a_bc.parts());
}

/// Part of a [`Content`] list.
#[derive(Debug, Clone)]
pub enum ContentPart {
    Text { text: String },
    Refusal { refusal: String },
    ImageUrl { image_url: ImageInput },
    InputAudio { input_audio: AudioInput },
    File { file: FileInput },
}

/// Image input content.
#[derive(Debug, Clone, PartialEq, Eq)]
pub struct ImageInput {
    /// Either a URL of the image or the base64 encoded image data.
    pub url: String,
    /// Specifies the detail level of the image.
    pub detail: Option<String>,
}

impl ImageInput {
    /// An image input from a URL or base64 encoded image data.
    pub fn from_url(data: &str) -> (r: Self)
        ensures
            r.url@ == data@,
            r.detail is None,
    {
        ImageInput { url: text(data), detail: None }
    }
}

/// Audio input content.
#[derive(Debug, Clone, PartialEq, Eq)]
pub struct AudioInput {
    /// Base64 encoded audio data.
    pub data: String,
    /// The format of the encoded audio data.
    pub format: AudioFormat,
}

impl AudioInput {
    /// An audio input from base64 encoded data in `format`.
    pub fn new(data: &str, format: AudioFormat) -> (r: Self)
        ensures
            r.data@ == data@,
            r.format == format,
    {
        AudioInput { data: text(data), format }
    }
}

/// File input content.
#[derive(Debug, Clone, PartialEq, Eq)]
pub struct FileInput {
    /// The base64 encoded file data.
    pub file_data: Option<String>,
    /// The ID of an uploaded file.
    pub file_id: Option<String>,
    /// The name of the file.
    pub filename: Option<String>,
}

impl FileInput {
    /// A file input from its name and base64 encoded data.
    pub fn from_file_data(name: &str, data: &str) -> (r: Self)
        ensures
            r.file_data matches Some(d) && d@ == data@,
            r.file_id is None,
            r.filename matches Some(n) && n@ == name@,
    {
        FileInput { file_data: Some(text(data)), file_id: None, filename: Some(text(name)) }
    }

    /// A file input from the ID of an uploaded file.
    pub fn from_file_id(id: &str) -> (r: Self)
        ensures
            r.file_data is None,
            r.file_id matches Some(i) && i@ == id@,
            r.filename is None,
    {
        FileInput { file_data: None, file_id: Some(text(id)), filename: None }
    }
}

/// Data about a previous audio response from the model.
#[derive(Debug, Clone, PartialEq, Eq)]
pub struct AudioResponse {
    /// Unique identifier for a previous audio response.
    pub id: String,
}

/// A tool call generated by the model.
#[derive(Debug, Clone, PartialEq, Eq)]
pub enum ToolCall {
    Function { id: String, function: FunctionCall },
    Custom { id: String, custom: CustomCall },
}

/// The function that the model called.
#[derive(Debug, Clone, PartialEq, Eq)]
pub struct FunctionCall {
    /// The name of the function to call.
    pub name: String,
    /// The arguments, as JSON text generated by the model.
    pub arguments: String,
}

/// The custom tool that the model called.
#[derive(Debug, Clone, PartialEq, Eq)]
pub struct CustomCall {
    /// The input for the custom tool call generated by the model.
    pub input: String,
    /// The name of the custom tool to call.
    pub name: String,
}

impl vstd::std_specs::convert::FromSpecImpl<&str> for Content {
    open spec fn obeys_from_spec() -> bool {
        false
    }

    open spec fn from_spec(value: &str) -> Self {
        vstd::pervasive::arbitrary()
    }
}

impl From<&str> for Content {
    fn from(value: &str) -> (r: Self)
        ensures
            r matches Content::Text(t) && t@ == value@,
    {
        Content::Text(text(value))
    }
}

impl vstd::std_specs::convert::FromSpecImpl<String> for Content {
    open spec fn obeys_from_spec() -> bool {
        true
    }

    open spec fn from_spec(value: String) -> Self {
        Content::Text(value)
    }
}

impl From<String> for Content {
    fn from(value: String) -> Self {
        Content::Text(value)
    }
}

impl vstd::std_specs::convert::FromSpecImpl<AudioInput> for Content {
    open spec fn obeys_from_spec() -> bool {
        false
    }

    open spec fn from_spec(value: AudioInput) -> Self {
        vstd::pervasive::arbitrary()
    }
}

impl From<AudioInput> for Content {
    fn from(value: AudioInput) -> (r: Self)
        ensures
            r.parts() == seq![ContentPart::InputAudio { input_audio: value }],
            r is ContentParts,
    {
        Content::ContentParts(vec![ContentPart::InputAudio { input_audio: value }])
    }
}

impl vstd::std_specs::convert::FromSpecImpl<FileInput> for Content {
    open spec fn obeys_from_spec() -> bool {
        false
    }

    open spec fn from_spec(value: FileInput) -> Self {
        vstd::pervasive::arbitrary()
    }
}

impl From<FileInput> for Content {
    fn from(value: FileInput) -> (r: Self)
        ensures
            r.parts() == seq![ContentPart::File { file: value }],
            r is ContentParts,
    {
        Content::ContentParts(vec![ContentPart::File { file: value }])
    }
}

impl vstd::std_specs::convert::FromSpecImpl<ImageInput> for Content {
    open spec fn obeys_from_spec() -> bool {
        false
    }

    open spec fn from_spec(value: ImageInput) -> Self {
        vstd::pervasive::arbitrary()
    }
}

impl From<ImageInput> for Content {
    fn from(value: ImageInput) -> (r: Self)
        ensures
            r.parts() == seq![ContentPart::ImageUrl { image_url: value }],
            r is ContentParts,
    {
        Content::ContentParts(vec![ContentPart::ImageUrl { image_url: value }])
    }
}

impl vstd::std_specs::convert::FromSpecImpl<ContentPart> for Content {
    open spec fn obeys_from_spec() -> bool {
        false
    }

    open spec fn from_spec(value: ContentPart) -> Self {
        vstd::pervasive::arbitrary()
    }
}

impl From<ContentPart> for Content {
    fn from(value: ContentPart) -> (r: Self)
        ensures
            r.parts() == seq![value],
            r is ContentParts,
    {
        Content::ContentParts(vec![value])
    }
}

impl vstd::std_specs::convert::FromSpecImpl<Vec<ContentPart>> for Content {
    open spec fn obeys_from_spec() -> bool {
        true
    }

    open spec fn from_spec(value: Vec<ContentPart>) -> Self {
        Content::ContentParts(value)
    }
}

impl From<Vec<ContentPart>> for Content {
    fn from(value: Vec<ContentPart>) -> Self {
        Content::ContentParts(value)
    }
}

impl vstd::std_specs::convert::FromSpecImpl<&str> for ContentPart {
    open spec fn obeys_from_spec() -> bool {
        false
    }

    open spec fn from_spec(value: &str) -> Self {
        vstd::pervasive::arbitrary()
    }
}

impl From<&str> for ContentPart {
    fn from(value: &str) -> (r: Self)
        ensures
            r matches ContentPart::Text { text: t } && t@ == value@,
    {
        ContentPart::Text { text: text(value) }
    }
}

impl vstd::std_specs::convert::FromSpecImpl<String> for ContentPart {
    open spec fn obeys_from_spec() -> bool {
        true
    }

    open spec fn from_spec(value: String) -> Self {
        ContentPart::Text { text: value }
    }
}

impl From<String> for ContentPart {
    fn from(value: String) -> Self {
        ContentPart::Text { text: value }
    }
}

impl vstd::std_specs::convert::FromSpecImpl<ImageInput> for ContentPart {
    open spec fn obeys_from_spec() -> bool {
        true
    }

    open spec fn from_spec(value: ImageInput) -> Self {
        ContentPart::ImageUrl { image_url: value }
    }
}

impl From<ImageInput> for ContentPart {
    fn from(value: ImageInput) -> Self {
        ContentPart::ImageUrl { image_url: value }
    }
}

impl vstd::std_specs::convert::FromSpecImpl<AudioInput> for ContentPart {
    open spec fn obeys_from_spec() -> bool {
        true
    }

    open spec fn from_spec(value: AudioInput) -> Self {
        ContentPart::InputAudio { input_audio: value }
    }
}

impl From<AudioInput> for ContentPart {
    fn from(value: AudioInput) -> Self {
        ContentPart::InputAudio { input_audio: value }
    }
}

impl vstd::std_specs::convert::FromSpecImpl<FileInput> for ContentPart {
    open spec fn obeys_from_spec() -> bool {
        true
    }

    open spec fn from_spec(value: FileInput) -> Self {
        ContentPart::File { file: value }
    }
}

impl From<FileInput> for ContentPart {
    fn from(value: FileInput) -> Self {
        ContentPart::File { file: value }
    }
}

} // verus!

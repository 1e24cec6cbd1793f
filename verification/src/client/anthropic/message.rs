//! Anthropic message contents.

use vstd::prelude::*;
use crate::json::text;
use super::tools::{
    BashCodeExecutionToolResult, CodeExecutionToolResult, McpToolResult, McpToolUse, ServerToolUse,
    TextEditorExecutionToolResult, ToolResult, ToolUse, WebFetchToolResult, WebSearchToolResult,
};

verus! {

/// A message that forms part of a conversation with an assistant.
///
/// There is no `system` role: the system prompt is a top-level field
/// of a request.
#[derive(Debug)]
pub enum Message {
    /// User message.
    User { content: Content },
    /// Assistant message.
    Assistant { content: Content },
}

/// [`Message`] content: plain text or a list of parts.
#[derive(Debug)]
pub enum Content {
    Text(String),
    Parts(Vec<ContentPart>),
}

/// Part of a series of [`Content`] values.
#[derive(Debug)]
pub enum ContentPart {
    Text(Text),
    Image(Image),
    Document { source: Document },
    SearchResult(SearchResult),
    Thinking(Thinking),
    RedactedThinking(RedactedThinking),
    ToolUse(ToolUse),
    ToolResult(ToolResult),
    ServerToolUse(ServerToolUse),
    WebSearchToolResult(WebSearchToolResult),
    WebFetchToolResult(WebFetchToolResult),
    CodeExecutionToolResult(CodeExecutionToolResult),
    BashCodeExecutionToolResult(BashCodeExecutionToolResult),
    TextEditorCodeExecutionToolResult(TextEditorExecutionToolResult),
    McpToolUse(McpToolUse),
    McpToolResult(McpToolResult),
}

impl ContentPart {
    /// The text of this part, if it is a plain text part: a text part
    /// without cache control and without citations.
    pub open spec fn plain_text(self) -> Option<Seq<char>> {
        match self {
            ContentPart::Text(t) => if t.cache_control is None && t.citations@.len() == 0 {
                Some(t.text@)
            } else {
                None
            },
            _ => None,
        }
    }

    /// Whether two parts are the same, or are plain text parts with the
    /// same text.
    pub open spec fn equivalent(self, other: ContentPart) -> bool {
        self == other || (self.plain_text() is Some && self.plain_text() == other.plain_text())
    }
}

impl Content {
    /// The number of parts of this content; plain text is one part.
    pub open spec fn num_parts(self) -> nat {
        match self {
            Content::Text(_) => 1,
            Content::Parts(ps) => ps@.len(),
        }
    }

    /// Whether `p` stands for the `k`-th part of this content: the part
    /// itself, or, for plain text, a plain text part with that text.
    pub open spec fn part_matches(self, k: int, p: ContentPart) -> bool {
        match self {
            Content::Text(t) => k == 0 && p.plain_text() == Some(t@),
            Content::Parts(ps) => p == ps@[k],
        }
    }

    /// Whether `r` is a list of parts holding the parts of `a` followed
    /// by those of `b`.
    pub open spec fn is_combination(r: Content, a: Content, b: Content) -> bool {
        match r {
            Content::Parts(ps) => {
                &&& ps@.len() == a.num_parts() + b.num_parts()
                &&& forall|k: int| 0 <= k < a.num_parts() ==> a.part_matches(k, #[trigger] ps@[k])
                &&& forall|j: int|
                    a.num_parts() <= j < ps@.len() ==> b.part_matches(j - a.num_parts(), #[trigger] ps@[j])
            },
            Content::Text(_) => false,
        }
    }

    /// Whether `x` and `y` are lists of parts of the same length whose
    /// parts are pairwise equivalent.
    pub open spec fn same_parts(x: Content, y: Content) -> bool {
        match (x, y) {
            (Content::Parts(xs), Content::Parts(ys)) => {
                &&& xs@.len() == ys@.len()
                &&& forall|k: int| 0 <= k < xs@.len() ==> (#[trigger] xs@[k]).equivalent(ys@[k])
            },
            _ => false,
        }
    }

    /// Combines two [`Content`] values into a single list of parts:
    /// the parts of `self` followed by those of `other`, where plain
    /// text becomes a text part.
    pub fn combine(self, other: Self) -> (r: Self)
        ensures
            Content::is_combination(r, self, other),
    {
        let mut new_parts: Vec<ContentPart> = Vec::new();
        match self {
            Content::Text(t) => {
                new_parts.push(ContentPart::from(t));
            },
            Content::Parts(parts) => {
                let mut parts = parts;
                new_parts.append(&mut parts);
            },
        }
        let ghost n = new_parts@.len();
        let ghost first = new_parts@;
        match other {
            Content::Text(t) => {
                new_parts.push(ContentPart::from(t));
            },
            Content::Parts(parts) => {
                let mut parts = parts;
                new_parts.append(&mut parts);
            },
        }
        assert forall|k: int| 0 <= k < n implies #[trigger] new_parts@[k] == first[k] by {}
        Content::Parts(new_parts)
    }
}

/// Combining puts the parts of the first content before those of the
/// second, each in its order: two lists of parts are concatenated, and
/// plain text becomes one plain text part at its place.
pub proof fn lemma_combine_parts(r: Content, a: Content, b: Content)
    requires
        Content::is_combination(r, a, b),
    ensures
        a is Parts && b is Parts ==> (r is Parts && r->Parts_0@ == a->Parts_0@ + b->Parts_0@),
        a is Text ==> (r is Parts && r->Parts_0@.len() >= 1 && r->Parts_0@[0].plain_text() == Some(a->Text_0@)),
        b is Text ==> (r is Parts && r->Parts_0@.len() >= 1 && r->Parts_0@[r->Parts_0@.len() - 1].plain_text() == Some(
            b->Text_0@,
        )),
        a is Text && b is Text ==> (r is Parts && r->Parts_0@.len() == 2),
{
    if let (Content::Parts(xs), Content::Parts(ys), Content::Parts(zs)) = (a, b, r) {
        assert forall|k: int| 0 <= k < zs@.len() implies zs@[k] == (xs@ + ys@)[k] by {
            if k < xs@.len() {
                assert(a.part_matches(k, zs@[k]));
            } else {
                assert(b.part_matches(k - xs@.len(), zs@[k]));
            }
        }
        assert(zs@ =~= xs@ + ys@);
    }
    if let Content::Parts(zs) = r {
        if a is Text {
            assert(a.part_matches(0, zs@[0]));
        }
        if b is Text {
            assert(b.part_matches(zs@.len() - 1 - a.num_parts(), zs@[zs@.len() - 1]));
        }
    }
}

/// Combining contents is associative: combining `a` with `b` and then
/// with `c` gives the same parts as combining `a` with the combination
/// of `b` and `c`.
pub proof fn lemma_combine_associative(
    a: Content,
    b: Content,
    c: Content,
    ab: Content,
    ab_c: Content,
    bc: Content,
    a_bc: Content,
)
    requires
        Content::is_combination(ab, a, b),
        Content::is_combination(ab_c, ab, c),
        Content::is_combination(bc, b, c),
        Content::is_combination(a_bc, a, bc),
    ensures
        Content::same_parts(ab_c, a_bc),
        ab_c.num_parts() == a.num_parts() + b.num_parts() + c.num_parts(),
{
    let xs = ab_c->Parts_0@;
    let ys = a_bc->Parts_0@;
    let abs = ab->Parts_0@;
    let bcs = bc->Parts_0@;
    let na = a.num_parts() as int;
    let nb = b.num_parts() as int;
    assert forall|k: int| 0 <= k < xs.len() implies (#[trigger] xs[k]).equivalent(ys[k]) by {
        if k < na {
            assert(ab.part_matches(k, xs[k]));
            assert(a.part_matches(k, abs[k]));
            assert(a.part_matches(k, ys[k]));
        } else if k < na + nb {
            assert(ab.part_matches(k, xs[k]));
            assert(b.part_matches(k - na, abs[k]));
            assert(bc.part_matches(k - na, ys[k]));
            assert(b.part_matches(k - na, bcs[k - na]));
        } else {
            assert(c.part_matches(k - na - nb, xs[k]));
            assert(bc.part_matches(k - na, ys[k]));
            assert(c.part_matches(k - na - nb, bcs[k - na]));
        }
    }
}

impl vstd::std_specs::convert::FromSpecImpl<ContentPart> for Content {
    open spec fn obeys_from_spec() -> bool {
        false
    }

    open spec fn from_spec(value: ContentPart) -> Self {
        vstd::pervasive::arbitrary()
    }
}

impl From<ContentPart> for Content {
    fn from(value: ContentPart) -> (r: Self)
        ensures
            r matches Content::Parts(ps) && ps@ == seq![value],
    {
        Content::Parts(vec![value])
    }
}

impl vstd::std_specs::convert::FromSpecImpl<Vec<ContentPart>> for Content {
    open spec fn obeys_from_spec() -> bool {
        true
    }

    open spec fn from_spec(value: Vec<ContentPart>) -> Self {
        Content::Parts(value)
    }
}

impl From<Vec<ContentPart>> for Content {
    fn from(value: Vec<ContentPart>) -> Self {
        Content::Parts(value)
    }
}

impl vstd::std_specs::convert::FromSpecImpl<String> for Content {
    open spec fn obeys_from_spec() -> bool {
        true
    }

    open spec fn from_spec(value: String) -> Self {
        Content::Text(value)
    }
}

impl From<String> for Content {
    fn from(value: String) -> Self {
        Content::Text(value)
    }
}

impl vstd::std_specs::convert::FromSpecImpl<&str> for Content {
    open spec fn obeys_from_spec() -> bool {
        false
    }

    open spec fn from_spec(value: &str) -> Self {
        vstd::pervasive::arbitrary()
    }
}

impl From<&str> for Content {
    fn from(value: &str) -> (r: Self)
        ensures
            r matches Content::Text(t) && t@ == value@,
    {
        Content::Text(text(value))
    }
}

impl vstd::std_specs::convert::FromSpecImpl<String> for ContentPart {
    open spec fn obeys_from_spec() -> bool {
        false
    }

    open spec fn from_spec(value: String) -> Self {
        vstd::pervasive::arbitrary()
    }
}

impl From<String> for ContentPart {
    fn from(value: String) -> (r: Self)
        ensures
            r.plain_text() == Some(value@),
    {
        ContentPart::Text(Text::from(value))
    }
}

impl vstd::std_specs::convert::FromSpecImpl<&str> for ContentPart {
    open spec fn obeys_from_spec() -> bool {
        false
    }

    open spec fn from_spec(value: &str) -> Self {
        vstd::pervasive::arbitrary()
    }
}

impl From<&str> for ContentPart {
    fn from(value: &str) -> (r: Self)
        ensures
            r.plain_text() == Some(value@),
    {
        ContentPart::Text(Text::from(value))
    }
}

impl vstd::std_specs::convert::FromSpecImpl<Text> for ContentPart {
    open spec fn obeys_from_spec() -> bool {
        true
    }

    open spec fn from_spec(value: Text) -> Self {
        ContentPart::Text(value)
    }
}

impl From<Text> for ContentPart {
    fn from(value: Text) -> Self {
        ContentPart::Text(value)
    }
}

impl vstd::std_specs::convert::FromSpecImpl<Image> for ContentPart {
    open spec fn obeys_from_spec() -> bool {
        true
    }

    open spec fn from_spec(value: Image) -> Self {
        ContentPart::Image(value)
    }
}

impl From<Image> for ContentPart {
    fn from(value: Image) -> Self {
        ContentPart::Image(value)
    }
}

impl vstd::std_specs::convert::FromSpecImpl<SearchResult> for ContentPart {
    open spec fn obeys_from_spec() -> bool {
        true
    }

    open spec fn from_spec(value: SearchResult) -> Self {
        ContentPart::SearchResult(value)
    }
}

impl From<SearchResult> for ContentPart {
    fn from(value: SearchResult) -> Self {
        ContentPart::SearchResult(value)
    }
}

impl vstd::std_specs::convert::FromSpecImpl<Thinking> for ContentPart {
    open spec fn obeys_from_spec() -> bool {
        true
    }

    open spec fn from_spec(value: Thinking) -> Self {
        ContentPart::Thinking(value)
    }
}

impl From<Thinking> for ContentPart {
    fn from(value: Thinking) -> Self {
        ContentPart::Thinking(value)
    }
}

impl vstd::std_specs::convert::FromSpecImpl<RedactedThinking> for ContentPart {
    open spec fn obeys_from_spec() -> bool {
        true
    }

    open spec fn from_spec(value: RedactedThinking) -> Self {
        ContentPart::RedactedThinking(value)
    }
}

impl From<RedactedThinking> for ContentPart {
    fn from(value: RedactedThinking) -> Self {
        ContentPart::RedactedThinking(value)
    }
}

impl vstd::std_specs::convert::FromSpecImpl<ToolUse> for ContentPart {
    open spec fn obeys_from_spec() -> bool {
        true
    }

    open spec fn from_spec(value: ToolUse) -> Self {
        ContentPart::ToolUse(value)
    }
}

impl From<ToolUse> for ContentPart {
    fn from(value: ToolUse) -> Self {
        ContentPart::ToolUse(value)
    }
}

impl vstd::std_specs::convert::FromSpecImpl<ToolResult> for ContentPart {
    open spec fn obeys_from_spec() -> bool {
        true
    }

    open spec fn from_spec(value: ToolResult) -> Self {
        ContentPart::ToolResult(value)
    }
}

impl From<ToolResult> for ContentPart {
    fn from(value: ToolResult) -> Self {
        ContentPart::ToolResult(value)
    }
}

impl vstd::std_specs::convert::FromSpecImpl<ServerToolUse> for ContentPart {
    open spec fn obeys_from_spec() -> bool {
        true
    }

    open spec fn from_spec(value: ServerToolUse) -> Self {
        ContentPart::ServerToolUse(value)
    }
}

impl From<ServerToolUse> for ContentPart {
    fn from(value: ServerToolUse) -> Self {
        ContentPart::ServerToolUse(value)
    }
}

impl vstd::std_specs::convert::FromSpecImpl<WebSearchToolResult> for ContentPart {
    open spec fn obeys_from_spec() -> bool {
        true
    }

    open spec fn from_spec(value: WebSearchToolResult) -> Self {
        ContentPart::WebSearchToolResult(value)
    }
}

impl From<WebSearchToolResult> for ContentPart {
    fn from(value: WebSearchToolResult) -> Self {
        ContentPart::WebSearchToolResult(value)
    }
}

impl vstd::std_specs::convert::FromSpecImpl<WebFetchToolResult> for ContentPart {
    open spec fn obeys_from_spec() -> bool {
        true
    }

    open spec fn from_spec(value: WebFetchToolResult) -> Self {
        ContentPart::WebFetchToolResult(value)
    }
}

impl From<WebFetchToolResult> for ContentPart {
    fn from(value: WebFetchToolResult) -> Self {
        ContentPart::WebFetchToolResult(value)
    }
}

impl vstd::std_specs::convert::FromSpecImpl<CodeExecutionToolResult> for ContentPart {
    open spec fn obeys_from_spec() -> bool {
        true
    }

    open spec fn from_spec(value: CodeExecutionToolResult) -> Self {
        ContentPart::CodeExecutionToolResult(value)
    }
}

impl From<CodeExecutionToolResult> for ContentPart {
    fn from(value: CodeExecutionToolResult) -> Self {
        ContentPart::CodeExecutionToolResult(value)
    }
}

impl vstd::std_specs::convert::FromSpecImpl<BashCodeExecutionToolResult> for ContentPart {
    open spec fn obeys_from_spec() -> bool {
        true
    }

    open spec fn from_spec(value: BashCodeExecutionToolResult) -> Self {
        ContentPart::BashCodeExecutionToolResult(value)
    }
}

impl From<BashCodeExecutionToolResult> for ContentPart {
    fn from(value: BashCodeExecutionToolResult) -> Self {
        ContentPart::BashCodeExecutionToolResult(value)
    }
}

impl vstd::std_specs::convert::FromSpecImpl<McpToolUse> for ContentPart {
    open spec fn obeys_from_spec() -> bool {
        true
    }

    open spec fn from_spec(value: McpToolUse) -> Self {
        ContentPart::McpToolUse(value)
    }
}

impl From<McpToolUse> for ContentPart {
    fn from(value: McpToolUse) -> Self {
        ContentPart::McpToolUse(value)
    }
}

impl vstd::std_specs::convert::FromSpecImpl<McpToolResult> for ContentPart {
    open spec fn obeys_from_spec() -> bool {
        true
    }

    open spec fn from_spec(value: McpToolResult) -> Self {
        ContentPart::McpToolResult(value)
    }
}

impl From<McpToolResult> for ContentPart {
    fn from(value: McpToolResult) -> Self {
        ContentPart::McpToolResult(value)
    }
}

impl vstd::std_specs::convert::FromSpecImpl<TextEditorExecutionToolResult> for ContentPart {
    open spec fn obeys_from_spec() -> bool {
        true
    }

    open spec fn from_spec(value: TextEditorExecutionToolResult) -> Self {
        ContentPart::TextEditorCodeExecutionToolResult(value)
    }
}

impl From<TextEditorExecutionToolResult> for ContentPart {
    fn from(value: TextEditorExecutionToolResult) -> Self {
        ContentPart::TextEditorCodeExecutionToolResult(value)
    }
}

impl vstd::std_specs::convert::FromSpecImpl<Document> for ContentPart {
    open spec fn obeys_from_spec() -> bool {
        true
    }

    open spec fn from_spec(value: Document) -> Self {
        ContentPart::Document { source: value }
    }
}

impl From<Document> for ContentPart {
    fn from(value: Document) -> Self {
        ContentPart::Document { source: value }
    }
}

/// Text [`ContentPart`].
#[derive(Debug, Clone)]
pub struct Text {
    /// The text content.
    pub text: String,
    /// Create a cache control breakpoint at this content block.
    pub cache_control: Option<CacheControl>,
    /// Citations.
    pub citations: Vec<Citation>,
}

impl Text {
    /// Create a new [`Text`] instance; no citations means an empty
    /// list of them.
    pub fn new(text: &str, cache_control: Option<CacheControl>, citations: Option<Vec<Citation>>) -> (r:
        Self)
        ensures
            r.text@ == text@,
            r.cache_control == cache_control,
            r.citations@ == match citations {
                Some(c) => c@,
                None => Seq::<Citation>::empty(),
            },
    {
        let citations = match citations {
            Some(c) => c,
            None => Vec::new(),
        };
        Text { text: crate::json::text(text), cache_control, citations }
    }
}

impl vstd::std_specs::convert::FromSpecImpl<String> for Text {
    open spec fn obeys_from_spec() -> bool {
        false
    }

    open spec fn from_spec(text: String) -> Self {
        vstd::pervasive::arbitrary()
    }
}

impl From<String> for Text {
    fn from(text: String) -> (r: Self)
        ensures
            r.text == text,
            r.cache_control is None,
            r.citations@.len() == 0,
    {
        Text { text, cache_control: None, citations: Vec::new() }
    }
}

impl vstd::std_specs::convert::FromSpecImpl<&str> for Text {
    open spec fn obeys_from_spec() -> bool {
        false
    }

    open spec fn from_spec(value: &str) -> Self {
        vstd::pervasive::arbitrary()
    }
}

impl From<&str> for Text {
    fn from(value: &str) -> (r: Self)
        ensures
            r.text@ == value@,
            r.cache_control is None,
            r.citations@.len() == 0,
    {
        Text::from(text(value))
    }
}

/// Cache control breakpoint.
#[derive(Debug, Clone)]
pub struct CacheControl {
    /// Allowed value: `ephemeral`.
    pub kind: String,
    /// The time-to-live for the cache control breakpoint: `5m` (the
    /// default) or `1h`.
    pub ttl: Option<String>,
}

/// Content citation.
#[derive(Debug, Clone)]
pub enum Citation {
    CharLocation {
        cited_text: String,
        document_index: u64,
        document_title: Option<String>,
        end_char_index: u64,
        start_char_index: u64,
    },
    PageLocation {
        cited_text: String,
        document_index: u64,
        document_title: Option<String>,
        end_page_number: u64,
        start_page_number: u64,
    },
    ContentBlockLocation {
        cited_text: String,
        document_index: u64,
        document_title: Option<String>,
        end_block_index: u64,
        start_block_index: u64,
    },
    WebSearchResultLocation {
        cited_text: String,
        encrypted_index: String,
        title: Option<String>,
        url: String,
    },
    SearchResultLocation {
        cited_text: String,
        end_block_index: u64,
        search_result_index: u64,
        source: String,
        start_block_index: u64,
        title: Option<String>,
    },
}

/// Image [`ContentPart`].
#[derive(Debug, Clone)]
pub struct Image {
    /// The source data for the image.
    pub source: ImageSource,
    /// Create a cache breakpoint.
    pub cache_control: Option<CacheControl>,
}

impl Image {
    /// Create an [`Image`] from base64 encoded bytes.
    pub fn base64(data: &str, media_type: MediaType) -> (r: Self)
        ensures
            r.source matches ImageSource::Base64 { data: d, media_type: m } && d@ == data@ && m
                == media_type,
            r.cache_control is None,
    {
        Image { source: ImageSource::Base64 { data: text(data), media_type }, cache_control: None }
    }

    /// Create an [`Image`] from an image URL.
    pub fn url(url: &str) -> (r: Self)
        ensures
            r.source matches ImageSource::Url { url: u } && u@ == url@,
            r.cache_control is None,
    {
        Image { source: ImageSource::Url { url: text(url) }, cache_control: None }
    }

    /// Create an [`Image`] from an uploaded file.
    pub fn file(file_id: &str) -> (r: Self)
        ensures
            r.source matches ImageSource::File { file_id: f } && f@ == file_id@,
            r.cache_control is None,
    {
        Image { source: ImageSource::File { file_id: text(file_id) }, cache_control: None }
    }
}

/// Source data for an [`Image`].
#[derive(Debug, Clone)]
pub enum ImageSource {
    Base64 { data: String, media_type: MediaType },
    Url { url: String },
    File { file_id: String },
}

/// Media encoding format of an [`Image`] or [`Document`].
#[derive(Debug, Clone, Copy, PartialEq, Eq, Structural)]
pub enum MediaType {
    Jpeg,
    Png,
    Gif,
    Webp,
    Pdf,
    Text,
}

/// Document [`ContentPart`].
#[derive(Debug)]
pub enum Document {
    Base64 { data: String, media_type: MediaType },
    Text { data: String, media_type: MediaType },
    /// Only text and image parts are allowed in a list of parts.
    Content(Content),
    PdfUrl { url: String },
    File { file_id: String },
}

impl Document {
    /// Create a [`Document`] from base64 encoded bytes.
    pub fn base64(data: &str, media_type: MediaType) -> (r: Self)
        ensures
            r matches Document::Base64 { data: d, media_type: m } && d@ == data@ && m == media_type,
    {
        Document::Base64 { data: text(data), media_type }
    }

    /// Create a [`Document`] from a string.
    pub fn text(data: &str, media_type: MediaType) -> (r: Self)
        ensures
            r matches Document::Text { data: d, media_type: m } && d@ == data@ && m == media_type,
    {
        Document::Text { data: crate::json::text(data), media_type }
    }

    /// Create a [`Document`] from [`Content`] (only text and image
    /// parts are supported in a list of parts).
    pub fn content(content: Content) -> (r: Self)
        ensures
            r == Document::Content(content),
    {
        Document::Content(content)
    }

    /// Create a [`Document`] from a PDF URL.
    pub fn pdf_url(url: &str) -> (r: Self)
        ensures
            r matches Document::PdfUrl { url: u } && u@ == url@,
    {
        Document::PdfUrl { url: text(url) }
    }

    /// Create a [`Document`] from an uploaded file.
    pub fn file(file_id: &str) -> (r: Self)
        ensures
            r matches Document::File { file_id: f } && f@ == file_id@,
    {
        Document::File { file_id: text(file_id) }
    }
}

/// Search result [`ContentPart`].
#[derive(Debug, Clone)]
pub struct SearchResult {
    pub content: Text,
    pub source: String,
    pub title: String,
    pub cache_control: Option<CacheControl>,
}

impl SearchResult {
    /// Create a new [`SearchResult`].
    pub fn new<T: Into<Text>>(title: &str, source: &str, content: T) -> (r: Self)
        ensures
            r.title@ == title@,
            r.source@ == source@,
            call_ensures(T::into, (content,), r.content),
            r.cache_control is None,
    {
        SearchResult {
            title: text(title),
            source: text(source),
            content: content.into(),
            cache_control: None,
        }
    }
}

/// Thinking [`ContentPart`].
#[derive(Debug, Clone)]
pub struct Thinking {
    pub signature: Option<String>,
    pub thinking: String,
}

/// Redacted thinking [`ContentPart`].
#[derive(Debug, Clone)]
pub struct RedactedThinking {
    pub data: String,
}

} // verus!

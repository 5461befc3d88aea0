use vstd::prelude::*;

verus! {

/// Arguments of one `ask_user_question` tool call.
pub struct AskUserQuestionRequest {
    /// The message shown to the user.
    pub message: String,
    /// Option buttons offered to the user, in order; empty when there are none.
    pub predefined_options: Vec<String>,
    /// Whether `message` is Markdown.
    pub is_markdown: bool,
}

/// Value of `is_markdown` when a call leaves it out.
pub fn default_is_markdown() -> (r: bool)
    ensures
        r,
{
    true
}

/// What the popup is asked to show.
pub struct PopupRequest {
    pub id: String,
    pub message: String,
    /// `None` when there are no options; never an empty `Some`.
    pub predefined_options: Option<Vec<String>>,
    pub is_markdown: bool,
}

/// A reply of the popup in the structured schema.
pub struct McpResponse {
    pub user_input: Option<String>,
    pub selected_options: Vec<String>,
    pub images: Vec<ImageAttachment>,
    pub metadata: ResponseMetadata,
}

/// An image the user attached: base64 data with its MIME type.
pub struct ImageAttachment {
    pub data: String,
    pub media_type: String,
    pub filename: Option<String>,
}

/// Informational part of a structured reply.
pub struct ResponseMetadata {
    pub timestamp: Option<String>,
    pub request_id: Option<String>,
    pub source: Option<String>,
}

/// One block of a reply in the legacy content-block schema.
pub struct McpResponseContent {
    /// The block's `type` tag: `"text"` or `"image"`; others are skipped.
    pub content_type: String,
    pub text: Option<String>,
    pub source: Option<ImageSource>,
}

/// The nested `source` of a legacy image block.
pub struct ImageSource {
    /// The source's `type` tag (`"base64"`).
    pub source_type: String,
    pub media_type: String,
    pub data: String,
}

} // verus!

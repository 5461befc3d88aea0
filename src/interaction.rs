use vstd::prelude::*;
use vstd::string::StringExecFns;

use crate::ids::{id_of, RequestIdGenerator};
use crate::parser::{join, parse_reply, reply_outcome, InteractionResult, ParseError, RawReply};
use crate::types::{AskUserQuestionRequest, PopupRequest};

verus! {

/// Introduces the options the user picked in the rendered answer, so that a
/// selection is visible even where its options are empty strings.
pub const OPTIONS_LABEL: &'static str = "Selected options: ";

/// Separates the options the user picked in the rendered answer.
pub const OPTION_SEPARATOR: &'static str = ", ";

/// Separates the picked options from the user's own text in the rendered answer.
pub const PART_SEPARATOR: &'static str = "\n\n";

/// One item of a tool call's success content.
#[derive(Debug, PartialEq, Eq)]
pub enum ContentItem {
    Text(String),
    Image { data: String, media_type: String },
}

/// Why a tool call failed.
#[derive(Debug, PartialEq, Eq)]
pub enum ToolError {
    /// The call named a tool this server does not have.
    UnknownTool(String),
    /// The call's arguments do not make a request.
    InvalidParams(String),
    /// The popup could not be shown, was dismissed, or failed.
    PopupFailed(String),
    /// The popup replied in neither known shape, or with a bad image.
    MalformedReply(ParseError),
}

/// The `ask_user_question` tool.
pub struct InteractionTool;

pub open spec fn views(v: Seq<String>) -> Seq<Seq<char>> {
    v.map_values(|s: String| s@)
}

/// The popup request made of `request` under the id `id`.
pub open spec fn popup_of(request: AskUserQuestionRequest, id: String) -> PopupRequest {
    PopupRequest {
        id,
        message: request.message,
        predefined_options: if request.predefined_options@.len() == 0 {
            None
        } else {
            Some(request.predefined_options)
        },
        is_markdown: request.is_markdown,
    }
}

/// The pieces of the rendered answer: the picked options, then the user's text,
/// each only where it is there.
pub open spec fn answer_parts(r: InteractionResult) -> Seq<Seq<char>> {
    let opts: Seq<Seq<char>> = if r.selected_options@.len() > 0 {
        seq![OPTIONS_LABEL@ + join(views(r.selected_options@), OPTION_SEPARATOR@)]
    } else {
        Seq::empty()
    };
    if r.user_text is Some && r.user_text->0@.len() > 0 {
        opts.push(r.user_text->0@)
    } else {
        opts
    }
}

/// Whether the rendered answer has a text item: the user picked options, or
/// wrote a non-empty text.
pub open spec fn has_answer_text(r: InteractionResult) -> bool {
    r.selected_options@.len() > 0 || (r.user_text is Some && r.user_text->0@.len() > 0)
}

/// The text of the rendered answer's text item.
pub open spec fn answer_text(r: InteractionResult) -> Seq<char> {
    join(answer_parts(r), PART_SEPARATOR@)
}

/// `items` is the content that `r` renders to: the answer text where there is
/// one, then one image item for each image, in order.
pub open spec fn renders(r: InteractionResult, items: Seq<ContentItem>) -> bool {
    let k: int = if has_answer_text(r) { 1 } else { 0 };
    &&& items.len() == k + r.images@.len()
    &&& has_answer_text(r) ==> (items[0] is Text && items[0]->Text_0@ == answer_text(r))
    &&& forall|i: int|
        0 <= i < r.images@.len() ==> {
            &&& (#[trigger] items[k + i]) is Image
            &&& items[k + i]->Image_data@ == r.images@[i].data@
            &&& items[k + i]->Image_media_type@ == r.images@[i].media_type@
        }
}

/// What a tool call ends with, given what the popup gave back.
pub open spec fn finish_outcome(
    popup: Result<RawReply, String>,
    r: Result<Vec<ContentItem>, ToolError>,
) -> bool {
    match popup {
        Err(reason) => r == Err::<Vec<ContentItem>, ToolError>(ToolError::PopupFailed(reason)),
        Ok(reply) => exists|parsed: Result<InteractionResult, ParseError>|
            #[trigger] reply_outcome(reply, parsed) && match parsed {
                Ok(res) => r is Ok && renders(res, r->Ok_0@),
                Err(e) => r == Err::<Vec<ContentItem>, ToolError>(ToolError::MalformedReply(e)),
            },
    }
}

/// `parts` joined with `sep` between neighbours.
pub fn join_strings(parts: &Vec<String>, sep: &str) -> (r: String)
    ensures
        r@ == join(views(parts@), sep@),
{
    let mut out = String::new();
    let mut i: usize = 0;
    while i < parts.len()
        invariant
            i <= parts@.len(),
            out@ == join(views(parts@.take(i as int)), sep@),
        decreases parts@.len() - i,
    {
        let ghost before = views(parts@.take(i as int));
        let ghost after = views(parts@.take(i + 1));
        assert(after.drop_last() =~= before);
        assert(after.last() == parts@[i as int]@);
        if i == 0 {
            out = parts[i].clone();
            assert(after =~= seq![parts@[0]@]);
        } else {
            out.append(sep);
            out.append(parts[i].as_str());
        }
        i = i + 1;
    }
    assert(parts@.take(parts@.len() as int) =~= parts@);
    out
}

impl InteractionTool {
    /// The request the popup is shown: an empty option list becomes `None`.
    pub fn popup_request(request: AskUserQuestionRequest, id: String) -> (r: PopupRequest)
        ensures
            r == popup_of(request, id),
    {
        let predefined_options = if request.predefined_options.len() == 0 {
            None
        } else {
            Some(request.predefined_options)
        };
        PopupRequest {
            id,
            message: request.message,
            predefined_options,
            is_markdown: request.is_markdown,
        }
    }

    /// Renders a canonical result as tool content.
    pub fn render_content(result: InteractionResult) -> (r: Vec<ContentItem>)
        ensures
            renders(result, r@),
    {
        let mut parts: Vec<String> = Vec::new();
        if result.selected_options.len() > 0 {
            let mut opts = OPTIONS_LABEL.to_owned();
            opts.append(join_strings(&result.selected_options, OPTION_SEPARATOR).as_str());
            parts.push(opts);
        }
        match &result.user_text {
            Some(t) => {
                if !t.as_str().is_empty() {
                    parts.push(t.clone());
                }
            },
            None => {},
        }
        assert(views(parts@) =~= answer_parts(result));
        let text = join_strings(&parts, PART_SEPARATOR);
        let mut items: Vec<ContentItem> = Vec::new();
        if parts.len() > 0 {
            items.push(ContentItem::Text(text));
        }
        let ghost k: int = items@.len() as int;
        let n = result.images.len();
        let mut i: usize = 0;
        while i < n
            invariant
                n == result.images@.len(),
                i <= n,
                k == (if has_answer_text(result) { 1int } else { 0int }),
                items@.len() == k + i,
                has_answer_text(result) ==> (items@[0] is Text && items@[0]->Text_0@
                    == answer_text(result)),
                forall|j: int|
                    0 <= j < i ==> {
                        &&& (#[trigger] items@[k + j]) is Image
                        &&& items@[k + j]->Image_data@ == result.images@[j].data@
                        &&& items@[k + j]->Image_media_type@ == result.images@[j].media_type@
                    },
            decreases n - i,
        {
            let img = &result.images[i];
            items.push(
                ContentItem::Image { data: img.data.clone(), media_type: img.media_type.clone() },
            );
            i = i + 1;
        }
        items
    }

    /// Ends a tool call with what the popup gave back: its failure, the
    /// reply's parse error, or the rendered answer.
    pub fn finish(popup: Result<RawReply, String>) -> (r: Result<Vec<ContentItem>, ToolError>)
        ensures
            finish_outcome(popup, r),
    {
        match popup {
            Err(reason) => Err(ToolError::PopupFailed(reason)),
            Ok(reply) => {
                let ghost g = reply;
                let parsed = parse_reply(reply);
                assert(reply_outcome(g, parsed));
                match parsed {
                    Ok(res) => Ok(InteractionTool::render_content(res)),
                    Err(e) => Err(ToolError::MalformedReply(e)),
                }
            },
        }
    }

    /// Asks the user: builds the popup request under a fresh id drawn from
    /// `ids`, shows it through `show_popup` (which may block until the user
    /// answers) and ends the call with what came back.
    pub fn ask_user_question<F>(
        request: AskUserQuestionRequest,
        ids: &mut RequestIdGenerator,
        show_popup: F,
    ) -> (r: Result<Vec<ContentItem>, ToolError>) where
        F: FnOnce(&PopupRequest) -> Result<RawReply, String>,
        requires
            old(ids).next_value() < u64::MAX,
            forall|p: &PopupRequest| show_popup.requires((p,)),
        ensures
            final(ids).prefix() == old(ids).prefix(),
            final(ids).next_value() == old(ids).next_value() + 1,
            exists|id: String, popup: Result<RawReply, String>|
                #![trigger popup_of(request, id), finish_outcome(popup, r)]
                id@ == id_of(old(ids).prefix(), old(ids).next_value()) && show_popup.ensures(
                    (&popup_of(request, id),),
                    popup,
                ) && finish_outcome(popup, r),
    {
        let id = ids.generate();
        let popup_request = InteractionTool::popup_request(request, id);
        let popup = show_popup(&popup_request);
        InteractionTool::finish(popup)
    }
}

} // verus!

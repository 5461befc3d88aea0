use vstd::prelude::*;

use crate::interaction::{
    answer_parts, answer_text, finish_outcome, popup_of, renders, views, ContentItem, ToolError,
    OPTIONS_LABEL, OPTION_SEPARATOR, PART_SEPARATOR,
};
use crate::ids::{id_of, ids_are_distinct};
use crate::server::{call_outcome, AskUserQuestionServer, TOOL_NAME};
use crate::parser::{
    image_valid, is_fragment_of, is_image_block, is_text_block, join, legacy_images, legacy_texts, reply_outcome,
    separator, valid_image, InteractionResult, ParseError, RawReply,
};
use crate::types::{AskUserQuestionRequest, McpResponse, McpResponseContent, PopupRequest};

verus! {

/// A structured reply whose images are all valid always parses, and its text,
/// selected options and images come through unchanged.
pub proof fn structured_reply_passes_through(
    resp: McpResponse,
    r: Result<InteractionResult, ParseError>,
)
    requires
        forall|k: int| 0 <= k < resp.images@.len() ==> image_valid(#[trigger] resp.images@[k]),
        reply_outcome(RawReply::Structured(resp), r),
    ensures
        r is Ok,
        r->Ok_0.user_text == resp.user_input,
        r->Ok_0.selected_options == resp.selected_options,
        r->Ok_0.images == resp.images,
{
    if r is Err {
        let k = r->Err_0->InvalidImage_0 as int;
        assert(image_valid(resp.images@[k]));
    }
}

/// A legacy reply of two text blocks parses to their texts joined by the
/// separator, with no selected options and no images.
pub proof fn legacy_text_blocks_join(
    blocks: Vec<McpResponseContent>,
    r: Result<InteractionResult, ParseError>,
)
    requires
        blocks@.len() == 2,
        is_text_block(blocks@[0]),
        is_text_block(blocks@[1]),
        reply_outcome(RawReply::Legacy(blocks), r),
    ensures
        r is Ok,
        r->Ok_0.user_text is Some,
        r->Ok_0.user_text->0@ == blocks@[0].text->0@ + separator() + blocks@[1].text->0@,
        r->Ok_0.selected_options@.len() == 0,
        r->Ok_0.images@.len() == 0,
{
    let b = blocks@;
    let b1 = b.drop_last();
    assert(b1.len() == 1 && b1.last() == b[0] && b.last() == b[1]);
    assert(legacy_texts(b1.drop_last()) == Seq::<Seq<char>>::empty());
    assert(legacy_images(b1.drop_last()) == Seq::<(Seq<char>, Seq<char>)>::empty());
    assert(legacy_texts(b1) == legacy_texts(b1.drop_last()).push(b[0].text->0@));
    let texts = legacy_texts(b);
    assert(legacy_texts(b1) =~= seq![b[0].text->0@]);
    assert(texts =~= seq![b[0].text->0@, b[1].text->0@]);
    assert(texts.drop_last() =~= seq![b[0].text->0@]);
    assert(join(texts.drop_last(), separator()) == b[0].text->0@);
    assert(texts.last() == b[1].text->0@);
    assert(join(texts, separator()) == b[0].text->0@ + separator() + b[1].text->0@);
    assert(!is_image_block(b[0]) && !is_image_block(b[1]));
    assert(legacy_images(b1) == legacy_images(b1.drop_last()));
    assert(legacy_images(b) == legacy_images(b1));
    if r is Err {
        let k = r->Err_0->InvalidImage_0 as int;
        assert(!is_image_block(b[k]));
    }
}

/// A legacy reply of one valid image block parses to exactly that image, with
/// no filename, no text and no selected options.
pub proof fn legacy_image_block_maps(
    blocks: Vec<McpResponseContent>,
    r: Result<InteractionResult, ParseError>,
)
    requires
        blocks@.len() == 1,
        is_image_block(blocks@[0]),
        blocks@[0].source is Some,
        valid_image(blocks@[0].source->0.data@, blocks@[0].source->0.media_type@),
        reply_outcome(RawReply::Legacy(blocks), r),
    ensures
        r is Ok,
        r->Ok_0.images@.len() == 1,
        r->Ok_0.images@[0].data@ == blocks@[0].source->0.data@,
        r->Ok_0.images@[0].media_type@ == blocks@[0].source->0.media_type@,
        r->Ok_0.images@[0].filename is None,
        r->Ok_0.user_text is None,
        r->Ok_0.selected_options@.len() == 0,
{
    let b = blocks@;
    assert(b.last() == b[0]);
    assert(legacy_texts(b.drop_last()) == Seq::<Seq<char>>::empty());
    assert(legacy_images(b.drop_last()) == Seq::<(Seq<char>, Seq<char>)>::empty());
    assert(!is_text_block(b[0]));
    assert(legacy_texts(b) =~= Seq::<Seq<char>>::empty());
    assert(legacy_images(b) =~= seq![(b[0].source->0.data@, b[0].source->0.media_type@)]);
}

/// A reply that decodes in neither schema fails as unrecognized, and the
/// error carries the reply's leading fragment.
pub proof fn unrecognized_reply_fails(raw: String, r: Result<InteractionResult, ParseError>)
    requires
        reply_outcome(RawReply::Unrecognized(raw), r),
    ensures
        r is Err,
        r->Err_0 is UnrecognizedSchema,
        is_fragment_of(raw@, r->Err_0->UnrecognizedSchema_0@),
{
}

/// Two popup requests made of the same request agree on every field but the
/// id, and their ids differ whenever the ids given differ.
pub proof fn popup_requests_differ_only_in_id(
    request: AskUserQuestionRequest,
    id1: String,
    id2: String,
)
    ensures
        popup_of(request, id1).message == popup_of(request, id2).message,
        popup_of(request, id1).predefined_options == popup_of(request, id2).predefined_options,
        popup_of(request, id1).is_markdown == popup_of(request, id2).is_markdown,
        id1@ != id2@ ==> popup_of(request, id1).id@ != popup_of(request, id2).id@,
        popup_of(request, id1).predefined_options is Some ==> popup_of(
            request,
            id1,
        ).predefined_options->0@.len() > 0,
{
}

/// A call of the tool with a well-formed request ends either with content or
/// with an error of the popup or of its reply, whatever the popup did.
pub proof fn valid_call_answers_or_reports_popup(
    request: AskUserQuestionRequest,
    id: Seq<char>,
    shown: spec_fn(PopupRequest, Result<RawReply, String>) -> bool,
    r: Result<Vec<ContentItem>, ToolError>,
)
    requires
        call_outcome(TOOL_NAME@, Ok(request), id, shown, r),
    ensures
        r is Ok || r->Err_0 is PopupFailed || r->Err_0 is MalformedReply,
{
    let (id_text, popup) = choose|id_text: String, popup: Result<RawReply, String>|
        #![trigger popup_of(request, id_text), finish_outcome(popup, r)]
        id_text@ == id && shown(popup_of(request, id_text), popup) && finish_outcome(popup, r);
    if popup is Ok {
        let parsed = choose|parsed: Result<InteractionResult, ParseError>|
            #[trigger] reply_outcome(popup->Ok_0, parsed) && match parsed {
                Ok(res) => r is Ok && renders(res, r->Ok_0@),
                Err(e) => r == Err::<Vec<ContentItem>, ToolError>(ToolError::MalformedReply(e)),
            };
    }
}

/// Each part of a join appears in it, at the position returned.
pub proof fn join_contains_part(parts: Seq<Seq<char>>, sep: Seq<char>, i: int) -> (off: int)
    requires
        0 <= i < parts.len(),
    ensures
        0 <= off,
        off + parts[i].len() <= join(parts, sep).len(),
        join(parts, sep).subrange(off, off + parts[i].len()) == parts[i],
    decreases parts.len(),
{
    let j = join(parts, sep);
    if parts.len() == 1 {
        assert(j.subrange(0, parts[0].len() as int) =~= parts[0]);
        0
    } else if i == parts.len() - 1 {
        let pre = join(parts.drop_last(), sep) + sep;
        assert(j == pre + parts.last());
        assert(j.subrange(pre.len() as int, pre.len() + parts[i].len() as int) =~= parts[i]);
        pre.len() as int
    } else {
        let pj = join(parts.drop_last(), sep);
        let off = join_contains_part(parts.drop_last(), sep, i);
        assert(parts.drop_last()[i] == parts[i]);
        assert(j == pj + sep + parts.last());
        assert(j.subrange(off, off + parts[i].len()) =~= pj.subrange(off, off + parts[i].len()));
        off
    }
}

/// Every option the user picked appears in the text item of the rendered
/// answer.
pub proof fn picked_options_are_rendered(r: InteractionResult, items: Seq<ContentItem>, i: int)
    requires
        renders(r, items),
        0 <= i < r.selected_options@.len(),
    ensures
        items[0] is Text,
        exists|off: int|
            0 <= off && off + r.selected_options@[i]@.len() <= items[0]->Text_0@.len()
                && #[trigger] items[0]->Text_0@.subrange(off, off + r.selected_options@[i]@.len())
                == r.selected_options@[i]@,
{
    let opts = views(r.selected_options@);
    let o = opts[i];
    let o1 = join_contains_part(opts, OPTION_SEPARATOR@, i);
    let jo = join(opts, OPTION_SEPARATOR@);
    let p0 = OPTIONS_LABEL@ + jo;
    let parts = answer_parts(r);
    assert(parts[0] == p0);
    let o2 = join_contains_part(parts, PART_SEPARATOR@, 0);
    let t = answer_text(r);
    let l = OPTIONS_LABEL@.len() as int;
    let off = o2 + l + o1;
    assert(t.subrange(o2, o2 + p0.len()) == p0);
    assert forall|x: int| 0 <= x < o.len() implies t[off + x] == o[x] by {
        assert(t.subrange(o2, o2 + p0.len())[l + o1 + x] == p0[l + o1 + x]);
        assert(p0[l + o1 + x] == jo[o1 + x]);
        assert(jo.subrange(o1, o1 + o.len())[x] == o[x]);
    }
    assert(t.subrange(off, off + o.len()) =~= o);
    assert(items[0]->Text_0@ == t);
    assert(r.selected_options@[i]@ == o);
}

/// Two tool calls served by one server, the later one after the earlier has
/// advanced the counter, show the popup under different correlation ids.
pub proof fn later_calls_use_new_ids(earlier: AskUserQuestionServer, later: AskUserQuestionServer)
    requires
        later.ids().prefix() == earlier.ids().prefix(),
        earlier.ids().next_value() < later.ids().next_value(),
    ensures
        id_of(earlier.ids().prefix(), earlier.ids().next_value()) != id_of(
            later.ids().prefix(),
            later.ids().next_value(),
        ),
{
    ids_are_distinct(earlier.ids().prefix(), earlier.ids().next_value(), later.ids().next_value());
}

} // verus!

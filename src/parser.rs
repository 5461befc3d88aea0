use vstd::prelude::*;
use vstd::string::{StringExecFns, StringSliceAdditionalSpecFns};
use vstd::utf8::{encode_utf8, is_char_boundary};

use crate::base64::{is_base64, is_valid_base64};
use crate::types::{ImageAttachment, McpResponse, McpResponseContent};

verus! {

broadcast use vstd::utf8::encode_utf8_valid_utf8, vstd::utf8::is_char_boundary_start_end_of_seq;

/// Joins the texts of consecutive legacy `text` blocks.
pub const LEGACY_TEXT_SEPARATOR: &'static str = "\n";

/// Longest diagnostic fragment of an unrecognized reply, in bytes.
pub const FRAGMENT_LIMIT: usize = 120;

/// The user's answer, whichever schema the popup replied in.
pub struct InteractionResult {
    pub user_text: Option<String>,
    pub selected_options: Vec<String>,
    pub images: Vec<ImageAttachment>,
}

/// Why a popup reply could not be turned into an [`InteractionResult`].
#[derive(Debug, PartialEq, Eq)]
pub enum ParseError {
    /// The image at this position has data that is not base64, an empty media
    /// type, or (legacy schema) no `source`.
    InvalidImage(usize),
    /// The reply matches neither schema; holds its leading fragment.
    UnrecognizedSchema(String),
}

/// A popup reply after decoding, tagged with the schema it matched.
pub enum RawReply {
    Structured(McpResponse),
    Legacy(Vec<McpResponseContent>),
    Unrecognized(String),
}

pub open spec fn separator() -> Seq<char> {
    seq!['\n']
}

pub open spec fn text_tag() -> Seq<char> {
    seq!['t', 'e', 'x', 't']
}

pub open spec fn image_tag() -> Seq<char> {
    seq!['i', 'm', 'a', 'g', 'e']
}

/// An image may be embedded: its data is base64 and its media type is not empty.
pub open spec fn valid_image(data: Seq<char>, media_type: Seq<char>) -> bool {
    is_base64(encode_utf8(data)) && media_type.len() > 0
}

/// `parts` joined with `sep` between neighbours.
pub open spec fn join(parts: Seq<Seq<char>>, sep: Seq<char>) -> Seq<char>
    decreases parts.len(),
{
    if parts.len() == 0 {
        Seq::empty()
    } else if parts.len() == 1 {
        parts[0]
    } else {
        join(parts.drop_last(), sep) + sep + parts.last()
    }
}

pub open spec fn is_text_block(b: McpResponseContent) -> bool {
    b.content_type@ == text_tag() && b.text is Some
}

pub open spec fn is_image_block(b: McpResponseContent) -> bool {
    b.content_type@ == image_tag()
}

/// The texts of the legacy `text` blocks, in order.
pub open spec fn legacy_texts(blocks: Seq<McpResponseContent>) -> Seq<Seq<char>>
    decreases blocks.len(),
{
    if blocks.len() == 0 {
        Seq::empty()
    } else if is_text_block(blocks.last()) {
        legacy_texts(blocks.drop_last()).push(blocks.last().text->0@)
    } else {
        legacy_texts(blocks.drop_last())
    }
}

/// The (data, media type) pairs of the legacy `image` blocks, in order.
pub open spec fn legacy_images(blocks: Seq<McpResponseContent>) -> Seq<(Seq<char>, Seq<char>)>
    decreases blocks.len(),
{
    if blocks.len() == 0 {
        Seq::empty()
    } else if is_image_block(blocks.last()) && blocks.last().source is Some {
        let s = blocks.last().source->0;
        legacy_images(blocks.drop_last()).push((s.data@, s.media_type@))
    } else {
        legacy_images(blocks.drop_last())
    }
}

/// A legacy block is acceptable: an image block carries a valid source.
pub open spec fn legacy_block_ok(b: McpResponseContent) -> bool {
    is_image_block(b) ==> (b.source is Some && valid_image(
        b.source->0.data@,
        b.source->0.media_type@,
    ))
}

/// The user text that a sequence of legacy blocks carries.
pub open spec fn legacy_text(blocks: Seq<McpResponseContent>) -> Seq<char> {
    join(legacy_texts(blocks), separator())
}

/// `r` is the result of a legacy reply made of `blocks`, each of them acceptable.
pub open spec fn is_legacy_result(blocks: Seq<McpResponseContent>, r: InteractionResult) -> bool {
    let t = legacy_text(blocks);
    let imgs = legacy_images(blocks);
    &&& (if t.len() == 0 {
        r.user_text is None
    } else {
        r.user_text is Some && r.user_text->0@ == t
    })
    &&& r.selected_options@.len() == 0
    &&& r.images@.len() == imgs.len()
    &&& forall|k: int|
        0 <= k < imgs.len() ==> {
            &&& (#[trigger] r.images@[k]).data@ == imgs[k].0
            &&& r.images@[k].media_type@ == imgs[k].1
            &&& r.images@[k].filename is None
        }
}

pub open spec fn image_valid(img: ImageAttachment) -> bool {
    valid_image(img.data@, img.media_type@)
}

/// `k` is the position of the first invalid image among `images`.
pub open spec fn first_invalid_image(images: Seq<ImageAttachment>, k: int) -> bool {
    &&& 0 <= k < images.len()
    &&& !image_valid(images[k])
    &&& forall|j: int| 0 <= j < k ==> image_valid(#[trigger] images[j])
}

/// `k` is the position of the first unacceptable block among `blocks`.
pub open spec fn first_bad_block(blocks: Seq<McpResponseContent>, k: int) -> bool {
    &&& 0 <= k < blocks.len()
    &&& !legacy_block_ok(blocks[k])
    &&& forall|j: int| 0 <= j < k ==> legacy_block_ok(#[trigger] blocks[j])
}

/// What parsing a structured reply gives: its fields unchanged when every
/// image is valid, else the position of the first invalid one.
pub open spec fn structured_outcome(resp: McpResponse, r: Result<InteractionResult, ParseError>) -> bool {
    match r {
        Ok(res) => {
            &&& forall|k: int| 0 <= k < resp.images@.len() ==> image_valid(#[trigger] resp.images@[k])
            &&& res.user_text == resp.user_input
            &&& res.selected_options == resp.selected_options
            &&& res.images == resp.images
        },
        Err(e) => e is InvalidImage && first_invalid_image(resp.images@, e->InvalidImage_0 as int),
    }
}

/// What parsing a legacy reply gives: the collected texts and images when
/// every block is acceptable, else the position of the first bad block.
pub open spec fn legacy_outcome(blocks: Seq<McpResponseContent>, r: Result<InteractionResult, ParseError>) -> bool {
    match r {
        Ok(res) => {
            &&& forall|k: int| 0 <= k < blocks.len() ==> legacy_block_ok(#[trigger] blocks[k])
            &&& is_legacy_result(blocks, res)
        },
        Err(e) => e is InvalidImage && first_bad_block(blocks, e->InvalidImage_0 as int),
    }
}

/// `f` is the leading fragment of `raw` for diagnostics: the longest prefix of
/// its UTF-8 bytes that is at most [`FRAGMENT_LIMIT`] long and ends at a
/// character boundary; all of `raw` when that fits.
pub open spec fn is_fragment_of(raw: Seq<char>, f: Seq<char>) -> bool {
    &&& encode_utf8(f).len() <= FRAGMENT_LIMIT
    &&& encode_utf8(f) == encode_utf8(raw).take(encode_utf8(f).len() as int)
    &&& encode_utf8(raw).len() <= FRAGMENT_LIMIT ==> f == raw
    &&& forall|k: int|
        encode_utf8(f).len() < k <= FRAGMENT_LIMIT ==> !is_char_boundary(
            encode_utf8(raw),
            k,
        )
}

fn is_tag(s: &String, tag: &str) -> (r: bool)
    ensures
        r == (s@ == tag@),
{
    let t = tag.to_owned();
    *s == t
}

fn image_ok(data: &String, media_type: &String) -> (r: bool)
    ensures
        r == valid_image(data@, media_type@),
{
    is_valid_base64(data.as_str()) && !media_type.as_str().is_empty()
}

/// Maps a structured reply to the canonical result: every field passes
/// through unchanged once every image is valid.
pub fn parse_structured(resp: McpResponse) -> (r: Result<InteractionResult, ParseError>)
    ensures
        structured_outcome(resp, r),
{
    let n = resp.images.len();
    let mut i: usize = 0;
    while i < n
        invariant
            n == resp.images@.len(),
            i <= n,
            forall|j: int| 0 <= j < i ==> image_valid(#[trigger] resp.images@[j]),
        decreases n - i,
    {
        if !image_ok(&resp.images[i].data, &resp.images[i].media_type) {
            return Err(ParseError::InvalidImage(i));
        }
        i = i + 1;
    }
    Ok(
        InteractionResult {
            user_text: resp.user_input,
            selected_options: resp.selected_options,
            images: resp.images,
        },
    )
}

/// Collects a legacy content-block reply: texts joined in order with
/// [`LEGACY_TEXT_SEPARATOR`], images in order without a filename, no selected
/// options. Blocks of another type are skipped.
pub fn parse_legacy(blocks: &Vec<McpResponseContent>) -> (r: Result<InteractionResult, ParseError>)
    ensures
        legacy_outcome(blocks@, r),
{
    let n = blocks.len();
    let mut text = String::new();
    let mut n_texts: usize = 0;
    let mut images: Vec<ImageAttachment> = Vec::new();
    let mut i: usize = 0;
    while i < n
        invariant
            n == blocks@.len(),
            i <= n,
            n_texts <= i,
            n_texts == legacy_texts(blocks@.take(i as int)).len(),
            text@ == legacy_text(blocks@.take(i as int)),
            images@.len() == legacy_images(blocks@.take(i as int)).len(),
            forall|k: int|
                0 <= k < images@.len() ==> {
                    &&& (#[trigger] images@[k]).data@ == legacy_images(blocks@.take(i as int))[k].0
                    &&& images@[k].media_type@ == legacy_images(blocks@.take(i as int))[k].1
                    &&& images@[k].filename is None
                },
            forall|j: int| 0 <= j < i ==> legacy_block_ok(#[trigger] blocks@[j]),
        decreases n - i,
    {
        let b = &blocks[i];
        let ghost before = blocks@.take(i as int);
        let ghost after = blocks@.take(i + 1);
        assert(after.drop_last() =~= before);
        assert(after.last() == blocks@[i as int]);
        proof {
            reveal_strlit("text");
            reveal_strlit("image");
            reveal_strlit("\n");
            assert("text"@ =~= text_tag());
            assert("image"@ =~= image_tag());
        }
        if is_tag(&b.content_type, "text") {
            assert(b.content_type@ == text_tag());
            assert(!is_image_block(*b));
            assert(legacy_images(after) == legacy_images(before));
            match &b.text {
                Some(t) => {
                    if n_texts == 0 {
                        text = t.clone();
                    } else {
                        text.append(LEGACY_TEXT_SEPARATOR);
                        text.append(t.as_str());
                        assert(is_text_block(after.last()));
                        assert(legacy_texts(after) == legacy_texts(before).push(t@));
                        assert(legacy_texts(after).drop_last() =~= legacy_texts(before));
                    }
                    n_texts = n_texts + 1;
                },
                None => {
                    assert(legacy_texts(after) == legacy_texts(before));
                },
            }
        } else if is_tag(&b.content_type, "image") {
            assert(b.content_type@ == image_tag());
            assert(!is_text_block(*b));
            assert(legacy_texts(after) == legacy_texts(before));
            match &b.source {
                Some(src) => {
                    if !image_ok(&src.data, &src.media_type) {
                        return Err(ParseError::InvalidImage(i));
                    }
                    images.push(
                        ImageAttachment {
                            data: src.data.clone(),
                            media_type: src.media_type.clone(),
                            filename: None,
                        },
                    );
                    assert(legacy_images(after) == legacy_images(before).push(
                        (src.data@, src.media_type@),
                    ));
                },
                None => {
                    return Err(ParseError::InvalidImage(i));
                },
            }
        } else {
            assert(!is_text_block(*b));
            assert(!is_image_block(*b));
            assert(legacy_texts(after) == legacy_texts(before));
            assert(legacy_images(after) == legacy_images(before));
        }
        i = i + 1;
    }
    assert(blocks@.take(n as int) =~= blocks@);
    let user_text = if text.as_str().is_empty() {
        None
    } else {
        Some(text)
    };
    Ok(InteractionResult { user_text, selected_options: Vec::new(), images })
}

/// The leading fragment of a reply, cut at a character boundary.
pub fn leading_fragment(raw: &str) -> (r: String)
    ensures
        is_fragment_of(raw@, r@),
{
    if raw.as_bytes().len() <= FRAGMENT_LIMIT {
        let r = raw.to_owned();
        assert(encode_utf8(r@).take(encode_utf8(r@).len() as int) =~= encode_utf8(r@));
        return r;
    }
    let mut k: usize = FRAGMENT_LIMIT;
    while k > 0 && !raw.is_char_boundary(k)
        invariant
            k <= FRAGMENT_LIMIT < raw.spec_bytes().len(),
            forall|j: int| k < j <= FRAGMENT_LIMIT ==> !is_char_boundary(raw.spec_bytes(), j),
        decreases k,
    {
        k = k - 1;
    }
    assert(is_char_boundary(raw.spec_bytes(), k as int));
    let (head, _) = raw.split_at(k);
    let r = head.to_owned();
    assert(encode_utf8(r@) == head.spec_bytes());
    assert(encode_utf8(r@).len() == k);
    r
}

impl RawReply {
    /// Picks the schema a reply matched, the structured one first: `structured`
    /// and `legacy` are the reply decoded in each schema, `None` where it did
    /// not decode.
    pub fn from_attempts(
        structured: Option<McpResponse>,
        legacy: Option<Vec<McpResponseContent>>,
        raw: String,
    ) -> (r: RawReply)
        ensures
            match structured {
                Some(resp) => r == RawReply::Structured(resp),
                None => match legacy {
                    Some(blocks) => r == RawReply::Legacy(blocks),
                    None => r == RawReply::Unrecognized(raw),
                },
            },
    {
        match structured {
            Some(resp) => RawReply::Structured(resp),
            None => match legacy {
                Some(blocks) => RawReply::Legacy(blocks),
                None => RawReply::Unrecognized(raw),
            },
        }
    }
}

/// What parsing a decoded reply gives, whichever schema it matched.
pub open spec fn reply_outcome(reply: RawReply, r: Result<InteractionResult, ParseError>) -> bool {
    match reply {
        RawReply::Structured(resp) => structured_outcome(resp, r),
        RawReply::Legacy(blocks) => legacy_outcome(blocks@, r),
        RawReply::Unrecognized(raw) => r is Err && r->Err_0 is UnrecognizedSchema
            && is_fragment_of(raw@, r->Err_0->UnrecognizedSchema_0@),
    }
}

/// Turns a decoded popup reply into the canonical result.
pub fn parse_reply(reply: RawReply) -> (r: Result<InteractionResult, ParseError>)
    ensures
        reply_outcome(reply, r),
{
    match reply {
        RawReply::Structured(resp) => parse_structured(resp),
        RawReply::Legacy(blocks) => parse_legacy(&blocks),
        RawReply::Unrecognized(raw) => Err(ParseError::UnrecognizedSchema(leading_fragment(raw.as_str()))),
    }
}

} // verus!

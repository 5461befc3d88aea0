use vstd::prelude::*;
use vstd::string::StringExecFns;

use crate::interaction::{join_strings, views};
use crate::parser::join;
use crate::types::ImageAttachment;

verus! {

/// Reply text used when no continuation prompt is configured.
pub const DEFAULT_CONTINUE_PROMPT: &'static str = "请按照最佳实践继续";

/// The JSON string literal that encodes `s`, quotes and escapes included.
pub uninterp spec fn json_quoted(s: Seq<char>) -> Seq<char>;

/// `s` needs no escaping in a JSON string: it holds no quote, no backslash and
/// no control character below U+0020.
pub open spec fn is_plain_json_text(s: Seq<char>) -> bool {
    forall|i: int|
        0 <= i < s.len() ==> {
            &&& #[trigger] s[i] != '"'
            &&& s[i] != '\\'
            &&& s[i] as u32 >= 0x20
        }
}

/// Relies on `serde_json::to_string` on a `str`: the JSON string literal of
/// `s`, which is `s` between quotes where nothing in it needs escaping.
/// Serializing a `str` has no failure case.
#[verifier::external_body]
fn json_string(s: &str) -> (r: String)
    ensures
        r@ == json_quoted(s@),
        is_plain_json_text(s@) ==> r@ == seq!['"'] + s@ + seq!['"'],
{
    serde_json::to_string(s).unwrap_or_default()
}

/// `t` has the shape every RFC 3339 text of a UTC time has here: plain JSON
/// text that ends in the offset `+00:00`.
pub open spec fn is_utc_timestamp(t: Seq<char>) -> bool {
    &&& is_plain_json_text(t)
    &&& t.len() >= 6
    &&& t.subrange(t.len() - 6, t.len() as int) == seq!['+', '0', '0', ':', '0', '0']
}

/// Relies on chrono's `DateTime<Utc>::from(SystemTime)` and
/// `DateTime::to_rfc3339`: the current time as digits, `-`, `T`, `:`, `.` and
/// the zero offset written `+00:00`.
#[verifier::external_body]
fn now_rfc3339() -> (r: String)
    ensures
        is_utc_timestamp(r@),
{
    chrono::DateTime::<chrono::Utc>::from(std::time::SystemTime::now()).to_rfc3339()
}

/// A JSON string, or `null` for `None`.
pub open spec fn json_opt(o: Option<String>) -> Seq<char> {
    match o {
        Some(s) => json_quoted(s@),
        None => "null"@,
    }
}

/// A JSON array of already encoded items.
pub open spec fn json_list(items: Seq<Seq<char>>) -> Seq<char> {
    "["@ + join(items, ","@) + "]"@
}

/// The JSON object of an image, keys in order.
pub open spec fn image_json(img: ImageAttachment) -> Seq<char> {
    "{\"data\":"@ + json_quoted(img.data@) + ",\"filename\":"@ + json_opt(img.filename)
        + ",\"media_type\":"@ + json_quoted(img.media_type@) + "}"@
}

pub open spec fn images_json(images: Seq<ImageAttachment>) -> Seq<Seq<char>> {
    images.map_values(|i: ImageAttachment| image_json(i))
}

pub open spec fn strings_json(v: Seq<String>) -> Seq<Seq<char>> {
    v.map_values(|s: String| json_quoted(s@))
}

/// The compact JSON text of a reply in the structured schema, keys in order.
pub open spec fn response_json(
    user_input: Option<String>,
    selected_options: Seq<String>,
    images: Seq<ImageAttachment>,
    request_id: Option<String>,
    source: Seq<char>,
    timestamp: Seq<char>,
) -> Seq<char> {
    "{\"images\":"@ + json_list(images_json(images)) + ",\"metadata\":{\"request_id\":"@ + json_opt(
        request_id,
    ) + ",\"source\":"@ + json_quoted(source) + ",\"timestamp\":"@ + json_quoted(timestamp)
        + "},\"selected_options\":"@ + json_list(strings_json(selected_options))
        + ",\"user_input\":"@ + json_opt(user_input) + "}"@
}

fn optional_json(o: &Option<String>) -> (r: String)
    ensures
        r@ == json_opt(*o),
{
    match o {
        Some(s) => json_string(s.as_str()),
        None => "null".to_owned(),
    }
}

fn list_json(items: &Vec<String>) -> (r: String)
    ensures
        r@ == json_list(views(items@)),
{
    let mut out = "[".to_owned();
    out.append(join_strings(items, ",").as_str());
    out.append("]");
    out
}

fn image_attachment_json(img: &ImageAttachment) -> (r: String)
    ensures
        r@ == image_json(*img),
{
    let mut out = "{\"data\":".to_owned();
    out.append(json_string(img.data.as_str()).as_str());
    out.append(",\"filename\":");
    out.append(optional_json(&img.filename).as_str());
    out.append(",\"media_type\":");
    out.append(json_string(img.media_type.as_str()).as_str());
    out.append("}");
    out
}

fn images_list_json(images: &Vec<ImageAttachment>) -> (r: String)
    ensures
        r@ == json_list(images_json(images@)),
{
    let mut items: Vec<String> = Vec::new();
    let mut i: usize = 0;
    while i < images.len()
        invariant
            i <= images@.len(),
            items@.len() == i,
            forall|j: int| 0 <= j < i ==> (#[trigger] items@[j])@ == image_json(images@[j]),
        decreases images@.len() - i,
    {
        items.push(image_attachment_json(&images[i]));
        i = i + 1;
    }
    assert(views(items@) =~= images_json(images@));
    list_json(&items)
}

fn strings_list_json(v: &Vec<String>) -> (r: String)
    ensures
        r@ == json_list(strings_json(v@)),
{
    let mut items: Vec<String> = Vec::new();
    let mut i: usize = 0;
    while i < v.len()
        invariant
            i <= v@.len(),
            items@.len() == i,
            forall|j: int| 0 <= j < i ==> (#[trigger] items@[j])@ == json_quoted(v@[j]@),
        decreases v@.len() - i,
    {
        items.push(json_string(v[i].as_str()));
        i = i + 1;
    }
    assert(views(items@) =~= strings_json(v@));
    list_json(&items)
}

/// The JSON text of a structured reply stamped with `timestamp`.
pub fn build_mcp_response(
    user_input: Option<String>,
    selected_options: Vec<String>,
    images: Vec<ImageAttachment>,
    request_id: Option<String>,
    source: &str,
    timestamp: &str,
) -> (r: String)
    ensures
        r@ == response_json(user_input, selected_options@, images@, request_id, source@, timestamp@),
{
    let mut out = "{\"images\":".to_owned();
    out.append(images_list_json(&images).as_str());
    out.append(",\"metadata\":{\"request_id\":");
    out.append(optional_json(&request_id).as_str());
    out.append(",\"source\":");
    out.append(json_string(source).as_str());
    out.append(",\"timestamp\":");
    out.append(json_string(timestamp).as_str());
    out.append("},\"selected_options\":");
    out.append(strings_list_json(&selected_options).as_str());
    out.append(",\"user_input\":");
    out.append(optional_json(&user_input).as_str());
    out.append("}");
    out
}

/// The JSON text of the reply to a send action, stamped with the current time.
pub fn build_send_response(
    user_input: Option<String>,
    selected_options: Vec<String>,
    images: Vec<ImageAttachment>,
    request_id: Option<String>,
    source: &str,
) -> (r: String)
    ensures
        exists|timestamp: Seq<char>|
            is_utc_timestamp(timestamp) && r@ == #[trigger] response_json(
                user_input,
                selected_options@,
                images@,
                request_id,
                source@,
                timestamp,
            ),
{
    let timestamp = now_rfc3339();
    build_mcp_response(user_input, selected_options, images, request_id, source, timestamp.as_str())
}

/// The continuation prompt: the configured one, else the default.
pub fn continue_prompt(configured: Option<String>) -> (r: String)
    ensures
        r@ == match configured {
            Some(p) => p@,
            None => DEFAULT_CONTINUE_PROMPT@,
        },
{
    match configured {
        Some(p) => p,
        None => DEFAULT_CONTINUE_PROMPT.to_owned(),
    }
}

/// The JSON text of the reply to a continue action: the continuation prompt as
/// the user's input, nothing selected, no images. `configured_prompt` is the
/// configured prompt, `None` where the configuration could not be had.
pub fn build_continue_response(
    request_id: Option<String>,
    source: &str,
    configured_prompt: Option<String>,
) -> (r: String)
    ensures
        exists|prompt: String, timestamp: Seq<char>|
            prompt@ == (match configured_prompt {
                Some(p) => p@,
                None => DEFAULT_CONTINUE_PROMPT@,
            }) && is_utc_timestamp(timestamp) && r@ == #[trigger] response_json(
                Some(prompt),
                Seq::empty(),
                Seq::empty(),
                request_id,
                source@,
                timestamp,
            ),
{
    let prompt = continue_prompt(configured_prompt);
    let selected: Vec<String> = Vec::new();
    let images: Vec<ImageAttachment> = Vec::new();
    build_send_response(Some(prompt), selected, images, request_id, source)
}

} // verus!

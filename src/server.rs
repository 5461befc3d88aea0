use vstd::prelude::*;

use crate::ids::{id_of, RequestIdGenerator};
use crate::interaction::{finish_outcome, popup_of, ContentItem, InteractionTool, ToolError};
use crate::parser::RawReply;
use crate::types::{AskUserQuestionRequest, PopupRequest};

verus! {

/// Name under which the server offers its one tool.
pub const TOOL_NAME: &'static str = "ask_user_question";

/// Name the server gives itself.
pub const SERVER_NAME: &'static str = "ask_user_question-mcp";

/// What the tool does, as shown to clients; also the server's instructions.
pub const TOOL_DESCRIPTION: &'static str = "Ask the user a question with predefined options. Use this when you need the user to make a choice between specific options. You can provide up to 4 options, each with a label and description. NEVER include \"other\" as an option - the user can always automatically provide a custom response.";

/// JSON-Schema name of the string type.
pub const TYPE_STRING: &'static str = "string";

/// JSON-Schema name of the array type.
pub const TYPE_ARRAY: &'static str = "array";

/// JSON-Schema name of the boolean type.
pub const TYPE_BOOLEAN: &'static str = "boolean";

/// One parameter of the tool's input schema.
pub struct ParamSpec {
    pub name: String,
    /// JSON-Schema type of the parameter.
    pub json_type: String,
    /// JSON-Schema type of the items, for an array.
    pub item_type: Option<String>,
    pub description: String,
    pub required: bool,
}

/// What a client is told of the tool.
pub struct ToolDescriptor {
    pub name: String,
    pub description: String,
    pub params: Vec<ParamSpec>,
}

/// The tool server. Calls share nothing but the counter that mints their
/// correlation ids.
pub struct AskUserQuestionServer {
    ids: RequestIdGenerator,
}

/// Prefix of the correlation ids of a server made by `new`.
pub const DEFAULT_ID_PREFIX: &'static str = "req";

/// `p` declares the parameter `name` of type `ty` (with items of `items`).
pub open spec fn declares(
    p: ParamSpec,
    name: Seq<char>,
    ty: Seq<char>,
    items: Option<Seq<char>>,
    required: bool,
) -> bool {
    &&& p.name@ == name
    &&& p.json_type@ == ty
    &&& match items {
        Some(t) => p.item_type is Some && p.item_type->0@ == t,
        None => p.item_type is None,
    }
    &&& p.required == required
}

/// What a tool call named `name` with decoded `arguments` ends with, where the
/// popup would be shown under the id `id` and `shown(p, out)` holds when the
/// popup, shown the request `p`, may give back `out`.
pub open spec fn call_outcome(
    name: Seq<char>,
    arguments: Result<AskUserQuestionRequest, String>,
    id: Seq<char>,
    shown: spec_fn(PopupRequest, Result<RawReply, String>) -> bool,
    r: Result<Vec<ContentItem>, ToolError>,
) -> bool {
    if name != TOOL_NAME@ {
        r is Err && r->Err_0 is UnknownTool && r->Err_0->UnknownTool_0@ == name
    } else {
        match arguments {
            Err(reason) => r == Err::<Vec<ContentItem>, ToolError>(ToolError::InvalidParams(reason)),
            Ok(request) => exists|id_text: String, popup: Result<RawReply, String>|
                #![trigger popup_of(request, id_text), finish_outcome(popup, r)]
                id_text@ == id && shown(popup_of(request, id_text), popup) && finish_outcome(popup, r),
        }
    }
}

fn param(name: &str, json_type: &str, item_type: Option<&str>, description: &str, required: bool) -> (r:
    ParamSpec)
    ensures
        r.name@ == name@,
        r.json_type@ == json_type@,
        match item_type {
            Some(t) => r.item_type is Some && r.item_type->0@ == t@,
            None => r.item_type is None,
        },
        r.description@ == description@,
        r.required == required,
{
    let item_type = match item_type {
        Some(t) => Some(t.to_owned()),
        None => None,
    };
    ParamSpec {
        name: name.to_owned(),
        json_type: json_type.to_owned(),
        item_type,
        description: description.to_owned(),
        required,
    }
}

impl AskUserQuestionServer {
    /// A server whose correlation ids start with [`DEFAULT_ID_PREFIX`].
    pub fn new() -> (r: AskUserQuestionServer)
        ensures
            r.ids().prefix() == DEFAULT_ID_PREFIX@,
            r.ids().next_value() == 0,
    {
        AskUserQuestionServer::with_id_prefix(DEFAULT_ID_PREFIX.to_owned())
    }

    /// A server whose correlation ids start with `prefix`, a nonce of the process.
    pub fn with_id_prefix(prefix: String) -> (r: AskUserQuestionServer)
        ensures
            r.ids().prefix() == prefix@,
            r.ids().next_value() == 0,
    {
        AskUserQuestionServer { ids: RequestIdGenerator::new(prefix) }
    }

    /// The generator of the server's correlation ids.
    pub closed spec fn ids(&self) -> RequestIdGenerator {
        self.ids
    }

    /// Whether the server can still mint a correlation id.
    pub fn has_next_id(&self) -> (r: bool)
        ensures
            r == (self.ids().next_value() < u64::MAX),
    {
        self.ids.has_next()
    }

    /// Describes the tool: `message` (a string, required), `predefined_options`
    /// (an array of strings) and `is_markdown` (a boolean), in that order.
    pub fn describe(&self) -> (r: ToolDescriptor)
        ensures
            r.name@ == TOOL_NAME@,
            r.description@ == TOOL_DESCRIPTION@,
            r.params@.len() == 3,
            declares(r.params@[0], "message"@, TYPE_STRING@, None, true),
            declares(r.params@[1], "predefined_options"@, TYPE_ARRAY@, Some(TYPE_STRING@), false),
            declares(r.params@[2], "is_markdown"@, TYPE_BOOLEAN@, None, false),
            r.params@[0].description@ == "要显示给用户的消息"@,
            r.params@[1].description@ == "预定义的选项列表（可选）"@,
            r.params@[2].description@ == "消息是否为Markdown格式，默认为true"@,
    {
        let mut params: Vec<ParamSpec> = Vec::new();
        params.push(param("message", TYPE_STRING, None, "要显示给用户的消息", true));
        params.push(
            param(
                "predefined_options",
                TYPE_ARRAY,
                Some(TYPE_STRING),
                "预定义的选项列表（可选）",
                false,
            ),
        );
        params.push(param("is_markdown", TYPE_BOOLEAN, None, "消息是否为Markdown格式，默认为true", false));
        ToolDescriptor { name: TOOL_NAME.to_owned(), description: TOOL_DESCRIPTION.to_owned(), params }
    }

    /// Checks that a call names this server's tool.
    pub fn route(&self, name: &str) -> (r: Result<(), ToolError>)
        ensures
            r is Ok <==> name@ == TOOL_NAME@,
            r is Err ==> r->Err_0 is UnknownTool && r->Err_0->UnknownTool_0@ == name@,
    {
        let given = name.to_owned();
        if given == TOOL_NAME.to_owned() {
            Ok(())
        } else {
            Err(ToolError::UnknownTool(given))
        }
    }

    /// Serves one tool call: `name` is the tool it names, `arguments` its
    /// arguments decoded as a request (or why they did not decode), and
    /// `show_popup` shows the popup. A call that shows the popup uses the next
    /// correlation id; any other leaves the counter as it was.
    pub fn call_tool<F>(
        &mut self,
        name: &str,
        arguments: Result<AskUserQuestionRequest, String>,
        show_popup: F,
    ) -> (r: Result<Vec<ContentItem>, ToolError>) where
        F: FnOnce(&PopupRequest) -> Result<RawReply, String>,
        requires
            old(self).ids().next_value() < u64::MAX,
            forall|p: &PopupRequest| show_popup.requires((p,)),
        ensures
            call_outcome(
                name@,
                arguments,
                id_of(old(self).ids().prefix(), old(self).ids().next_value()),
                |p: PopupRequest, out: Result<RawReply, String>| show_popup.ensures((&p,), out),
                r,
            ),
            final(self).ids().prefix() == old(self).ids().prefix(),
            final(self).ids().next_value() == old(self).ids().next_value() + (if name@ == TOOL_NAME@
                && arguments is Ok { 1int } else { 0int }),
    {
        match self.route(name) {
            Err(e) => Err(e),
            Ok(()) => match arguments {
                Err(reason) => Err(ToolError::InvalidParams(reason)),
                Ok(request) => InteractionTool::ask_user_question(request, &mut self.ids, show_popup),
            },
        }
    }
}

} // verus!

//! The assistant requests: the input messages built from a project or game
//! workspace and its conversation, and the assistant text read out of a
//! Responses API reply.
use crate::text::{
    chars_eq_str, chars_of, extend_chars, extend_str, join, join_chars, keep_nonempty, owned,
    string_of, trim, trim_chars, views,
};
use crate::json::{
    items_of, json_member, json_text, member, parse_json, parsed_json, text_of, JsonValue,
};
use vstd::prelude::*;

verus! {

pub const OPENAI_RESPONSES_URL: &'static str = "https://api.openai.com/v1/responses";

pub const DEFAULT_MODEL: &'static str = "gpt-5";

pub const PLANNING_SYSTEM_INSTRUCTION: &'static str = "You are helping plan the selected Overlay Forge local project. Keep responses concise, practical, and implementation-oriented. Prefer Codex-ready structure when the user asks for implementation planning. Do not claim repository access unless repository content was explicitly provided to the model request.";

pub const GAME_SYSTEM_INSTRUCTION: &'static str = "You are helping plan, analyze, and document the selected game workspace in Overlay Forge. Keep responses concise, practical, and grounded in the provided game context. When discussing visible parts, builds, screenshots, or physics behavior, distinguish observed facts from assumptions.";

pub const GAME_BUILD_GUIDE_SYSTEM_INSTRUCTION: &'static str = "You create practical GearBlocks build guides for Overlay Forge. Output only Markdown, with no conversational preface and no fenced code blocks. Use GearBlocks units and centimeters, never imperial units unless explicitly requested. Prefer known GearBlocks catalog part names from the provided context. Keep the guide phased, buildable, and focused on readable in-game assembly guidance.";

pub const MISSING_API_KEY: &'static str = "OpenAI API key is not configured. Save one in Settings or set OPENAI_API_KEY.";

pub const NO_ASSISTANT_TEXT: &'static str = "OpenAI returned no assistant text.";

pub const INVALID_JSON: &'static str = "OpenAI response JSON was invalid: ";

/// The reasoning effort and text verbosity every request asks for.
pub const REQUEST_EFFORT: &'static str = "low";

/// A request can only be made with an API key that is not blank.
pub fn api_key_problem(api_key: &str) -> (r: Option<String>)
    ensures
        trim(api_key@).len() == 0 <==> r is Some,
        r matches Some(m) ==> m@ == MISSING_API_KEY@,
{
    if trim_chars(&chars_of(api_key)).len() == 0 {
        Some(owned(MISSING_API_KEY))
    } else {
        None
    }
}

// ------------------------------------------------------------ input messages

/// One message of a stored conversation.
pub struct ChatMessage {
    pub role: String,
    pub content: String,
}

/// A screenshot attached to a game chat: its label and its data URL.
pub struct GameChatImageInput {
    pub label: String,
    pub data_url: String,
}

/// One part of a multi-part content: a text, or an image with the detail it
/// is sent at.
pub enum ContentPart {
    Text(String),
    Image { image_url: String, detail: String },
}

/// The content of an input message: a plain text, or parts.
pub enum InputContent {
    Text(String),
    Parts(Vec<ContentPart>),
}

pub struct InputMessage {
    pub role: String,
    pub content: InputContent,
}

/// A part as (is an image, text or image URL, detail).
pub open spec fn part_view(p: ContentPart) -> (bool, Seq<char>, Seq<char>) {
    match p {
        ContentPart::Text(t) => (false, t@, seq![]),
        ContentPart::Image { image_url, detail } => (true, image_url@, detail@),
    }
}

/// A content as (has parts, its text, its parts).
pub open spec fn content_view(c: InputContent) -> (bool, Seq<char>, Seq<(bool, Seq<char>, Seq<char>)>) {
    match c {
        InputContent::Text(t) => (false, t@, seq![]),
        InputContent::Parts(ps) => (true, seq![], ps@.map_values(|p: ContentPart| part_view(p))),
    }
}

pub open spec fn message_view(m: InputMessage) -> (Seq<char>, (bool, Seq<char>, Seq<(bool, Seq<char>, Seq<char>)>)) {
    (m.role@, content_view(m.content))
}

pub open spec fn message_views(v: Seq<InputMessage>) -> Seq<
    (Seq<char>, (bool, Seq<char>, Seq<(bool, Seq<char>, Seq<char>)>)),
> {
    v.map_values(|m: InputMessage| message_view(m))
}

pub open spec fn text_message(role: Seq<char>, text: Seq<char>) -> (Seq<char>, (bool, Seq<char>, Seq<(bool, Seq<char>, Seq<char>)>)) {
    (role, (false, text, seq![]))
}

/// The stored conversation as plain-text messages.
pub open spec fn conversation(messages: Seq<ChatMessage>) -> Seq<
    (Seq<char>, (bool, Seq<char>, Seq<(bool, Seq<char>, Seq<char>)>)),
> {
    messages.map_values(|m: ChatMessage| text_message(m.role@, m.content@))
}

/// The attached context as a message of its own, when it is not blank.
pub open spec fn attached(context: Seq<char>) -> Seq<
    (Seq<char>, (bool, Seq<char>, Seq<(bool, Seq<char>, Seq<char>)>)),
> {
    if trim(context).len() > 0 {
        seq![text_message("user"@, context)]
    } else {
        seq![]
    }
}

pub open spec fn project_context(name: Seq<char>, status: Seq<char>, description: Seq<char>) -> Seq<char> {
    "Selected local project context:\nName: "@ + name + "\nStatus: "@ + status + "\nDescription: "@
        + description
}

pub open spec fn game_context(name: Seq<char>, slug: Seq<char>, summary: Seq<char>) -> Seq<char> {
    "Selected game workspace context:\nName: "@ + name + "\nSlug: "@ + slug + "\nSummary: "@ + summary
}

fn text_input(role: &str, text: Vec<char>) -> (r: InputMessage)
    ensures
        message_view(r) == text_message(role@, text@),
{
    InputMessage { role: owned(role), content: InputContent::Text(string_of(&text)) }
}

fn push_attached(input: &mut Vec<InputMessage>, context: &str)
    ensures
        message_views(final(input)@) == message_views(old(input)@) + attached(context@),
{
    let ghost before = input@;
    if trim_chars(&chars_of(context)).len() > 0 {
        input.push(text_input("user", chars_of(context)));
        assert(message_views(input@) =~= message_views(before) + attached(context@));
    } else {
        assert(message_views(input@) =~= message_views(before) + attached(context@));
    }
}

fn push_conversation(input: &mut Vec<InputMessage>, messages: Vec<ChatMessage>)
    ensures
        message_views(final(input)@) == message_views(old(input)@) + conversation(messages@),
{
    let ghost before = input@;
    let ghost all = messages@;
    let mut messages = messages;
    let mut i: usize = 0;
    let n = messages.len();
    while messages.len() > 0
        invariant
            n == all.len(),
            i + messages@.len() == n,
            messages@ == all.skip(i as int),
            message_views(input@) == message_views(before) + conversation(all.take(i as int)),
        decreases messages.len(),
    {
        let m = messages.remove(0);
        assert(m == all[i as int]);
        let ghost prev = input@;
        input.push(InputMessage { role: m.role, content: InputContent::Text(m.content) });
        assert(conversation(all.take(i + 1)) =~= conversation(all.take(i as int)).push(
            text_message(all[i as int].role@, all[i as int].content@),
        ));
        assert(message_views(input@) =~= message_views(prev).push(
            text_message(all[i as int].role@, all[i as int].content@),
        ));
        i = i + 1;
        assert(messages@ =~= all.skip(i as int));
    }
    assert(all.take(n as int) =~= all);
}

/// The input of a planning request: the project's context, the attached
/// context when not blank, then the conversation.
pub fn build_input(
    project_name: &str,
    project_status: &str,
    project_description: &str,
    messages: Vec<ChatMessage>,
    attached_context: &str,
) -> (r: Vec<InputMessage>)
    ensures
        message_views(r@) == seq![
            text_message(
                "user"@,
                project_context(project_name@, project_status@, project_description@),
            ),
        ] + attached(attached_context@) + conversation(messages@),
{
    let mut text = chars_of("Selected local project context:\nName: ");
    extend_str(&mut text, project_name);
    extend_str(&mut text, "\nStatus: ");
    extend_str(&mut text, project_status);
    extend_str(&mut text, "\nDescription: ");
    extend_str(&mut text, project_description);
    let mut input: Vec<InputMessage> = Vec::new();
    input.push(text_input("user", text));
    assert(message_views(input@) =~= seq![
        text_message("user"@, project_context(project_name@, project_status@, project_description@)),
    ]);
    push_attached(&mut input, attached_context);
    push_conversation(&mut input, messages);
    input
}

fn game_context_chars(name: &str, slug: &str, summary: &str) -> (r: Vec<char>)
    ensures
        r@ == game_context(name@, slug@, summary@),
{
    let mut text = chars_of("Selected game workspace context:\nName: ");
    extend_str(&mut text, name);
    extend_str(&mut text, "\nSlug: ");
    extend_str(&mut text, slug);
    extend_str(&mut text, "\nSummary: ");
    extend_str(&mut text, summary);
    text
}

/// The parts of a message sent with screenshots: the message's text, then
/// for each screenshot a line naming it and the image at low detail.
pub open spec fn image_parts(text: Seq<char>, images: Seq<GameChatImageInput>) -> Seq<
    (bool, Seq<char>, Seq<char>),
>
    decreases images.len(),
{
    if images.len() == 0 {
        seq![(false, text, seq![])]
    } else {
        let last = images.last();
        image_parts(text, images.drop_last()) + seq![
            (false, "Attached screenshot: "@ + last.label@, seq![]),
            (true, last.data_url@, "low"@),
        ]
    }
}

/// The conversation of a game chat: plain texts, except that the latest
/// message, when it is the user's and screenshots are attached, carries
/// them.
pub open spec fn game_conversation(messages: Seq<ChatMessage>, images: Seq<GameChatImageInput>) -> Seq<
    (Seq<char>, (bool, Seq<char>, Seq<(bool, Seq<char>, Seq<char>)>)),
> {
    if messages.len() > 0 && messages.last().role@ == "user"@ && images.len() > 0 {
        conversation(messages.drop_last()) + seq![
            (messages.last().role@, (true, seq![], image_parts(messages.last().content@, images))),
        ]
    } else {
        conversation(messages)
    }
}

fn image_content(text: String, images: Vec<GameChatImageInput>) -> (r: Vec<ContentPart>)
    ensures
        r@.map_values(|p: ContentPart| part_view(p)) == image_parts(text@, images@),
{
    let ghost all = images@;
    let ghost t = text@;
    let mut parts: Vec<ContentPart> = Vec::new();
    parts.push(ContentPart::Text(text));
    assert(parts@.map_values(|p: ContentPart| part_view(p)) =~= image_parts(t, all.take(0)));
    let mut images = images;
    let n = images.len();
    let mut i: usize = 0;
    while images.len() > 0
        invariant
            n == all.len(),
            i + images@.len() == n,
            images@ == all.skip(i as int),
            parts@.map_values(|p: ContentPart| part_view(p)) == image_parts(t, all.take(i as int)),
        decreases images.len(),
    {
        let image = images.remove(0);
        assert(image == all[i as int]);
        let ghost prev = parts@;
        let mut label = chars_of("Attached screenshot: ");
        extend_str(&mut label, image.label.as_str());
        parts.push(ContentPart::Text(string_of(&label)));
        parts.push(ContentPart::Image { image_url: image.data_url, detail: owned("low") });
        assert(all.take(i + 1).drop_last() =~= all.take(i as int));
        assert(parts@.map_values(|p: ContentPart| part_view(p)) =~= prev.map_values(
            |p: ContentPart| part_view(p),
        ) + seq![
            (false, "Attached screenshot: "@ + all[i as int].label@, seq![]),
            (true, all[i as int].data_url@, "low"@),
        ]);
        i = i + 1;
        assert(images@ =~= all.skip(i as int));
    }
    assert(all.take(n as int) =~= all);
    parts
}

/// The input of a game chat request: the game's context, the attached
/// context when not blank, then the conversation with any screenshots on
/// its latest user message.
pub fn build_game_input(
    game_name: &str,
    game_slug: &str,
    game_summary: &str,
    messages: Vec<ChatMessage>,
    attached_context: &str,
    images: Vec<GameChatImageInput>,
) -> (r: Vec<InputMessage>)
    ensures
        message_views(r@) == seq![
            text_message("user"@, game_context(game_name@, game_slug@, game_summary@)),
        ] + attached(attached_context@) + game_conversation(messages@, images@),
{
    let mut input: Vec<InputMessage> = Vec::new();
    input.push(text_input("user", game_context_chars(game_name, game_slug, game_summary)));
    assert(message_views(input@) =~= seq![
        text_message("user"@, game_context(game_name@, game_slug@, game_summary@)),
    ]);
    push_attached(&mut input, attached_context);
    let ghost all = messages@;
    let ghost imgs = images@;
    let carries_images = messages.len() > 0 && chars_eq_str(
        &chars_of(messages[messages.len() - 1].role.as_str()),
        "user",
    ) && images.len() > 0;
    if carries_images {
        let mut messages = messages;
        let last = messages.pop().unwrap();
        assert(messages@ =~= all.drop_last());
        assert(last == all.last());
        assert(all.last().role@ == "user"@ && imgs.len() > 0);
        let ghost before = input@;
        push_conversation(&mut input, messages);
        let ghost middle = input@;
        let ghost last_view = (last.role@, last.content@);
        let parts = image_content(last.content, images);
        let message = InputMessage { role: last.role, content: InputContent::Parts(parts) };
        assert(message_view(message) == (last_view.0, (true, Seq::<char>::empty(), image_parts(last_view.1, imgs))));
        input.push(message);
        assert(message_views(input@) =~= message_views(middle).push(message_view(message)));
        assert(game_conversation(all, imgs) == conversation(all.drop_last()) + seq![
            (all.last().role@, (true, Seq::<char>::empty(), image_parts(all.last().content@, imgs))),
        ]);
        assert(message_views(input@) =~= message_views(before) + game_conversation(all, imgs));
    } else {
        push_conversation(&mut input, messages);
    }
    input
}

pub const BUILD_GUIDE_OPENING: &'static str = "Create an Overlay Forge GearBlocks build guide from this goal:";

pub const BUILD_GUIDE_STRUCTURE: &'static str = "Required Markdown structure:\n# <short build guide title>\n## Build Goal\n## Scale Reference\n## Current Chosen Geometry\n## Main Parts List\n### <category>\n| Qty | Part | Purpose |\n| --- | --- | --- |\n## Assembly Instructions\n### 1. <step title>\n## First Test Checklist\nOutput only the Markdown guide. Do not wrap it in triple backticks.";

/// The closing request of a build guide: the opening line, the trimmed
/// goal, and the required structure.
pub open spec fn build_guide_request(goal: Seq<char>) -> Seq<char> {
    BUILD_GUIDE_OPENING@ + "\n\n"@ + trim(goal) + "\n\n"@ + BUILD_GUIDE_STRUCTURE@
}

/// The input of a build-guide request: the game's context, the attached
/// context when not blank, the conversation after a line that introduces
/// it (when there is one), and the request for the guide.
pub fn build_game_build_guide_input(
    game_name: &str,
    game_slug: &str,
    game_summary: &str,
    messages: Vec<ChatMessage>,
    attached_context: &str,
    build_goal: &str,
) -> (r: Vec<InputMessage>)
    ensures
        message_views(r@) == seq![
            text_message("user"@, game_context(game_name@, game_slug@, game_summary@)),
        ] + attached(attached_context@) + (if messages@.len() > 0 {
            seq![text_message("user"@, "Recent conversation context follows."@)] + conversation(
                messages@,
            )
        } else {
            seq![]
        }) + seq![text_message("user"@, build_guide_request(build_goal@))],
{
    let mut input: Vec<InputMessage> = Vec::new();
    input.push(text_input("user", game_context_chars(game_name, game_slug, game_summary)));
    assert(message_views(input@) =~= seq![
        text_message("user"@, game_context(game_name@, game_slug@, game_summary@)),
    ]);
    push_attached(&mut input, attached_context);
    let ghost after_context = input@;
    let ghost all = messages@;
    if messages.len() > 0 {
        input.push(text_input("user", chars_of("Recent conversation context follows.")));
        push_conversation(&mut input, messages);
    }
    assert(message_views(input@) =~= message_views(after_context) + (if all.len() > 0 {
        seq![text_message("user"@, "Recent conversation context follows."@)] + conversation(all)
    } else {
        seq![]
    }));
    let ghost before_request = input@;
    let mut request = chars_of(BUILD_GUIDE_OPENING);
    extend_str(&mut request, "\n\n");
    extend_chars(&mut request, &trim_chars(&chars_of(build_goal)));
    extend_str(&mut request, "\n\n");
    extend_str(&mut request, BUILD_GUIDE_STRUCTURE);
    input.push(text_input("user", request));
    assert(message_views(input@) =~= message_views(before_request).push(
        text_message("user"@, build_guide_request(build_goal@)),
    ));
    input
}


// ------------------------------------------------------------ the reply

pub open spec fn opt_text_view(o: Option<String>) -> Option<Seq<char>> {
    match o {
        Some(s) => Some(s@),
        None => None,
    }
}

/// The assistant text of a reply: its `output_text` trimmed when that is
/// not blank; otherwise the trimmed texts of its message contents, blank
/// ones left out, separated by blank lines; no text at all is an error.
pub open spec fn assembled_output(output_text: Option<Seq<char>>, texts: Seq<Seq<char>>) -> Result<
    Seq<char>,
    Seq<char>,
> {
    if output_text matches Some(t) && trim(t).len() > 0 {
        Ok(trim(output_text.unwrap()))
    } else {
        let joined = join(keep_nonempty(texts.map_values(|t: Seq<char>| trim(t))), "\n\n"@);
        if joined.len() == 0 {
            Err(NO_ASSISTANT_TEXT@)
        } else {
            Ok(joined)
        }
    }
}

pub fn assemble_output_text(output_text: Option<String>, texts: Vec<String>) -> (r: Result<
    String,
    String,
>)
    ensures
        match r {
            Ok(t) => assembled_output(opt_text_view(output_text), texts@.map_values(|t: String| t@))
                == Ok::<Seq<char>, Seq<char>>(t@),
            Err(e) => assembled_output(opt_text_view(output_text), texts@.map_values(|t: String| t@))
                == Err::<Seq<char>, Seq<char>>(e@),
        },
{
    if let Some(o) = &output_text {
        let t = trim_chars(&chars_of(o.as_str()));
        if t.len() > 0 {
            return Ok(string_of(&t));
        }
    }
    let ghost all = texts@.map_values(|t: String| t@);
    let ghost trimmed = all.map_values(|t: Seq<char>| trim(t));
    let mut kept: Vec<Vec<char>> = Vec::new();
    let mut i: usize = 0;
    while i < texts.len()
        invariant
            i <= texts.len(),
            all == texts@.map_values(|t: String| t@),
            trimmed == all.map_values(|t: Seq<char>| trim(t)),
            views(kept@) == keep_nonempty(trimmed.take(i as int)),
        decreases texts.len() - i,
    {
        let t = trim_chars(&chars_of(texts[i].as_str()));
        assert(trimmed.take(i + 1).drop_last() =~= trimmed.take(i as int));
        assert(trimmed.take(i + 1).last() == t@);
        let ghost prev = kept@;
        if t.len() > 0 {
            kept.push(t);
            assert(views(kept@) =~= views(prev).push(trimmed[i as int]));
        }
        i = i + 1;
    }
    assert(trimmed.take(texts.len() as int) =~= trimmed);
    let sep = chars_of("\n\n");
    let joined = join_chars(&kept, &sep);
    if joined.len() == 0 {
        Err(owned(NO_ASSISTANT_TEXT))
    } else {
        Ok(string_of(&joined))
    }
}

/// The texts of the `text` members of an array's items, in order.
pub open spec fn content_texts(contents: Seq<JsonValue>) -> Seq<Seq<char>>
    decreases contents.len(),
{
    if contents.len() == 0 {
        seq![]
    } else {
        content_texts(contents.drop_last()) + match text_of(member(contents.last(), "text"@)) {
            Some(t) => seq![t],
            None => seq![],
        }
    }
}

/// The content texts of an output item whose `type` is `message`.
pub open spec fn item_texts(item: JsonValue) -> Seq<Seq<char>> {
    if text_of(member(item, "type"@)) == Some("message"@) {
        content_texts(items_of(member(item, "content"@)))
    } else {
        seq![]
    }
}

/// The message texts of the output items, in order.
pub open spec fn output_texts(items: Seq<JsonValue>) -> Seq<Seq<char>>
    decreases items.len(),
{
    if items.len() == 0 {
        seq![]
    } else {
        output_texts(items.drop_last()) + item_texts(items.last())
    }
}

/// The message texts of a reply: those of the items of its `output` array.
pub open spec fn reply_texts(reply: JsonValue) -> Seq<Seq<char>> {
    output_texts(items_of(member(reply, "output"@)))
}

/// The reply's `output_text`, when it is a string.
pub open spec fn reply_output_text(reply: JsonValue) -> Option<Seq<char>> {
    text_of(member(reply, "output_text"@))
}

pub open spec fn result_view(r: Result<String, String>) -> Result<Seq<char>, Seq<char>> {
    match r {
        Ok(t) => Ok(t@),
        Err(e) => Err(e@),
    }
}

fn push_content_texts(texts: &mut Vec<String>, contents: &Vec<JsonValue>)
    ensures
        final(texts)@.map_values(|t: String| t@) == old(texts)@.map_values(|t: String| t@)
            + content_texts(contents@),
{
    let ghost start = old(texts)@.map_values(|t: String| t@);
    let mut j: usize = 0;
    while j < contents.len()
        invariant
            j <= contents@.len(),
            texts@.map_values(|t: String| t@) == start + content_texts(contents@.take(j as int)),
        decreases contents@.len() - j,
    {
        assert(contents@.take(j + 1).drop_last() =~= contents@.take(j as int));
        let ghost before = texts@;
        match json_text(json_member(&contents[j], "text")) {
            Some(t) => {
                texts.push(t);
                assert(texts@.map_values(|t: String| t@) =~= before.map_values(|t: String| t@).push(
                    t@,
                ));
            },
            None => {},
        }
        j = j + 1;
    }
    assert(contents@.take(contents@.len() as int) =~= contents@);
}

/// The texts of the message items of a reply's `output`: for each item
/// whose `type` is `message`, the `text` of each of its `content` items.
pub fn message_texts(value: &JsonValue) -> (r: Vec<String>)
    ensures
        r@.map_values(|t: String| t@) == reply_texts(*value),
{
    let mut texts: Vec<String> = Vec::new();
    assert(texts@.map_values(|t: String| t@) =~= Seq::<Seq<char>>::empty());
    let items = match json_member(value, "output") {
        Some(JsonValue::Array(items)) => items,
        _ => return texts,
    };
    let mut i: usize = 0;
    while i < items.len()
        invariant
            i <= items@.len(),
            items_of(member(*value, "output"@)) == items@,
            texts@.map_values(|t: String| t@) == output_texts(items@.take(i as int)),
        decreases items@.len() - i,
    {
        assert(items@.take(i + 1).drop_last() =~= items@.take(i as int));
        let item = &items[i];
        let is_message = match json_text(json_member(item, "type")) {
            Some(t) => chars_eq_str(&chars_of(t.as_str()), "message"),
            None => false,
        };
        if is_message {
            match json_member(item, "content") {
                Some(JsonValue::Array(contents)) => push_content_texts(&mut texts, contents),
                _ => {
                    assert(content_texts(Seq::<JsonValue>::empty()) =~= Seq::<Seq<char>>::empty());
                },
            }
        }
        i = i + 1;
    }
    assert(items@.take(items@.len() as int) =~= items@);
    texts
}

/// The assistant text of a Responses API reply body: a body that is not
/// JSON fails with serde_json's description after `INVALID_JSON`;
/// otherwise the result is `assembled_output` of the reply's `output_text`
/// and message texts (so it is never blank, and a reply without text fails
/// with `NO_ASSISTANT_TEXT`).
pub fn extract_output_text(body: &str) -> (r: Result<String, String>)
    ensures
        parsed_json(body@) is None ==> (r matches Err(e) && e@.len() >= INVALID_JSON@.len()
            && e@.take(INVALID_JSON@.len() as int) == INVALID_JSON@),
        parsed_json(body@) matches Some(reply) ==> result_view(r) == assembled_output(
            reply_output_text(reply),
            reply_texts(reply),
        ),
        r matches Ok(t) ==> t@.len() > 0,
{
    let value = match parse_json(body) {
        Ok(v) => v,
        Err(description) => {
            let mut m = chars_of(INVALID_JSON);
            let ghost prefix = m@;
            extend_str(&mut m, description.as_str());
            assert(m@.take(prefix.len() as int) =~= prefix);
            return Err(string_of(&m));
        },
    };
    let output_text = json_text(json_member(&value, "output_text"));
    let texts = message_texts(&value);
    let ghost o_view = opt_text_view(output_text);
    let ghost t_view = texts@.map_values(|t: String| t@);
    proof {
        lemma_assembled_not_blank(o_view, t_view);
    }
    let r = assemble_output_text(output_text, texts);
    assert(result_view(r) == assembled_output(o_view, t_view));
    r
}

/// An assembled text is never empty.
pub proof fn lemma_assembled_not_blank(output_text: Option<Seq<char>>, texts: Seq<Seq<char>>)
    ensures
        assembled_output(output_text, texts) matches Ok(t) ==> t.len() > 0,
{
    if output_text matches Some(t) && trim(t).len() > 0 {
    }
}

} // verus!

//! The OpenAI-compatible endpoints' types and rules: message content with
//! images, roles, and the list of models.
use vstd::prelude::*;
use crate::json::{array, array_exec, json_str, json_u64_exec, member, member_exec, object, object_exec};
use crate::text::{decimal, join, join_exec, chars_of, push_chars, push_str, seqs_of, string_of};
use crate::tui::subsystems::eq_str;
use crate::channels::siyuan::types::str_json;

verus! {

/// Largest body accepted by `/v1/chat/completions`, in bytes.
pub const CHAT_COMPLETIONS_MAX_BODY_SIZE: usize = 524_288;

/// A message of a chat completion request.
#[derive(Debug)]
pub struct ChatCompletionsMessage {
    pub role: String,
    /// The text.
    pub content: String,
    /// Image URLs taken from multimodal content.
    pub image_urls: Vec<String>,
    pub name: Option<String>,
    pub tool_calls: Option<serde_json::Value>,
    pub tool_call_id: Option<String>,
    pub tool_id: Option<String>,
    pub refusal: Option<String>,
}

/// One item of an array of content parts, as the rules read it.
#[derive(Debug, Clone, PartialEq, Eq)]
pub enum ContentPart {
    /// A `text` part, with its text where it is a string.
    Text(Option<String>),
    /// An `image_url` part, with its URL where it is a string.
    ImageUrl(Option<String>),
    /// Anything else (another type, or no object at all).
    Other,
}

/// The texts of the parts, in order.
pub open spec fn part_texts(parts: Seq<ContentPart>) -> Seq<Seq<char>>
    decreases parts.len(),
{
    if parts.len() == 0 {
        Seq::empty()
    } else {
        let rest = part_texts(parts.drop_last());
        match parts.last() {
            ContentPart::Text(Some(t)) => rest.push(t@),
            _ => rest,
        }
    }
}

/// The image URLs of the parts, in order.
pub open spec fn part_images(parts: Seq<ContentPart>) -> Seq<Seq<char>>
    decreases parts.len(),
{
    if parts.len() == 0 {
        Seq::empty()
    } else {
        let rest = part_images(parts.drop_last());
        match parts.last() {
            ContentPart::ImageUrl(Some(u)) => rest.push(u@),
            _ => rest,
        }
    }
}

/// The text of array content: its texts joined, or, where it has none,
/// the array's own JSON.
pub open spec fn content_text(parts: Seq<ContentPart>, array_json: Seq<char>) -> Seq<char> {
    if part_texts(parts).len() == 0 {
        array_json
    } else {
        join(part_texts(parts), Seq::empty())
    }
}

/// The text and image URLs of array content. `array_json` is the array's
/// JSON, the text where no part has any.
pub fn extract_content(parts: &Vec<ContentPart>, array_json: &str) -> (r: (String, Vec<String>))
    ensures
        r.0@ == content_text(parts@, array_json@),
        Seq::new(r.1@.len(), |i: int| r.1@[i]@) == part_images(parts@),
{
    let mut texts: Vec<Vec<char>> = Vec::new();
    let mut images: Vec<String> = Vec::new();
    let mut i: usize = 0;
    while i < parts.len()
        invariant
            i <= parts@.len(),
            seqs_of(texts@) == part_texts(parts@.take(i as int)),
            Seq::new(images@.len(), |k: int| images@[k]@) == part_images(parts@.take(i as int)),
        decreases parts.len() - i,
    {
        assert(parts@.take(i + 1).drop_last() =~= parts@.take(i as int));
        assert(parts@.take(i + 1).last() == parts@[i as int]);
        let ghost t0 = texts@;
        let ghost m0 = images@;
        match &parts[i] {
            ContentPart::Text(Some(t)) => {
                texts.push(chars_of(t.as_str()));
                assert(seqs_of(texts@) =~= seqs_of(t0).push(t@));
            },
            ContentPart::ImageUrl(Some(u)) => {
                images.push(u.clone());
                assert(Seq::new(images@.len(), |k: int| images@[k]@) =~= Seq::new(m0.len(), |k: int| m0[k]@).push(u@));
            },
            _ => {},
        }
        i += 1;
    }
    assert(parts@.take(parts@.len() as int) =~= parts@);
    let text = if texts.len() == 0 {
        array_json.to_owned()
    } else {
        let empty: Vec<char> = Vec::new();
        let r = join_exec(&texts, empty.as_slice());
        assert(empty@ =~= Seq::<char>::empty());
        r
    };
    (text, images)
}

/// The role a message gets in the agent's conversation.
#[derive(Debug, Clone, Copy, PartialEq, Eq, Structural)]
pub enum ChatRole {
    System,
    User,
    Assistant,
}

/// The role of a message with role name `r`: `system`, `assistant`, and
/// `user` for everything else.
pub open spec fn chat_role_of(r: Seq<char>) -> ChatRole {
    if r == "system"@ {
        ChatRole::System
    } else if r == "assistant"@ {
        ChatRole::Assistant
    } else {
        ChatRole::User
    }
}

/// The agent's conversation for the request's messages: each message's
/// role (unknown roles taken as `user`) and content.
pub fn convert_openai_messages(messages: &Vec<ChatCompletionsMessage>) -> (r: Vec<(ChatRole, String)>)
    ensures
        r@.len() == messages@.len(),
        forall|i: int| 0 <= i < r@.len() ==> (#[trigger] r@[i]).0 == chat_role_of(messages@[i].role@)
            && r@[i].1@ == messages@[i].content@,
{
    let mut r: Vec<(ChatRole, String)> = Vec::new();
    let mut i: usize = 0;
    while i < messages.len()
        invariant
            i <= messages@.len(),
            r@.len() == i,
            forall|j: int| 0 <= j < i ==> (#[trigger] r@[j]).0 == chat_role_of(messages@[j].role@)
                && r@[j].1@ == messages@[j].content@,
        decreases messages.len() - i,
    {
        let m = &messages[i];
        let role = if eq_str(m.role.as_str(), "system") {
            ChatRole::System
        } else if eq_str(m.role.as_str(), "assistant") {
            ChatRole::Assistant
        } else {
            ChatRole::User
        };
        r.push((role, m.content.clone()));
        i += 1;
    }
    r
}

/// A chat completion response.
#[derive(Debug)]
pub struct ChatCompletionsResponse {
    pub id: String,
    pub object: &'static str,
    pub created: u64,
    pub model: String,
    pub choices: Vec<ChatCompletionsChoice>,
    pub usage: ChatCompletionsUsage,
}

/// One choice of a chat completion.
#[derive(Debug)]
pub struct ChatCompletionsChoice {
    pub index: u32,
    pub message: ChatCompletionsResponseMessage,
    pub finish_reason: &'static str,
}

/// The message of a choice.
#[derive(Debug)]
pub struct ChatCompletionsResponseMessage {
    pub role: &'static str,
    pub content: String,
    /// Tool calls, passed on as the model gave them.
    pub tool_calls: Option<Vec<serde_json::Value>>,
}

/// Token usage.
#[derive(Debug, Clone, Copy)]
pub struct ChatCompletionsUsage {
    pub prompt_tokens: u32,
    pub completion_tokens: u32,
    pub total_tokens: u32,
}

/// The list of models.
#[derive(Debug)]
pub struct ModelsResponse {
    /// Always `list`.
    pub object: &'static str,
    pub data: Vec<ModelObject>,
}

/// A model.
#[derive(Debug)]
pub struct ModelObject {
    pub id: String,
    /// Always `model`.
    pub object: &'static str,
    /// Unix seconds.
    pub created: u64,
    pub owned_by: String,
}

/// The name of the virtual model that routes by classification.
pub const AUTO_ROUTER_MODEL: &'static str = "zeroclaw-auto-router";

/// A model as JSON.
pub open spec fn model_json(m: ModelObject) -> Seq<char> {
    object(
        seq![
            member("id"@, json_str(m.id@)),
            member("object"@, json_str(m.object@)),
            member("created"@, decimal(m.created as nat)),
            member("owned_by"@, json_str(m.owned_by@)),
        ],
    )
}

/// The list of models as JSON.
pub open spec fn models_json(r: ModelsResponse) -> Seq<char> {
    object(
        seq![
            member("object"@, json_str(r.object@)),
            member("data"@, array(Seq::new(r.data@.len(), |i: int| model_json(r.data@[i])))),
        ],
    )
}

fn model(id: &str, created: u64) -> (m: ModelObject)
    ensures
        m.id@ == id@,
        m.object@ == "model"@,
        m.created == created,
        m.owned_by@ == "zeroclaw"@,
{
    ModelObject { id: id.to_owned(), object: "model", created, owned_by: "zeroclaw".to_owned() }
}

/// The models on offer at `created`: the configured model, and the auto
/// router where the classifier is on.
pub fn models_response(configured_model: &str, classifier_enabled: bool, created: u64) -> (r: ModelsResponse)
    ensures
        r.object@ == "list"@,
        r.data@.len() == if classifier_enabled { 2int } else { 1int },
        r.data@[0].id@ == configured_model@,
        classifier_enabled ==> r.data@[1].id@ == AUTO_ROUTER_MODEL@,
        forall|i: int| 0 <= i < r.data@.len() ==> (#[trigger] r.data@[i]).object@ == "model"@
            && r.data@[i].created == created && r.data@[i].owned_by@ == "zeroclaw"@,
{
    let mut data: Vec<ModelObject> = Vec::new();
    data.push(model(configured_model, created));
    if classifier_enabled {
        data.push(model(AUTO_ROUTER_MODEL, created));
    }
    ModelsResponse { object: "list", data }
}

impl ModelsResponse {
    /// The list as JSON text.
    pub fn to_json(&self) -> (r: String)
        ensures
            r@ == models_json(*self),
    {
        let ghost target = Seq::new(self.data@.len(), |i: int| model_json(self.data@[i]));
        let mut elems: Vec<Vec<char>> = Vec::new();
        let mut i: usize = 0;
        while i < self.data.len()
            invariant
                i <= self.data@.len(),
                target == Seq::new(self.data@.len(), |k: int| model_json(self.data@[k])),
                seqs_of(elems@) == target.take(i as int),
            decreases self.data.len() - i,
        {
            let m = &self.data[i];
            let mut mm: Vec<Vec<char>> = Vec::new();
            mm.push(member_exec("id", str_json(m.id.as_str())));
            mm.push(member_exec("object", str_json(m.object)));
            mm.push(member_exec("created", json_u64_exec(m.created)));
            mm.push(member_exec("owned_by", str_json(m.owned_by.as_str())));
            assert(seqs_of(mm@) =~= seq![
                member("id"@, json_str(m.id@)),
                member("object"@, json_str(m.object@)),
                member("created"@, decimal(m.created as nat)),
                member("owned_by"@, json_str(m.owned_by@)),
            ]);
            let ghost prev = elems@;
            elems.push(object_exec(&mm));
            assert(seqs_of(elems@) =~= seqs_of(prev).push(model_json(self.data@[i as int])));
            assert(target.take(i + 1) =~= target.take(i as int).push(target[i as int]));
            i += 1;
        }
        assert(target.take(self.data@.len() as int) =~= target);
        let mut m: Vec<Vec<char>> = Vec::new();
        m.push(member_exec("object", str_json(self.object)));
        m.push(member_exec("data", array_exec(&elems)));
        assert(seqs_of(m@) =~= seq![member("object"@, json_str(self.object@)), member("data"@, array(target))]);
        let o = object_exec(&m);
        let mut r = String::new();
        push_chars(&mut r, o.as_slice());
        r
    }
}

} // verus!

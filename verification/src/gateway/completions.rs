//! The decisions of `/v1/chat/completions`: which requests are admitted, which
//! model answers, what is asked of it, and the replies, streamed or whole.
use vstd::prelude::*;
use crate::clock::{is_hyphenated_uuid, new_uuid_v4, unix_millis_now};
use crate::gateway::openai_sse::{choice_json, chunk_json, delta_json, format_sse_event, DeltaChoice, DeltaDelta, SSEChunk};
use crate::json::{array, json_str, member, member_exec, object, object_exec};
use crate::gateway::openai_compat::{
    ChatCompletionsChoice, ChatCompletionsMessage, ChatCompletionsResponse, ChatCompletionsResponseMessage,
    ChatCompletionsUsage, ChatRole, AUTO_ROUTER_MODEL,
};
use crate::text::{lemma_join_append, split_char, split_char_exec, starts_with_exec, chars_of, contains_exec, contains_seq, decimal, is_ws, is_ws_exec, join, join_exec, push_str, seqs_of, slice_chars, string_of};
use crate::channels::siyuan::types::str_json;

verus! {

/// The words of `s` (`str::split_whitespace`): its maximal runs of characters
/// that are not whitespace, in order.
pub open spec fn words(s: Seq<char>) -> Seq<Seq<char>>
    decreases s.len(),
{
    if s.len() == 0 {
        Seq::empty()
    } else {
        let prev = words(s.drop_last());
        let c = s.last();
        if is_ws(c) {
            prev
        } else if s.len() >= 2 && !is_ws(s[s.len() - 2]) {
            prev.update(prev.len() - 1, prev.last().push(c))
        } else {
            prev.push(seq![c])
        }
    }
}

/// A text that ends in a character that is not whitespace has a word.
pub proof fn lemma_words_nonempty(s: Seq<char>)
    requires
        s.len() > 0,
        !is_ws(s.last()),
    ensures
        words(s).len() > 0,
    decreases s.len(),
{
    if s.len() >= 2 && !is_ws(s[s.len() - 2]) {
        let t = s.drop_last();
        assert(t.last() == s[s.len() - 2]);
        lemma_words_nonempty(t);
    }
}

/// The words of `s`.
pub fn words_exec(s: &[char]) -> (r: Vec<Vec<char>>)
    ensures
        seqs_of(r@) == words(s@),
{
    let mut done: Vec<Vec<char>> = Vec::new();
    let mut cur: Vec<char> = Vec::new();
    let mut i: usize = 0;
    while i < s.len()
        invariant
            i <= s.len(),
            cur@.len() > 0 <==> (i > 0 && !is_ws(s@[i - 1])),
            words(s@.take(i as int)) == if cur@.len() > 0 {
                seqs_of(done@).push(cur@)
            } else {
                seqs_of(done@)
            },
        decreases s.len() - i,
    {
        let c = s[i];
        let ghost t = s@.take(i + 1);
        proof {
            assert(t.drop_last() =~= s@.take(i as int));
            assert(t.last() == c);
            if i > 0 {
                assert(t[t.len() - 2] == s@[i - 1]);
            }
        }
        if is_ws_exec(c) {
            if cur.len() > 0 {
                let ghost before = seqs_of(done@);
                let ghost word = cur@;
                done.push(cur);
                cur = Vec::new();
                assert(seqs_of(done@) =~= before.push(word));
            }
        } else {
            let ghost before = cur@;
            cur.push(c);
            proof {
                if before.len() > 0 {
                    assert(cur@ =~= before.push(c));
                } else {
                    assert(cur@ =~= seq![c]);
                }
            }
        }
        i += 1;
    }
    assert(s@.take(s.len() as int) =~= s@);
    if cur.len() > 0 {
        let ghost before = seqs_of(done@);
        done.push(cur);
        assert(seqs_of(done@) =~= before.push(done@.last()@));
    }
    done
}

/// `words.chunks(5)`, each group joined by a space.
pub open spec fn word_groups(ws: Seq<Seq<char>>) -> Seq<Seq<char>>
    decreases ws.len(),
{
    if ws.len() == 0 {
        Seq::empty()
    } else if ws.len() <= 5 {
        seq![join(ws, " "@)]
    } else {
        seq![join(ws.take(5), " "@)] + word_groups(ws.skip(5))
    }
}

/// The pieces a streamed answer is cut into: its words, five to a piece,
/// joined by single spaces.
pub fn word_chunks(text: &str) -> (r: Vec<String>)
    ensures
        r@.map_values(|p: String| p@) == word_groups(words(text@)),
{
    let cs = chars_of(text);
    let ws = words_exec(cs.as_slice());
    let ghost all = seqs_of(ws@);
    let space = chars_of(" ");
    let mut r: Vec<String> = Vec::new();
    let mut i: usize = 0;
    assert(all.skip(0) =~= all);
    assert(r@.map_values(|p: String| p@) + word_groups(all) =~= word_groups(all));
    while i < ws.len()
        invariant
            i <= ws@.len(),
            space@ == " "@,
            all == seqs_of(ws@),
            all == words(text@),
            word_groups(all) == r@.map_values(|p: String| p@) + word_groups(all.skip(i as int)),
        decreases ws.len() - i,
    {
        let end: usize = if ws.len() - i <= 5 { ws.len() } else { i + 5 };
        let mut group: Vec<Vec<char>> = Vec::new();
        let mut k: usize = i;
        while k < end
            invariant
                i <= k <= end <= ws@.len(),
                all == seqs_of(ws@),
                seqs_of(group@) == all.subrange(i as int, k as int),
            decreases end - k,
        {
            let w = ws[k].as_slice();
            let copy = slice_chars(w, 0, w.len());
            assert(copy@ =~= ws@[k as int]@);
            let ghost before = seqs_of(group@);
            group.push(copy);
            assert(seqs_of(group@) =~= before.push(copy@));
            assert(all[k as int] == ws@[k as int]@);
            assert(all.subrange(i as int, k + 1) =~= all.subrange(i as int, k as int).push(all[k as int]));
            k += 1;
        }
        let piece = join_exec(&group, space.as_slice());
        proof {
            let rest = all.skip(i as int);
            assert(rest.len() > 0);
            if rest.len() <= 5 {
                assert(all.subrange(i as int, end as int) =~= rest);
                assert(all.skip(end as int) =~= Seq::<Seq<char>>::empty());
            } else {
                assert(all.subrange(i as int, end as int) =~= rest.take(5));
                assert(rest.skip(5) =~= all.skip(end as int));
            }
        }
        let ghost before = r@.map_values(|p: String| p@);
        r.push(piece);
        assert(r@.map_values(|p: String| p@) =~= before.push(piece@));
        assert(before + word_groups(all.skip(i as int)) =~= before.push(piece@) + word_groups(all.skip(end as int)));
        i = end;
    }
    assert(all.skip(ws@.len() as int) =~= Seq::<Seq<char>>::empty());
    assert(r@.map_values(|p: String| p@) + Seq::<Seq<char>>::empty() =~= r@.map_values(|p: String| p@));
    r
}

/// `"data: "`, `json`, a blank line: one server-sent event.
pub open spec fn sse_event(json: Seq<char>) -> Seq<char> {
    "data: "@ + json + "\n\n"@
}

/// The JSON of a `chat.completion.chunk` with one choice, at index 0, whose
/// delta holds `content` where there is some, and which ends with `finish`
/// where there is one.
pub open spec fn one_choice_chunk_json(
    id: Seq<char>,
    created: u64,
    model: Seq<char>,
    content: Option<Seq<char>>,
    finish: Option<Seq<char>>,
) -> Seq<char> {
    let delta = object(
        match content {
            Some(c) => seq![member("content"@, json_str(c))],
            None => Seq::empty(),
        },
    );
    let choice = object(
        seq![member("index"@, decimal(0)), member("delta"@, delta)] + match finish {
            Some(f) => seq![member("finish_reason"@, json_str(f))],
            None => Seq::empty(),
        },
    );
    object(
        seq![
            member("id"@, json_str(id)),
            member("object"@, json_str("chat.completion.chunk"@)),
            member("created"@, decimal(created as nat)),
            member("model"@, json_str(model)),
            member("choices"@, array(seq![choice])),
        ],
    )
}

/// The events of the pieces of a streamed answer, in order.
pub open spec fn piece_events(id: Seq<char>, created: u64, model: Seq<char>, pieces: Seq<Seq<char>>) -> Seq<char>
    decreases pieces.len(),
{
    if pieces.len() == 0 {
        Seq::empty()
    } else {
        piece_events(id, created, model, pieces.drop_last()) + sse_event(
            one_choice_chunk_json(id, created, model, Some(pieces.last()), None),
        )
    }
}

/// An answer streamed as events: one per piece of five words, a last chunk
/// that stops, and `[DONE]`.
pub open spec fn streamed_answer(id: Seq<char>, created: u64, model: Seq<char>, text: Seq<char>) -> Seq<char> {
    piece_events(id, created, model, word_groups(words(text)))
        + sse_event(one_choice_chunk_json(id, created, model, None, Some("stop"@)))
        + "data: [DONE]\n\n"@
}

/// An answer that reads as an error: it mentions `Provider error:` or `error`.
pub open spec fn reads_as_error(text: Seq<char>) -> bool {
    contains_seq(text, "Provider error:"@) || contains_seq(text, "error"@)
}

/// An answer that reads as an error, sent whole in one chunk without a stop,
/// then `[DONE]`.
pub open spec fn streamed_error(id: Seq<char>, created: u64, model: Seq<char>, text: Seq<char>) -> Seq<char> {
    sse_event(one_choice_chunk_json(id, created, model, Some(text), None)) + "\ndata: [DONE]\n\n"@
}

/// The body of a streamed reply of the provider's `text`.
pub open spec fn streamed_reply_body(id: Seq<char>, created: u64, model: Seq<char>, text: Seq<char>) -> Seq<char> {
    if reads_as_error(text) {
        streamed_error(id, created, model, text)
    } else {
        streamed_answer(id, created, model, text)
    }
}

/// An optional string, by its characters.
pub open spec fn opt_chars(o: Option<String>) -> Option<Seq<char>> {
    match o {
        Some(s) => Some(s@),
        None => None,
    }
}

/// One event of a one-choice chunk.
fn one_choice_event(id: &str, created: u64, model: &str, content: Option<String>, finish: Option<&'static str>) -> (r: String)
    ensures
        r@ == sse_event(
            one_choice_chunk_json(
                id@,
                created,
                model@,
                opt_chars(content),
                match finish {
                    Some(f) => Some(f@),
                    None => None,
                },
            ),
        ),
{
    let ghost content_view = opt_chars(content);
    let delta = DeltaDelta { content, tool_calls: None };
    let mut choices: Vec<DeltaChoice> = Vec::new();
    choices.push(DeltaChoice { index: 0, delta, finish_reason: finish });
    let chunk = SSEChunk {
        id: id.to_owned(),
        object: "chat.completion.chunk",
        created,
        model: model.to_owned(),
        choices,
    };
    let r = format_sse_event(&chunk);
    proof {
        let c0 = chunk.choices@[0];
        assert(delta_json(c0.delta) =~= object(
            match content_view {
                Some(c) => seq![member("content"@, json_str(c))],
                None => Seq::empty(),
            },
        ));
        assert(Seq::new(chunk.choices@.len(), |i: int| choice_json(chunk.choices@[i])) =~= seq![choice_json(c0)]);
        assert(decimal(0) == decimal(c0.index as nat));
    }
    r
}

/// The body of a streamed reply of `text`, with the given id and time.
pub fn streamed_reply_at(id: &str, created: u64, model: &str, text: &str) -> (r: String)
    ensures
        r@ == streamed_reply_body(id@, created, model@, text@),
{
    let cs = chars_of(text);
    let p1 = chars_of("Provider error:");
    let p2 = chars_of("error");
    if contains_exec(cs.as_slice(), p1.as_slice()) || contains_exec(cs.as_slice(), p2.as_slice()) {
        let mut r = one_choice_event(id, created, model, Some(text.to_owned()), None);
        push_str(&mut r, "\ndata: [DONE]\n\n");
        return r;
    }
    let pieces = word_chunks(text);
    let ghost ps = pieces@.map_values(|p: String| p@);
    let mut r = String::new();
    let mut i: usize = 0;
    while i < pieces.len()
        invariant
            i <= pieces@.len(),
            ps == pieces@.map_values(|p: String| p@),
            r@ == piece_events(id@, created, model@, ps.take(i as int)),
        decreases pieces.len() - i,
    {
        let ev = one_choice_event(id, created, model, Some(pieces[i].clone()), None);
        push_str(&mut r, ev.as_str());
        assert(ps.take(i + 1).drop_last() =~= ps.take(i as int));
        i += 1;
    }
    assert(ps.take(pieces@.len() as int) =~= ps);
    let last = one_choice_event(id, created, model, None, Some("stop"));
    push_str(&mut r, last.as_str());
    push_str(&mut r, "data: [DONE]\n\n");
    r
}

/// A fresh completion id: `chatcmpl-` and a random UUID.
pub fn completion_id() -> (r: String)
    ensures
        exists|u: Seq<char>| is_hyphenated_uuid(u) && r@ == "chatcmpl-"@ + u,
{
    let u = new_uuid_v4();
    let mut r = String::new();
    push_str(&mut r, "chatcmpl-");
    push_str(&mut r, u.as_str());
    r
}

/// The body of a streamed reply of `text` by `model`, under a fresh id and
/// the current time in seconds.
pub fn streamed_reply(model: &str, text: &str) -> (r: String)
    ensures
        exists|u: Seq<char>, created: u64|
            is_hyphenated_uuid(u) && r@ == streamed_reply_body("chatcmpl-"@ + u, created, model@, text@),
{
    let id = completion_id();
    let created = unix_millis_now() / 1000;
    streamed_reply_at(id.as_str(), created, model, text)
}

/// Why a chat completion request is refused before its body is read.
#[derive(Debug, Clone, Copy, PartialEq, Eq, Structural)]
pub enum CompletionRefusal {
    /// The client's rate limit is spent (429).
    RateLimited,
    /// Pairing is required and the bearer token is not a paired one (401).
    InvalidApiKey,
    /// The body is over `CHAT_COMPLETIONS_MAX_BODY_SIZE` (413).
    PayloadTooLarge,
}

/// The refusal a request meets, by the checks in their order: the rate
/// limit, then pairing, then the size of the body; none where all pass.
pub open spec fn refusal_of(rate_allowed: bool, pairing_required: bool, authenticated: bool, body_len: nat) -> Option<
    CompletionRefusal,
> {
    if !rate_allowed {
        Some(CompletionRefusal::RateLimited)
    } else if pairing_required && !authenticated {
        Some(CompletionRefusal::InvalidApiKey)
    } else if body_len > crate::gateway::openai_compat::CHAT_COMPLETIONS_MAX_BODY_SIZE {
        Some(CompletionRefusal::PayloadTooLarge)
    } else {
        None
    }
}

/// Whether a request is admitted, given what the rate limiter and the pairing
/// store said of it and the length of its body.
pub fn screen_request(rate_allowed: bool, pairing_required: bool, authenticated: bool, body_len: usize) -> (r: Option<
    CompletionRefusal,
>)
    ensures
        r == refusal_of(rate_allowed, pairing_required, authenticated, body_len as nat),
{
    if !rate_allowed {
        Some(CompletionRefusal::RateLimited)
    } else if pairing_required && !authenticated {
        Some(CompletionRefusal::InvalidApiKey)
    } else if body_len > crate::gateway::openai_compat::CHAT_COMPLETIONS_MAX_BODY_SIZE {
        Some(CompletionRefusal::PayloadTooLarge)
    } else {
        None
    }
}

/// The JSON error object `{"error":{"code":..,"message":..,"type":..}}`.
pub open spec fn coded_error_json(code: Seq<char>, message: Seq<char>, kind: Seq<char>) -> Seq<char> {
    object(
        seq![
            member(
                "error"@,
                object(
                    seq![
                        member("code"@, json_str(code)),
                        member("message"@, json_str(message)),
                        member("type"@, json_str(kind)),
                    ],
                ),
            ),
        ],
    )
}

/// The body sent with a refusal.
pub open spec fn refusal_json(r: CompletionRefusal) -> Seq<char> {
    match r {
        CompletionRefusal::RateLimited => coded_error_json(
            "rate_limit_exceeded"@,
            "Rate limit exceeded. Please retry later."@,
            "rate_limit_error"@,
        ),
        CompletionRefusal::InvalidApiKey => coded_error_json(
            "invalid_api_key"@,
            "Invalid API key. Pair first via POST /pair"@,
            "invalid_request_error"@,
        ),
        CompletionRefusal::PayloadTooLarge => object(seq![member("error"@, json_str("Payload too large"@))]),
    }
}

fn coded_error_exec(code: &str, message: &str, kind: &str) -> (r: String)
    ensures
        r@ == coded_error_json(code@, message@, kind@),
{
    let mut inner: Vec<Vec<char>> = Vec::new();
    inner.push(member_exec("code", str_json(code)));
    inner.push(member_exec("message", str_json(message)));
    inner.push(member_exec("type", str_json(kind)));
    let mut outer: Vec<Vec<char>> = Vec::new();
    outer.push(member_exec("error", object_exec(&inner)));
    assert(seqs_of(inner@) =~= seq![
        member("code"@, json_str(code@)),
        member("message"@, json_str(message@)),
        member("type"@, json_str(kind@)),
    ]);
    let ghost inner_json = object(seqs_of(inner@));
    assert(seqs_of(outer@) =~= seq![member("error"@, inner_json)]);
    let o = object_exec(&outer);
    string_of(o.as_slice())
}

impl CompletionRefusal {
    /// The HTTP status of the refusal.
    pub fn status(&self) -> (r: u16)
        ensures
            r == match *self {
                CompletionRefusal::RateLimited => 429u16,
                CompletionRefusal::InvalidApiKey => 401u16,
                CompletionRefusal::PayloadTooLarge => 413u16,
            },
    {
        match self {
            CompletionRefusal::RateLimited => 429,
            CompletionRefusal::InvalidApiKey => 401,
            CompletionRefusal::PayloadTooLarge => 413,
        }
    }

    /// The JSON body of the refusal.
    pub fn body_json(&self) -> (r: String)
        ensures
            r@ == refusal_json(*self),
    {
        match self {
            CompletionRefusal::RateLimited => coded_error_exec(
                "rate_limit_exceeded",
                "Rate limit exceeded. Please retry later.",
                "rate_limit_error",
            ),
            CompletionRefusal::InvalidApiKey => coded_error_exec(
                "invalid_api_key",
                "Invalid API key. Pair first via POST /pair",
                "invalid_request_error",
            ),
            CompletionRefusal::PayloadTooLarge => {
                let mut m: Vec<Vec<char>> = Vec::new();
                m.push(member_exec("error", str_json("Payload too large")));
                assert(seqs_of(m@) =~= seq![member("error"@, json_str("Payload too large"@))]);
                let o = object_exec(&m);
                string_of(o.as_slice())
            },
        }
    }
}

/// The token of an `Authorization` header: what follows `Bearer `, or
/// nothing where the header does not start so.
pub open spec fn bearer_token(auth: Seq<char>) -> Seq<char> {
    if "Bearer "@.is_prefix_of(auth) {
        auth.skip("Bearer "@.len() as int)
    } else {
        Seq::empty()
    }
}

/// The bearer token of an `Authorization` header.
pub fn bearer_token_exec(auth: &str) -> (r: String)
    ensures
        r@ == bearer_token(auth@),
{
    let a = chars_of(auth);
    let p = chars_of("Bearer ");
    if starts_with_exec(a.as_slice(), p.as_slice()) {
        let t = slice_chars(a.as_slice(), p.len(), a.len());
        string_of(t.as_slice())
    } else {
        String::new()
    }
}

/// The model a request names, the configured one where it names none.
pub open spec fn requested_model(requested: Option<Seq<char>>, default_model: Seq<char>) -> Seq<char> {
    match requested {
        Some(m) => m,
        None => default_model,
    }
}

/// Whether the request goes to the classifier: it names the auto router.
pub open spec fn wants_router(requested: Option<Seq<char>>, default_model: Seq<char>) -> bool {
    requested_model(requested, default_model) == AUTO_ROUTER_MODEL@
}

/// The model that answers: the configured one for `auto`; for the auto
/// router, the classifier's hint where there is a classifier and the
/// configured model where there is none; else the model named.
pub open spec fn resolved_model(requested: Option<Seq<char>>, default_model: Seq<char>, router_hint: Option<Seq<char>>) -> Seq<
    char,
> {
    let m = requested_model(requested, default_model);
    if m == "auto"@ {
        default_model
    } else if m == AUTO_ROUTER_MODEL@ {
        match router_hint {
            Some(h) => h,
            None => default_model,
        }
    } else {
        m
    }
}

/// An optional string slice, by its characters.
pub open spec fn opt_str(o: Option<&str>) -> Option<Seq<char>> {
    match o {
        Some(s) => Some(s@),
        None => None,
    }
}

/// Whether the classifier is to be asked for a model.
pub fn routes_by_classifier(requested: Option<&str>, default_model: &str) -> (r: bool)
    ensures
        r == wants_router(opt_str(requested), default_model@),
{
    let m = match requested {
        Some(m) => m,
        None => default_model,
    };
    crate::tui::subsystems::eq_str(m, AUTO_ROUTER_MODEL)
}

/// The model that answers the request.
pub fn resolve_model(requested: Option<&str>, default_model: &str, router_hint: Option<&str>) -> (r: String)
    ensures
        r@ == resolved_model(opt_str(requested), default_model@, opt_str(router_hint)),
{
    let m = match requested {
        Some(m) => m,
        None => default_model,
    };
    if crate::tui::subsystems::eq_str(m, "auto") {
        default_model.to_owned()
    } else if crate::tui::subsystems::eq_str(m, AUTO_ROUTER_MODEL) {
        match router_hint {
            Some(h) => h.to_owned(),
            None => default_model.to_owned(),
        }
    } else {
        m.to_owned()
    }
}

/// Whether the reply is streamed: never where the request offers tools,
/// else as the request asks, and not where it does not say.
pub open spec fn streams(tool_count: Option<usize>, stream: Option<bool>) -> bool {
    let has_tools = match tool_count {
        Some(n) => n > 0,
        None => false,
    };
    !has_tools && stream == Some(true)
}

/// Whether the reply is streamed.
pub fn should_stream(tool_count: Option<usize>, stream: Option<bool>) -> (r: bool)
    ensures
        r == streams(tool_count, stream),
{
    let has_tools = match tool_count {
        Some(n) => n > 0,
        None => false,
    };
    if has_tools {
        false
    } else {
        match stream {
            Some(b) => b,
            None => false,
        }
    }
}

/// The content of the last message whose role is `user`; empty where there
/// is none.
pub open spec fn last_user_query(ms: Seq<ChatCompletionsMessage>) -> Seq<char>
    decreases ms.len(),
{
    if ms.len() == 0 {
        Seq::empty()
    } else if ms.last().role@ == "user"@ {
        ms.last().content@
    } else {
        last_user_query(ms.drop_last())
    }
}

/// The query the classifier reads: the last user message of the request.
pub fn classification_query(messages: &Vec<ChatCompletionsMessage>) -> (r: String)
    ensures
        r@ == last_user_query(messages@),
{
    let mut best = String::new();
    let mut i: usize = 0;
    while i < messages.len()
        invariant
            i <= messages@.len(),
            best@ == last_user_query(messages@.take(i as int)),
        decreases messages.len() - i,
    {
        let m = &messages[i];
        assert(messages@.take(i + 1).drop_last() =~= messages@.take(i as int));
        if crate::tui::subsystems::eq_str(m.role.as_str(), "user") {
            best = m.content.clone();
        }
        i += 1;
    }
    assert(messages@.take(messages@.len() as int) =~= messages@);
    best
}

/// The content of the last turn of the conversation that is the user's;
/// empty where there is none.
pub open spec fn last_user_turn(ms: Seq<(ChatRole, String)>) -> Seq<char>
    decreases ms.len(),
{
    if ms.len() == 0 {
        Seq::empty()
    } else if ms.last().0 == ChatRole::User {
        ms.last().1@
    } else {
        last_user_turn(ms.drop_last())
    }
}

/// The query the skills are matched against: the user's last turn of the
/// converted conversation.
pub fn skill_query(conversation: &Vec<(ChatRole, String)>) -> (r: String)
    ensures
        r@ == last_user_turn(conversation@),
{
    let mut best = String::new();
    let mut i: usize = 0;
    while i < conversation.len()
        invariant
            i <= conversation@.len(),
            best@ == last_user_turn(conversation@.take(i as int)),
        decreases conversation.len() - i,
    {
        assert(conversation@.take(i + 1).drop_last() =~= conversation@.take(i as int));
        if conversation[i].0 == ChatRole::User {
            best = conversation[i].1.clone();
        }
        i += 1;
    }
    assert(conversation@.take(conversation@.len() as int) =~= conversation@);
    best
}

/// Whether some message carries an image.
pub open spec fn has_images(ms: Seq<ChatCompletionsMessage>) -> bool {
    exists|i: int| 0 <= i < ms.len() && (#[trigger] ms[i]).image_urls@.len() > 0
}

/// Whether some message of the request carries an image.
pub fn request_has_images(messages: &Vec<ChatCompletionsMessage>) -> (r: bool)
    ensures
        r == has_images(messages@),
{
    let mut i: usize = 0;
    while i < messages.len()
        invariant
            i <= messages@.len(),
            forall|j: int| 0 <= j < i ==> (#[trigger] messages@[j]).image_urls@.len() == 0,
        decreases messages.len() - i,
    {
        if messages[i].image_urls.len() > 0 {
            return true;
        }
        i += 1;
    }
    false
}

/// The MIME type of a data URL (`data:image/png;base64,..` gives
/// `image/png;base64`): between the first and the second colon of what
/// precedes the first comma. Other URLs have none.
pub open spec fn data_url_mime(url: Seq<char>) -> Option<Seq<char>> {
    if "data:"@.is_prefix_of(url) {
        let parts = split_char(split_char(url, ',')[0], ':');
        if parts.len() > 1 {
            Some(parts[1])
        } else {
            None
        }
    } else {
        None
    }
}

/// The image URLs of the messages, in order.
pub open spec fn all_image_urls(ms: Seq<ChatCompletionsMessage>) -> Seq<Seq<char>>
    decreases ms.len(),
{
    if ms.len() == 0 {
        Seq::empty()
    } else {
        all_image_urls(ms.drop_last()) + ms.last().image_urls@.map_values(|u: String| u@)
    }
}

/// The MIME types of the data URLs among `urls`, in order.
pub open spec fn mime_types(urls: Seq<Seq<char>>) -> Seq<Seq<char>>
    decreases urls.len(),
{
    if urls.len() == 0 {
        Seq::empty()
    } else {
        let prev = mime_types(urls.drop_last());
        match data_url_mime(urls.last()) {
            Some(m) => prev.push(m),
            None => prev,
        }
    }
}

fn data_url_mime_exec(url: &str) -> (r: Option<String>)
    ensures
        opt_chars(r) == data_url_mime(url@),
{
    let u = chars_of(url);
    let p = chars_of("data:");
    if !starts_with_exec(u.as_slice(), p.as_slice()) {
        return None;
    }
    let pieces = split_char_exec(u.as_slice(), ',');
    proof {
        crate::text::lemma_split_char_nonempty(u@, ',');
    }
    let parts = split_char_exec(pieces[0].as_slice(), ':');
    if parts.len() > 1 {
        Some(string_of(parts[1].as_slice()))
    } else {
        None
    }
}

/// The MIME types of the images that the request carries as data URLs, for
/// the classifier.
pub fn image_mime_types(messages: &Vec<ChatCompletionsMessage>) -> (r: Vec<String>)
    ensures
        r@.map_values(|s: String| s@) == mime_types(all_image_urls(messages@)),
{
    let mut out: Vec<String> = Vec::new();
    let mut i: usize = 0;
    while i < messages.len()
        invariant
            i <= messages@.len(),
            out@.map_values(|s: String| s@) == mime_types(all_image_urls(messages@.take(i as int))),
        decreases messages.len() - i,
    {
        let urls = &messages[i].image_urls;
        let ghost before = all_image_urls(messages@.take(i as int));
        let ghost uv = urls@.map_values(|u: String| u@);
        let mut j: usize = 0;
        assert(before + uv.take(0) =~= before);
        while j < urls.len()
            invariant
                j <= urls@.len(),
                uv == urls@.map_values(|u: String| u@),
                out@.map_values(|s: String| s@) == mime_types(before + uv.take(j as int)),
            decreases urls.len() - j,
        {
            let m = data_url_mime_exec(urls[j].as_str());
            let ghost prev_out = out@.map_values(|s: String| s@);
            assert((before + uv.take(j + 1)).drop_last() =~= before + uv.take(j as int));
            assert((before + uv.take(j + 1)).last() == urls@[j as int]@);
            match m {
                Some(t) => {
                    out.push(t);
                    assert(out@.map_values(|s: String| s@) =~= prev_out.push(out@.last()@));
                },
                None => {},
            }
            j += 1;
        }
        assert(uv.take(urls@.len() as int) =~= uv);
        assert(messages@.take(i + 1).drop_last() =~= messages@.take(i as int));
        i += 1;
    }
    assert(messages@.take(messages@.len() as int) =~= messages@);
    out
}

/// The JSON sent when the provider fails with `e`.
pub open spec fn provider_error_json(e: Seq<char>) -> Seq<char> {
    object(
        seq![
            member(
                "error"@,
                object(
                    seq![
                        member("message"@, json_str("Provider error: "@ + e)),
                        member("type"@, json_str("provider_error"@)),
                    ],
                ),
            ),
        ],
    )
}

/// The JSON body sent when the provider fails with `e` (status 500).
pub fn provider_error_body(e: &str) -> (r: String)
    ensures
        r@ == provider_error_json(e@),
{
    let mut msg = String::new();
    push_str(&mut msg, "Provider error: ");
    push_str(&mut msg, e);
    let mut inner: Vec<Vec<char>> = Vec::new();
    inner.push(member_exec("message", str_json(msg.as_str())));
    inner.push(member_exec("type", str_json("provider_error")));
    let mut outer: Vec<Vec<char>> = Vec::new();
    outer.push(member_exec("error", object_exec(&inner)));
    assert(seqs_of(inner@) =~= seq![
        member("message"@, json_str("Provider error: "@ + e@)),
        member("type"@, json_str("provider_error"@)),
    ]);
    let ghost inner_json = object(seqs_of(inner@));
    assert(seqs_of(outer@) =~= seq![member("error"@, inner_json)]);
    let o = object_exec(&outer);
    string_of(o.as_slice())
}

/// The event stream sent when the provider fails with `e` while a streamed
/// reply was asked for: the error as one event, then `[DONE]`.
pub fn provider_error_stream(e: &str) -> (r: String)
    ensures
        r@ == "data: "@ + provider_error_json(e@) + "\n\ndata: [DONE]\n\n"@,
{
    let j = provider_error_body(e);
    let mut r = String::new();
    push_str(&mut r, "data: ");
    push_str(&mut r, j.as_str());
    push_str(&mut r, "\n\ndata: [DONE]\n\n");
    r
}

/// `r` is the whole reply with id `id`, time `created` and model `model` to
/// the provider's answer: its text (empty where it gave none), its tool
/// calls where it made some, and its token counts (0 where not given, cut
/// to 32 bits).
pub open spec fn is_completion(
    r: ChatCompletionsResponse,
    id: Seq<char>,
    created: u64,
    model: Seq<char>,
    text: Option<Seq<char>>,
    tool_calls: Seq<serde_json::Value>,
    input_tokens: Option<u64>,
    output_tokens: Option<u64>,
) -> bool {
    let has_calls = tool_calls.len() > 0;
    &&& r.id@ == id
    &&& r.object@ == "chat.completion"@
    &&& r.created == created
    &&& r.model@ == model
    &&& r.choices@.len() == 1
    &&& r.choices@[0].index == 0
    &&& r.choices@[0].message.role@ == "assistant"@
    &&& r.choices@[0].message.content@ == match text {
        Some(t) => t,
        None => Seq::empty(),
    }
    &&& if has_calls {
        r.choices@[0].message.tool_calls matches Some(v) && v@ == tool_calls
    } else {
        r.choices@[0].message.tool_calls is None
    }
    &&& r.choices@[0].finish_reason@ == if has_calls {
        "tool_calls"@
    } else {
        "stop"@
    }
    &&& r.usage.prompt_tokens == match input_tokens {
        Some(n) => n as u32,
        None => 0u32,
    }
    &&& r.usage.completion_tokens == match output_tokens {
        Some(n) => n as u32,
        None => 0u32,
    }
    &&& r.usage.total_tokens == 0
}

/// The whole reply to the provider's answer, with the given id and time.
pub fn completion_response_at(
    id: &str,
    created: u64,
    model: &str,
    text: Option<String>,
    tool_calls: Vec<serde_json::Value>,
    input_tokens: Option<u64>,
    output_tokens: Option<u64>,
) -> (r: ChatCompletionsResponse)
    ensures
        is_completion(r, id@, created, model@, opt_chars(text), tool_calls@, input_tokens, output_tokens),
{
    let content = match text {
        Some(t) => t,
        None => String::new(),
    };
    let has_calls = tool_calls.len() > 0;
    let calls = if has_calls {
        Some(tool_calls)
    } else {
        None
    };
    let prompt_tokens: u32 = match input_tokens {
        Some(n) => n as u32,
        None => 0,
    };
    let completion_tokens: u32 = match output_tokens {
        Some(n) => n as u32,
        None => 0,
    };
    let mut choices: Vec<ChatCompletionsChoice> = Vec::new();
    choices.push(ChatCompletionsChoice {
        index: 0,
        message: ChatCompletionsResponseMessage { role: "assistant", content, tool_calls: calls },
        finish_reason: if has_calls {
            "tool_calls"
        } else {
            "stop"
        },
    });
    ChatCompletionsResponse {
        id: id.to_owned(),
        object: "chat.completion",
        created,
        model: model.to_owned(),
        choices,
        usage: ChatCompletionsUsage { prompt_tokens, completion_tokens, total_tokens: 0 },
    }
}

/// The whole reply to the provider's answer, under a fresh id and the
/// current time in seconds.
pub fn completion_response(
    model: &str,
    text: Option<String>,
    tool_calls: Vec<serde_json::Value>,
    input_tokens: Option<u64>,
    output_tokens: Option<u64>,
) -> (r: ChatCompletionsResponse)
    ensures
        exists|u: Seq<char>, created: u64|
            is_hyphenated_uuid(u) && is_completion(
                r,
                "chatcmpl-"@ + u,
                created,
                model@,
                opt_chars(text),
                tool_calls@,
                input_tokens,
                output_tokens,
            ),
{
    let id = completion_id();
    let created = unix_millis_now() / 1000;
    completion_response_at(id.as_str(), created, model, text, tool_calls, input_tokens, output_tokens)
}

/// Streaming keeps the words: the pieces of an answer, joined by spaces, are
/// its words joined by spaces.
pub proof fn lemma_pieces_keep_words(ws: Seq<Seq<char>>)
    ensures
        join(word_groups(ws), " "@) == join(ws, " "@),
    decreases ws.len(),
{
    if ws.len() > 5 {
        let rest = ws.skip(5);
        lemma_pieces_keep_words(rest);
        let head = seq![join(ws.take(5), " "@)];
        assert(word_groups(rest).len() > 0);
        lemma_join_append(head, word_groups(rest), " "@);
        assert(join(head, " "@) == join(ws.take(5), " "@));
        lemma_join_append(ws.take(5), rest, " "@);
        assert(ws.take(5) + rest =~= ws);
    } else if ws.len() > 0 {
        assert(join(seq![join(ws, " "@)], " "@) == join(ws, " "@));
    }
}

/// An answer of `n` words is streamed in `n / 5` pieces, rounded up.
pub proof fn lemma_piece_count(ws: Seq<Seq<char>>)
    ensures
        word_groups(ws).len() == (ws.len() + 4) / 5,
    decreases ws.len(),
{
    if ws.len() > 5 {
        lemma_piece_count(ws.skip(5));
    }
}

/// The words of a text are not empty and hold no whitespace.
pub proof fn lemma_words_are_words(s: Seq<char>)
    ensures
        forall|i: int| 0 <= i < words(s).len() ==> (#[trigger] words(s)[i]).len() > 0,
        forall|i: int, k: int| 0 <= i < words(s).len() && 0 <= k < words(s)[i].len() ==> !is_ws(#[trigger] words(s)[i][k]),
    decreases s.len(),
{
    if s.len() > 0 {
        lemma_words_are_words(s.drop_last());
        let prev = words(s.drop_last());
        let c = s.last();
        if !is_ws(c) && s.len() >= 2 && !is_ws(s[s.len() - 2]) {
            let t = s.drop_last();
            assert(t.last() == s[s.len() - 2]);
            lemma_words_nonempty(t);
            let w = words(s);
            assert forall|i: int, k: int| 0 <= i < w.len() && 0 <= k < w[i].len() implies !is_ws(#[trigger] w[i][k]) by {
                if i == w.len() - 1 && k == w[i].len() - 1 {
                    assert(w[i][k] == c);
                } else if i == w.len() - 1 {
                    assert(w[i][k] == prev.last()[k]);
                } else {
                    assert(w[i] == prev[i]);
                }
            }
            assert forall|i: int| 0 <= i < w.len() implies (#[trigger] w[i]).len() > 0 by {
                if i < w.len() - 1 {
                    assert(w[i] == prev[i]);
                }
            }
        } else if !is_ws(c) {
            let w = words(s);
            assert forall|i: int, k: int| 0 <= i < w.len() && 0 <= k < w[i].len() implies !is_ws(#[trigger] w[i][k]) by {
                if i < w.len() - 1 {
                    assert(w[i] == prev[i]);
                }
            }
            assert forall|i: int| 0 <= i < w.len() implies (#[trigger] w[i]).len() > 0 by {
                if i < w.len() - 1 {
                    assert(w[i] == prev[i]);
                }
            }
        }
    }
}

} // verus!

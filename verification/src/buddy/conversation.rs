//! Recognising what the user means: intents found by keyword matching.
use vstd::prelude::*;
use crate::buddy::blocker::severity_emoji;
use crate::buddy::emotional_state::{attention, emotion_emoji, emotion_text, next_emotion};
use crate::buddy::situation::Situation;
use crate::buddy::state::{completes_task, first_blocker_about, urgent_blocker, BuddyState};
use crate::clock::time_hash;
use crate::text::{decimal, push_decimal, push_str};
use crate::text::{
    chars_of, contains_exec, contains_seq, lowercase, slice_chars, starts_with_exec, string_of, to_lowercase, trim, trim_exec, eq_chars,
};

verus! {

/// The intent found in a user's message.
#[derive(Debug, Clone, PartialEq, Eq)]
pub enum ConversationIntent {
    /// A greeting (hej, cześć, hi, elo...).
    Greeting,
    /// A question about status (co robisz, jak leci...).
    StatusQuery,
    /// A finished task (zrobione, gotowe...).
    TaskCompleted,
    /// A finished hard task (trudne zadanie, dałem radę...).
    HardTaskCompleted,
    /// A resolved blocker, with what the user says they did.
    BlockerResolved(String),
    /// A goodbye (pa, nara...).
    Goodbye,
    /// Anything else, with the message as written.
    General(String),
}

/// An intent with its text as characters.
pub enum IntentView {
    Greeting,
    StatusQuery,
    TaskCompleted,
    HardTaskCompleted,
    BlockerResolved(Seq<char>),
    Goodbye,
    General(Seq<char>),
}

impl View for ConversationIntent {
    type V = IntentView;

    open spec fn view(&self) -> IntentView {
        match self {
            ConversationIntent::Greeting => IntentView::Greeting,
            ConversationIntent::StatusQuery => IntentView::StatusQuery,
            ConversationIntent::TaskCompleted => IntentView::TaskCompleted,
            ConversationIntent::HardTaskCompleted => IntentView::HardTaskCompleted,
            ConversationIntent::BlockerResolved(s) => IntentView::BlockerResolved(s@),
            ConversationIntent::Goodbye => IntentView::Goodbye,
            ConversationIntent::General(s) => IntentView::General(s@),
        }
    }
}

/// Some word of `words` occurs in `text`.
pub open spec fn any_contained(text: Seq<char>, words: Seq<Seq<char>>) -> bool {
    exists|k: int| 0 <= k < words.len() && contains_seq(text, #[trigger] words[k])
}

/// The texts of a list of string slices.
pub open spec fn texts(ws: Seq<&str>) -> Seq<Seq<char>> {
    ws.map_values(|w: &str| w@)
}

/// Greeting words.
pub open spec fn greeting_words() -> Seq<Seq<char>> {
    seq!["hej"@, "cześć"@, "czesc"@, "siema"@, "siemka"@, "elo"@, "witam"@, "dzień dobry"@,
        "dzien dobry"@, "yo"@, "hejka"@, "hi"@, "hello"@, "hejo"@]
}

/// Goodbye words.
pub open spec fn goodbye_words() -> Seq<Seq<char>> {
    seq!["pa"@, "nara"@, "dozo"@, "cześć!"@, "czesc!"@, "do widzenia"@, "do zobaczenia"@,
        "do jutra"@, "pa pa"@, "narazie"@, "na razie"@, "spadam"@, "lecę"@, "lecę na razie"@]
}

/// Status question words.
pub open spec fn status_words() -> Seq<Seq<char>> {
    seq!["co robisz"@, "jak leci"@, "jak tam"@, "jak się masz"@, "jak sie masz"@,
        "co słychać"@, "co slychac"@, "co u ciebie"@, "jak idzie"@, "jaki status"@,
        "co nowego"@, "how are you"@]
}

/// Hard-task words.
pub open spec fn hard_task_words() -> Seq<Seq<char>> {
    seq!["trudne zadanie"@, "dałem radę"@, "dalem rade"@, "udało się"@, "udalo sie"@,
        "to było trudne"@, "bylo trudne"@, "ale dałem"@, "w końcu!"@, "w koncu!"@, "hard task"@]
}

/// Task-completion words.
pub open spec fn task_words() -> Seq<Seq<char>> {
    seq!["zrobione"@, "gotowe"@, "skończone"@, "skonczone"@, "zrobione!"@, "gotowe!"@,
        "ukończone"@, "ukonczone"@, "done"@, "finished"@, "odhaczone"@, "zaliczone"@,
        "zrobilem"@, "zrobiłem"@, "ukończyłem"@, "ukonczylem"@]
}

/// Prefixes with which the user says a blocker is resolved.
pub open spec fn resolution_prefixes() -> Seq<Seq<char>> {
    seq!["już zrobiłem "@, "juz zrobilem "@, "już jest "@, "juz jest "@,
        "już odpowiedziałem "@, "juz odpowiedzialem "@, "zdecydowałem że "@,
        "zdecydowalem ze "@, "wybrałem "@, "wybralem "@, "zrobiłem to "@, "zrobilem to "@]
}

/// What follows the first prefix of `prefixes` (from index `k` on) that
/// `text` starts with, followed by something.
pub open spec fn resolution_from(text: Seq<char>, prefixes: Seq<Seq<char>>, k: int) -> Option<Seq<char>>
    decreases prefixes.len() - k,
{
    if k < 0 || k >= prefixes.len() {
        None
    } else if prefixes[k].is_prefix_of(text) && text.len() > prefixes[k].len() {
        Some(text.subrange(prefixes[k].len() as int, text.len() as int))
    } else {
        resolution_from(text, prefixes, k + 1)
    }
}

/// What follows the first prefix of `prefixes` (from index `k` on) that
/// `text` starts with in any case, followed by something; the rest keeps
/// the case it has in `text`.
pub open spec fn resolution_in_case(text: Seq<char>, prefixes: Seq<Seq<char>>, k: int) -> Option<Seq<char>>
    decreases prefixes.len() - k,
{
    if k < 0 || k >= prefixes.len() {
        None
    } else if text.len() > prefixes[k].len() && lowercase(text.take(prefixes[k].len() as int)) == prefixes[k] {
        Some(text.skip(prefixes[k].len() as int))
    } else {
        resolution_in_case(text, prefixes, k + 1)
    }
}

/// The intent of a message: its trimmed lowercase form is checked for
/// greeting, goodbye, status and hard-task words in that order, then for a
/// blocker resolution on the trimmed message (which thus wins over a task
/// word it contains, as in "już zrobiłem ...", and keeps the user's case),
/// then for task words; otherwise it is general.
pub open spec fn intent_of(input: Seq<char>) -> IntentView {
    let t = trim(lowercase(input));
    if any_contained(t, greeting_words()) {
        IntentView::Greeting
    } else if any_contained(t, goodbye_words()) {
        IntentView::Goodbye
    } else if any_contained(t, status_words()) {
        IntentView::StatusQuery
    } else if any_contained(t, hard_task_words()) {
        IntentView::HardTaskCompleted
    } else {
        match resolution_in_case(trim(input), resolution_prefixes(), 0) {
            Some(rest) => IntentView::BlockerResolved(rest),
            None => if any_contained(t, task_words()) {
                IntentView::TaskCompleted
            } else {
                IntentView::General(input)
            },
        }
    }
}

proof fn lemma_resolution_found(t: Seq<char>, ps: Seq<Seq<char>>, j: int, k: int)
    requires
        0 <= j <= k < ps.len(),
        t.len() > ps[k].len(),
        lowercase(t.take(ps[k].len() as int)) == ps[k],
    ensures
        resolution_in_case(t, ps, j) is Some,
    decreases k - j,
{
    if j < k {
        lemma_resolution_found(t, ps, j + 1, k);
    }
}

/// A resolution prefix is recognised whatever the case of its letters: a
/// message that, once trimmed, starts with text whose lowercase form is a
/// resolution prefix, followed by more, is a resolved blocker unless it
/// holds a greeting, goodbye, status or hard-task word.
pub proof fn lemma_resolution_any_case(input: Seq<char>, head: Seq<char>, rest: Seq<char>, k: int)
    requires
        0 <= k < resolution_prefixes().len(),
        head.len() == resolution_prefixes()[k].len(),
        lowercase(head) == resolution_prefixes()[k],
        rest.len() > 0,
        trim(input) == head + rest,
        !any_contained(trim(lowercase(input)), greeting_words()),
        !any_contained(trim(lowercase(input)), goodbye_words()),
        !any_contained(trim(lowercase(input)), status_words()),
        !any_contained(trim(lowercase(input)), hard_task_words()),
    ensures
        intent_of(input) is BlockerResolved,
{
    let t = trim(input);
    assert(t.take(head.len() as int) =~= head);
    lemma_resolution_found(t, resolution_prefixes(), 0, k);
}

fn matches_any_chars(text: &[char], patterns: &[&str]) -> (r: bool)
    ensures
        r == any_contained(text@, texts(patterns@)),
{
    let mut k: usize = 0;
    while k < patterns.len()
        invariant
            0 <= k <= patterns.len(),
            forall|j: int| 0 <= j < k ==> !contains_seq(text@, #[trigger] texts(patterns@)[j]),
        decreases patterns.len() - k,
    {
        let p = chars_of(patterns[k]);
        if contains_exec(text, p.as_slice()) {
            assert(contains_seq(text@, texts(patterns@)[k as int]));
            return true;
        }
        k = k + 1;
    }
    false
}

fn resolution_chars(text: &[char]) -> (r: Option<Vec<char>>)
    ensures
        r matches Some(v) ==> resolution_from(text@, resolution_prefixes(), 0) == Some(v@),
        r is None ==> resolution_from(text@, resolution_prefixes(), 0) is None,
{
    let prefixes: [&str; 12] = [
        "już zrobiłem ", "juz zrobilem ", "już jest ", "juz jest ", "już odpowiedziałem ",
        "juz odpowiedzialem ", "zdecydowałem że ", "zdecydowalem ze ", "wybrałem ", "wybralem ",
        "zrobiłem to ", "zrobilem to ",
    ];
    assert(texts(prefixes@) =~= resolution_prefixes());
    let ghost ps = resolution_prefixes();
    let mut k: usize = 0;
    while k < 12
        invariant
            0 <= k <= 12,
            ps == resolution_prefixes(),
            texts(prefixes@) == ps,
            resolution_from(text@, ps, 0) == resolution_from(text@, ps, k as int),
        decreases 12 - k,
    {
        let p = chars_of(prefixes[k]);
        assert(p@ == ps[k as int]);
        if starts_with_exec(text, p.as_slice()) && text.len() > p.len() {
            let rest = slice_chars(text, p.len(), text.len());
            return Some(rest);
        }
        k = k + 1;
    }
    None
}

fn resolution_chars_in_case(text: &[char]) -> (r: Option<Vec<char>>)
    ensures
        r matches Some(v) ==> resolution_in_case(text@, resolution_prefixes(), 0) == Some(v@),
        r is None ==> resolution_in_case(text@, resolution_prefixes(), 0) is None,
{
    let prefixes: [&str; 12] = [
        "już zrobiłem ", "juz zrobilem ", "już jest ", "juz jest ", "już odpowiedziałem ",
        "juz odpowiedzialem ", "zdecydowałem że ", "zdecydowalem ze ", "wybrałem ", "wybralem ",
        "zrobiłem to ", "zrobilem to ",
    ];
    assert(texts(prefixes@) =~= resolution_prefixes());
    let ghost ps = resolution_prefixes();
    let mut k: usize = 0;
    while k < 12
        invariant
            0 <= k <= 12,
            ps == resolution_prefixes(),
            texts(prefixes@) == ps,
            resolution_in_case(text@, ps, 0) == resolution_in_case(text@, ps, k as int),
        decreases 12 - k,
    {
        let p = chars_of(prefixes[k]);
        assert(p@ == ps[k as int]);
        if text.len() > p.len() {
            let head = slice_chars(text, 0, p.len());
            let hs = string_of(head.as_slice());
            let lower = to_lowercase(hs.as_str());
            let lc = chars_of(lower.as_str());
            assert(head@ == text@.take(p.len() as int));
            if eq_chars(lc.as_slice(), p.as_slice()) {
                let rest = slice_chars(text, p.len(), text.len());
                assert(rest@ =~= text@.skip(p.len() as int));
                return Some(rest);
            }
        }
        k = k + 1;
    }
    None
}

/// Processes conversation with the user.
pub struct ConversationProcessor;

impl ConversationProcessor {
    /// The intent of a user's message.
    pub fn detect_intent(input: &str) -> (r: ConversationIntent)
        ensures
            r@ == intent_of(input@),
    {
        let lower = to_lowercase(input);
        let lc = chars_of(lower.as_str());
        let t = trim_exec(lc.as_slice());
        let greetings: [&str; 14] = [
            "hej", "cześć", "czesc", "siema", "siemka", "elo", "witam", "dzień dobry",
            "dzien dobry", "yo", "hejka", "hi", "hello", "hejo",
        ];
        assert(texts(greetings@) =~= greeting_words());
        if matches_any_chars(t.as_slice(), &greetings) {
            return ConversationIntent::Greeting;
        }
        let goodbyes: [&str; 14] = [
            "pa", "nara", "dozo", "cześć!", "czesc!", "do widzenia", "do zobaczenia", "do jutra",
            "pa pa", "narazie", "na razie", "spadam", "lecę", "lecę na razie",
        ];
        assert(texts(goodbyes@) =~= goodbye_words());
        if matches_any_chars(t.as_slice(), &goodbyes) {
            return ConversationIntent::Goodbye;
        }
        let statuses: [&str; 12] = [
            "co robisz", "jak leci", "jak tam", "jak się masz", "jak sie masz", "co słychać",
            "co slychac", "co u ciebie", "jak idzie", "jaki status", "co nowego", "how are you",
        ];
        assert(texts(statuses@) =~= status_words());
        if matches_any_chars(t.as_slice(), &statuses) {
            return ConversationIntent::StatusQuery;
        }
        let hard: [&str; 11] = [
            "trudne zadanie", "dałem radę", "dalem rade", "udało się", "udalo sie",
            "to było trudne", "bylo trudne", "ale dałem", "w końcu!", "w koncu!", "hard task",
        ];
        assert(texts(hard@) =~= hard_task_words());
        if matches_any_chars(t.as_slice(), &hard) {
            return ConversationIntent::HardTaskCompleted;
        }
        let original = chars_of(input);
        let u = trim_exec(original.as_slice());
        match resolution_chars_in_case(u.as_slice()) {
            Some(rest) => {
                return ConversationIntent::BlockerResolved(string_of(rest.as_slice()));
            },
            None => {},
        }
        let done: [&str; 16] = [
            "zrobione", "gotowe", "skończone", "skonczone", "zrobione!", "gotowe!", "ukończone",
            "ukonczone", "done", "finished", "odhaczone", "zaliczone", "zrobilem", "zrobiłem",
            "ukończyłem", "ukonczylem",
        ];
        assert(texts(done@) =~= task_words());
        if matches_any_chars(t.as_slice(), &done) {
            ConversationIntent::TaskCompleted
        } else {
            ConversationIntent::General(input.to_string())
        }
    }

    /// Does some pattern occur in `text`?
    pub fn matches_any(text: &str, patterns: &[&str]) -> (r: bool)
        ensures
            r == any_contained(text@, texts(patterns@)),
    {
        let t = chars_of(text);
        matches_any_chars(t.as_slice(), patterns)
    }

    /// What follows a resolution prefix at the start of `text` (such as
    /// "już zrobiłem "), where something follows it.
    pub fn detect_blocker_resolution(text: &str) -> (r: Option<String>)
        ensures
            r matches Some(s) ==> resolution_from(text@, resolution_prefixes(), 0) == Some(s@),
            r is None ==> resolution_from(text@, resolution_prefixes(), 0) is None,
    {
        let t = chars_of(text);
        match resolution_chars(t.as_slice()) {
            Some(rest) => Some(string_of(rest.as_slice())),
            None => None,
        }
    }

    /// A greeting phrase picked from a clock-seeded hash.
    pub fn greeting_phrase() -> (r: &'static str)
        ensures
            greeting_phrases().contains(r@),
    {
        let phrases: [&str; 5] = [
            "Hej! Co tam?", "Siema! Jak leci?", "Cześć! Co robimy?", "Hejo! Gotowy do działania?",
            "Siemka! Co dziś ogarniamy?",
        ];
        let i = Self::hash_mod(5);
        let r = phrases[i];
        assert(texts(phrases@) =~= greeting_phrases());
        assert(greeting_phrases()[i as int] == r@);
        r
    }

    /// A clock-seeded pseudo-random index below `modulus`.
    pub fn hash_mod(modulus: usize) -> (r: usize)
        requires
            modulus > 0,
        ensures
            r < modulus,
    {
        Self::hash_index(time_hash(), modulus)
    }

    /// The index below `modulus` that the hash `h` picks: `h` modulo
    /// `modulus`.
    pub fn hash_index(h: u64, modulus: usize) -> (r: usize)
        requires
            modulus > 0,
        ensures
            r == h % (modulus as u64),
            r < modulus,
    {
        (h % (modulus as u64)) as usize
    }
}

/// The greeting phrases Buddy picks from.
pub open spec fn greeting_phrases() -> Seq<Seq<char>> {
    seq!["Hej! Co tam?"@, "Siema! Jak leci?"@, "Cześć! Co robimy?"@, "Hejo! Gotowy do działania?"@,
        "Siemka! Co dziś ogarniamy?"@]
}

/// The phrases Buddy acknowledges a completed task with.
pub open spec fn done_phrases() -> Seq<Seq<char>> {
    seq!["Spoko, odhaczone! Co dalej?"@, "Git! Lecimy z następnym?"@, "No i pięknie. Kolejne z głowy!"@,
        "Zrobione! Tempo niezłe."@]
}

/// The phrases Buddy says goodbye with when nothing is pending.
pub open spec fn goodbye_phrases() -> Seq<Seq<char>> {
    seq!["Nara! Wracaj szybko."@, "Pa! Nie każ mi czekać."@, "Dozo! Będę tu."@, "Na razie! Trzymaj się."@]
}

/// The phrases Buddy answers a general message with when nothing is pending.
pub open spec fn general_phrases() -> Seq<Seq<char>> {
    seq!["Okej, rozumiem."@, "No dobra."@, "Jasne."@, "Rozumiem, lecimy dalej."@]
}

/// A short summary of the blockers: nothing without blockers, the one
/// blocker with its emoji, or their number and the oldest one.
pub open spec fn blocker_summary_text(s: BuddyState) -> Seq<char> {
    let bs = s.blockers@;
    if bs.len() == 0 {
        Seq::empty()
    } else if bs.len() == 1 {
        severity_emoji(bs[0].severity) + " blokada: \""@ + bs[0].what@ + "\""@
    } else {
        decimal(bs.len()) + " aktywnych blokad. Najpilniejsza: \""@ + bs[0].what@ + "\""@
    }
}

/// `s` needs the user's attention.
pub open spec fn needs_attention_of(s: BuddyState) -> bool {
    attention(s.emotion) || urgent_blocker(s.blockers@)
}

/// `r` is a greeting Buddy in state `s` may answer with.
pub open spec fn greeting_reply(s: BuddyState, r: Seq<char>) -> bool {
    exists|p: Seq<char>| #[trigger] greeting_phrases().contains(p) && r == emotion_emoji(s.emotion) + " "@ + p + if needs_attention_of(s) {
        "\n"@ + s.personality.name@ + " — czekaj, mamy nierozwiązane sprawy. "@ + blocker_summary_text(s)
    } else {
        Seq::empty()
    }
}

/// Buddy's answer to a status query in state `s`.
pub open spec fn status_reply(s: BuddyState) -> Seq<char> {
    emotion_emoji(s.emotion) + " "@ + emotion_text(s.emotion) + if s.blockers@.len() > 0 {
        "\nCzekam na "@ + decimal(s.blockers@.len()) + " decyzji — "@ + blocker_summary_text(s)
    } else if s.tasks_completed > 0 {
        "\nNa razie "@ + decimal(s.tasks_completed as nat) + " zadań ogarnięte. Lecimy dalej?"@
    } else {
        "\nNa razie cisza. Co robimy?"@
    }
}

/// `r` is what Buddy, now in state `s`, may say after a completed task.
pub open spec fn task_reply(s: BuddyState, hard: bool, r: Seq<char>) -> bool {
    if hard {
        r == emotion_emoji(s.emotion) + " No nieźle! Trudne zadanie zaliczone. Jesteś w formie! 💪"@
    } else {
        exists|p: Seq<char>| #[trigger] done_phrases().contains(p) && r == emotion_emoji(s.emotion) + " "@ + p
    }
}

/// `r` is what Buddy in state `s` may say goodbye with: a reminder while
/// anything is pending (a blocker, or Buddy needing attention), a farewell
/// phrase otherwise.
pub open spec fn goodbye_reply(s: BuddyState, r: Seq<char>) -> bool {
    if needs_attention_of(s) || s.blockers@.len() > 0 {
        r == "Ej, jeszcze nie skończyliśmy! "@ + blocker_summary_text(s) + ". Ale dobra, wpadaj jak będziesz gotowy."@
    } else {
        goodbye_phrases().contains(r)
    }
}

/// `r` is what Buddy, now in state `s`, may answer a general message with.
pub open spec fn general_reply(s: BuddyState, r: Seq<char>) -> bool {
    if needs_attention_of(s) {
        r == "Hmm, ok. Ale "@ + blocker_summary_text(s)
    } else {
        general_phrases().contains(r)
    }
}

/// `t` is `s` after the situation was recorded.
pub open spec fn after_situation(s: BuddyState, sit: Situation, t: BuddyState) -> bool {
    &&& t.emotion == next_emotion(s.emotion, sit)
    &&& t.tasks_completed == s.tasks_completed + if completes_task(sit) { 1int } else { 0int }
    &&& t.commitments_broken == s.commitments_broken + if sit is CommitmentBroken { 1int } else { 0int }
    &&& t.blockers@ == s.blockers@
    &&& t.personality == s.personality
}

/// The state `t` and answer `r` after the user said a blocker about `what`
/// is resolved in state `s`: the first blocker about it goes and Buddy
/// sees progress; without one, Buddy notes it and lists the blockers.
pub open spec fn resolution_outcome(s: BuddyState, what: Seq<char>, t: BuddyState, r: Seq<char>) -> bool {
    if exists|i: int| first_blocker_about(s.blockers@, what, i) {
        &&& exists|i: int| first_blocker_about(s.blockers@, what, i) && t.blockers@ == s.blockers@.remove(i)
        &&& t.emotion == next_emotion(s.emotion, Situation::ProgressMade)
        &&& t.tasks_completed == s.tasks_completed
        &&& t.commitments_broken == s.commitments_broken
        &&& t.personality == s.personality
        &&& r == emotion_emoji(t.emotion) + " W końcu! Blokada zdjęta: \""@ + what + "\". Co dalej?"@
    } else {
        &&& t == s
        &&& r == emotion_emoji(s.emotion) + " Ok, zanotowane. A propos blokad — "@ + blocker_summary_text(s)
    }
}

fn pick(phrases: &[&'static str]) -> (r: &'static str)
    requires
        phrases@.len() > 0,
    ensures
        exists|i: int| 0 <= i < phrases@.len() && r == phrases@[i],
{
    let i = ConversationProcessor::hash_mod(phrases.len());
    phrases[i]
}

impl ConversationProcessor {
    /// The short summary of Buddy's blockers.
    pub fn blocker_summary(state: &BuddyState) -> (r: String)
        ensures
            r@ == blocker_summary_text(*state),
    {
        let mut r = String::new();
        if state.blockers.len() == 0 {
            return r;
        }
        if state.blockers.len() == 1 {
            let b = &state.blockers[0];
            push_str(&mut r, b.severity.emoji());
            push_str(&mut r, " blokada: \"");
            push_str(&mut r, b.what.as_str());
            push_str(&mut r, "\"");
            return r;
        }
        push_decimal(&mut r, state.blockers.len() as u64);
        push_str(&mut r, " aktywnych blokad. Najpilniejsza: \"");
        push_str(&mut r, state.blockers[0].what.as_str());
        push_str(&mut r, "\"");
        r
    }

    /// Answers a greeting: an emoji and a greeting, and the pending matters
    /// where Buddy needs attention.
    pub fn handle_greeting(state: &BuddyState) -> (r: String)
        ensures
            greeting_reply(*state, r@),
    {
        let mut r = String::new();
        push_str(&mut r, state.emotion.emoji());
        push_str(&mut r, " ");
        let p = Self::greeting_phrase();
        push_str(&mut r, p);
        let ghost base = r@;
        if state.needs_attention() {
            push_str(&mut r, "\n");
            push_str(&mut r, state.personality.name.as_str());
            push_str(&mut r, " — czekaj, mamy nierozwiązane sprawy. ");
            let s = Self::blocker_summary(state);
            push_str(&mut r, s.as_str());
        }
        assert(greeting_phrases().contains(p@));
        assert(r@ =~= emotion_emoji(state.emotion) + " "@ + p@ + if needs_attention_of(*state) {
            "\n"@ + state.personality.name@ + " — czekaj, mamy nierozwiązane sprawy. "@ + blocker_summary_text(*state)
        } else {
            Seq::empty()
        });
        r
    }

    /// Answers a status query.
    pub fn handle_status_query(state: &BuddyState) -> (r: String)
        ensures
            r@ == status_reply(*state),
    {
        let mut r = state.emotion.to_string();
        if state.blockers.len() > 0 {
            push_str(&mut r, "\nCzekam na ");
            push_decimal(&mut r, state.blockers.len() as u64);
            push_str(&mut r, " decyzji — ");
            let s = Self::blocker_summary(state);
            push_str(&mut r, s.as_str());
        } else if state.tasks_completed > 0 {
            push_str(&mut r, "\nNa razie ");
            push_decimal(&mut r, state.tasks_completed as u64);
            push_str(&mut r, " zadań ogarnięte. Lecimy dalej?");
        } else {
            push_str(&mut r, "\nNa razie cisza. Co robimy?");
        }
        assert(r@ =~= status_reply(*state));
        r
    }

    /// Records a completed task (hard or not) and acknowledges it.
    pub fn handle_task_completed(state: &mut BuddyState, hard: bool) -> (r: String)
        requires
            old(state).tasks_completed < u32::MAX,
        ensures
            after_situation(
                *old(state),
                if hard { Situation::HardTaskCompleted } else { Situation::TaskCompleted },
                *final(state),
            ),
            task_reply(*final(state), hard, r@),
    {
        let situation = if hard { Situation::HardTaskCompleted } else { Situation::TaskCompleted };
        state.process_situation(situation);
        let mut r = String::new();
        push_str(&mut r, state.emotion.emoji());
        if hard {
            push_str(&mut r, " No nieźle! Trudne zadanie zaliczone. Jesteś w formie! 💪");
            assert(r@ =~= emotion_emoji(state.emotion) + " No nieźle! Trudne zadanie zaliczone. Jesteś w formie! 💪"@);
        } else {
            push_str(&mut r, " ");
            let phrases: [&'static str; 4] = [
                "Spoko, odhaczone! Co dalej?", "Git! Lecimy z następnym?", "No i pięknie. Kolejne z głowy!",
                "Zrobione! Tempo niezłe.",
            ];
            let p = pick(&phrases);
            push_str(&mut r, p);
            assert(texts(phrases@) =~= done_phrases());
            let ghost i = choose|i: int| 0 <= i < phrases@.len() && p == phrases@[i];
            assert(done_phrases()[i] == p@);
            assert(done_phrases().contains(p@));
            assert(r@ =~= emotion_emoji(state.emotion) + " "@ + p@);
        }
        r
    }

    /// Removes the blocker the user resolved and answers.
    pub fn handle_blocker_resolved(state: &mut BuddyState, what: &str) -> (r: String)
        ensures
            resolution_outcome(*old(state), what@, *final(state), r@),
    {
        let removed = state.remove_blocker(what);
        let mut r = String::new();
        if removed {
            state.process_situation(Situation::ProgressMade);
            push_str(&mut r, state.emotion.emoji());
            push_str(&mut r, " W końcu! Blokada zdjęta: \"");
            push_str(&mut r, what);
            push_str(&mut r, "\". Co dalej?");
            assert(r@ =~= emotion_emoji(state.emotion) + " W końcu! Blokada zdjęta: \""@ + what@ + "\". Co dalej?"@);
        } else {
            push_str(&mut r, state.emotion.emoji());
            push_str(&mut r, " Ok, zanotowane. A propos blokad — ");
            let s = Self::blocker_summary(state);
            push_str(&mut r, s.as_str());
            assert(!exists|i: int| first_blocker_about(old(state).blockers@, what@, i));
            assert(r@ =~= emotion_emoji(state.emotion) + " Ok, zanotowane. A propos blokad — "@ + blocker_summary_text(*state));
        }
        r
    }

    /// Says goodbye, or reminds of the pending matters.
    pub fn handle_goodbye(state: &BuddyState) -> (r: String)
        ensures
            goodbye_reply(*state, r@),
    {
        if state.needs_attention() || state.blockers.len() > 0 {
            let mut r = String::new();
            push_str(&mut r, "Ej, jeszcze nie skończyliśmy! ");
            let s = Self::blocker_summary(state);
            push_str(&mut r, s.as_str());
            push_str(&mut r, ". Ale dobra, wpadaj jak będziesz gotowy.");
            r
        } else {
            let phrases: [&'static str; 4] = [
                "Nara! Wracaj szybko.", "Pa! Nie każ mi czekać.", "Dozo! Będę tu.", "Na razie! Trzymaj się.",
            ];
            let p = pick(&phrases);
            assert(texts(phrases@) =~= goodbye_phrases());
            let ghost i = choose|i: int| 0 <= i < phrases@.len() && p == phrases@[i];
            assert(goodbye_phrases()[i] == p@);
            p.to_owned()
        }
    }

    /// Records that the user is engaged and answers a general message.
    pub fn handle_general(state: &mut BuddyState, msg: &str) -> (r: String)
        ensures
            after_situation(*old(state), Situation::UserEngaged, *final(state)),
            general_reply(*final(state), r@),
    {
        state.process_situation(Situation::UserEngaged);
        if state.needs_attention() {
            let mut r = String::new();
            push_str(&mut r, "Hmm, ok. Ale ");
            let s = Self::blocker_summary(state);
            push_str(&mut r, s.as_str());
            r
        } else {
            let phrases: [&'static str; 4] = ["Okej, rozumiem.", "No dobra.", "Jasne.", "Rozumiem, lecimy dalej."];
            let p = pick(&phrases);
            assert(texts(phrases@) =~= general_phrases());
            let ghost i = choose|i: int| 0 <= i < phrases@.len() && p == phrases@[i];
            assert(general_phrases()[i] == p@);
            p.to_owned()
        }
    }

    /// Answers a user's message according to its intent, updating Buddy.
    pub fn process(state: &mut BuddyState, input: &str) -> (r: String)
        requires
            (intent_of(input@) is TaskCompleted || intent_of(input@) is HardTaskCompleted)
                ==> old(state).tasks_completed < u32::MAX,
        ensures
            match intent_of(input@) {
                IntentView::Greeting => *final(state) == *old(state) && greeting_reply(*old(state), r@),
                IntentView::StatusQuery => *final(state) == *old(state) && r@ == status_reply(*old(state)),
                IntentView::TaskCompleted => after_situation(*old(state), Situation::TaskCompleted, *final(state))
                    && task_reply(*final(state), false, r@),
                IntentView::HardTaskCompleted => after_situation(
                    *old(state),
                    Situation::HardTaskCompleted,
                    *final(state),
                ) && task_reply(*final(state), true, r@),
                IntentView::BlockerResolved(what) => resolution_outcome(*old(state), what, *final(state), r@),
                IntentView::Goodbye => *final(state) == *old(state) && goodbye_reply(*old(state), r@),
                IntentView::General(_) => after_situation(*old(state), Situation::UserEngaged, *final(state))
                    && general_reply(*final(state), r@),
            },
    {
        let intent = Self::detect_intent(input);
        match intent {
            ConversationIntent::Greeting => Self::handle_greeting(state),
            ConversationIntent::StatusQuery => Self::handle_status_query(state),
            ConversationIntent::TaskCompleted => Self::handle_task_completed(state, false),
            ConversationIntent::HardTaskCompleted => Self::handle_task_completed(state, true),
            ConversationIntent::BlockerResolved(what) => Self::handle_blocker_resolved(state, what.as_str()),
            ConversationIntent::Goodbye => Self::handle_goodbye(state),
            ConversationIntent::General(msg) => Self::handle_general(state, msg.as_str()),
        }
    }
}

/// Adding a blocker about something no blocker is about, then resolving
/// it, leaves the blockers as they were.
pub proof fn lemma_add_then_remove(bs: Seq<crate::buddy::blocker::Blocker>, b: crate::buddy::blocker::Blocker)
    requires
        forall|i: int| 0 <= i < bs.len() ==> (#[trigger] bs[i]).what@ != b.what@,
    ensures
        first_blocker_about(bs.push(b), b.what@, bs.len() as int),
        bs.push(b).remove(bs.len() as int) == bs,
{
    let p = bs.push(b);
    assert forall|j: int| 0 <= j < bs.len() implies (#[trigger] p[j]).what@ != b.what@ by {
        assert(p[j] == bs[j]);
    }
    assert(p.remove(bs.len() as int) =~= bs);
}

} // verus!

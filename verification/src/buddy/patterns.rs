//! Classifying user input for pattern analysis of conversation logs.
use vstd::prelude::*;
use crate::buddy::conversation::any_contained;
use crate::buddy::logger::{ConversationOutcome, ConversationTurn};
use crate::text::{chars_of, contains_exec, contains_seq, lowercase, to_lowercase};

verus! {

/// The category of a lowercased input: the first of morning planning,
/// task completion, help request and status query whose words it contains,
/// or `general`.
pub open spec fn category_of_lower(l: Seq<char>) -> Seq<char> {
    if contains_seq(l, "co dziś"@) || contains_seq(l, "co robimy"@) || contains_seq(l, "plan"@)
        || contains_seq(l, "hej"@) || contains_seq(l, "cześć"@) {
        "morning_planning"@
    } else if contains_seq(l, "zrobiłem"@) || contains_seq(l, "done"@) || contains_seq(l, "gotowe"@)
        || contains_seq(l, "skończone"@) || contains_seq(l, "zrobione"@) {
        "task_completion"@
    } else if contains_seq(l, "pomocy"@) || contains_seq(l, "help"@) || contains_seq(l, "nie wiem"@)
        || contains_seq(l, "stuck"@) || contains_seq(l, "utknąłem"@) {
        "help_request"@
    } else if contains_seq(l, "jak leci"@) || contains_seq(l, "jak tam"@) || contains_seq(l, "co słychać"@)
        || contains_seq(l, "status"@) {
        "status_query"@
    } else {
        "general"@
    }
}

proof fn lemma_any_of_four(l: Seq<char>, a: Seq<char>, b: Seq<char>, c: Seq<char>, d: Seq<char>)
    ensures
        any_contained(l, seq![a, b, c, d]) == (contains_seq(l, a) || contains_seq(l, b) || contains_seq(l, c)
            || contains_seq(l, d)),
{
    let ws = seq![a, b, c, d];
    assert(ws[0] == a && ws[1] == b && ws[2] == c && ws[3] == d);
}

proof fn lemma_any_of_five(l: Seq<char>, a: Seq<char>, b: Seq<char>, c: Seq<char>, d: Seq<char>, e: Seq<char>)
    ensures
        any_contained(l, seq![a, b, c, d, e]) == (contains_seq(l, a) || contains_seq(l, b) || contains_seq(l, c)
            || contains_seq(l, d) || contains_seq(l, e)),
{
    let ws = seq![a, b, c, d, e];
    assert(ws[0] == a && ws[1] == b && ws[2] == c && ws[3] == d && ws[4] == e);
}

/// An input falls in the first category, in the order morning planning,
/// task completion, help request, status query, whose words its lowercase
/// form contains; with none of them it is general.
pub proof fn lemma_classified_by_first_match(l: Seq<char>)
    ensures
        ({
            let planning = any_contained(l, seq!["co dziś"@, "co robimy"@, "plan"@, "hej"@, "cześć"@]);
            let completion = any_contained(l, seq!["zrobiłem"@, "done"@, "gotowe"@, "skończone"@, "zrobione"@]);
            let help = any_contained(l, seq!["pomocy"@, "help"@, "nie wiem"@, "stuck"@, "utknąłem"@]);
            let status = any_contained(l, seq!["jak leci"@, "jak tam"@, "co słychać"@, "status"@]);
            &&& planning ==> category_of_lower(l) == "morning_planning"@
            &&& !planning && completion ==> category_of_lower(l) == "task_completion"@
            &&& !planning && !completion && help ==> category_of_lower(l) == "help_request"@
            &&& !planning && !completion && !help && status ==> category_of_lower(l) == "status_query"@
            &&& !planning && !completion && !help && !status ==> category_of_lower(l) == "general"@
        }),
{
    lemma_any_of_five(l, "co dziś"@, "co robimy"@, "plan"@, "hej"@, "cześć"@);
    lemma_any_of_five(l, "zrobiłem"@, "done"@, "gotowe"@, "skończone"@, "zrobione"@);
    lemma_any_of_five(l, "pomocy"@, "help"@, "nie wiem"@, "stuck"@, "utknąłem"@);
    lemma_any_of_four(l, "jak leci"@, "jak tam"@, "co słychać"@, "status"@);
}

/// Outcomes that count as success.
pub open spec fn successful(o: ConversationOutcome) -> bool {
    o is Completed || o is Continued
}

fn has(l: &Vec<char>, word: &str) -> (r: bool)
    ensures
        r == contains_seq(l@, word@),
{
    let w = chars_of(word);
    contains_exec(l.as_slice(), w.as_slice())
}

/// Extracts patterns from conversation turns.
pub struct PatternExtractor;

impl PatternExtractor {
    /// The category of a user input, matched on its lowercase form.
    pub fn classify_input(input: &str) -> (r: &'static str)
        ensures
            r@ == category_of_lower(lowercase(input@)),
    {
        let lower = to_lowercase(input);
        let l = chars_of(lower.as_str());
        if has(&l, "co dziś") || has(&l, "co robimy") || has(&l, "plan") || has(&l, "hej") || has(&l, "cześć") {
            "morning_planning"
        } else if has(&l, "zrobiłem") || has(&l, "done") || has(&l, "gotowe") || has(&l, "skończone")
            || has(&l, "zrobione") {
            "task_completion"
        } else if has(&l, "pomocy") || has(&l, "help") || has(&l, "nie wiem") || has(&l, "stuck")
            || has(&l, "utknąłem") {
            "help_request"
        } else if has(&l, "jak leci") || has(&l, "jak tam") || has(&l, "co słychać") || has(&l, "status") {
            "status_query"
        } else {
            "general"
        }
    }

    /// Does the outcome count as success?
    pub fn is_success(outcome: &ConversationOutcome) -> (r: bool)
        ensures
            r == successful(*outcome),
    {
        match outcome {
            ConversationOutcome::Completed | ConversationOutcome::Continued => true,
            _ => false,
        }
    }
}

/// The category of a turn: that of its input.
pub open spec fn turn_category(t: ConversationTurn) -> Seq<char> {
    category_of_lower(lowercase(t.user_input@))
}

/// The categories, in the order the analysis takes them.
pub open spec fn categories() -> Seq<Seq<char>> {
    seq!["morning_planning"@, "task_completion"@, "help_request"@, "status_query"@, "general"@]
}

/// How many turns fall in category `c`.
pub open spec fn count_in(turns: Seq<ConversationTurn>, c: Seq<char>) -> nat
    decreases turns.len(),
{
    if turns.len() == 0 {
        0
    } else {
        count_in(turns.drop_last(), c) + if turn_category(turns.last()) == c { 1nat } else { 0nat }
    }
}

/// How many turns of category `c` succeeded.
pub open spec fn successes_in(turns: Seq<ConversationTurn>, c: Seq<char>) -> nat
    decreases turns.len(),
{
    if turns.len() == 0 {
        0
    } else {
        successes_in(turns.drop_last(), c) + if turn_category(turns.last()) == c && successful(
            turns.last().outcome,
        ) {
            1nat
        } else {
            0nat
        }
    }
}

/// Buddy's response in the last turn of category `c`; empty where there is
/// none.
pub open spec fn last_response_in(turns: Seq<ConversationTurn>, c: Seq<char>) -> Seq<char>
    decreases turns.len(),
{
    if turns.len() == 0 {
        Seq::empty()
    } else if turn_category(turns.last()) == c {
        turns.last().buddy_response@
    } else {
        last_response_in(turns.drop_last(), c)
    }
}

/// Only the categories have turns.
pub proof fn lemma_counted_is_category(turns: Seq<ConversationTurn>, c: Seq<char>)
    requires
        count_in(turns, c) > 0,
    ensures
        categories().contains(c),
    decreases turns.len(),
{
    if turn_category(turns.last()) == c {
        let l = lowercase(turns.last().user_input@);
        assert(categories()[0] == "morning_planning"@);
        assert(categories()[1] == "task_completion"@);
        assert(categories()[2] == "help_request"@);
        assert(categories()[3] == "status_query"@);
        assert(categories()[4] == "general"@);
    } else {
        lemma_counted_is_category(turns.drop_last(), c);
    }
}

/// A pattern found in the conversations: a category of input, Buddy's last
/// response to it, and how often it came up and succeeded. Its success rate
/// is `successes / count`.
#[derive(Debug, Clone, PartialEq, Eq)]
pub struct Pattern {
    /// The input category.
    pub trigger: String,
    /// What Buddy said the last time.
    pub response: String,
    /// How many of the turns succeeded.
    pub successes: usize,
    /// How many turns there were.
    pub count: usize,
}

/// `p` is what the turns show of its category, which came up.
pub open spec fn tallies(p: Pattern, turns: Seq<ConversationTurn>) -> bool {
    &&& p.count > 0
    &&& p.count == count_in(turns, p.trigger@)
    &&& p.successes == successes_in(turns, p.trigger@)
    &&& p.response@ == last_response_in(turns, p.trigger@)
}

/// The analysis so far, with the categories in `done` taken: every pattern
/// is right and of one of them, patterns are by count, most first, with no
/// category twice, and every category of `done` that came up has its
/// pattern.
pub open spec fn analysis_so_far(r: Seq<Pattern>, turns: Seq<ConversationTurn>, done: Seq<Seq<char>>) -> bool {
    &&& forall|i: int| 0 <= i < r.len() ==> tallies(#[trigger] r[i], turns) && done.contains(r[i].trigger@)
    &&& forall|i: int, j: int| 0 <= i < j < r.len() ==> (#[trigger] r[i]).count >= (#[trigger] r[j]).count
        && r[i].trigger@ != r[j].trigger@
    &&& forall|c: Seq<char>| #[trigger] done.contains(c) && count_in(turns, c) > 0 ==> exists|i: int|
        0 <= i < r.len() && (#[trigger] r[i]).trigger@ == c
}

proof fn lemma_push_keeps(s: Seq<Seq<char>>, x: Seq<char>, y: Seq<char>)
    requires
        s.contains(y),
    ensures
        s.push(x).contains(y),
{
    let k = choose|k: int| 0 <= k < s.len() && s[k] == y;
    assert(s.push(x)[k] == y);
}

fn tally_category(turns: &Vec<ConversationTurn>, cats: &Vec<&'static str>, name: &'static str) -> (r: (usize, usize, String))
    requires
        cats@.len() == turns@.len(),
        forall|i: int| 0 <= i < cats@.len() ==> (#[trigger] cats@[i])@ == turn_category(turns@[i]),
    ensures
        r.0 == count_in(turns@, name@),
        r.1 == successes_in(turns@, name@),
        r.2@ == last_response_in(turns@, name@),
{
    let mut count: usize = 0;
    let mut successes: usize = 0;
    let mut response = String::new();
    let mut i: usize = 0;
    while i < turns.len()
        invariant
            i <= turns@.len(),
            cats@.len() == turns@.len(),
            forall|k: int| 0 <= k < cats@.len() ==> (#[trigger] cats@[k])@ == turn_category(turns@[k]),
            count == count_in(turns@.take(i as int), name@),
            successes == successes_in(turns@.take(i as int), name@),
            response@ == last_response_in(turns@.take(i as int), name@),
            count <= i,
            successes <= count,
        decreases turns.len() - i,
    {
        assert(turns@.take(i + 1).drop_last() =~= turns@.take(i as int));
        assert(turns@.take(i + 1).last() == turns@[i as int]);
        if crate::tui::subsystems::eq_str(cats[i], name) {
            count += 1;
            if PatternExtractor::is_success(&turns[i].outcome) {
                successes += 1;
            }
            response = turns[i].buddy_response.clone();
        }
        i += 1;
    }
    assert(turns@.take(turns@.len() as int) =~= turns@);
    (count, successes, response)
}

fn add_category(
    r: &mut Vec<Pattern>,
    turns: &Vec<ConversationTurn>,
    cats: &Vec<&'static str>,
    name: &'static str,
    Ghost(done): Ghost<Seq<Seq<char>>>,
)
    requires
        cats@.len() == turns@.len(),
        forall|i: int| 0 <= i < cats@.len() ==> (#[trigger] cats@[i])@ == turn_category(turns@[i]),
        analysis_so_far(old(r)@, turns@, done),
        !done.contains(name@),
    ensures
        analysis_so_far(final(r)@, turns@, done.push(name@)),
{
    let (count, successes, response) = tally_category(turns, cats, name);
    let ghost d2 = done.push(name@);
    if count == 0 {
        assert forall|c: Seq<char>| #[trigger] d2.contains(c) && count_in(turns@, c) > 0 implies exists|i: int|
            0 <= i < r@.len() && (#[trigger] r@[i]).trigger@ == c by {
            if c != name@ {
                assert(done.contains(c));
            }
        }
        assert forall|i: int| 0 <= i < r@.len() implies tallies(#[trigger] r@[i], turns@) && d2.contains(r@[i].trigger@) by {
            assert(done.contains(r@[i].trigger@));
            lemma_push_keeps(done, name@, r@[i].trigger@);
        }
        return;
    }
    let mut j: usize = 0;
    while j < r.len() && r[j].count >= count
        invariant
            j <= r@.len(),
            forall|k: int| 0 <= k < j ==> (#[trigger] r@[k]).count >= count,
        decreases r.len() - j,
    {
        j += 1;
    }
    let ghost old_r = r@;
    let p = Pattern { trigger: name.to_owned(), response, successes, count };
    r.insert(j, p);
    proof {
        assert(r@ == old_r.insert(j as int, p));
        assert forall|i: int| 0 <= i < r@.len() implies tallies(#[trigger] r@[i], turns@) && d2.contains(r@[i].trigger@) by {
            if i < j {
                assert(r@[i] == old_r[i]);
                assert(done.contains(old_r[i].trigger@));
                lemma_push_keeps(done, name@, r@[i].trigger@);
            } else if i > j {
                assert(r@[i] == old_r[i - 1]);
                assert(done.contains(old_r[i - 1].trigger@));
                lemma_push_keeps(done, name@, r@[i].trigger@);
            } else {
                assert(d2[done.len() as int] == name@);
            }
        }
        assert forall|a: int, b: int| 0 <= a < b < r@.len() implies (#[trigger] r@[a]).count >= (#[trigger] r@[b]).count
            && r@[a].trigger@ != r@[b].trigger@ by {
            if b < j {
                assert(r@[a] == old_r[a] && r@[b] == old_r[b]);
            } else if b == j {
                assert(r@[a] == old_r[a]);
                assert(done.contains(old_r[a].trigger@));
            } else if a < j {
                assert(r@[a] == old_r[a] && r@[b] == old_r[b - 1]);
            } else if a == j {
                assert(r@[b] == old_r[b - 1]);
                assert(done.contains(old_r[b - 1].trigger@));
                if j < old_r.len() {
                    assert(old_r[j as int].count < count);
                    if b - 1 > j {
                        assert(old_r[j as int].count >= old_r[b - 1].count);
                    }
                }
            } else {
                assert(r@[a] == old_r[a - 1] && r@[b] == old_r[b - 1]);
            }
        }
        assert forall|c: Seq<char>| #[trigger] d2.contains(c) && count_in(turns@, c) > 0 implies exists|i: int|
            0 <= i < r@.len() && (#[trigger] r@[i]).trigger@ == c by {
            if c == name@ {
                assert(r@[j as int].trigger@ == c);
            } else {
                assert(done.contains(c));
                let k = choose|k: int| 0 <= k < old_r.len() && (#[trigger] old_r[k]).trigger@ == c;
                if k < j {
                    assert(r@[k] == old_r[k]);
                } else {
                    assert(r@[k + 1] == old_r[k]);
                }
            }
        }
    }
}

impl PatternExtractor {
    /// The patterns of the conversation `turns`, one per category that came
    /// up, by count, most first (categories with equal counts in the order
    /// morning planning, task completion, help request, status query,
    /// general).
    pub fn analyze(turns: &Vec<ConversationTurn>) -> (r: Vec<Pattern>)
        ensures
            forall|i: int| 0 <= i < r@.len() ==> tallies(#[trigger] r@[i], turns@),
            forall|i: int, j: int| 0 <= i < j < r@.len() ==> (#[trigger] r@[i]).count >= (#[trigger] r@[j]).count
                && r@[i].trigger@ != r@[j].trigger@,
            forall|c: Seq<char>| count_in(turns@, c) > 0 ==> exists|i: int| 0 <= i < r@.len() && (#[trigger] r@[i]).trigger@ == c,
    {
        let mut cats: Vec<&'static str> = Vec::new();
        let mut i: usize = 0;
        while i < turns.len()
            invariant
                i <= turns@.len(),
                cats@.len() == i,
                forall|k: int| 0 <= k < i ==> (#[trigger] cats@[k])@ == turn_category(turns@[k]),
            decreases turns.len() - i,
        {
            cats.push(Self::classify_input(turns[i].user_input.as_str()));
            i += 1;
        }
        proof {
            reveal_strlit("morning_planning");
            reveal_strlit("task_completion");
            reveal_strlit("help_request");
            reveal_strlit("status_query");
            reveal_strlit("general");
        }
        let mut r: Vec<Pattern> = Vec::new();
        let ghost d0: Seq<Seq<char>> = Seq::empty();
        add_category(&mut r, turns, &cats, "morning_planning", Ghost(d0));
        let ghost d1 = d0.push("morning_planning"@);
        assert(!d1.contains("task_completion"@)) by {
            assert(d1[0][0] != "task_completion"@[0]);
        }
        add_category(&mut r, turns, &cats, "task_completion", Ghost(d1));
        let ghost d2 = d1.push("task_completion"@);
        assert(!d2.contains("help_request"@)) by {
            assert(d2[0][0] != "help_request"@[0]);
            assert(d2[1][0] != "help_request"@[0]);
        }
        add_category(&mut r, turns, &cats, "help_request", Ghost(d2));
        let ghost d3 = d2.push("help_request"@);
        assert(!d3.contains("status_query"@)) by {
            assert(d3[0][0] != "status_query"@[0]);
            assert(d3[1][0] != "status_query"@[0]);
            assert(d3[2][0] != "status_query"@[0]);
        }
        add_category(&mut r, turns, &cats, "status_query", Ghost(d3));
        let ghost d4 = d3.push("status_query"@);
        assert(!d4.contains("general"@)) by {
            assert(d4[0][0] != "general"@[0]);
            assert(d4[1][0] != "general"@[0]);
            assert(d4[2][0] != "general"@[0]);
            assert(d4[3][0] != "general"@[0]);
        }
        add_category(&mut r, turns, &cats, "general", Ghost(d4));
        let ghost d5 = d4.push("general"@);
        assert(d5 =~= categories());
        proof {
            assert forall|c: Seq<char>| count_in(turns@, c) > 0 implies exists|i: int| 0 <= i < r@.len() && (#[trigger] r@[i]).trigger@ == c by {
                lemma_counted_is_category(turns@, c);
            }
        }
        r
    }
}

/// Every turn falls in exactly one category, and no more turns of a
/// category succeed than there are: the counts of the categories add up to
/// the number of turns.
pub proof fn lemma_categories_partition(turns: Seq<ConversationTurn>)
    ensures
        count_in(turns, categories()[0]) + count_in(turns, categories()[1]) + count_in(turns, categories()[2])
            + count_in(turns, categories()[3]) + count_in(turns, categories()[4]) == turns.len(),
        forall|c: Seq<char>| #[trigger] successes_in(turns, c) <= count_in(turns, c),
    decreases turns.len(),
{
    if turns.len() > 0 {
        let t = turns.drop_last();
        lemma_categories_partition(t);
        reveal_strlit("morning_planning");
        reveal_strlit("task_completion");
        reveal_strlit("help_request");
        reveal_strlit("status_query");
        reveal_strlit("general");
        let c = turn_category(turns.last());
        assert(categories()[0][0] != categories()[1][0]);
        assert(categories()[0][0] != categories()[2][0]);
        assert(categories()[0][0] != categories()[3][0]);
        assert(categories()[0][0] != categories()[4][0]);
        assert(categories()[1][0] != categories()[2][0]);
        assert(categories()[1][0] != categories()[3][0]);
        assert(categories()[1][0] != categories()[4][0]);
        assert(categories()[2][0] != categories()[3][0]);
        assert(categories()[2][0] != categories()[4][0]);
        assert(categories()[3][0] != categories()[4][0]);
        assert forall|d: Seq<char>| #[trigger] successes_in(turns, d) <= count_in(turns, d) by {
            assert(successes_in(t, d) <= count_in(t, d));
        }
    }
}

} // verus!

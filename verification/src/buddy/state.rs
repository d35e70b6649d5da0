//! Buddy's state: personality, emotion, blockers and session counters.
use vstd::prelude::*;
use crate::buddy::blocker::{blocker_response, severity_after, severity_rank, wrapping_sub, Blocker, BlockerSeverity};
use crate::buddy::emotional_state::{attention, emotion_emoji, emotion_text, next_emotion, EmotionalState};
use crate::buddy::personality::Personality;
use crate::buddy::situation::Situation;
use crate::text::{chars_of, decimal, join, join_exec, push_decimal, push_str, seqs_of};

verus! {

/// Session statistics.
#[derive(Debug, Clone, Copy, PartialEq, Eq)]
pub struct SessionStats {
    /// Tasks completed this session.
    pub tasks_completed: u32,
    /// Commitments broken this session.
    pub commitments_broken: u32,
    /// Active blockers.
    pub active_blockers: usize,
    /// Buddy's current emotion.
    pub current_emotion: EmotionalState,
}

/// Buddy's whole state.
#[derive(Debug, Clone)]
pub struct BuddyState {
    /// Personality (configuration).
    pub personality: Personality,
    /// Current emotional state.
    pub emotion: EmotionalState,
    /// Active blockers, oldest first.
    pub blockers: Vec<Blocker>,
    /// Tasks the user completed this session.
    pub tasks_completed: u32,
    /// Commitments broken this session.
    pub commitments_broken: u32,
}

/// The situation completes a task (easy or hard).
pub open spec fn completes_task(s: Situation) -> bool {
    s is TaskCompleted || s is HardTaskCompleted
}

/// `i` is the first blocker about `what`.
pub open spec fn first_blocker_about(bs: Seq<Blocker>, what: Seq<char>, i: int) -> bool {
    &&& 0 <= i < bs.len()
    &&& bs[i].what@ == what
    &&& forall|j: int| 0 <= j < i ==> (#[trigger] bs[j]).what@ != what
}

/// Some blocker has high or critical severity.
pub open spec fn urgent_blocker(bs: Seq<Blocker>) -> bool {
    exists|i: int| 0 <= i < bs.len() && severity_rank((#[trigger] bs[i]).severity) >= 2
}

/// The lines of Buddy's status response: the emotion, then the blockers
/// (a header and one line each) where there are any, then the progress
/// where some task was completed.
pub open spec fn response_lines(emotion: EmotionalState, bs: Seq<Blocker>, tasks: u32) -> Seq<Seq<char>> {
    let head = seq![emotion_emoji(emotion) + " "@ + emotion_text(emotion)];
    let blocks = if bs.len() > 0 {
        seq!["\nAktywne blokady ("@ + decimal(bs.len()) + "):"@] + Seq::new(
            bs.len(),
            |i: int| "  "@ + blocker_response(bs[i].severity, bs[i].what@),
        )
    } else {
        Seq::empty()
    };
    let progress = if tasks > 0 {
        seq!["\n📊 Postęp: "@ + decimal(tasks as nat) + " zadań ukończonych"@]
    } else {
        Seq::empty()
    };
    head + blocks + progress
}

impl BuddyState {
    /// A neutral Buddy with the default personality, no blockers and no
    /// counts.
    pub fn new() -> (b: Self)
        ensures
            b.personality.name@ == "Buddy"@,
            b.personality.sarcasm_level == 30,
            b.emotion == EmotionalState::Neutral,
            b.blockers@.len() == 0,
            b.tasks_completed == 0,
            b.commitments_broken == 0,
    {
        BuddyState {
            personality: Personality::ziomek(),
            emotion: EmotionalState::Neutral,
            blockers: Vec::new(),
            tasks_completed: 0,
            commitments_broken: 0,
        }
    }

    /// A neutral Buddy with the given personality.
    pub fn with_personality(personality: Personality) -> (b: Self)
        ensures
            b.personality == personality,
            b.emotion == EmotionalState::Neutral,
            b.blockers@.len() == 0,
            b.tasks_completed == 0,
            b.commitments_broken == 0,
    {
        BuddyState { personality, emotion: EmotionalState::Neutral, blockers: Vec::new(), tasks_completed: 0, commitments_broken: 0 }
    }

    /// Adds a blocker about `what`, starting now.
    pub fn add_blocker(&mut self, what: &str)
        ensures
            final(self).blockers@.len() == old(self).blockers@.len() + 1,
            final(self).blockers@.drop_last() == old(self).blockers@,
            final(self).blockers@.last().what@ == what@,
            final(self).blockers@.last().severity == BlockerSeverity::Low,
            final(self).blockers@.last().escalation_hours == 4,
            final(self).emotion == old(self).emotion,
            final(self).personality == old(self).personality,
            final(self).tasks_completed == old(self).tasks_completed,
            final(self).commitments_broken == old(self).commitments_broken,
    {
        self.blockers.push(Blocker::new(what));
        assert(self.blockers@.drop_last() =~= old(self).blockers@);
    }

    /// Removes the first blocker about `what`; whether there was one.
    pub fn remove_blocker(&mut self, what: &str) -> (r: bool)
        ensures
            r == exists|i: int| 0 <= i < old(self).blockers@.len() && (#[trigger] old(self).blockers@[i]).what@ == what@,
            r ==> exists|i: int| first_blocker_about(old(self).blockers@, what@, i)
                && final(self).blockers@ == old(self).blockers@.remove(i),
            !r ==> *final(self) == *old(self),
            final(self).emotion == old(self).emotion,
            final(self).personality == old(self).personality,
            final(self).tasks_completed == old(self).tasks_completed,
            final(self).commitments_broken == old(self).commitments_broken,
    {
        let target = what.to_owned();
        let mut i: usize = 0;
        while i < self.blockers.len()
            invariant
                i <= self.blockers@.len(),
                *self == *old(self),
                target@ == what@,
                forall|j: int| 0 <= j < i ==> (#[trigger] self.blockers@[j]).what@ != what@,
            decreases self.blockers.len() - i,
        {
            if self.blockers[i].what == target {
                assert(first_blocker_about(old(self).blockers@, what@, i as int));
                self.blockers.remove(i);
                return true;
            }
            i += 1;
        }
        false
    }

    /// Updates the severity of every blocker to the current time.
    pub fn update_blockers(&mut self)
        requires
            forall|i: int| 0 <= i < old(self).blockers@.len() ==> (#[trigger] old(self).blockers@[i]).escalation_hours > 0,
        ensures
            final(self).blockers@.len() == old(self).blockers@.len(),
            forall|i: int| 0 <= i < old(self).blockers@.len() ==> {
                &&& (#[trigger] final(self).blockers@[i]).what == old(self).blockers@[i].what
                &&& final(self).blockers@[i].since_ms == old(self).blockers@[i].since_ms
                &&& final(self).blockers@[i].escalation_hours == old(self).blockers@[i].escalation_hours
                &&& exists|now: u64| final(self).blockers@[i].severity == #[trigger] severity_after(
                    wrapping_sub(now, old(self).blockers@[i].since_ms),
                    old(self).blockers@[i].escalation_hours,
                )
            },
            final(self).emotion == old(self).emotion,
            final(self).personality == old(self).personality,
            final(self).tasks_completed == old(self).tasks_completed,
            final(self).commitments_broken == old(self).commitments_broken,
    {
        let ghost orig = self.blockers@;
        let mut rest: Vec<Blocker> = Vec::new();
        std::mem::swap(&mut rest, &mut self.blockers);
        let mut done: Vec<Blocker> = Vec::new();
        let n = rest.len();
        let mut k: usize = 0;
        while k < n
            invariant
                n == orig.len(),
                k <= n,
                rest@ == orig.skip(k as int),
                done@.len() == k,
                forall|i: int| 0 <= i < orig.len() ==> (#[trigger] orig[i]).escalation_hours > 0,
                forall|i: int| 0 <= i < k ==> {
                    &&& (#[trigger] done@[i]).what == orig[i].what
                    &&& done@[i].since_ms == orig[i].since_ms
                    &&& done@[i].escalation_hours == orig[i].escalation_hours
                    &&& exists|now: u64| done@[i].severity == #[trigger] severity_after(
                        wrapping_sub(now, orig[i].since_ms),
                        orig[i].escalation_hours,
                    )
                },
            decreases n - k,
        {
            assert(rest@[0] == orig[k as int]);
            let mut b = rest.remove(0);
            b.update_severity();
            done.push(b);
            assert(rest@ =~= orig.skip(k + 1));
            k += 1;
        }
        self.blockers = done;
    }

    /// Records a situation: completed tasks and broken commitments are
    /// counted, and the emotion follows the transition rules.
    pub fn process_situation(&mut self, situation: Situation)
        requires
            completes_task(situation) ==> old(self).tasks_completed < u32::MAX,
            situation is CommitmentBroken ==> old(self).commitments_broken < u32::MAX,
        ensures
            final(self).emotion == next_emotion(old(self).emotion, situation),
            final(self).tasks_completed == old(self).tasks_completed + if completes_task(situation) { 1int } else { 0int },
            final(self).commitments_broken == old(self).commitments_broken + if situation is CommitmentBroken { 1int } else { 0int },
            final(self).blockers@ == old(self).blockers@,
            final(self).personality == old(self).personality,
    {
        match situation {
            Situation::TaskCompleted | Situation::HardTaskCompleted => {
                self.tasks_completed = self.tasks_completed + 1;
            },
            Situation::CommitmentBroken(_) => {
                self.commitments_broken = self.commitments_broken + 1;
            },
            _ => {},
        }
        self.emotion = self.emotion.update(situation);
    }

    /// Buddy's status: the emotion, the active blockers and the progress,
    /// one part per line.
    pub fn generate_response(&self) -> (r: String)
        ensures
            r@ == join(response_lines(self.emotion, self.blockers@, self.tasks_completed), "\n"@),
    {
        let ghost target = response_lines(self.emotion, self.blockers@, self.tasks_completed);
        let mut parts: Vec<Vec<char>> = Vec::new();
        let e = self.emotion.to_string();
        parts.push(chars_of(e.as_str()));
        if self.blockers.len() > 0 {
            let mut h = String::new();
            push_str(&mut h, "\nAktywne blokady (");
            push_decimal(&mut h, self.blockers.len() as u64);
            push_str(&mut h, "):");
            parts.push(chars_of(h.as_str()));
            let mut i: usize = 0;
            while i < self.blockers.len()
                invariant
                    i <= self.blockers@.len(),
                    self.blockers@.len() > 0,
                    target == response_lines(self.emotion, self.blockers@, self.tasks_completed),
                    seqs_of(parts@) == target.take(2 + i),
                decreases self.blockers.len() - i,
            {
                let mut line = String::new();
                push_str(&mut line, "  ");
                let resp = self.blockers[i].response();
                push_str(&mut line, resp.as_str());
                let ghost before = parts@;
                parts.push(chars_of(line.as_str()));
                assert(seqs_of(parts@) =~= seqs_of(before).push(line@));
                assert(target[2 + i] == line@);
                assert(target.take(2 + i + 1) =~= target.take(2 + i).push(target[2 + i]));
                i += 1;
            }
        } else {
            assert(seqs_of(parts@) =~= target.take(1));
        }
        let ghost nb: int = if self.blockers@.len() > 0 { 1 + self.blockers@.len() as int } else { 0int };
        assert(seqs_of(parts@) == target.take(1 + nb));
        if self.tasks_completed > 0 {
            let mut p = String::new();
            push_str(&mut p, "\n📊 Postęp: ");
            push_decimal(&mut p, self.tasks_completed as u64);
            push_str(&mut p, " zadań ukończonych");
            let ghost before = parts@;
            parts.push(chars_of(p.as_str()));
            assert(seqs_of(parts@) =~= seqs_of(before).push(p@));
        }
        assert(seqs_of(parts@) =~= target);
        let nl = chars_of("\n");
        join_exec(&parts, nl.as_slice())
    }

    /// Buddy needs the user's attention: it is frustrated or concerned, or a
    /// blocker is high or critical.
    pub fn needs_attention(&self) -> (r: bool)
        ensures
            r == (attention(self.emotion) || urgent_blocker(self.blockers@)),
    {
        if self.emotion.needs_attention() {
            return true;
        }
        let mut i: usize = 0;
        while i < self.blockers.len()
            invariant
                i <= self.blockers@.len(),
                forall|j: int| 0 <= j < i ==> severity_rank((#[trigger] self.blockers@[j]).severity) < 2,
            decreases self.blockers.len() - i,
        {
            if self.blockers[i].severity.rank() >= 2 {
                return true;
            }
            i += 1;
        }
        false
    }

    /// The highest severity among the blockers, none without blockers.
    pub fn max_blocker_severity(&self) -> (r: Option<BlockerSeverity>)
        ensures
            self.blockers@.len() == 0 ==> r is None,
            self.blockers@.len() > 0 ==> (r matches Some(s) && (exists|i: int| 0 <= i < self.blockers@.len()
                && (#[trigger] self.blockers@[i]).severity == s) && forall|j: int| 0 <= j < self.blockers@.len()
                ==> severity_rank((#[trigger] self.blockers@[j]).severity) <= severity_rank(s)),
    {
        if self.blockers.len() == 0 {
            return None;
        }
        let mut best = self.blockers[0].severity;
        let mut i: usize = 1;
        while i < self.blockers.len()
            invariant
                1 <= i <= self.blockers@.len(),
                exists|k: int| 0 <= k < i && (#[trigger] self.blockers@[k]).severity == best,
                forall|j: int| 0 <= j < i ==> severity_rank((#[trigger] self.blockers@[j]).severity) <= severity_rank(best),
            decreases self.blockers.len() - i,
        {
            if self.blockers[i].severity.rank() > best.rank() {
                best = self.blockers[i].severity;
            }
            i += 1;
        }
        Some(best)
    }

    /// The session's statistics.
    pub fn session_stats(&self) -> (s: SessionStats)
        ensures
            s.tasks_completed == self.tasks_completed,
            s.commitments_broken == self.commitments_broken,
            s.active_blockers == self.blockers@.len(),
            s.current_emotion == self.emotion,
    {
        SessionStats {
            tasks_completed: self.tasks_completed,
            commitments_broken: self.commitments_broken,
            active_blockers: self.blockers.len(),
            current_emotion: self.emotion,
        }
    }
}

} // verus!

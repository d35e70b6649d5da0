//! How Buddy feels: a state machine driven by situations.
use vstd::prelude::*;
use crate::buddy::situation::Situation;
use crate::text::push_str;

verus! {

/// Buddy's emotional states.
#[derive(Debug, Clone, Copy, PartialEq, Eq, Hash, Structural)]
pub enum EmotionalState {
    /// The default state.
    Neutral,
    /// The user did something well.
    Satisfied,
    /// The user finished a hard task.
    Proud,
    /// The user procrastinates or breaks commitments.
    Frustrated,
    /// Real progress is happening.
    Excited,
    /// A pattern suggests burnout.
    Concerned,
}

/// The transition rules: a completed task satisfies, a hard one makes proud,
/// procrastination worries a neutral or frustrated Buddy, a returning user
/// calms a concerned one, progress excites a satisfied or proud one, a broken
/// commitment frustrates; anything else leaves the state as it is.
pub open spec fn next_emotion(e: EmotionalState, s: Situation) -> EmotionalState {
    match (e, s) {
        (_, Situation::TaskCompleted) => EmotionalState::Satisfied,
        (_, Situation::HardTaskCompleted) => EmotionalState::Proud,
        (EmotionalState::Neutral, Situation::UserProcrastinating(_))
        | (EmotionalState::Frustrated, Situation::UserProcrastinating(_)) => EmotionalState::Concerned,
        (EmotionalState::Concerned, Situation::UserReturned) => EmotionalState::Neutral,
        (EmotionalState::Satisfied, Situation::ProgressMade)
        | (EmotionalState::Proud, Situation::ProgressMade) => EmotionalState::Excited,
        (_, Situation::CommitmentBroken(_)) => EmotionalState::Frustrated,
        (current, _) => current,
    }
}

/// The states that need the user's attention.
pub open spec fn attention(e: EmotionalState) -> bool {
    e is Frustrated || e is Concerned
}

/// The description of a state (Polish).
pub open spec fn emotion_text(e: EmotionalState) -> Seq<char> {
    match e {
        EmotionalState::Neutral => "W porządku, działamy dalej."@,
        EmotionalState::Satisfied => "No nieźle! Idzie nam całkiem dobrze."@,
        EmotionalState::Proud => "Świetna robota! To było trudne i dałeś radę."@,
        EmotionalState::Frustrated => "Słuchaj... czekam na Ciebie już chwilę. Możemy to ogarnąć?"@,
        EmotionalState::Excited => "Ooo, to się dzieje! Robimy realny progress!"@,
        EmotionalState::Concerned => "Hej, coś nie tak. Chwilę tu stoimy. Wszystko okay?"@,
    }
}

/// The emoji of a state.
pub open spec fn emotion_emoji(e: EmotionalState) -> Seq<char> {
    match e {
        EmotionalState::Neutral => "😐"@,
        EmotionalState::Satisfied => "🙂"@,
        EmotionalState::Proud => "💪"@,
        EmotionalState::Frustrated => "😤"@,
        EmotionalState::Excited => "🔥"@,
        EmotionalState::Concerned => "😟"@,
    }
}

impl EmotionalState {
    /// A description of the state (Polish).
    pub fn describe(&self) -> (r: &'static str)
        ensures
            r@ == emotion_text(*self),
    {
        match self {
            EmotionalState::Neutral => "W porządku, działamy dalej.",
            EmotionalState::Satisfied => "No nieźle! Idzie nam całkiem dobrze.",
            EmotionalState::Proud => "Świetna robota! To było trudne i dałeś radę.",
            EmotionalState::Frustrated => "Słuchaj... czekam na Ciebie już chwilę. Możemy to ogarnąć?",
            EmotionalState::Excited => "Ooo, to się dzieje! Robimy realny progress!",
            EmotionalState::Concerned => "Hej, coś nie tak. Chwilę tu stoimy. Wszystko okay?",
        }
    }

    /// The state after `situation`.
    pub fn update(&self, situation: Situation) -> (r: Self)
        ensures
            r == next_emotion(*self, situation),
    {
        match (self, situation) {
            (_, Situation::TaskCompleted) => EmotionalState::Satisfied,
            (_, Situation::HardTaskCompleted) => EmotionalState::Proud,
            (EmotionalState::Neutral, Situation::UserProcrastinating(_))
            | (EmotionalState::Frustrated, Situation::UserProcrastinating(_)) => EmotionalState::Concerned,
            (EmotionalState::Concerned, Situation::UserReturned) => EmotionalState::Neutral,
            (EmotionalState::Satisfied, Situation::ProgressMade)
            | (EmotionalState::Proud, Situation::ProgressMade) => EmotionalState::Excited,
            (_, Situation::CommitmentBroken(_)) => EmotionalState::Frustrated,
            (current, _) => *current,
        }
    }

    /// Does this state need the user's attention?
    pub fn needs_attention(&self) -> (r: bool)
        ensures
            r == attention(*self),
    {
        match self {
            EmotionalState::Frustrated | EmotionalState::Concerned => true,
            _ => false,
        }
    }

    /// The emoji for the state.
    pub fn emoji(&self) -> (r: &'static str)
        ensures
            r@ == emotion_emoji(*self),
    {
        match self {
            EmotionalState::Neutral => "😐",
            EmotionalState::Satisfied => "🙂",
            EmotionalState::Proud => "💪",
            EmotionalState::Frustrated => "😤",
            EmotionalState::Excited => "🔥",
            EmotionalState::Concerned => "😟",
        }
    }

    /// The emoji, a space and the description: how the state is displayed.
    pub fn to_string(&self) -> (r: String)
        ensures
            r@ == emotion_emoji(*self) + " "@ + emotion_text(*self),
    {
        let mut s = String::new();
        push_str(&mut s, self.emoji());
        push_str(&mut s, " ");
        push_str(&mut s, self.describe());
        assert(s@ =~= emotion_emoji(*self) + " "@ + emotion_text(*self));
        s
    }
}

impl Default for EmotionalState {
    /// Neutral.
    fn default() -> (r: Self)
        ensures
            r == EmotionalState::Neutral,
    {
        EmotionalState::Neutral
    }
}

/// A completed task always leaves Buddy satisfied, a hard one proud, and a
/// broken commitment frustrated, whatever the state before.
pub proof fn lemma_decisive_situations(e: EmotionalState, n: u32)
    ensures
        next_emotion(e, Situation::TaskCompleted) == EmotionalState::Satisfied,
        next_emotion(e, Situation::HardTaskCompleted) == EmotionalState::Proud,
        next_emotion(e, Situation::CommitmentBroken(n)) == EmotionalState::Frustrated,
{
}

/// A new day and an engaged user never change how Buddy feels.
pub proof fn lemma_neutral_situations(e: EmotionalState)
    ensures
        next_emotion(e, Situation::NewDay) == e,
        next_emotion(e, Situation::UserEngaged) == e,
{
}

/// Only procrastination or a broken commitment can bring Buddy into a state
/// that needs attention from one that does not.
pub proof fn lemma_attention_only_from_negative(e: EmotionalState, s: Situation)
    requires
        !attention(e),
        attention(next_emotion(e, s)),
    ensures
        crate::buddy::situation::negative(s),
{
}

/// Procrastination worries a neutral or frustrated Buddy, however long it
/// has gone on, and leaves any other state as it is.
pub proof fn lemma_procrastination_worries(e: EmotionalState, n: u32)
    ensures
        (e == EmotionalState::Neutral || e == EmotionalState::Frustrated) ==> next_emotion(
            e,
            Situation::UserProcrastinating(n),
        ) == EmotionalState::Concerned,
        !(e == EmotionalState::Neutral || e == EmotionalState::Frustrated) ==> next_emotion(
            e,
            Situation::UserProcrastinating(n),
        ) == e,
{
}

} // verus!

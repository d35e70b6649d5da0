//! Situations that trigger emotional changes in Buddy.
use vstd::prelude::*;
use crate::text::{decimal, push_decimal, push_str};

verus! {

/// Something that happened between Buddy and the user.
#[derive(Debug, Clone, Copy, PartialEq, Eq, Structural)]
pub enum Situation {
    /// The user completed a task.
    TaskCompleted,
    /// The user completed a hard task.
    HardTaskCompleted,
    /// The user has not answered for this many days.
    UserProcrastinating(u32),
    /// The user came back after an absence.
    UserReturned,
    /// Real progress was made.
    ProgressMade,
    /// The user broke a commitment (the number of the broken commitment).
    CommitmentBroken(u32),
    /// A new day began.
    NewDay,
    /// The user asked something and is engaged.
    UserEngaged,
}

/// The situations that count as negative.
pub open spec fn negative(s: Situation) -> bool {
    s is UserProcrastinating || s is CommitmentBroken
}

/// The situations that count as positive.
pub open spec fn positive(s: Situation) -> bool {
    s is TaskCompleted || s is HardTaskCompleted || s is ProgressMade || s is UserReturned
        || s is UserEngaged
}

/// The short description of a situation (Polish).
pub open spec fn situation_text(s: Situation) -> Seq<char> {
    match s {
        Situation::TaskCompleted => "Zadanie ukończone"@,
        Situation::HardTaskCompleted => "Trudne zadanie ukończone!"@,
        Situation::UserProcrastinating(days) => "User nie odpowiada od "@ + decimal(days as nat) + " dni"@,
        Situation::UserReturned => "User wrócił"@,
        Situation::ProgressMade => "Zrobiono progress"@,
        Situation::CommitmentBroken(count) => "Złamane zobowiązanie #"@ + decimal(count as nat),
        Situation::NewDay => "Nowy dzień"@,
        Situation::UserEngaged => "User się angażuje"@,
    }
}

impl Situation {
    /// Is this situation negative?
    pub fn is_negative(&self) -> (r: bool)
        ensures
            r == negative(*self),
    {
        match self {
            Situation::UserProcrastinating(_) | Situation::CommitmentBroken(_) => true,
            _ => false,
        }
    }

    /// Is this situation positive?
    pub fn is_positive(&self) -> (r: bool)
        ensures
            r == positive(*self),
    {
        match self {
            Situation::TaskCompleted | Situation::HardTaskCompleted | Situation::ProgressMade
            | Situation::UserReturned | Situation::UserEngaged => true,
            _ => false,
        }
    }

    /// A short description (Polish).
    pub fn describe(&self) -> (r: String)
        ensures
            r@ == situation_text(*self),
    {
        let mut s = String::new();
        match self {
            Situation::TaskCompleted => push_str(&mut s, "Zadanie ukończone"),
            Situation::HardTaskCompleted => push_str(&mut s, "Trudne zadanie ukończone!"),
            Situation::UserProcrastinating(days) => {
                push_str(&mut s, "User nie odpowiada od ");
                push_decimal(&mut s, *days as u64);
                push_str(&mut s, " dni");
            },
            Situation::UserReturned => push_str(&mut s, "User wrócił"),
            Situation::ProgressMade => push_str(&mut s, "Zrobiono progress"),
            Situation::CommitmentBroken(count) => {
                push_str(&mut s, "Złamane zobowiązanie #");
                push_decimal(&mut s, *count as u64);
            },
            Situation::NewDay => push_str(&mut s, "Nowy dzień"),
            Situation::UserEngaged => push_str(&mut s, "User się angażuje"),
        }
        assert(s@ =~= situation_text(*self));
        s
    }
}

/// No situation is both negative and positive.
pub proof fn lemma_negative_not_positive(s: Situation)
    ensures
        !(negative(s) && positive(s)),
{
}

} // verus!

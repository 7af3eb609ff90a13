//! The seven-state status lifecycle shared by projects and tasks.
//!
//! `promote` walks the forward chain NotStarted → Planned → InProgress →
//! InReview → Completed and `demote` walks it backwards; both leave
//! Archived and Canceled (and the chain's ends) alone. `archive` reaches
//! Archived from every state. `cancel` is refused only in Completed and
//! Archived, which are too final to cancel.

use vstd::prelude::*;

verus! {

/// The lifecycle state of a schedulable entity.
#[derive(Clone, Copy, Debug, PartialEq, Eq, Structural)]
pub enum SchedulableItemStatus {
    NotStarted,
    Planned,
    InProgress,
    InReview,
    Completed,
    Archived,
    Canceled,
}

/// Projects and tasks share one status lifecycle.
pub type ProjectStatus = SchedulableItemStatus;

/// Where `promote` goes: one step up the forward chain; Completed,
/// Archived and Canceled are left unchanged.
pub open spec fn promote_spec(s: SchedulableItemStatus) -> SchedulableItemStatus {
    match s {
        SchedulableItemStatus::NotStarted => SchedulableItemStatus::Planned,
        SchedulableItemStatus::Planned => SchedulableItemStatus::InProgress,
        SchedulableItemStatus::InProgress => SchedulableItemStatus::InReview,
        SchedulableItemStatus::InReview => SchedulableItemStatus::Completed,
        _ => s,
    }
}

/// Where `demote` goes: one step down the forward chain; NotStarted,
/// Completed, Archived and Canceled are left unchanged.
pub open spec fn demote_spec(s: SchedulableItemStatus) -> SchedulableItemStatus {
    match s {
        SchedulableItemStatus::InReview => SchedulableItemStatus::InProgress,
        SchedulableItemStatus::InProgress => SchedulableItemStatus::Planned,
        SchedulableItemStatus::Planned => SchedulableItemStatus::NotStarted,
        _ => s,
    }
}

/// Where `archive` goes: Archived, from every state.
pub open spec fn archive_spec(s: SchedulableItemStatus) -> SchedulableItemStatus {
    SchedulableItemStatus::Archived
}

/// Where `cancel` goes: Canceled, except from Completed and Archived,
/// which are left unchanged.
pub open spec fn cancel_spec(s: SchedulableItemStatus) -> SchedulableItemStatus {
    match s {
        SchedulableItemStatus::Completed => s,
        SchedulableItemStatus::Archived => s,
        _ => SchedulableItemStatus::Canceled,
    }
}

impl SchedulableItemStatus {
    /// The state's name.
    pub open spec fn spec_name(&self) -> Seq<char> {
        match *self {
            SchedulableItemStatus::NotStarted => "NotStarted"@,
            SchedulableItemStatus::Planned => "Planned"@,
            SchedulableItemStatus::InProgress => "InProgress"@,
            SchedulableItemStatus::InReview => "InReview"@,
            SchedulableItemStatus::Completed => "Completed"@,
            SchedulableItemStatus::Archived => "Archived"@,
            SchedulableItemStatus::Canceled => "Canceled"@,
        }
    }

    pub fn name(&self) -> (r: &'static str)
        ensures
            r@ == self.spec_name(),
    {
        match *self {
            SchedulableItemStatus::NotStarted => "NotStarted",
            SchedulableItemStatus::Planned => "Planned",
            SchedulableItemStatus::InProgress => "InProgress",
            SchedulableItemStatus::InReview => "InReview",
            SchedulableItemStatus::Completed => "Completed",
            SchedulableItemStatus::Archived => "Archived",
            SchedulableItemStatus::Canceled => "Canceled",
        }
    }

    /// The state's name as an owned string.
    #[allow(clippy::inherent_to_string)]
    pub fn to_string(&self) -> (r: String)
        ensures
            r@ == self.spec_name(),
    {
        self.name().to_owned()
    }
}

/// The state whose name the string holds, if any.
pub open spec fn spec_status_from_name(s: Seq<char>) -> Option<SchedulableItemStatus> {
    if s == "NotStarted"@ {
        Some(SchedulableItemStatus::NotStarted)
    } else if s == "Planned"@ {
        Some(SchedulableItemStatus::Planned)
    } else if s == "InProgress"@ {
        Some(SchedulableItemStatus::InProgress)
    } else if s == "InReview"@ {
        Some(SchedulableItemStatus::InReview)
    } else if s == "Completed"@ {
        Some(SchedulableItemStatus::Completed)
    } else if s == "Archived"@ {
        Some(SchedulableItemStatus::Archived)
    } else if s == "Canceled"@ {
        Some(SchedulableItemStatus::Canceled)
    } else {
        None
    }
}

/// Parse a state back from its name.
pub fn status_from_name(s: &str) -> (r: Option<SchedulableItemStatus>)
    ensures
        r == spec_status_from_name(s@),
{
    if crate::strings::str_eq(s, "NotStarted") {
        Some(SchedulableItemStatus::NotStarted)
    } else if crate::strings::str_eq(s, "Planned") {
        Some(SchedulableItemStatus::Planned)
    } else if crate::strings::str_eq(s, "InProgress") {
        Some(SchedulableItemStatus::InProgress)
    } else if crate::strings::str_eq(s, "InReview") {
        Some(SchedulableItemStatus::InReview)
    } else if crate::strings::str_eq(s, "Completed") {
        Some(SchedulableItemStatus::Completed)
    } else if crate::strings::str_eq(s, "Archived") {
        Some(SchedulableItemStatus::Archived)
    } else if crate::strings::str_eq(s, "Canceled") {
        Some(SchedulableItemStatus::Canceled)
    } else {
        None
    }
}

/// Each state's name parses back to that state: the names are pairwise
/// distinct, so rendering a status and parsing it again loses nothing.
pub proof fn lemma_status_name_round_trip(s: SchedulableItemStatus)
    ensures
        spec_status_from_name(s.spec_name()) == Some(s),
{
    reveal_strlit("NotStarted");
    reveal_strlit("Planned");
    reveal_strlit("InProgress");
    reveal_strlit("InReview");
    reveal_strlit("Completed");
    reveal_strlit("Archived");
    reveal_strlit("Canceled");
    assert("Planned"@.len() == 7);
    assert("NotStarted"@.len() == 10);
    assert("InProgress"@.len() == 10);
    assert("InReview"@.len() == 8);
    assert("Completed"@.len() == 9);
    assert("Archived"@.len() == 8);
    assert("Canceled"@.len() == 8);
    assert("NotStarted"@[0] == 'N' && "InProgress"@[0] == 'I');
    assert("InReview"@[0] == 'I' && "Archived"@[0] == 'A' && "Canceled"@[0] == 'C');
}

/// Promoting four times from NotStarted reaches Completed, and a fifth
/// promotion changes nothing.
pub proof fn lemma_promotion_chain()
    ensures
        promote_spec(
            promote_spec(promote_spec(promote_spec(SchedulableItemStatus::NotStarted))),
        ) == SchedulableItemStatus::Completed,
        promote_spec(SchedulableItemStatus::Completed) == SchedulableItemStatus::Completed,
{
}

/// Cancel leaves the two terminal states, Completed and Archived,
/// unchanged.
pub proof fn lemma_cancel_terminal()
    ensures
        cancel_spec(SchedulableItemStatus::Completed) == SchedulableItemStatus::Completed,
        cancel_spec(SchedulableItemStatus::Archived) == SchedulableItemStatus::Archived,
{
}

/// Archive reaches Archived from every state, so it is idempotent.
pub proof fn lemma_archive_total(s: SchedulableItemStatus)
    ensures
        archive_spec(s) == SchedulableItemStatus::Archived,
        archive_spec(archive_spec(s)) == archive_spec(s),
{
}

} // verus!

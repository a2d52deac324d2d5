//! Watch-status enumerations and the cyclic toggle rule for shows.

use vstd::prelude::*;

verus! {

/// Watch status of a show.
#[derive(Clone, Copy, Debug, PartialEq, Eq, Structural)]
pub enum UserStatusShow {
    Unwatched,
    Todo,
    Watched,
}

/// Watch status of a season.
#[derive(Clone, Copy, Debug, PartialEq, Eq, Structural)]
pub enum UserStatusSeason {
    Unfilled,
    OnRelease,
    OtherDate,
}

/// Watch status of an episode.
#[derive(Clone, Copy, Debug, PartialEq, Eq, Structural)]
pub enum UserStatusEpisode {
    Unwatched,
    Watched,
}

impl UserStatusShow {
    /// The status that follows `self` in the cycle
    /// `Todo -> Watched -> Unwatched -> Todo`.
    pub open spec fn next(self) -> UserStatusShow {
        match self {
            UserStatusShow::Todo => UserStatusShow::Watched,
            UserStatusShow::Watched => UserStatusShow::Unwatched,
            UserStatusShow::Unwatched => UserStatusShow::Todo,
        }
    }

    /// The text shown for this status.
    pub open spec fn label_text(self) -> Seq<char> {
        match self {
            UserStatusShow::Unwatched => "UNWATCHED"@,
            UserStatusShow::Todo => "TODO"@,
            UserStatusShow::Watched => "WATCHED"@,
        }
    }

    /// The status a newly ingested show starts in.
    pub fn initial() -> (status: UserStatusShow)
        ensures
            status == UserStatusShow::Todo,
    {
        UserStatusShow::Todo
    }

    /// One user toggle: a total function with no failure mode.
    pub fn advance(self) -> (following: UserStatusShow)
        ensures
            following == self.next(),
            following != self,
            following.next().next() == self,
    {
        match self {
            UserStatusShow::Todo => UserStatusShow::Watched,
            UserStatusShow::Watched => UserStatusShow::Unwatched,
            UserStatusShow::Unwatched => UserStatusShow::Todo,
        }
    }

    pub fn label(self) -> (text: &'static str)
        ensures
            text@ == self.label_text(),
    {
        match self {
            UserStatusShow::Unwatched => "UNWATCHED",
            UserStatusShow::Todo => "TODO",
            UserStatusShow::Watched => "WATCHED",
        }
    }
}

impl UserStatusSeason {
    pub open spec fn label_text(self) -> Seq<char> {
        match self {
            UserStatusSeason::Unfilled => "UNFILLED"@,
            UserStatusSeason::OnRelease => "ON_RELEASE"@,
            UserStatusSeason::OtherDate => "OTHER_DATE"@,
        }
    }

    pub fn label(self) -> (text: &'static str)
        ensures
            text@ == self.label_text(),
    {
        match self {
            UserStatusSeason::Unfilled => "UNFILLED",
            UserStatusSeason::OnRelease => "ON_RELEASE",
            UserStatusSeason::OtherDate => "OTHER_DATE",
        }
    }
}

impl UserStatusEpisode {
    pub open spec fn label_text(self) -> Seq<char> {
        match self {
            UserStatusEpisode::Unwatched => "UNWATCHED"@,
            UserStatusEpisode::Watched => "WATCHED"@,
        }
    }

    pub fn label(self) -> (text: &'static str)
        ensures
            text@ == self.label_text(),
    {
        match self {
            UserStatusEpisode::Unwatched => "UNWATCHED",
            UserStatusEpisode::Watched => "WATCHED",
        }
    }
}

/// Three toggles bring every status back to where it started, and fewer do not.
pub proof fn lemma_advance_cycle(status: UserStatusShow)
    ensures
        status.next().next().next() == status,
        status.next() != status,
        status.next().next() != status,
{
}

} // verus!

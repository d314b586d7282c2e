//! What comes before a duel: whether one user may challenge another, and
//! what the challenged user's answer leads to.

use vstd::prelude::*;
use crate::battle::{same_text, BattleError};
use crate::registry::Data;

verus! {

/// Why a challenge is refused before any invitation goes out.
#[derive(Clone, Copy, Debug, PartialEq, Eq, Structural)]
pub enum Refusal {
    /// Bots cannot be challenged.
    Bot,
    /// Nobody can challenge themselves.
    SelfChallenge,
    /// The challenger is already in a duel.
    ChallengerBusy,
    /// The challenged user is already in a duel.
    OpponentBusy,
}

/// The answers an invitation can get.
#[derive(Clone, Copy, Debug, PartialEq, Eq, Structural)]
pub enum InviteChoice {
    Fight,
    Run,
}

/// Where an invitation ends.
#[derive(Clone, Copy, Debug, PartialEq, Eq, Structural)]
pub enum InviteOutcome {
    /// The duel starts.
    Accepted,
    /// The challenged user ran away.
    Declined,
    /// No answer came in time; this counts as declining.
    TimedOut,
    /// The challenge was taken up, but one of the two is by now in
    /// another duel.
    AlreadyInBattle,
}

pub open spec fn spec_parse_invite_choice(s: Seq<char>) -> Option<InviteChoice> {
    if s == "fight"@ {
        Some(InviteChoice::Fight)
    } else if s == "run"@ {
        Some(InviteChoice::Run)
    } else {
        None
    }
}

/// Reads an answer to an invitation.
pub fn parse_invite_choice(s: &str) -> (r: Option<InviteChoice>)
    ensures
        r == spec_parse_invite_choice(s@),
{
    if same_text(s, "fight") {
        Some(InviteChoice::Fight)
    } else if same_text(s, "run") {
        Some(InviteChoice::Run)
    } else {
        None
    }
}

/// Whether `challenger` may challenge `opponent`; the checks come in the
/// order of the refusals' declaration.
pub fn check_challenge(data: &Data, challenger: u64, opponent: u64, opponent_is_bot: bool) -> (r: Result<(), Refusal>)
    ensures
        r == if opponent_is_bot {
            Err::<(), Refusal>(Refusal::Bot)
        } else if challenger == opponent {
            Err(Refusal::SelfChallenge)
        } else if data.engaged(challenger) {
            Err(Refusal::ChallengerBusy)
        } else if data.engaged(opponent) {
            Err(Refusal::OpponentBusy)
        } else {
            Ok(())
        },
{
    if opponent_is_bot {
        Err(Refusal::Bot)
    } else if challenger == opponent {
        Err(Refusal::SelfChallenge)
    } else if data.check_for_user_in_battle(challenger) {
        Err(Refusal::ChallengerBusy)
    } else if data.check_for_user_in_battle(opponent) {
        Err(Refusal::OpponentBusy)
    } else {
        Ok(())
    }
}

/// What the challenged user's answer `choice` (`None` when the wait ran
/// out) leads to, given the duels in progress at that moment. An answer
/// that is neither of the invitation's is a protocol error.
pub fn respond_to_invite(data: &Data, choice: Option<&str>, challenger: u64, opponent: u64) -> (r: Result<InviteOutcome, BattleError>)
    ensures
        r == match choice {
            None => Ok::<InviteOutcome, BattleError>(InviteOutcome::TimedOut),
            Some(c) => match spec_parse_invite_choice(c@) {
                None => Err(BattleError::UnknownAction),
                Some(InviteChoice::Run) => Ok(InviteOutcome::Declined),
                Some(InviteChoice::Fight) => if data.engaged(challenger) || data.engaged(opponent) {
                    Ok(InviteOutcome::AlreadyInBattle)
                } else {
                    Ok(InviteOutcome::Accepted)
                },
            },
        },
{
    match choice {
        None => Ok(InviteOutcome::TimedOut),
        Some(c) => match parse_invite_choice(c) {
            None => Err(BattleError::UnknownAction),
            Some(InviteChoice::Run) => Ok(InviteOutcome::Declined),
            Some(InviteChoice::Fight) => {
                if data.check_for_user_in_battle(challenger) || data.check_for_user_in_battle(opponent) {
                    Ok(InviteOutcome::AlreadyInBattle)
                } else {
                    Ok(InviteOutcome::Accepted)
                }
            },
        },
    }
}

} // verus!

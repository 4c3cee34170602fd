//! Gamified achievements and user statistics.
//!
//! Thin record providers: the achievement catalogue is predefined, and the
//! statistics come from an external store, reported here as the
//! representative values that store would hold.

use vstd::prelude::*;

use crate::clock::now_rfc3339;
use crate::errors::CommandError;

verus! {

/// One achievement of the catalogue.
#[derive(Debug)]
pub struct Achievement {
    pub id: String,
    pub title: String,
    pub description: String,
    pub icon: String,
    pub unlocked: bool,
    pub unlocked_at: Option<String>,
}

impl Clone for Achievement {
    fn clone(&self) -> (r: Self)
        ensures
            r == *self,
    {
        Achievement {
            id: self.id.clone(),
            title: self.title.clone(),
            description: self.description.clone(),
            icon: self.icon.clone(),
            unlocked: self.unlocked,
            unlocked_at: match &self.unlocked_at {
                Some(s) => Some(s.clone()),
                None => None,
            },
        }
    }
}

/// Aggregated user statistics.
#[derive(Clone, Copy, Debug, PartialEq, Eq, Structural)]
pub struct UserStats {
    pub total_focus_sessions: i64,
    pub current_streak: i64,
    pub longest_streak: i64,
    pub total_focus_minutes: i64,
    pub achievements_unlocked: i64,
    pub level: i64,
    pub points: i64,
}

impl UserStats {
    /// A brand-new user: everything at zero, level 1.
    pub open spec fn spec_new_user() -> UserStats {
        UserStats {
            total_focus_sessions: 0,
            current_streak: 0,
            longest_streak: 0,
            total_focus_minutes: 0,
            achievements_unlocked: 0,
            level: 1,
            points: 0,
        }
    }

    /// The representative statistics record the external store holds.
    pub open spec fn spec_stored() -> UserStats {
        UserStats {
            total_focus_sessions: 10,
            current_streak: 3,
            longest_streak: 5,
            total_focus_minutes: 250,
            achievements_unlocked: 2,
            level: 2,
            points: 150,
        }
    }
}

impl Default for UserStats {
    fn default() -> (r: Self)
        ensures
            r == UserStats::spec_new_user(),
    {
        UserStats {
            total_focus_sessions: 0,
            current_streak: 0,
            longest_streak: 0,
            total_focus_minutes: 0,
            achievements_unlocked: 0,
            level: 1,
            points: 0,
        }
    }
}

/// Recompute the user's streak and return the statistics the external
/// store holds. Never fails.
pub fn update_streak() -> (r: Result<UserStats, CommandError>)
    ensures
        r == Ok::<UserStats, CommandError>(UserStats::spec_stored()),
{
    Ok(
        UserStats {
            total_focus_sessions: 10,
            current_streak: 3,
            longest_streak: 5,
            total_focus_minutes: 250,
            achievements_unlocked: 2,
            level: 2,
            points: 150,
        },
    )
}

/// Return the statistics the external store holds. Never fails.
pub fn get_user_stats() -> (r: Result<UserStats, CommandError>)
    ensures
        r == Ok::<UserStats, CommandError>(UserStats::spec_stored()),
{
    Ok(
        UserStats {
            total_focus_sessions: 10,
            current_streak: 3,
            longest_streak: 5,
            total_focus_minutes: 250,
            achievements_unlocked: 2,
            level: 2,
            points: 150,
        },
    )
}

/// Return the predefined achievement catalogue: six achievements, of which
/// only the first is unlocked, stamped with the current time. Never fails.
pub fn get_achievements() -> (r: Result<Vec<Achievement>, CommandError>)
    ensures
        r matches Ok(v) && {
            &&& v@.len() == 6
            &&& v@[0].id@ == "first_session"@
            &&& v@[0].title@ == "Getting Started"@
            &&& v@[0].description@ == "Complete your first focus session"@
            &&& v@[0].icon@ == "🎯"@
            &&& v@[0].unlocked == true
            &&& v@[0].unlocked_at is Some
            &&& v@[1].id@ == "five_day_streak"@
            &&& v@[1].title@ == "Consistent Focus"@
            &&& v@[1].description@ == "Maintain a 5-day streak"@
            &&& v@[1].icon@ == "🔥"@
            &&& v@[2].id@ == "break_master"@
            &&& v@[2].title@ == "Break Master"@
            &&& v@[2].description@ == "Take 20 breaks on time"@
            &&& v@[2].icon@ == "☕"@
            &&& v@[3].id@ == "deep_work"@
            &&& v@[3].title@ == "Deep Work"@
            &&& v@[3].description@ == "Focus for 100+ hours total"@
            &&& v@[3].icon@ == "🧠"@
            &&& v@[4].id@ == "journal_habit"@
            &&& v@[4].title@ == "Reflective Mind"@
            &&& v@[4].description@ == "Journal for 7 consecutive days"@
            &&& v@[4].icon@ == "📔"@
            &&& v@[5].id@ == "mindful_week"@
            &&& v@[5].title@ == "Mindful Week"@
            &&& v@[5].description@ == "Complete all reminders for a week"@
            &&& v@[5].icon@ == "🌟"@
            &&& forall|i: int|
                1 <= i < 6 ==> (#[trigger] v@[i]).unlocked == false && v@[i].unlocked_at is None
        },
{
    let mut v: Vec<Achievement> = Vec::new();
    v.push(
        Achievement {
            id: "first_session".to_owned(),
            title: "Getting Started".to_owned(),
            description: "Complete your first focus session".to_owned(),
            icon: "🎯".to_owned(),
            unlocked: true,
            unlocked_at: Some(now_rfc3339()),
        },
    );
    v.push(
        Achievement {
            id: "five_day_streak".to_owned(),
            title: "Consistent Focus".to_owned(),
            description: "Maintain a 5-day streak".to_owned(),
            icon: "🔥".to_owned(),
            unlocked: false,
            unlocked_at: None,
        },
    );
    v.push(
        Achievement {
            id: "break_master".to_owned(),
            title: "Break Master".to_owned(),
            description: "Take 20 breaks on time".to_owned(),
            icon: "☕".to_owned(),
            unlocked: false,
            unlocked_at: None,
        },
    );
    v.push(
        Achievement {
            id: "deep_work".to_owned(),
            title: "Deep Work".to_owned(),
            description: "Focus for 100+ hours total".to_owned(),
            icon: "🧠".to_owned(),
            unlocked: false,
            unlocked_at: None,
        },
    );
    v.push(
        Achievement {
            id: "journal_habit".to_owned(),
            title: "Reflective Mind".to_owned(),
            description: "Journal for 7 consecutive days".to_owned(),
            icon: "📔".to_owned(),
            unlocked: false,
            unlocked_at: None,
        },
    );
    v.push(
        Achievement {
            id: "mindful_week".to_owned(),
            title: "Mindful Week".to_owned(),
            description: "Complete all reminders for a week".to_owned(),
            icon: "🌟".to_owned(),
            unlocked: false,
            unlocked_at: None,
        },
    );
    Ok(v)
}

/// Report achievements newly unlocked since the last check. Unlock
/// detection lives with the external store, so none is ever reported here.
/// Never fails.
pub fn check_new_achievements() -> (r: Result<Vec<Achievement>, CommandError>)
    ensures
        r matches Ok(v) && v@.len() == 0,
{
    Ok(Vec::new())
}

} // verus!

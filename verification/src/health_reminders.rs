//! Health break reminders: a list of reminder records with per-record
//! interval, message and enabled flag.
//!
//! A thin record manager with no invariants beyond field validation; when a
//! reminder is actually due is decided by the caller's own timing, so
//! `get_due_reminders` reports none.

use vstd::prelude::*;

use crate::errors::CommandError;
use crate::ids::new_uuid_string;
use crate::text::str_eq;

verus! {

/// The kind of health reminder.
#[derive(Clone, Copy, Debug, PartialEq, Eq, Structural)]
pub enum ReminderType {
    Hydration,
    Stretching,
    EyeRest,
    Posture,
    Custom,
}

impl ReminderType {
    /// The kind's display name.
    pub fn to_string(&self) -> (r: String)
        ensures
            self is Hydration ==> r@ == "Hydration"@,
            self is Stretching ==> r@ == "Stretching"@,
            self is EyeRest ==> r@ == "EyeRest"@,
            self is Posture ==> r@ == "Posture"@,
            self is Custom ==> r@ == "Custom"@,
    {
        match self {
            ReminderType::Hydration => "Hydration".to_owned(),
            ReminderType::Stretching => "Stretching".to_owned(),
            ReminderType::EyeRest => "EyeRest".to_owned(),
            ReminderType::Posture => "Posture".to_owned(),
            ReminderType::Custom => "Custom".to_owned(),
        }
    }
}

/// One reminder record.
#[derive(Debug)]
pub struct HealthReminder {
    pub id: String,
    pub reminder_type: ReminderType,
    pub interval_minutes: u32,
    pub message: String,
    pub enabled: bool,
    /// When the reminder last fired, if ever; kept by the caller.
    pub last_triggered: Option<String>,
}

impl Clone for HealthReminder {
    fn clone(&self) -> (r: Self)
        ensures
            r == *self,
    {
        HealthReminder {
            id: self.id.clone(),
            reminder_type: self.reminder_type,
            interval_minutes: self.interval_minutes,
            message: self.message.clone(),
            enabled: self.enabled,
            last_triggered: match &self.last_triggered {
                Some(s) => Some(s.clone()),
                None => None,
            },
        }
    }
}

/// The reminder configuration record.
#[derive(Debug)]
pub struct ReminderSettings {
    pub reminders: Vec<HealthReminder>,
    pub enabled: bool,
    pub only_during_focus: bool,
}

impl Clone for ReminderSettings {
    fn clone(&self) -> (r: Self)
        ensures
            r.reminders@ == self.reminders@,
            r.enabled == self.enabled,
            r.only_during_focus == self.only_during_focus,
    {
        let reminders = self.reminders.clone();
        proof {
            assert forall|i: int| 0 <= i < self.reminders@.len() implies reminders@[i]
                == self.reminders@[i] by {
                assert(cloned::<HealthReminder>(self.reminders[i], reminders[i]));
            }
            assert(reminders@ =~= self.reminders@);
        }
        ReminderSettings {
            reminders,
            enabled: self.enabled,
            only_during_focus: self.only_during_focus,
        }
    }
}

impl Default for ReminderSettings {
    /// The built-in reminder set: hydration every 30 minutes, stretching
    /// every 60, eye rest every 20 and posture every 45, all enabled, each
    /// under a fresh id; reminders on overall, not restricted to focus time.
    fn default() -> (r: Self)
        ensures
            r.enabled == true,
            r.only_during_focus == false,
            r.reminders@.len() == 4,
            r.reminders@[0].reminder_type == ReminderType::Hydration,
            r.reminders@[0].interval_minutes == 30,
            r.reminders@[0].message@ == "💧 Time to hydrate! Drink some water."@,
            r.reminders@[1].reminder_type == ReminderType::Stretching,
            r.reminders@[1].interval_minutes == 60,
            r.reminders@[1].message@ == "🧘 Take a moment to stretch your body!"@,
            r.reminders@[2].reminder_type == ReminderType::EyeRest,
            r.reminders@[2].interval_minutes == 20,
            r.reminders@[2].message@
                == "👁️ Follow the 20-20-20 rule: Look 20 feet away for 20 seconds."@,
            r.reminders@[3].reminder_type == ReminderType::Posture,
            r.reminders@[3].interval_minutes == 45,
            r.reminders@[3].message@ == "🪑 Check your posture! Sit up straight."@,
            forall|i: int|
                0 <= i < 4 ==> (#[trigger] r.reminders@[i]).enabled == true && r.reminders@[i].id@.len()
                    == 36 && r.reminders@[i].last_triggered is None,
    {
        let mut reminders: Vec<HealthReminder> = Vec::new();
        reminders.push(
            HealthReminder {
                id: new_uuid_string(),
                reminder_type: ReminderType::Hydration,
                interval_minutes: 30,
                message: "💧 Time to hydrate! Drink some water.".to_owned(),
                enabled: true,
                last_triggered: None,
            },
        );
        reminders.push(
            HealthReminder {
                id: new_uuid_string(),
                reminder_type: ReminderType::Stretching,
                interval_minutes: 60,
                message: "🧘 Take a moment to stretch your body!".to_owned(),
                enabled: true,
                last_triggered: None,
            },
        );
        reminders.push(
            HealthReminder {
                id: new_uuid_string(),
                reminder_type: ReminderType::EyeRest,
                interval_minutes: 20,
                message: "👁️ Follow the 20-20-20 rule: Look 20 feet away for 20 seconds.".to_owned(),
                enabled: true,
                last_triggered: None,
            },
        );
        reminders.push(
            HealthReminder {
                id: new_uuid_string(),
                reminder_type: ReminderType::Posture,
                interval_minutes: 45,
                message: "🪑 Check your posture! Sit up straight.".to_owned(),
                enabled: true,
                last_triggered: None,
            },
        );
        ReminderSettings { reminders, enabled: true, only_during_focus: false }
    }
}

/// Index `j` holds the first reminder of `items` whose id is `id`.
pub open spec fn spec_first_reminder_with_id(
    items: Seq<HealthReminder>,
    id: Seq<char>,
    j: int,
) -> bool {
    &&& 0 <= j < items.len()
    &&& items[j].id@ == id
    &&& forall|k: int| 0 <= k < j ==> (#[trigger] items[k]).id@ != id
}

/// The reminder with each optional field replaced where a new value was
/// supplied and kept otherwise.
pub open spec fn spec_apply_update(
    r: HealthReminder,
    interval_minutes: Option<u32>,
    message: Option<String>,
    enabled: Option<bool>,
) -> HealthReminder {
    HealthReminder {
        interval_minutes: match interval_minutes {
            Some(iv) => iv,
            None => r.interval_minutes,
        },
        message: match message {
            Some(m) => m,
            None => r.message,
        },
        enabled: match enabled {
            Some(en) => en,
            None => r.enabled,
        },
        ..r
    }
}

/// The reminder manager: one settings record.
pub struct ReminderManager {
    settings: ReminderSettings,
}

impl ReminderManager {
    /// The stored configuration.
    pub closed spec fn spec_settings(&self) -> ReminderSettings {
        self.settings
    }
}

impl Default for ReminderManager {
    /// A fresh manager holding the built-in reminder set.
    fn default() -> (r: Self)
        ensures
            r.spec_settings().enabled == true,
            r.spec_settings().only_during_focus == false,
            r.spec_settings().reminders@.len() == 4,
            r.spec_settings().reminders@[0].reminder_type == ReminderType::Hydration,
            r.spec_settings().reminders@[0].interval_minutes == 30,
            r.spec_settings().reminders@[1].reminder_type == ReminderType::Stretching,
            r.spec_settings().reminders@[1].interval_minutes == 60,
            r.spec_settings().reminders@[2].reminder_type == ReminderType::EyeRest,
            r.spec_settings().reminders@[2].interval_minutes == 20,
            r.spec_settings().reminders@[3].reminder_type == ReminderType::Posture,
            r.spec_settings().reminders@[3].interval_minutes == 45,
            forall|i: int|
                0 <= i < 4 ==> (#[trigger] r.spec_settings().reminders@[i]).enabled == true
                    && r.spec_settings().reminders@[i].id@.len() == 36
                    && r.spec_settings().reminders@[i].last_triggered is None,
    {
        ReminderManager { settings: ReminderSettings::default() }
    }
}

impl ReminderManager {
    /// Return a copy of the stored configuration. Never fails, never
    /// mutates.
    pub fn get_reminder_settings(&self) -> (r: Result<ReminderSettings, CommandError>)
        ensures
            r matches Ok(s) && s.reminders@ == self.spec_settings().reminders@ && s.enabled
                == self.spec_settings().enabled && s.only_during_focus
                == self.spec_settings().only_during_focus,
    {
        Ok(self.settings.clone())
    }

    /// Replace the configuration wholesale. Never fails.
    pub fn update_reminder_settings(&mut self, settings: ReminderSettings) -> (r: Result<
        (),
        CommandError,
    >)
        ensures
            final(self).spec_settings() == settings,
            r == Ok::<(), CommandError>(()),
    {
        self.settings = settings;
        Ok(())
    }

    /// Append a custom reminder with a fresh id, enabled, never triggered.
    /// Returns the new record. Never fails.
    pub fn add_custom_reminder(&mut self, interval_minutes: u32, message: String) -> (r: Result<
        HealthReminder,
        CommandError,
    >)
        ensures
            r matches Ok(reminder) && {
                &&& reminder.id@.len() == 36
                &&& reminder.reminder_type == ReminderType::Custom
                &&& reminder.interval_minutes == interval_minutes
                &&& reminder.message == message
                &&& reminder.enabled == true
                &&& reminder.last_triggered is None
                &&& final(self).spec_settings().reminders@ == old(self).spec_settings().reminders@.push(reminder)
                &&& final(self).spec_settings().enabled == old(self).spec_settings().enabled
                &&& final(self).spec_settings().only_during_focus == old(self).spec_settings().only_during_focus
            },
    {
        let reminder = HealthReminder {
            id: new_uuid_string(),
            reminder_type: ReminderType::Custom,
            interval_minutes,
            message,
            enabled: true,
            last_triggered: None,
        };
        self.settings.reminders.push(reminder.clone());
        Ok(reminder)
    }

    /// Update the first reminder whose id matches: each supplied field
    /// replaces the stored one, absent fields are kept. With no matching
    /// reminder, nothing changes and the lookup failure is reported.
    pub fn update_reminder(
        &mut self,
        id: String,
        interval_minutes: Option<u32>,
        message: Option<String>,
        enabled: Option<bool>,
    ) -> (r: Result<(), CommandError>)
        ensures
            final(self).spec_settings().enabled == old(self).spec_settings().enabled,
            final(self).spec_settings().only_during_focus == old(self).spec_settings().only_during_focus,
            (forall|k: int|
                0 <= k < old(self).spec_settings().reminders@.len() ==> (#[trigger] old(self).spec_settings().reminders@[k]).id@ != id@) ==> final(self).spec_settings().reminders@ == old(self).spec_settings().reminders@ && r == Err::<
                (),
                CommandError,
            >(CommandError::ReminderNotFound),
            (exists|k: int|
                0 <= k < old(self).spec_settings().reminders@.len() && (#[trigger] old(self).spec_settings().reminders@[k]).id@ == id@) ==> r == Ok::<(), CommandError>(())
                && (exists|j: int|
                spec_first_reminder_with_id(old(self).spec_settings().reminders@, id@, j)
                    && final(self).spec_settings().reminders@
                    == old(self).spec_settings().reminders@.update(
                    j,
                    spec_apply_update(
                        old(self).spec_settings().reminders@[j],
                        interval_minutes,
                        message,
                        enabled,
                    ),
                )),
    {
        let n = self.settings.reminders.len();
        let mut i: usize = 0;
        while i < n
            invariant
                i <= n,
                n == self.settings.reminders@.len(),
                self.settings == old(self).settings,
                forall|k: int| 0 <= k < i ==> (#[trigger] self.settings.reminders@[k]).id@ != id@,
            decreases n - i,
        {
            if str_eq(self.settings.reminders[i].id.as_str(), id.as_str()) {
                let current = self.settings.reminders[i].clone();
                let updated = HealthReminder {
                    id: current.id,
                    reminder_type: current.reminder_type,
                    interval_minutes: match interval_minutes {
                        Some(iv) => iv,
                        None => current.interval_minutes,
                    },
                    message: match message {
                        Some(m) => m,
                        None => current.message,
                    },
                    enabled: match enabled {
                        Some(en) => en,
                        None => current.enabled,
                    },
                    last_triggered: current.last_triggered,
                };
                self.settings.reminders[i] = updated;
                proof {
                    let items = old(self).spec_settings().reminders@;
                    assert(spec_first_reminder_with_id(items, id@, i as int));
                    assert(self.settings.reminders@ =~= items.update(
                        i as int,
                        spec_apply_update(items[i as int], interval_minutes, message, enabled),
                    ));
                }
                return Ok(());
            }
            i = i + 1;
        }
        Err(CommandError::ReminderNotFound)
    }

    /// Remove every reminder whose id equals `id`, keeping the rest in
    /// order. Never fails.
    pub fn delete_reminder(&mut self, id: String) -> (r: Result<(), CommandError>)
        ensures
            final(self).spec_settings().reminders@ == old(self).spec_settings().reminders@.filter(
                |rem: HealthReminder| rem.id@ != id@,
            ),
            final(self).spec_settings().enabled == old(self).spec_settings().enabled,
            final(self).spec_settings().only_during_focus == old(self).spec_settings().only_during_focus,
            r == Ok::<(), CommandError>(()),
    {
        let ghost pred = |rem: HealthReminder| rem.id@ != id@;
        let mut kept: Vec<HealthReminder> = Vec::new();
        let n = self.settings.reminders.len();
        let mut i: usize = 0;
        while i < n
            invariant
                i <= n,
                n == self.settings.reminders@.len(),
                self.settings == old(self).settings,
                kept@ == self.settings.reminders@.subrange(0, i as int).filter(pred),
                pred == (|rem: HealthReminder| rem.id@ != id@),
            decreases n - i,
        {
            let ghost prefix = self.settings.reminders@.subrange(0, i as int);
            let item = &self.settings.reminders[i];
            if !str_eq(item.id.as_str(), id.as_str()) {
                kept.push(item.clone());
            }
            proof {
                reveal_with_fuel(Seq::<_>::filter, 2);
                let longer = self.settings.reminders@.subrange(0, i + 1);
                assert(longer.drop_last() =~= prefix);
                assert(longer.last() == self.settings.reminders@[i as int]);
                assert(longer.filter(pred) == if pred(longer.last()) {
                    prefix.filter(pred).push(longer.last())
                } else {
                    prefix.filter(pred)
                });
            }
            i = i + 1;
        }
        proof {
            assert(self.settings.reminders@.subrange(0, n as int) =~= self.settings.reminders@);
        }
        self.settings.reminders = kept;
        Ok(())
    }

    /// Flip the enabled flag of the first reminder whose id matches. With
    /// no matching reminder, nothing changes and the lookup failure is
    /// reported.
    pub fn toggle_reminder(&mut self, id: String) -> (r: Result<(), CommandError>)
        ensures
            final(self).spec_settings().enabled == old(self).spec_settings().enabled,
            final(self).spec_settings().only_during_focus == old(self).spec_settings().only_during_focus,
            (forall|k: int|
                0 <= k < old(self).spec_settings().reminders@.len() ==> (#[trigger] old(self).spec_settings().reminders@[k]).id@ != id@) ==> final(self).spec_settings().reminders@ == old(self).spec_settings().reminders@ && r == Err::<
                (),
                CommandError,
            >(CommandError::ReminderNotFound),
            (exists|k: int|
                0 <= k < old(self).spec_settings().reminders@.len() && (#[trigger] old(self).spec_settings().reminders@[k]).id@ == id@) ==> r == Ok::<(), CommandError>(())
                && (exists|j: int|
                spec_first_reminder_with_id(old(self).spec_settings().reminders@, id@, j)
                    && final(self).spec_settings().reminders@
                    == old(self).spec_settings().reminders@.update(
                    j,
                    (HealthReminder {
                        enabled: !old(self).spec_settings().reminders@[j].enabled,
                        ..old(self).spec_settings().reminders@[j]
                    }),
                )),
    {
        let n = self.settings.reminders.len();
        let mut i: usize = 0;
        while i < n
            invariant
                i <= n,
                n == self.settings.reminders@.len(),
                self.settings == old(self).settings,
                forall|k: int| 0 <= k < i ==> (#[trigger] self.settings.reminders@[k]).id@ != id@,
            decreases n - i,
        {
            if str_eq(self.settings.reminders[i].id.as_str(), id.as_str()) {
                let flipped = !self.settings.reminders[i].enabled;
                self.settings.reminders[i].enabled = flipped;
                proof {
                    let items = old(self).spec_settings().reminders@;
                    assert(spec_first_reminder_with_id(items, id@, i as int));
                    assert(self.settings.reminders@ =~= items.update(
                        i as int,
                        (HealthReminder {
                            enabled: !items[i as int].enabled,
                            ..items[i as int]
                        }),
                    ));
                }
                return Ok(());
            }
            i = i + 1;
        }
        Err(CommandError::ReminderNotFound)
    }

    /// Report the reminders that are currently due. When a reminder fires
    /// is the caller's own timing concern, so none is ever reported here.
    /// Never fails.
    pub fn get_due_reminders(&self) -> (r: Result<Vec<HealthReminder>, CommandError>)
        ensures
            r matches Ok(v) && v@.len() == 0,
    {
        Ok(Vec::new())
    }
}

} // verus!

//! Distraction blocking: a list of blocked sites/apps, a matching check for
//! URLs, and a caller-initiated override.
//!
//! A thin record manager: the only rule it encodes is the URL check, which
//! reports a block exactly when blocking is enabled, no override is active,
//! and some active item's pattern occurs in the URL. An override, once
//! requested, stays active until `end_override` is called: nothing here
//! expires it.

use vstd::prelude::*;

use crate::errors::CommandError;
use crate::ids::new_uuid_string;
use crate::text::{spec_contains, str_contains, str_eq};

verus! {

/// What a blocked item refers to.
#[derive(Clone, Copy, Debug, PartialEq, Eq, Structural)]
pub enum BlockItemType {
    Website,
    Application,
}

/// One entry of the block list.
#[derive(Debug)]
pub struct BlockedItem {
    pub id: String,
    pub name: String,
    /// Substring matched against checked URLs.
    pub url_pattern: String,
    pub item_type: BlockItemType,
    pub is_active: bool,
}

impl Clone for BlockedItem {
    fn clone(&self) -> (r: Self)
        ensures
            r == *self,
    {
        BlockedItem {
            id: self.id.clone(),
            name: self.name.clone(),
            url_pattern: self.url_pattern.clone(),
            item_type: self.item_type,
            is_active: self.is_active,
        }
    }
}

/// How matches are treated.
#[derive(Clone, Copy, Debug, PartialEq, Eq, Structural)]
pub enum BlockMode {
    /// Show a warning but allow access.
    Warn,
    /// Completely block access.
    Block,
}

/// The blocker configuration record.
#[derive(Debug)]
pub struct BlockerSettings {
    pub enabled: bool,
    pub block_mode: BlockMode,
    pub blocked_items: Vec<BlockedItem>,
    pub allow_override: bool,
    /// Stored override duration, in seconds; accepted but never enforced.
    pub override_timeout: u32,
}

impl Clone for BlockerSettings {
    fn clone(&self) -> (r: Self)
        ensures
            r.enabled == self.enabled,
            r.block_mode == self.block_mode,
            r.blocked_items@ == self.blocked_items@,
            r.allow_override == self.allow_override,
            r.override_timeout == self.override_timeout,
    {
        let items = self.blocked_items.clone();
        proof {
            assert forall|i: int| 0 <= i < self.blocked_items@.len() implies items@[i]
                == self.blocked_items@[i] by {
                assert(cloned::<BlockedItem>(self.blocked_items[i], items[i]));
            }
            assert(items@ =~= self.blocked_items@);
        }
        BlockerSettings {
            enabled: self.enabled,
            block_mode: self.block_mode,
            blocked_items: items,
            allow_override: self.allow_override,
            override_timeout: self.override_timeout,
        }
    }
}

impl Default for BlockerSettings {
    /// The default configuration: disabled, warn-only, an empty block list,
    /// overrides allowed with a stored 5 minute duration.
    fn default() -> (r: Self)
        ensures
            r.enabled == false,
            r.block_mode == BlockMode::Warn,
            r.blocked_items@.len() == 0,
            r.allow_override == true,
            r.override_timeout == 300,
    {
        BlockerSettings {
            enabled: false,
            block_mode: BlockMode::Warn,
            blocked_items: Vec::new(),
            allow_override: true,
            override_timeout: 300,
        }
    }
}

/// A URL is blocked exactly when blocking is enabled, no override is
/// active, and some active item's pattern occurs in the URL.
pub open spec fn spec_url_blocked(
    items: Seq<BlockedItem>,
    enabled: bool,
    override_active: bool,
    url: Seq<char>,
) -> bool {
    &&& enabled
    &&& !override_active
    &&& exists|k: int|
        0 <= k < items.len() && (#[trigger] items[k]).is_active && spec_contains(
            url,
            items[k].url_pattern@,
        )
}

/// Index `j` holds the first entry of `items` whose id is `id`.
pub open spec fn spec_first_with_id(items: Seq<BlockedItem>, id: Seq<char>, j: int) -> bool {
    &&& 0 <= j < items.len()
    &&& items[j].id@ == id
    &&& forall|k: int| 0 <= k < j ==> (#[trigger] items[k]).id@ != id
}

/// The distraction blocker: one settings record and the override flag.
pub struct BlockerManager {
    settings: BlockerSettings,
    override_active: bool,
}

impl BlockerManager {
    /// The stored configuration.
    pub closed spec fn spec_settings(&self) -> BlockerSettings {
        self.settings
    }

    /// Whether a caller-requested override is currently active.
    pub closed spec fn spec_override_active(&self) -> bool {
        self.override_active
    }
}

impl Default for BlockerManager {
    /// A fresh manager: default settings, no override active.
    fn default() -> (r: Self)
        ensures
            r.spec_settings().enabled == false,
            r.spec_settings().block_mode == BlockMode::Warn,
            r.spec_settings().blocked_items@.len() == 0,
            r.spec_settings().allow_override == true,
            r.spec_settings().override_timeout == 300,
            r.spec_override_active() == false,
    {
        BlockerManager { settings: BlockerSettings::default(), override_active: false }
    }
}

impl BlockerManager {
    /// Return a copy of the stored configuration. Never fails, never
    /// mutates.
    pub fn get_blocker_settings(&self) -> (r: Result<BlockerSettings, CommandError>)
        ensures
            r matches Ok(s) && s.enabled == self.spec_settings().enabled && s.block_mode
                == self.spec_settings().block_mode && s.blocked_items@
                == self.spec_settings().blocked_items@ && s.allow_override
                == self.spec_settings().allow_override && s.override_timeout
                == self.spec_settings().override_timeout,
    {
        Ok(self.settings.clone())
    }

    /// Replace the configuration wholesale. Never fails; the override flag
    /// is untouched.
    pub fn update_blocker_settings(&mut self, settings: BlockerSettings) -> (r: Result<
        (),
        CommandError,
    >)
        ensures
            final(self).spec_settings() == settings,
            final(self).spec_override_active() == old(self).spec_override_active(),
            r == Ok::<(), CommandError>(()),
    {
        self.settings = settings;
        Ok(())
    }

    /// Append a new block-list entry with a fresh id: type `"application"`
    /// maps to an application item, anything else to a website item, and
    /// the entry starts active. Returns the entry. Never fails.
    pub fn add_blocked_item(&mut self, name: String, url_pattern: String, item_type: String) -> (r:
        Result<BlockedItem, CommandError>)
        ensures
            r matches Ok(item) && {
                &&& item.id@.len() == 36
                &&& item.name == name
                &&& item.url_pattern == url_pattern
                &&& item.item_type == (if item_type@ == "application"@ {
                    BlockItemType::Application
                } else {
                    BlockItemType::Website
                })
                &&& item.is_active == true
                &&& final(self).spec_settings().blocked_items@ == old(self).spec_settings().blocked_items@.push(item)
                &&& final(self).spec_settings().enabled == old(self).spec_settings().enabled
                &&& final(self).spec_settings().block_mode == old(self).spec_settings().block_mode
                &&& final(self).spec_settings().allow_override == old(self).spec_settings().allow_override
                &&& final(self).spec_settings().override_timeout == old(self).spec_settings().override_timeout
                &&& final(self).spec_override_active() == old(self).spec_override_active()
            },
    {
        proof {
            reveal_strlit("application");
        }
        let is_application = str_eq(item_type.as_str(), "application");
        let item = BlockedItem {
            id: new_uuid_string(),
            name,
            url_pattern,
            item_type: if is_application {
                BlockItemType::Application
            } else {
                BlockItemType::Website
            },
            is_active: true,
        };
        self.settings.blocked_items.push(item.clone());
        Ok(item)
    }

    /// Remove every entry whose id equals `id`, keeping the rest in order.
    /// Never fails; everything else is untouched.
    pub fn remove_blocked_item(&mut self, id: String) -> (r: Result<(), CommandError>)
        ensures
            final(self).spec_settings().blocked_items@ == old(self).spec_settings().blocked_items@.filter(|item: BlockedItem| item.id@ != id@),
            final(self).spec_settings().enabled == old(self).spec_settings().enabled,
            final(self).spec_settings().block_mode == old(self).spec_settings().block_mode,
            final(self).spec_settings().allow_override == old(self).spec_settings().allow_override,
            final(self).spec_settings().override_timeout == old(self).spec_settings().override_timeout,
            final(self).spec_override_active() == old(self).spec_override_active(),
            r == Ok::<(), CommandError>(()),
    {
        let ghost pred = |item: BlockedItem| item.id@ != id@;
        let mut kept: Vec<BlockedItem> = Vec::new();
        let n = self.settings.blocked_items.len();
        let mut i: usize = 0;
        while i < n
            invariant
                i <= n,
                n == self.settings.blocked_items@.len(),
                self.settings == old(self).settings,
                self.override_active == old(self).override_active,
                kept@ == self.settings.blocked_items@.subrange(0, i as int).filter(pred),
                pred == (|item: BlockedItem| item.id@ != id@),
            decreases n - i,
        {
            let ghost prefix = self.settings.blocked_items@.subrange(0, i as int);
            let item = &self.settings.blocked_items[i];
            if !str_eq(item.id.as_str(), id.as_str()) {
                kept.push(item.clone());
            }
            proof {
                reveal_with_fuel(Seq::<_>::filter, 2);
                let longer = self.settings.blocked_items@.subrange(0, i + 1);
                assert(longer.drop_last() =~= prefix);
                assert(longer.last() == self.settings.blocked_items@[i as int]);
                assert(longer.filter(pred) == if pred(longer.last()) {
                    prefix.filter(pred).push(longer.last())
                } else {
                    prefix.filter(pred)
                });
            }
            i = i + 1;
        }
        proof {
            assert(self.settings.blocked_items@.subrange(0, n as int)
                =~= self.settings.blocked_items@);
        }
        self.settings.blocked_items = kept;
        Ok(())
    }

    /// Toggle the active flag of the first entry whose id equals `id`; with
    /// no such entry, change nothing. Never fails either way.
    pub fn toggle_blocked_item(&mut self, id: String) -> (r: Result<(), CommandError>)
        ensures
            final(self).spec_settings().enabled == old(self).spec_settings().enabled,
            final(self).spec_settings().block_mode == old(self).spec_settings().block_mode,
            final(self).spec_settings().allow_override == old(self).spec_settings().allow_override,
            final(self).spec_settings().override_timeout == old(self).spec_settings().override_timeout,
            final(self).spec_override_active() == old(self).spec_override_active(),
            r == Ok::<(), CommandError>(()),
            (forall|k: int|
                0 <= k < old(self).spec_settings().blocked_items@.len() ==> (#[trigger] old(self).spec_settings().blocked_items@[k]).id@ != id@) ==> final(self).spec_settings().blocked_items@ == old(self).spec_settings().blocked_items@,
            (exists|k: int|
                0 <= k < old(self).spec_settings().blocked_items@.len() && (#[trigger] old(self).spec_settings().blocked_items@[k]).id@ == id@) ==> (exists|j: int|
                spec_first_with_id(old(self).spec_settings().blocked_items@, id@, j)
                    && final(self).spec_settings().blocked_items@
                    == old(self).spec_settings().blocked_items@.update(
                    j,
                    (BlockedItem {
                        is_active: !old(self).spec_settings().blocked_items@[j].is_active,
                        ..old(self).spec_settings().blocked_items@[j]
                    }),
                )),
    {
        let n = self.settings.blocked_items.len();
        let mut i: usize = 0;
        while i < n
            invariant
                i <= n,
                n == self.settings.blocked_items@.len(),
                self.settings == old(self).settings,
                self.override_active == old(self).override_active,
                forall|k: int|
                    0 <= k < i ==> (#[trigger] self.settings.blocked_items@[k]).id@ != id@,
            decreases n - i,
        {
            if str_eq(self.settings.blocked_items[i].id.as_str(), id.as_str()) {
                let flipped = !self.settings.blocked_items[i].is_active;
                self.settings.blocked_items[i].is_active = flipped;
                proof {
                    let items = old(self).spec_settings().blocked_items@;
                    assert(spec_first_with_id(items, id@, i as int));
                    assert(self.settings.blocked_items@ =~= items.update(
                        i as int,
                        (BlockedItem { is_active: !items[i as int].is_active, ..items[i as int] }),
                    ));
                }
                return Ok(());
            }
            i = i + 1;
        }
        Ok(())
    }

    /// Report whether the URL is blocked: enabled, no override, and some
    /// active item's pattern occurs in the URL. Pure read. Never fails.
    pub fn check_url_blocked(&self, url: String) -> (r: Result<bool, CommandError>)
        ensures
            r == Ok::<bool, CommandError>(
                spec_url_blocked(
                    self.spec_settings().blocked_items@,
                    self.spec_settings().enabled,
                    self.spec_override_active(),
                    url@,
                ),
            ),
    {
        if !self.settings.enabled || self.override_active {
            return Ok(false);
        }
        let n = self.settings.blocked_items.len();
        let mut i: usize = 0;
        while i < n
            invariant
                i <= n,
                n == self.settings.blocked_items@.len(),
                self.settings.enabled,
                !self.override_active,
                forall|k: int|
                    0 <= k < i ==> !((#[trigger] self.settings.blocked_items@[k]).is_active
                        && spec_contains(url@, self.settings.blocked_items@[k].url_pattern@)),
            decreases n - i,
        {
            let item = &self.settings.blocked_items[i];
            if item.is_active && str_contains(url.as_str(), item.url_pattern.as_str()) {
                proof {
                    let items = self.spec_settings().blocked_items@;
                    assert(0 <= i < items.len() && items[i as int].is_active && spec_contains(
                        url@,
                        items[i as int].url_pattern@,
                    ));
                }
                return Ok(true);
            }
            i = i + 1;
        }
        Ok(false)
    }

    /// Request a blocking override for the stated duration. Granted (and
    /// the override turned on) exactly when the settings allow overrides;
    /// the duration is stored policy only — nothing here expires the
    /// override. Never fails.
    pub fn request_override(&mut self, _duration: u32) -> (r: Result<bool, CommandError>)
        ensures
            final(self).spec_settings() == old(self).spec_settings(),
            old(self).spec_settings().allow_override ==> final(self).spec_override_active() && r
                == Ok::<bool, CommandError>(true),
            !old(self).spec_settings().allow_override ==> final(self).spec_override_active() == old(self).spec_override_active() && r == Ok::<bool, CommandError>(false),
    {
        if !self.settings.allow_override {
            return Ok(false);
        }
        self.override_active = true;
        Ok(true)
    }

    /// End any active override. Never fails; the settings are untouched.
    pub fn end_override(&mut self) -> (r: Result<(), CommandError>)
        ensures
            final(self).spec_settings() == old(self).spec_settings(),
            final(self).spec_override_active() == false,
            r == Ok::<(), CommandError>(()),
    {
        self.override_active = false;
        Ok(())
    }
}

/// The built-in list of popular distracting sites.
pub fn get_popular_distractions() -> (r: Result<Vec<String>, CommandError>)
    ensures
        r matches Ok(v) && {
            &&& v@.len() == 10
            &&& v@[0]@ == "youtube.com"@
            &&& v@[1]@ == "facebook.com"@
            &&& v@[2]@ == "twitter.com"@
            &&& v@[3]@ == "x.com"@
            &&& v@[4]@ == "instagram.com"@
            &&& v@[5]@ == "reddit.com"@
            &&& v@[6]@ == "tiktok.com"@
            &&& v@[7]@ == "netflix.com"@
            &&& v@[8]@ == "twitch.tv"@
            &&& v@[9]@ == "discord.com"@
        },
{
    let mut v: Vec<String> = Vec::new();
    v.push("youtube.com".to_owned());
    v.push("facebook.com".to_owned());
    v.push("twitter.com".to_owned());
    v.push("x.com".to_owned());
    v.push("instagram.com".to_owned());
    v.push("reddit.com".to_owned());
    v.push("tiktok.com".to_owned());
    v.push("netflix.com".to_owned());
    v.push("twitch.tv".to_owned());
    v.push("discord.com".to_owned());
    Ok(v)
}

} // verus!

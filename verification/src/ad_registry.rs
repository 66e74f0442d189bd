//! Ad content registry: creative assets, their review status, reports from
//! viewers, and view/click counters.
use vstd::prelude::*;
use vstd::hash_map::HashMapWithView;
use crate::types::{Address, pair_key, make_pair_key};
use crate::error::Error;
use crate::admin::AdminRole;

verus! {

broadcast use vstd::std_specs::hash::group_hash_axioms;

/// Smallest accepted content size, in bytes.
pub const DEFAULT_MIN_CONTENT_SIZE: u64 = 100;
/// Largest accepted content size, in bytes (10 MiB).
pub const DEFAULT_MAX_CONTENT_SIZE: u64 = 10_485_760;
/// Number of reports after which content is suspended.
pub const DEFAULT_FLAG_THRESHOLD: u32 = 5;

#[derive(Clone, Copy, Debug, PartialEq, Eq, Structural)]
pub enum ContentStatus {
    Pending,
    Approved,
    Rejected,
    Suspended,
    Archived,
}

#[derive(Clone, Copy, Debug, PartialEq, Eq, Structural)]
pub enum ContentFormat {
    Image,
    Video,
    Text,
    Native,
}

#[derive(Clone, Debug)]
pub struct AdContent {
    pub campaign_id: u64,
    pub owner: Address,
    pub ipfs_hash: String,
    pub format: ContentFormat,
    pub size: u64,
    pub status: ContentStatus,
    pub created_at: u64,
    pub updated_at: u64,
    pub flags_count: u32,
}

#[derive(Clone, Debug)]
pub struct ContentMetadata {
    pub title: String,
    pub description: String,
    pub call_to_action: String,
    pub landing_url: String,
}

/// View and click counters of a content. `click_through_rate` is clicks per
/// view in units of 1/10000 (525 means 5.25%).
#[derive(Clone, Copy, Debug, PartialEq, Eq)]
pub struct ContentPerformance {
    pub total_views: u64,
    pub total_clicks: u64,
    pub unique_viewers: u64,
    pub click_through_rate: u64,
    pub last_shown: u64,
}

#[derive(Clone, Debug)]
pub struct FlagRecord {
    pub reason: String,
    pub timestamp: u64,
    pub verified: bool,
}

/// The registry's storage as mathematical values. Reports are keyed by
/// `pair_key(content_id, reporter)`.
#[verifier::ext_equal]
pub struct AdRegistryState {
    pub roles: AdminRole,
    pub content_nonce: u64,
    pub min_content_size: u64,
    pub max_content_size: u64,
    pub flag_threshold: u32,
    pub contents: Map<u64, AdContent>,
    pub metadata: Map<u64, ContentMetadata>,
    pub performance: Map<u64, ContentPerformance>,
    pub flags: Map<u128, FlagRecord>,
}

pub struct AdRegistryContract {
    roles: AdminRole,
    content_nonce: u64,
    min_content_size: u64,
    max_content_size: u64,
    flag_threshold: u32,
    contents: HashMapWithView<u64, AdContent>,
    metadata: HashMapWithView<u64, ContentMetadata>,
    performance: HashMapWithView<u64, ContentPerformance>,
    flags: HashMapWithView<u128, FlagRecord>,
}

impl View for AdRegistryContract {
    type V = AdRegistryState;

    closed spec fn view(&self) -> AdRegistryState {
        AdRegistryState {
            roles: self.roles,
            content_nonce: self.content_nonce,
            min_content_size: self.min_content_size,
            max_content_size: self.max_content_size,
            flag_threshold: self.flag_threshold,
            contents: self.contents@,
            metadata: self.metadata@,
            performance: self.performance@,
            flags: self.flags@,
        }
    }
}

/// Counters of a newly registered content.
pub open spec fn fresh_performance() -> ContentPerformance {
    ContentPerformance {
        total_views: 0,
        total_clicks: 0,
        unique_viewers: 0,
        click_through_rate: 0,
        last_shown: 0,
    }
}

/// Clicks per view in units of 1/10000; 0 when there are no views.
pub open spec fn ctr(clicks: u64, views: u64) -> int {
    if views > 0 { (clicks * 10_000) / (views as int) } else { 0 }
}

impl AdRegistryState {
    pub open spec fn register_check(self, size: u64) -> Option<Error> {
        if size < self.min_content_size || size > self.max_content_size {
            Some(Error::InvalidContentSize)
        } else if self.content_nonce == u64::MAX {
            Some(Error::Overflow)
        } else {
            None
        }
    }

    pub open spec fn status_check(self, admin: Address, content_id: u64) -> Option<Error> {
        if self.roles.admin_check(admin) is Some {
            self.roles.admin_check(admin)
        } else if !self.contents.contains_key(content_id) {
            Some(Error::ContentNotFound)
        } else {
            None
        }
    }

    pub open spec fn flag_check(self, reporter: Address, content_id: u64) -> Option<Error> {
        if !self.contents.contains_key(content_id) {
            Some(Error::ContentNotFound)
        } else if self.contents[content_id].owner == reporter {
            Some(Error::CannotFlagOwnContent)
        } else if self.contents[content_id].flags_count == u32::MAX {
            Some(Error::Overflow)
        } else {
            None
        }
    }

    /// The content after one more report at `now`: suspended once the reports
    /// reach the threshold.
    pub open spec fn flagged(c: AdContent, threshold: u32, now: u64) -> AdContent {
        let count = (c.flags_count + 1) as u32;
        AdContent {
            flags_count: count,
            status: if count >= threshold { ContentStatus::Suspended } else { c.status },
            updated_at: now,
            ..c
        }
    }

    pub open spec fn view_check(self, content_id: u64) -> Option<Error> {
        if !self.contents.contains_key(content_id) {
            Some(Error::ContentNotFound)
        } else if self.contents[content_id].status != ContentStatus::Approved {
            Some(Error::ContentNotApproved)
        } else if !self.performance.contains_key(content_id) {
            Some(Error::PerformanceNotFound)
        } else {
            let p = self.performance[content_id];
            if p.total_views == u64::MAX || p.unique_viewers == u64::MAX
                || p.total_clicks * 10_000 > u64::MAX {
                Some(Error::Overflow)
            } else {
                None
            }
        }
    }

    pub open spec fn viewed(p: ContentPerformance, now: u64) -> ContentPerformance {
        let views = (p.total_views + 1) as u64;
        ContentPerformance {
            total_views: views,
            unique_viewers: (p.unique_viewers + 1) as u64,
            last_shown: now,
            click_through_rate: ctr(p.total_clicks, views) as u64,
            ..p
        }
    }

    pub open spec fn click_check(self, content_id: u64) -> Option<Error> {
        if !self.performance.contains_key(content_id) {
            Some(Error::PerformanceNotFound)
        } else {
            let p = self.performance[content_id];
            if p.total_clicks == u64::MAX || (p.total_views > 0 && (p.total_clicks + 1)
                * 10_000 > u64::MAX) {
                Some(Error::Overflow)
            } else {
                None
            }
        }
    }

    pub open spec fn clicked(p: ContentPerformance) -> ContentPerformance {
        let clicks = (p.total_clicks + 1) as u64;
        ContentPerformance {
            total_clicks: clicks,
            click_through_rate: if p.total_views > 0 {
                ctr(clicks, p.total_views) as u64
            } else {
                p.click_through_rate
            },
            ..p
        }
    }

    pub open spec fn archive_check(self, owner: Address, content_id: u64) -> Option<Error> {
        if !self.contents.contains_key(content_id) {
            Some(Error::ContentNotFound)
        } else if self.contents[content_id].owner != owner {
            Some(Error::Unauthorized)
        } else {
            None
        }
    }
}

impl AdRegistryContract {
    /// An empty registry that has not been initialized; its settings hold the
    /// defaults.
    pub fn new() -> (c: AdRegistryContract)
        ensures
            c@.roles.admin is None,
            c@.roles.pending_admin is None,
            c@.content_nonce == 0,
            c@.min_content_size == DEFAULT_MIN_CONTENT_SIZE,
            c@.max_content_size == DEFAULT_MAX_CONTENT_SIZE,
            c@.flag_threshold == DEFAULT_FLAG_THRESHOLD,
            c@.contents.is_empty(),
            c@.metadata.is_empty(),
            c@.performance.is_empty(),
            c@.flags.is_empty(),
    {
        AdRegistryContract {
            roles: AdminRole::new(),
            content_nonce: 0,
            min_content_size: DEFAULT_MIN_CONTENT_SIZE,
            max_content_size: DEFAULT_MAX_CONTENT_SIZE,
            flag_threshold: DEFAULT_FLAG_THRESHOLD,
            contents: HashMapWithView::new(),
            metadata: HashMapWithView::new(),
            performance: HashMapWithView::new(),
            flags: HashMapWithView::new(),
        }
    }

    /// Makes `admin` the administrator and resets the settings to their
    /// defaults and the content counter to 0. Refused with
    /// `AlreadyInitialized` once an administrator exists.
    pub fn initialize(&mut self, admin: Address) -> (r: Result<(), Error>)
        ensures
            r == (if old(self)@.roles.admin is Some {
                Err::<(), Error>(Error::AlreadyInitialized)
            } else {
                Ok(())
            }),
            final(self)@ == (if r is Ok {
                AdRegistryState {
                    roles: AdminRole { admin: Some(admin), ..old(self)@.roles },
                    content_nonce: 0,
                    min_content_size: DEFAULT_MIN_CONTENT_SIZE,
                    max_content_size: DEFAULT_MAX_CONTENT_SIZE,
                    flag_threshold: DEFAULT_FLAG_THRESHOLD,
                    ..old(self)@
                }
            } else {
                old(self)@
            }),
    {
        if self.roles.admin.is_some() {
            return Err(Error::AlreadyInitialized);
        }
        self.roles.admin = Some(admin);
        self.content_nonce = 0;
        self.min_content_size = DEFAULT_MIN_CONTENT_SIZE;
        self.max_content_size = DEFAULT_MAX_CONTENT_SIZE;
        self.flag_threshold = DEFAULT_FLAG_THRESHOLD;
        Ok(())
    }

    /// Registers a content of `advertiser` for review. Its identifier is the
    /// counter plus one; it starts `Pending` with no reports and zero counters.
    /// Refused when `size` lies outside the accepted range.
    pub fn register_content(
        &mut self,
        now: u64,
        advertiser: Address,
        campaign_id: u64,
        ipfs_hash: String,
        format: ContentFormat,
        size: u64,
        title: String,
        description: String,
        call_to_action: String,
        landing_url: String,
    ) -> (r: Result<u64, Error>)
        ensures
            r == (match old(self)@.register_check(size) {
                Some(e) => Err(e),
                None => Ok((old(self)@.content_nonce + 1) as u64),
            }),
            final(self)@ == (match r {
                Ok(id) => AdRegistryState {
                    content_nonce: id,
                    contents: old(self)@.contents.insert(
                        id,
                        AdContent {
                            campaign_id,
                            owner: advertiser,
                            ipfs_hash,
                            format,
                            size,
                            status: ContentStatus::Pending,
                            created_at: now,
                            updated_at: now,
                            flags_count: 0,
                        },
                    ),
                    metadata: old(self)@.metadata.insert(
                        id,
                        ContentMetadata { title, description, call_to_action, landing_url },
                    ),
                    performance: old(self)@.performance.insert(id, fresh_performance()),
                    ..old(self)@
                },
                Err(_) => old(self)@,
            }),
    {
        if size < self.min_content_size || size > self.max_content_size {
            return Err(Error::InvalidContentSize);
        }
        let content_id = match self.content_nonce.checked_add(1) {
            Some(v) => v,
            None => return Err(Error::Overflow),
        };
        let content = AdContent {
            campaign_id,
            owner: advertiser,
            ipfs_hash,
            format,
            size,
            status: ContentStatus::Pending,
            created_at: now,
            updated_at: now,
            flags_count: 0,
        };
        let metadata = ContentMetadata { title, description, call_to_action, landing_url };
        let performance = ContentPerformance {
            total_views: 0,
            total_clicks: 0,
            unique_viewers: 0,
            click_through_rate: 0,
            last_shown: 0,
        };
        self.contents.insert(content_id, content);
        self.metadata.insert(content_id, metadata);
        self.performance.insert(content_id, performance);
        self.content_nonce = content_id;
        Ok(content_id)
    }

    /// The administrator sets the review status of a content.
    pub fn update_status(&mut self, now: u64, admin: Address, content_id: u64, new_status: ContentStatus) -> (r: Result<(), Error>)
        ensures
            r == (match old(self)@.status_check(admin, content_id) {
                Some(e) => Err(e),
                None => Ok(()),
            }),
            final(self)@ == (if r is Ok {
                AdRegistryState {
                    contents: old(self)@.contents.insert(
                        content_id,
                        AdContent {
                            status: new_status,
                            updated_at: now,
                            ..old(self)@.contents[content_id]
                        },
                    ),
                    ..old(self)@
                }
            } else {
                old(self)@
            }),
    {
        self.roles.require_admin(admin)?;
        let mut content = match self.contents.remove(&content_id) {
            Some(c) => c,
            None => return Err(Error::ContentNotFound),
        };
        content.status = new_status;
        content.updated_at = now;
        self.contents.insert(content_id, content);
        Ok(())
    }

    /// `reporter` reports a content it does not own. The report is recorded
    /// (replacing an earlier one by the same reporter) and the content's report
    /// count rises by one; at the threshold the content is suspended.
    pub fn flag_content(&mut self, now: u64, reporter: Address, content_id: u64, reason: String) -> (r: Result<(), Error>)
        ensures
            r == (match old(self)@.flag_check(reporter, content_id) {
                Some(e) => Err(e),
                None => Ok(()),
            }),
            final(self)@ == (if r is Ok {
                AdRegistryState {
                    flags: old(self)@.flags.insert(
                        pair_key(content_id, reporter),
                        FlagRecord { reason, timestamp: now, verified: false },
                    ),
                    contents: old(self)@.contents.insert(
                        content_id,
                        AdRegistryState::flagged(
                            old(self)@.contents[content_id],
                            old(self)@.flag_threshold,
                            now,
                        ),
                    ),
                    ..old(self)@
                }
            } else {
                old(self)@
            }),
    {
        let mut content = match self.contents.remove(&content_id) {
            Some(c) => c,
            None => return Err(Error::ContentNotFound),
        };
        if content.owner == reporter {
            self.contents.insert(content_id, content);
            return Err(Error::CannotFlagOwnContent);
        }
        let count = match content.flags_count.checked_add(1) {
            Some(v) => v,
            None => {
                self.contents.insert(content_id, content);
                return Err(Error::Overflow);
            },
        };
        let key = make_pair_key(content_id, reporter);
        self.flags.insert(key, FlagRecord { reason, timestamp: now, verified: false });
        content.flags_count = count;
        if count >= self.flag_threshold {
            content.status = ContentStatus::Suspended;
        }
        content.updated_at = now;
        self.contents.insert(content_id, content);
        Ok(())
    }

    /// Counts a view of an approved content and recomputes its click-through
    /// rate.
    pub fn track_view(&mut self, now: u64, content_id: u64) -> (r: Result<(), Error>)
        ensures
            r == (match old(self)@.view_check(content_id) {
                Some(e) => Err(e),
                None => Ok(()),
            }),
            final(self)@ == (if r is Ok {
                AdRegistryState {
                    performance: old(self)@.performance.insert(
                        content_id,
                        AdRegistryState::viewed(old(self)@.performance[content_id], now),
                    ),
                    ..old(self)@
                }
            } else {
                old(self)@
            }),
    {
        match self.contents.get(&content_id) {
            None => return Err(Error::ContentNotFound),
            Some(c) => {
                if c.status != ContentStatus::Approved {
                    return Err(Error::ContentNotApproved);
                }
            },
        }
        let p = match self.performance.get(&content_id) {
            Some(p) => *p,
            None => return Err(Error::PerformanceNotFound),
        };
        if p.total_views == u64::MAX || p.unique_viewers == u64::MAX || p.total_clicks > u64::MAX
            / 10_000 {
            return Err(Error::Overflow);
        }
        let views = p.total_views + 1;
        let rate = (p.total_clicks * 10_000) / views;
        let updated = ContentPerformance {
            total_views: views,
            unique_viewers: p.unique_viewers + 1,
            last_shown: now,
            click_through_rate: rate,
            ..p
        };
        self.performance.insert(content_id, updated);
        Ok(())
    }

    /// Counts a click on a content and, when it has views, recomputes its
    /// click-through rate.
    pub fn track_click(&mut self, content_id: u64) -> (r: Result<(), Error>)
        ensures
            r == (match old(self)@.click_check(content_id) {
                Some(e) => Err(e),
                None => Ok(()),
            }),
            final(self)@ == (if r is Ok {
                AdRegistryState {
                    performance: old(self)@.performance.insert(
                        content_id,
                        AdRegistryState::clicked(old(self)@.performance[content_id]),
                    ),
                    ..old(self)@
                }
            } else {
                old(self)@
            }),
    {
        let p = match self.performance.get(&content_id) {
            Some(p) => *p,
            None => return Err(Error::PerformanceNotFound),
        };
        if p.total_clicks == u64::MAX {
            return Err(Error::Overflow);
        }
        let clicks = p.total_clicks + 1;
        let mut rate = p.click_through_rate;
        if p.total_views > 0 {
            if clicks > u64::MAX / 10_000 {
                return Err(Error::Overflow);
            }
            rate = (clicks * 10_000) / p.total_views;
        }
        let updated = ContentPerformance { total_clicks: clicks, click_through_rate: rate, ..p };
        self.performance.insert(content_id, updated);
        Ok(())
    }

    /// The owner archives its content.
    pub fn archive_content(&mut self, now: u64, owner: Address, content_id: u64) -> (r: Result<(), Error>)
        ensures
            r == (match old(self)@.archive_check(owner, content_id) {
                Some(e) => Err(e),
                None => Ok(()),
            }),
            final(self)@ == (if r is Ok {
                AdRegistryState {
                    contents: old(self)@.contents.insert(
                        content_id,
                        AdContent {
                            status: ContentStatus::Archived,
                            updated_at: now,
                            ..old(self)@.contents[content_id]
                        },
                    ),
                    ..old(self)@
                }
            } else {
                old(self)@
            }),
    {
        let mut content = match self.contents.remove(&content_id) {
            Some(c) => c,
            None => return Err(Error::ContentNotFound),
        };
        if content.owner != owner {
            self.contents.insert(content_id, content);
            return Err(Error::Unauthorized);
        }
        content.status = ContentStatus::Archived;
        content.updated_at = now;
        self.contents.insert(content_id, content);
        Ok(())
    }

    pub fn get_content(&self, content_id: u64) -> (r: Option<&AdContent>)
        ensures
            r == (if self@.contents.contains_key(content_id) {
                Some(&self@.contents[content_id])
            } else {
                None
            }),
    {
        self.contents.get(&content_id)
    }

    pub fn get_metadata(&self, content_id: u64) -> (r: Option<&ContentMetadata>)
        ensures
            r == (if self@.metadata.contains_key(content_id) {
                Some(&self@.metadata[content_id])
            } else {
                None
            }),
    {
        self.metadata.get(&content_id)
    }

    pub fn get_performance(&self, content_id: u64) -> (r: Option<ContentPerformance>)
        ensures
            r == (if self@.performance.contains_key(content_id) {
                Some(self@.performance[content_id])
            } else {
                None
            }),
    {
        match self.performance.get(&content_id) {
            Some(p) => Some(*p),
            None => None,
        }
    }

    /// Whether the content exists and is approved.
    pub fn is_approved(&self, content_id: u64) -> (r: bool)
        ensures
            r == (self@.contents.contains_key(content_id) && self@.contents[content_id].status
                == ContentStatus::Approved),
    {
        match self.contents.get(&content_id) {
            Some(c) => c.status == ContentStatus::Approved,
            None => false,
        }
    }

    /// The number of contents registered so far (the last identifier given).
    pub fn get_nonce(&self) -> (r: u64)
        ensures
            r == self@.content_nonce,
    {
        self.content_nonce
    }

    /// The administrator sets the number of reports that suspends a content.
    pub fn set_flag_threshold(&mut self, admin: Address, threshold: u32) -> (r: Result<(), Error>)
        ensures
            r == (match old(self)@.roles.admin_check(admin) {
                Some(e) => Err(e),
                None => Ok(()),
            }),
            final(self)@ == (if r is Ok {
                AdRegistryState { flag_threshold: threshold, ..old(self)@ }
            } else {
                old(self)@
            }),
    {
        self.roles.require_admin(admin)?;
        self.flag_threshold = threshold;
        Ok(())
    }

    /// The administrator offers its role to `new_admin`.
    pub fn propose_admin(&mut self, current_admin: Address, new_admin: Address) -> (r: Result<(), Error>)
        ensures
            r == (match old(self)@.roles.propose_check(current_admin) {
                Some(e) => Err(e),
                None => Ok(()),
            }),
            final(self)@ == (if r is Ok {
                AdRegistryState { roles: old(self)@.roles.proposed(new_admin), ..old(self)@ }
            } else {
                old(self)@
            }),
    {
        self.roles.propose_admin(current_admin, new_admin)
    }

    /// The offered successor takes the administrator role.
    pub fn accept_admin(&mut self, new_admin: Address) -> (r: Result<(), Error>)
        ensures
            r == (match old(self)@.roles.accept_check(new_admin) {
                Some(e) => Err(e),
                None => Ok(()),
            }),
            final(self)@ == (if r is Ok {
                AdRegistryState { roles: old(self)@.roles.accepted(new_admin), ..old(self)@ }
            } else {
                old(self)@
            }),
    {
        self.roles.accept_admin(new_admin)
    }
}

/// Every stored content, metadata and counter record has an identifier the
/// registry has issued: none above the counter.
pub open spec fn ids_issued(s: AdRegistryState) -> bool {
    &&& forall|k: u64| #[trigger] s.contents.contains_key(k) ==> k <= s.content_nonce
    &&& forall|k: u64| #[trigger] s.metadata.contains_key(k) ==> k <= s.content_nonce
    &&& forall|k: u64| #[trigger] s.performance.contains_key(k) ==> k <= s.content_nonce
}

/// Registering never overwrites a content: the identifier it hands out is
/// held by no content, metadata or counter record yet, and the registry
/// still holds only identifiers it has issued afterwards.
pub proof fn law_register_fresh(
    s: AdRegistryState,
    size: u64,
    content: AdContent,
    metadata: ContentMetadata,
    performance: ContentPerformance,
)
    requires
        ids_issued(s),
        s.register_check(size) is None,
    ensures
        ({
            let id = (s.content_nonce + 1) as u64;
            &&& !s.contents.contains_key(id)
            &&& !s.metadata.contains_key(id)
            &&& !s.performance.contains_key(id)
            &&& ids_issued(
                AdRegistryState {
                    content_nonce: id,
                    contents: s.contents.insert(id, content),
                    metadata: s.metadata.insert(id, metadata),
                    performance: s.performance.insert(id, performance),
                    ..s
                },
            )
        }),
{
}

/// A report counts once toward the threshold and changes the content's
/// status only when it brings the count to the threshold, which suspends the
/// content; below the threshold the status stays what it was (an approved
/// content stays approved and can still be shown). Nothing else about the
/// content changes but its time of update.
pub proof fn law_flag_suspends_only_at_threshold(c: AdContent, threshold: u32, now: u64)
    requires
        c.flags_count < u32::MAX,
    ensures
        AdRegistryState::flagged(c, threshold, now).flags_count == c.flags_count + 1,
        c.flags_count + 1 < threshold ==> AdRegistryState::flagged(c, threshold, now).status
            == c.status,
        c.flags_count + 1 >= threshold ==> AdRegistryState::flagged(c, threshold, now).status
            == ContentStatus::Suspended,
        AdRegistryState::flagged(c, threshold, now).owner == c.owner,
        AdRegistryState::flagged(c, threshold, now).campaign_id == c.campaign_id,
        AdRegistryState::flagged(c, threshold, now).ipfs_hash == c.ipfs_hash,
        AdRegistryState::flagged(c, threshold, now).format == c.format,
        AdRegistryState::flagged(c, threshold, now).size == c.size,
        AdRegistryState::flagged(c, threshold, now).created_at == c.created_at,
        AdRegistryState::flagged(c, threshold, now).updated_at == now,
{
}

} // verus!

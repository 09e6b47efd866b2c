//! The detail pages that were drawn last.
use vstd::prelude::*;

use crate::combat_details::CombatDetailFilter;
use crate::detail::MainDpsDetailRequest;
use crate::settings::MainDpsDetailKind;
use crate::text::{held, same_text};

verus! {

/// How many detail pages are kept.
pub const MAIN_DPS_DETAIL_CACHE_CAPACITY: usize = 4;

/// The markers that a main window follows.
#[derive(Clone, Copy, Debug, PartialEq, Eq, Structural)]
pub struct MainDpsStreamRevision {
    pub capture: u64,
    pub packet: u64,
    pub presentation: u64,
    pub history: u64,
    pub main: u64,
}

/// What a page was drawn for.
#[derive(Clone, Debug)]
pub struct MainDpsDetailCacheKey {
    pub revision: MainDpsStreamRevision,
    pub kind: MainDpsDetailKind,
    pub request: MainDpsDetailRequest,
    pub offset: usize,
    pub limit: usize,
}

#[derive(Clone, Debug)]
pub struct MainDpsDetailCacheEntry<T> {
    pub key: MainDpsDetailCacheKey,
    pub snapshot: T,
}

/// The pages that are kept, the oldest first.
#[derive(Clone, Debug)]
pub struct MainDpsDetailCache<T> {
    pub entries: Vec<MainDpsDetailCacheEntry<T>>,
}

/// Two filters that select the same.
pub open spec fn same_filter(left: CombatDetailFilter, right: CombatDetailFilter) -> bool {
    match (left, right) {
        (CombatDetailFilter::QteType(left), CombatDetailFilter::QteType(right)) => left@ == right@,
        _ => left == right,
    }
}

/// Two requests for the same.
pub open spec fn same_request(left: MainDpsDetailRequest, right: MainDpsDetailRequest) -> bool {
    left.character_id == right.character_id && same_filter(left.filter, right.filter) && held(
        left.skill_filter,
    ) == held(right.skill_filter)
}

/// Two keys of the same page.
pub open spec fn same_key(left: MainDpsDetailCacheKey, right: MainDpsDetailCacheKey) -> bool {
    left.revision == right.revision && left.kind == right.kind && same_request(
        left.request,
        right.request,
    ) && left.offset == right.offset && left.limit == right.limit
}

fn filters_match(left: &CombatDetailFilter, right: &CombatDetailFilter) -> (result: bool)
    ensures
        result == same_filter(*left, *right),
{
    match (left, right) {
        (CombatDetailFilter::QteType(left), CombatDetailFilter::QteType(right)) => same_text(
            left.as_str(),
            right.as_str(),
        ),
        (CombatDetailFilter::All, CombatDetailFilter::All)
        | (CombatDetailFilter::Outgoing, CombatDetailFilter::Outgoing)
        | (CombatDetailFilter::Incoming, CombatDetailFilter::Incoming)
        | (CombatDetailFilter::CharacterAttributed, CombatDetailFilter::CharacterAttributed)
        | (CombatDetailFilter::CharacterDirect, CombatDetailFilter::CharacterDirect)
        | (CombatDetailFilter::ReactionDamage, CombatDetailFilter::ReactionDamage)
        | (CombatDetailFilter::SharedMechanics, CombatDetailFilter::SharedMechanics)
        | (CombatDetailFilter::Unattributed, CombatDetailFilter::Unattributed) => true,
        _ => false,
    }
}

fn requests_match(left: &MainDpsDetailRequest, right: &MainDpsDetailRequest) -> (result: bool)
    ensures
        result == same_request(*left, *right),
{
    let skills_match = match (&left.skill_filter, &right.skill_filter) {
        (None, None) => true,
        (Some(left), Some(right)) => same_text(left.as_str(), right.as_str()),
        _ => false,
    };
    left.character_id == right.character_id && filters_match(&left.filter, &right.filter)
        && skills_match
}

fn keys_match(left: &MainDpsDetailCacheKey, right: &MainDpsDetailCacheKey) -> (result: bool)
    ensures
        result == same_key(*left, *right),
{
    left.revision == right.revision && left.kind == right.kind && requests_match(
        &left.request,
        &right.request,
    ) && left.offset == right.offset && left.limit == right.limit
}

impl MainDpsDetailCacheKey {
    /// The key once more.
    pub fn copied(&self) -> (result: Self)
        ensures
            result == *self,
    {
        MainDpsDetailCacheKey {
            revision: self.revision,
            kind: self.kind,
            request: copy_request(&self.request),
            offset: self.offset,
            limit: self.limit,
        }
    }
}

/// The request once more.
pub fn copy_request(request: &MainDpsDetailRequest) -> (result: MainDpsDetailRequest)
    ensures
        result == *request,
{
    let filter = match &request.filter {
        CombatDetailFilter::QteType(value) => CombatDetailFilter::QteType(value.clone()),
        CombatDetailFilter::All => CombatDetailFilter::All,
        CombatDetailFilter::Outgoing => CombatDetailFilter::Outgoing,
        CombatDetailFilter::Incoming => CombatDetailFilter::Incoming,
        CombatDetailFilter::CharacterAttributed => CombatDetailFilter::CharacterAttributed,
        CombatDetailFilter::CharacterDirect => CombatDetailFilter::CharacterDirect,
        CombatDetailFilter::ReactionDamage => CombatDetailFilter::ReactionDamage,
        CombatDetailFilter::SharedMechanics => CombatDetailFilter::SharedMechanics,
        CombatDetailFilter::Unattributed => CombatDetailFilter::Unattributed,
    };
    let skill_filter = match &request.skill_filter {
        Some(skill) => Some(skill.clone()),
        None => None,
    };
    MainDpsDetailRequest { character_id: request.character_id, filter, skill_filter }
}

/// The page that is kept for a key.
pub open spec fn kept_for<T>(
    entries: Seq<MainDpsDetailCacheEntry<T>>,
    key: MainDpsDetailCacheKey,
) -> Option<T>
    decreases entries.len(),
{
    if entries.len() == 0 {
        None
    } else {
        match kept_for(entries.drop_last(), key) {
            Some(snapshot) => Some(snapshot),
            None => if same_key(entries.last().key, key) {
                Some(entries.last().snapshot)
            } else {
                None
            },
        }
    }
}

/// The pages that are not for a key.
pub open spec fn others<T>(
    entries: Seq<MainDpsDetailCacheEntry<T>>,
    key: MainDpsDetailCacheKey,
) -> Seq<MainDpsDetailCacheEntry<T>>
    decreases entries.len(),
{
    if entries.len() == 0 {
        Seq::empty()
    } else if same_key(entries.last().key, key) {
        others(entries.drop_last(), key)
    } else {
        others(entries.drop_last(), key).push(entries.last())
    }
}

/// The newest pages, as many as are kept.
pub open spec fn newest<T>(entries: Seq<MainDpsDetailCacheEntry<T>>) -> Seq<
    MainDpsDetailCacheEntry<T>,
> {
    if entries.len() > MAIN_DPS_DETAIL_CACHE_CAPACITY {
        entries.skip(entries.len() - MAIN_DPS_DETAIL_CACHE_CAPACITY)
    } else {
        entries
    }
}

impl<T> MainDpsDetailCache<T> {
    pub open spec fn wf(self) -> bool {
        self.entries@.len() <= MAIN_DPS_DETAIL_CACHE_CAPACITY
    }

    pub fn new() -> (result: Self)
        ensures
            result.wf(),
            result.entries@.len() == 0,
    {
        MainDpsDetailCache { entries: Vec::new() }
    }

    /// The page that is kept for a key.
    pub fn get(&self, key: &MainDpsDetailCacheKey) -> (result: Option<&T>)
        ensures
            match result {
                Some(snapshot) => kept_for(self.entries@, *key) == Some(*snapshot),
                None => kept_for(self.entries@, *key) is None,
            },
    {
        let mut found: Option<usize> = None;
        let mut i: usize = 0;
        while i < self.entries.len()
            invariant
                i <= self.entries@.len(),
                match found {
                    Some(at) => at < i && kept_for(self.entries@.take(i as int), *key) == Some(
                        self.entries@[at as int].snapshot,
                    ),
                    None => kept_for(self.entries@.take(i as int), *key) is None,
                },
            decreases self.entries.len() - i,
        {
            assert(self.entries@.take(i + 1).drop_last() =~= self.entries@.take(i as int));
            if found.is_none() && keys_match(&self.entries[i].key, key) {
                found = Some(i);
            }
            i = i + 1;
        }
        assert(self.entries@.take(i as int) =~= self.entries@);
        match found {
            Some(at) => Some(&self.entries[at].snapshot),
            None => None,
        }
    }

    /// Keeps a page, in place of one with the same key. When there are too
    /// many, the oldest go.
    pub fn store(&mut self, key: MainDpsDetailCacheKey, snapshot: T)
        ensures
            final(self).wf(),
            final(self).entries@ == newest(
                others(old(self).entries@, key).push(MainDpsDetailCacheEntry { key, snapshot }),
            ),
    {
        let ghost all = self.entries@;
        let mut rest: Vec<MainDpsDetailCacheEntry<T>> = Vec::new();
        std::mem::swap(&mut self.entries, &mut rest);
        let mut kept: Vec<MainDpsDetailCacheEntry<T>> = Vec::new();
        let ghost mut done: int = 0;
        while rest.len() > 0
            invariant
                0 <= done <= all.len(),
                rest@ == all.skip(done),
                kept@ == others(all.take(done), key),
            decreases rest.len(),
        {
            let entry = rest.remove(0);
            proof {
                assert(entry == all[done]);
                assert(rest@ =~= all.skip(done + 1));
                assert(all.take(done + 1).drop_last() =~= all.take(done));
                done = done + 1;
            }
            if !keys_match(&entry.key, &key) {
                kept.push(entry);
            }
        }
        proof {
            assert(all.take(done) =~= all);
        }
        let ghost entry = MainDpsDetailCacheEntry { key, snapshot };
        kept.push(MainDpsDetailCacheEntry { key, snapshot });
        let ghost whole = kept@;
        let ghost mut dropped: int = 0;
        while kept.len() > MAIN_DPS_DETAIL_CACHE_CAPACITY
            invariant
                0 <= dropped <= whole.len(),
                kept@ == whole.skip(dropped),
                dropped > 0 ==> kept@.len() >= MAIN_DPS_DETAIL_CACHE_CAPACITY,
            decreases kept.len(),
        {
            let _ = kept.remove(0);
            proof {
                assert(kept@ =~= whole.skip(dropped + 1));
                dropped = dropped + 1;
            }
        }
        proof {
            assert(whole.skip(0) =~= whole);
            assert(kept@ =~= newest(whole));
        }
        self.entries = kept;
    }
}

/// No page for a key is left among the others, and every other page is.
proof fn others_leave_one_key<T>(
    entries: Seq<MainDpsDetailCacheEntry<T>>,
    key: MainDpsDetailCacheKey,
    other: MainDpsDetailCacheKey,
)
    ensures
        kept_for(others(entries, key), key) is None,
        !same_key(other, key) ==> kept_for(others(entries, key), other) == kept_for(entries, other),
    decreases entries.len(),
{
    if entries.len() > 0 {
        others_leave_one_key(entries.drop_last(), key, other);
        let fewer = others(entries.drop_last(), key);
        assert(fewer.push(entries.last()).drop_last() =~= fewer);
    }
}

/// Without its oldest entries, a list has for a key what it had, or what the
/// rest has.
proof fn dropping_the_oldest<T>(
    entries: Seq<MainDpsDetailCacheEntry<T>>,
    key: MainDpsDetailCacheKey,
    count: int,
)
    requires
        0 <= count <= entries.len(),
    ensures
        kept_for(entries.take(count), key) is None ==> kept_for(entries.skip(count), key)
            == kept_for(entries, key),
    decreases entries.len(),
{
    if count < entries.len() {
        let earlier = entries.drop_last();
        dropping_the_oldest(earlier, key, count);
        assert(earlier.take(count) =~= entries.take(count));
        assert(entries.skip(count).drop_last() =~= earlier.skip(count));
    } else {
        assert(entries.take(count) =~= entries);
        assert(entries.skip(count) =~= Seq::empty());
    }
}

/// A page that was just kept is found, and there are never too many.
pub proof fn kept_pages_are_found<T>(
    entries: Seq<MainDpsDetailCacheEntry<T>>,
    key: MainDpsDetailCacheKey,
    snapshot: T,
)
    ensures
        ({
            let now = newest(others(entries, key).push(MainDpsDetailCacheEntry { key, snapshot }));
            &&& kept_for(now, key) == Some(snapshot)
            &&& now.len() <= MAIN_DPS_DETAIL_CACHE_CAPACITY
        }),
{
    let entry = MainDpsDetailCacheEntry { key, snapshot };
    let rest = others(entries, key);
    let whole = rest.push(entry);
    others_leave_one_key(entries, key, key);
    assert(whole.drop_last() =~= rest);
    assert(kept_for(whole, key) == Some(snapshot));
    if whole.len() > MAIN_DPS_DETAIL_CACHE_CAPACITY {
        let count = whole.len() - MAIN_DPS_DETAIL_CACHE_CAPACITY;
        prefixes_have_no_more(rest, key, count);
        assert(whole.take(count) =~= rest.take(count));
        dropping_the_oldest(whole, key, count);
    }
}

/// What a list lacks, its beginning lacks too.
proof fn prefixes_have_no_more<T>(
    entries: Seq<MainDpsDetailCacheEntry<T>>,
    key: MainDpsDetailCacheKey,
    count: int,
)
    requires
        0 <= count <= entries.len(),
        kept_for(entries, key) is None,
    ensures
        kept_for(entries.take(count), key) is None,
    decreases entries.len(),
{
    if count == entries.len() {
        assert(entries.take(count) =~= entries);
    } else {
        prefixes_have_no_more(entries.drop_last(), key, count);
        assert(entries.drop_last().take(count) =~= entries.take(count));
    }
}

/// Keeping a page touches the page of no other key while there is room.
pub proof fn other_pages_stay<T>(
    entries: Seq<MainDpsDetailCacheEntry<T>>,
    key: MainDpsDetailCacheKey,
    snapshot: T,
    other: MainDpsDetailCacheKey,
)
    requires
        !same_key(other, key),
        others(entries, key).len() < MAIN_DPS_DETAIL_CACHE_CAPACITY,
    ensures
        kept_for(
            newest(others(entries, key).push(MainDpsDetailCacheEntry { key, snapshot })),
            other,
        ) == kept_for(entries, other),
{
    let entry = MainDpsDetailCacheEntry { key, snapshot };
    let rest = others(entries, key);
    others_leave_one_key(entries, key, other);
    assert(rest.push(entry).drop_last() =~= rest);
}

} // verus!

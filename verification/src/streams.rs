//! The streams that windows have open.
//!
//! A stream is known by a token. Whoever runs it stops once it is told that
//! its token is stopped.
use vstd::prelude::*;

use crate::text::same_text;

verus! {

#[derive(Clone, Debug)]
pub struct StreamEntry {
    pub subscription_id: String,
    pub owner_window: String,
    pub token: u64,
}

/// The streams that run, one for each subscription.
#[derive(Clone, Debug)]
pub struct StreamRegistry {
    pub entries: Vec<StreamEntry>,
    pub next_token: u64,
}

/// What is known of a stream: the window that owns it, and its token.
pub ghost struct Stream {
    pub owner: Seq<char>,
    pub token: u64,
}

pub open spec fn stream_of(entry: StreamEntry) -> Stream {
    Stream { owner: entry.owner_window@, token: entry.token }
}

/// The streams by their subscriptions.
pub open spec fn by_subscription(entries: Seq<StreamEntry>) -> Map<Seq<char>, Stream>
    decreases entries.len(),
{
    if entries.len() == 0 {
        Map::empty()
    } else {
        by_subscription(entries.drop_last()).insert(
            entries.last().subscription_id@,
            stream_of(entries.last()),
        )
    }
}

/// No subscription occurs twice.
pub open spec fn subscriptions_are_distinct(entries: Seq<StreamEntry>) -> bool {
    forall|i: int, j: int|
        0 <= i < j < entries.len() ==> (#[trigger] entries[i]).subscription_id@ != (
        #[trigger] entries[j]).subscription_id@
}

/// The map has exactly the entries.
pub proof fn map_has_the_entries(entries: Seq<StreamEntry>)
    requires
        subscriptions_are_distinct(entries),
    ensures
        forall|i: int|
            0 <= i < entries.len() ==> by_subscription(entries).dom().contains(
                (#[trigger] entries[i]).subscription_id@,
            ) && by_subscription(entries)[entries[i].subscription_id@] == stream_of(entries[i]),
        forall|id: Seq<char>| #[trigger]
            by_subscription(entries).dom().contains(id) ==> exists|i: int|
                0 <= i < entries.len() && (#[trigger] entries[i]).subscription_id@ == id,
    decreases entries.len(),
{
    if entries.len() > 0 {
        let earlier = entries.drop_last();
        assert forall|i: int, j: int| 0 <= i < j < earlier.len() implies (
        #[trigger] earlier[i]).subscription_id@ != (#[trigger] earlier[j]).subscription_id@ by {
            assert(earlier[i] == entries[i] && earlier[j] == entries[j]);
        }
        map_has_the_entries(earlier);
        assert forall|i: int| 0 <= i < entries.len() implies by_subscription(
            entries,
        ).dom().contains((#[trigger] entries[i]).subscription_id@) && by_subscription(
            entries,
        )[entries[i].subscription_id@] == stream_of(entries[i]) by {
            if i < entries.len() - 1 {
                assert(earlier[i] == entries[i]);
                assert(entries[i].subscription_id@ != entries[entries.len()
                    - 1].subscription_id@);
            }
        }
        assert forall|id: Seq<char>| #[trigger]
            by_subscription(entries).dom().contains(id) implies exists|i: int|
            0 <= i < entries.len() && (#[trigger] entries[i]).subscription_id@ == id by {
            if id == entries.last().subscription_id@ {
                assert(entries[entries.len() - 1].subscription_id@ == id);
            } else {
                assert(by_subscription(earlier).dom().contains(id));
                let i = choose|i: int|
                    0 <= i < earlier.len() && (#[trigger] earlier[i]).subscription_id@ == id;
                assert(entries[i] == earlier[i]);
            }
        }
    }
}

impl StreamRegistry {
    /// The streams by their subscriptions.
    pub open spec fn streams(self) -> Map<Seq<char>, Stream> {
        by_subscription(self.entries@)
    }

    /// One stream for each subscription, and no token was given out that is
    /// still to come.
    pub open spec fn wf(self) -> bool {
        &&& subscriptions_are_distinct(self.entries@)
        &&& forall|i: int|
            0 <= i < self.entries@.len() ==> (#[trigger] self.entries@[i]).token < self.next_token
    }

    pub fn new() -> (result: Self)
        ensures
            result.wf(),
            result.streams() == Map::<Seq<char>, Stream>::empty(),
    {
        StreamRegistry { entries: Vec::new(), next_token: 0 }
    }

    fn position(&self, subscription_id: &str) -> (result: Option<usize>)
        ensures
            match result {
                Some(at) => at < self.entries@.len() && self.entries@[at as int].subscription_id@
                    == subscription_id@,
                None => forall|k: int|
                    0 <= k < self.entries@.len() ==> (#[trigger] self.entries@[k]).subscription_id@
                        != subscription_id@,
            },
    {
        let mut i: usize = 0;
        while i < self.entries.len()
            invariant
                i <= self.entries@.len(),
                forall|k: int|
                    0 <= k < i ==> (#[trigger] self.entries@[k]).subscription_id@
                        != subscription_id@,
            decreases self.entries.len() - i,
        {
            if same_text(self.entries[i].subscription_id.as_str(), subscription_id) {
                return Some(i);
            }
            i = i + 1;
        }
        None
    }

    /// Takes the entry at a position out.
    fn take_at(&mut self, at: usize) -> (entry: StreamEntry)
        requires
            old(self).wf(),
            at < old(self).entries@.len(),
        ensures
            final(self).wf(),
            final(self).next_token == old(self).next_token,
            entry == old(self).entries@[at as int],
            final(self).streams() == old(self).streams().remove(entry.subscription_id@),
            final(self).entries@ == old(self).entries@.remove(at as int),
    {
        let ghost before = self.entries@;
        let entry = self.entries.remove(at);
        proof {
            let after = self.entries@;
            assert forall|i: int, j: int| 0 <= i < j < after.len() implies (
            #[trigger] after[i]).subscription_id@ != (#[trigger] after[j]).subscription_id@ by {
                let was_i = if i < at { i } else { i + 1 };
                let was_j = if j < at { j } else { j + 1 };
                assert(after[i] == before[was_i] && after[j] == before[was_j]);
            }
            assert forall|i: int| 0 <= i < after.len() implies (#[trigger] after[i]).token
                < self.next_token by {
                let was = if i < at { i } else { i + 1 };
                assert(after[i] == before[was]);
            }
            map_has_the_entries(before);
            map_has_the_entries(after);
            let left = by_subscription(after);
            let wanted = by_subscription(before).remove(entry.subscription_id@);
            assert forall|id: Seq<char>| left.dom().contains(id) == wanted.dom().contains(id) by {
                if left.dom().contains(id) {
                    let i = choose|i: int|
                        0 <= i < after.len() && (#[trigger] after[i]).subscription_id@ == id;
                    let was = if i < at { i } else { i + 1 };
                    assert(after[i] == before[was]);
                    assert(before[at as int].subscription_id@ != id);
                }
                if wanted.dom().contains(id) {
                    let was = choose|was: int|
                        0 <= was < before.len() && (#[trigger] before[was]).subscription_id@ == id;
                    let i = if was < at { was } else { was - 1 };
                    assert(after[i] == before[was]);
                }
            }
            assert forall|id: Seq<char>| left.dom().contains(id) implies left[id] == wanted[id] by {
                let i = choose|i: int|
                    0 <= i < after.len() && (#[trigger] after[i]).subscription_id@ == id;
                let was = if i < at { i } else { i + 1 };
                assert(after[i] == before[was]);
            }
            assert(left =~= wanted);
        }
        entry
    }

    /// Opens a stream for a subscription. Returns its token, and the token of
    /// the stream that it replaces, which is to be stopped.
    pub fn begin_stream(&mut self, owner_window: String, subscription_id: String) -> (result: (
        u64,
        Option<u64>,
    ))
        requires
            old(self).wf(),
            old(self).next_token < u64::MAX,
        ensures
            final(self).wf(),
            final(self).next_token == old(self).next_token + 1,
            result.0 == old(self).next_token,
            forall|id: Seq<char>| #[trigger]
                old(self).streams().dom().contains(id) ==> old(self).streams()[id].token
                    != result.0,
            result.1 == (if old(self).streams().dom().contains(subscription_id@) {
                Some(old(self).streams()[subscription_id@].token)
            } else {
                None
            }),
            final(self).streams() == old(self).streams().insert(
                subscription_id@,
                Stream { owner: owner_window@, token: result.0 },
            ),
    {
        let token: u64 = self.next_token;
        self.next_token = token + 1;
        let ghost before = self.entries@;
        proof {
            map_has_the_entries(before);
            assert forall|id: Seq<char>| #[trigger]
                by_subscription(before).dom().contains(id) implies by_subscription(before)[id].token
                != token by {
                let i = choose|i: int|
                    0 <= i < before.len() && (#[trigger] before[i]).subscription_id@ == id;
                assert(before[i].token < token);
            }
        }
        let replaced = match self.position(subscription_id.as_str()) {
            Some(at) => {
                let entry = self.take_at(at);
                Some(entry.token)
            },
            None => None,
        };
        let ghost middle = self.entries@;
        proof {
            map_has_the_entries(middle);
            if replaced is None {
                assert(!by_subscription(before).dom().contains(subscription_id@));
            }
        }
        let ghost entry = StreamEntry { subscription_id, owner_window, token };
        self.entries.push(StreamEntry { subscription_id, owner_window, token });
        proof {
            assert(self.entries@.drop_last() =~= middle);
            assert forall|i: int, j: int| 0 <= i < j < self.entries@.len() implies (
            #[trigger] self.entries@[i]).subscription_id@ != (
            #[trigger] self.entries@[j]).subscription_id@ by {
                if j == middle.len() {
                    assert(by_subscription(middle).dom().contains(middle[i].subscription_id@));
                } else {
                    assert(middle[i] == self.entries@[i] && middle[j] == self.entries@[j]);
                }
            }
            assert(self.streams() =~= by_subscription(before).insert(
                subscription_id@,
                stream_of(entry),
            ));
        }
        (token, replaced)
    }

    /// Closes the stream of a subscription. Returns its token, which is to be
    /// stopped.
    pub fn stop_stream(&mut self, subscription_id: &str) -> (stopped: Option<u64>)
        requires
            old(self).wf(),
        ensures
            final(self).wf(),
            final(self).next_token == old(self).next_token,
            stopped == (if old(self).streams().dom().contains(subscription_id@) {
                Some(old(self).streams()[subscription_id@].token)
            } else {
                None
            }),
            final(self).streams() == old(self).streams().remove(subscription_id@),
    {
        proof {
            map_has_the_entries(self.entries@);
        }
        match self.position(subscription_id) {
            Some(at) => {
                let entry = self.take_at(at);
                Some(entry.token)
            },
            None => {
                assert(self.streams().remove(subscription_id@) =~= self.streams());
                None
            },
        }
    }

    /// A stream has ended. Its registration goes, unless another stream has
    /// taken its place.
    pub fn finish_stream(&mut self, subscription_id: &str, token: u64)
        requires
            old(self).wf(),
        ensures
            final(self).wf(),
            final(self).next_token == old(self).next_token,
            final(self).streams() == finished(old(self).streams(), subscription_id@, token),
    {
        proof {
            map_has_the_entries(self.entries@);
        }
        if let Some(at) = self.position(subscription_id) {
            if self.entries[at].token == token {
                let _ = self.take_at(at);
            }
        }
    }

    /// Closes the streams of a window. Returns their tokens, which are to be
    /// stopped.
    pub fn stop_streams_for_window(&mut self, owner_window: &str) -> (stopped: Vec<u64>)
        requires
            old(self).wf(),
        ensures
            final(self).wf(),
            final(self).next_token == old(self).next_token,
            final(self).streams() == old(self).streams().remove_keys(
                owned_by(old(self).streams(), owner_window@),
            ),
            stopped@.len() == old(self).entries@.len() - final(self).entries@.len(),
            forall|token: u64| #[trigger]
                stopped@.contains(token) <==> exists|id: Seq<char>| #[trigger]
                    owned_by(old(self).streams(), owner_window@).contains(id) && old(
                        self).streams()[id].token == token,
    {
        let mut stopped: Vec<u64> = Vec::new();
        let mut i: usize = 0;
        let ghost before = self.streams();
        let ghost owned = owned_by(before, owner_window@);
        let ghost count = self.entries@.len();
        let ghost mut gone: Set<Seq<char>> = Set::empty();
        proof {
            map_has_the_entries(self.entries@);
            assert(before.remove_keys(gone) =~= before);
        }
        while i < self.entries.len()
            invariant
                self.wf(),
                self.next_token == old(self).next_token,
                i <= self.entries@.len(),
                owned == owned_by(before, owner_window@),
                gone.subset_of(owned),
                self.streams() == before.remove_keys(gone),
                stopped@.len() + self.entries@.len() == count,
                forall|k: int|
                    0 <= k < i ==> (#[trigger] self.entries@[k]).owner_window@ != owner_window@,
                forall|token: u64| #[trigger]
                    stopped@.contains(token) <==> exists|id: Seq<char>| #[trigger]
                        gone.contains(id) && before[id].token == token,
            decreases self.entries@.len() - i,
        {
            proof {
                map_has_the_entries(self.entries@);
            }
            let ghost entry_id = self.entries@[i as int].subscription_id@;
            if same_text(self.entries[i].owner_window.as_str(), owner_window) {
                let ghost listed = self.entries@;
                let ghost stopped_before = stopped@;
                let ghost gone_before = gone;
                let entry = self.take_at(i);
                stopped.push(entry.token);
                proof {
                    assert(before.remove_keys(gone_before).dom().contains(entry_id));
                    assert(before[entry_id] == stream_of(entry));
                    gone = gone.insert(entry_id);
                    assert(before.remove_keys(gone) =~= before.remove_keys(gone_before).remove(
                        entry_id,
                    ));
                    assert forall|token: u64| #[trigger]
                        stopped@.contains(token) <==> exists|id: Seq<char>| #[trigger]
                            gone.contains(id) && before[id].token == token by {
                        if stopped@.contains(token) {
                            let k = stopped@.index_of(token);
                            if k < stopped_before.len() {
                                assert(stopped_before[k] == token);
                                assert(stopped_before.contains(token));
                                let id = choose|id: Seq<char>| #[trigger]
                                    gone_before.contains(id) && before[id].token == token;
                                assert(gone.contains(id));
                            } else {
                                assert(gone.contains(entry_id));
                            }
                        }
                        if exists|id: Seq<char>| #[trigger]
                            gone.contains(id) && before[id].token == token {
                            let id = choose|id: Seq<char>| #[trigger]
                                gone.contains(id) && before[id].token == token;
                            if id == entry_id {
                                assert(stopped@[stopped_before.len() as int] == token);
                            } else {
                                assert(gone_before.contains(id));
                                assert(stopped_before.contains(token));
                                let k = stopped_before.index_of(token);
                                assert(stopped@[k] == token);
                            }
                        }
                    }
                    assert forall|k: int| 0 <= k < i implies (
                    #[trigger] self.entries@[k]).owner_window@ != owner_window@ by {
                        assert(self.entries@[k] == listed[k]);
                    }
                }
            } else {
                i = i + 1;
            }
        }
        proof {
            map_has_the_entries(self.entries@);
            assert forall|id: Seq<char>| owned.contains(id) implies gone.contains(id) by {
                if !gone.contains(id) {
                    assert(self.streams().dom().contains(id));
                    let k = choose|k: int|
                        0 <= k < self.entries@.len() && (
                        #[trigger] self.entries@[k]).subscription_id@ == id;
                    assert(self.streams()[id] == stream_of(self.entries@[k]));
                }
            }
            assert(gone =~= owned);
        }
        stopped
    }
}

/// The subscriptions of a window.
pub open spec fn owned_by(streams: Map<Seq<char>, Stream>, owner: Seq<char>) -> Set<Seq<char>> {
    streams.dom().filter(|id: Seq<char>| streams[id].owner == owner)
}

/// The streams after the stream with a token has ended.
pub open spec fn finished(
    streams: Map<Seq<char>, Stream>,
    subscription: Seq<char>,
    token: u64,
) -> Map<Seq<char>, Stream> {
    if streams.dom().contains(subscription) && streams[subscription].token == token {
        streams.remove(subscription)
    } else {
        streams
    }
}

/// The end of a stream that was replaced leaves the one that took its place.
pub proof fn replaced_streams_end_quietly(
    streams: Map<Seq<char>, Stream>,
    subscription: Seq<char>,
    owner: Seq<char>,
    replaced: u64,
    token: u64,
)
    requires
        token != replaced,
    ensures
        ({
            let running = streams.insert(subscription, Stream { owner, token });
            finished(running, subscription, replaced) == running
        }),
{
}

/// Closing a window's streams leaves those of every other window, and none of
/// its own.
pub proof fn windows_close_only_their_streams(
    streams: Map<Seq<char>, Stream>,
    owner: Seq<char>,
    subscription: Seq<char>,
)
    requires
        streams.dom().contains(subscription),
    ensures
        ({
            let left = streams.remove_keys(owned_by(streams, owner));
            if streams[subscription].owner == owner {
                !left.dom().contains(subscription)
            } else {
                left.dom().contains(subscription) && left[subscription] == streams[subscription]
            }
        }),
{
}

} // verus!

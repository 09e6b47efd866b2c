//! The notice on the island, and the steps that can be taken back for a while.
//!
//! Times are nanoseconds of the caller's monotonic clock.
use vstd::prelude::*;

use crate::text::{decimal, decimal_text, hexadecimal, hexadecimal_text, same_text};

verus! {

/// How long a notice is shown, and how long a step can be taken back.
pub const NOTICE_WINDOW: u128 = 5_000_000_000;

#[derive(Clone, Debug)]
pub struct IslandNoticeState {
    pub id: String,
    pub tone: &'static str,
    pub message_key: &'static str,
    pub message_arguments: Vec<String>,
    pub undo_token: Option<String>,
    pub expires_at: u128,
}

/// The notice that is shown; a new one takes its place.
#[derive(Clone, Debug)]
pub struct IslandNotices {
    pub revision: u64,
    pub current: Option<IslandNoticeState>,
}

/// How the notice with a number is named.
pub open spec fn notice_name(revision: u64) -> Seq<char> {
    "notice-"@ + hexadecimal(revision as nat, 16)
}

/// The end of a window that begins now.
pub open spec fn window_end(now: u128) -> u128 {
    if now + NOTICE_WINDOW <= u128::MAX {
        (now + NOTICE_WINDOW) as u128
    } else {
        u128::MAX
    }
}

fn end_of_window(now: u128) -> (result: u128)
    ensures
        result == window_end(now),
{
    if now <= u128::MAX - NOTICE_WINDOW {
        now + NOTICE_WINDOW
    } else {
        u128::MAX
    }
}

impl IslandNotices {
    pub fn new() -> (result: Self)
        ensures
            result.revision == 0,
            result.current is None,
    {
        IslandNotices { revision: 0, current: None }
    }

    /// Shows a notice and returns its name.
    pub fn publish_island_notice(
        &mut self,
        tone: &'static str,
        message_key: &'static str,
        message_arguments: Vec<String>,
        undo_token: Option<String>,
        now: u128,
    ) -> (id: String)
        requires
            old(self).revision < u64::MAX,
        ensures
            final(self).revision == old(self).revision + 1,
            id@ == notice_name(final(self).revision),
            final(self).current == Some(
                IslandNoticeState {
                    id,
                    tone,
                    message_key,
                    message_arguments,
                    undo_token,
                    expires_at: window_end(now),
                },
            ),
    {
        self.revision = self.revision + 1;
        let mut id: String = "notice-".to_owned();
        id.append(hexadecimal_text(self.revision).as_str());
        self.current =
        Some(
            IslandNoticeState {
                id: id.clone(),
                tone,
                message_key,
                message_arguments,
                undo_token,
                expires_at: end_of_window(now),
            },
        );
        id
    }

    /// The notice to show now. One whose time is over goes.
    pub fn island_notice(&mut self, now: u128) -> (notice: Option<&IslandNoticeState>)
        ensures
            final(self).revision == old(self).revision,
            final(self).current == (match old(self).current {
                Some(notice) if now <= notice.expires_at => Some(notice),
                _ => None,
            }),
            match notice {
                Some(notice) => final(self).current == Some(*notice),
                None => final(self).current is None,
            },
    {
        let over = match &self.current {
            Some(notice) => now > notice.expires_at,
            None => false,
        };
        if over {
            self.current = None;
        }
        self.current.as_ref()
    }

    /// Takes a notice away, if it is the one that is shown.
    pub fn dismiss_island_notice(&mut self, id: &str) -> (dismissed: bool)
        ensures
            final(self).revision == old(self).revision,
            dismissed == (old(self).current is Some && old(self).current->0.id@ == id@),
            final(self).current == (if dismissed {
                None
            } else {
                old(self).current
            }),
    {
        let shown = match &self.current {
            Some(notice) => same_text(notice.id.as_str(), id),
            None => false,
        };
        if shown {
            self.current = None;
        }
        shown
    }
}

/// Sixteen hexadecimal digits tell their numbers apart.
proof fn hexadecimal_is_injective(left: nat, right: nat, width: nat)
    requires
        hexadecimal(left, width) == hexadecimal(right, width),
        left < pow16(width),
        right < pow16(width),
    ensures
        left == right,
    decreases width,
{
    if width > 0 {
        let shorter = (width - 1) as nat;
        hexadecimal_has_width(left / 16, shorter);
        hexadecimal_has_width(right / 16, shorter);
        let ours = hexadecimal(left, width);
        let theirs = hexadecimal(right, width);
        assert(ours.drop_last() =~= hexadecimal(left / 16, shorter));
        assert(theirs.drop_last() =~= hexadecimal(right / 16, shorter));
        assert(left / 16 < pow16(shorter) && right / 16 < pow16(shorter)) by (nonlinear_arith)
            requires
                left < 16 * pow16(shorter),
                right < 16 * pow16(shorter),
        ;
        hexadecimal_is_injective(left / 16, right / 16, shorter);
        assert(ours.last() == theirs.last());
    }
}

spec fn pow16(width: nat) -> nat
    decreases width,
{
    if width == 0 {
        1
    } else {
        16 * pow16((width - 1) as nat)
    }
}

proof fn hexadecimal_has_width(n: nat, width: nat)
    ensures
        hexadecimal(n, width).len() == width,
    decreases width,
{
    if width > 0 {
        hexadecimal_has_width(n / 16, (width - 1) as nat);
    }
}

/// Different notices have different names, so that a notice that came later is
/// not taken away with an old name.
pub proof fn notices_are_told_apart(left: u64, right: u64)
    ensures
        notice_name(left) == notice_name(right) ==> left == right,
{
    if notice_name(left) == notice_name(right) {
        numbered_names_differ("notice-"@, left, right);
    }
}

proof fn numbered_names_differ(prefix: Seq<char>, left: u64, right: u64)
    requires
        prefix + hexadecimal(left as nat, 16) == prefix + hexadecimal(right as nat, 16),
    ensures
        left == right,
{
    let ours = prefix + hexadecimal(left as nat, 16);
    let theirs = prefix + hexadecimal(right as nat, 16);
    assert(ours.skip(prefix.len() as int) =~= hexadecimal(left as nat, 16));
    assert(theirs.skip(prefix.len() as int) =~= hexadecimal(right as nat, 16));
    assert(pow16(16) == 0x1_0000_0000_0000_0000) by {
        reveal_with_fuel(pow16, 17);
    }
    hexadecimal_is_injective(left as nat, right as nat, 16);
}

/// Something that can be put back by whoever has the token.
#[derive(Clone, Debug)]
pub struct UndoEntry<T> {
    pub token: String,
    pub value: T,
    pub expires_at: u128,
}

/// The last thing that can be put back.
#[derive(Clone, Debug)]
pub struct UndoSlot<T> {
    pub sequence: u64,
    pub entry: Option<UndoEntry<T>>,
}

/// The token of a deleted record.
pub open spec fn history_token(sequence: u64) -> Seq<char> {
    "history-undo-"@ + decimal(sequence as nat)
}

/// The token of a session that was reset.
pub open spec fn session_token(sequence: u64) -> Seq<char> {
    "session-undo-"@ + hexadecimal(sequence as nat, 16)
}

/// Different resets have different tokens.
pub proof fn session_tokens_are_told_apart(left: u64, right: u64)
    ensures
        session_token(left) == session_token(right) ==> left == right,
{
    if session_token(left) == session_token(right) {
        numbered_names_differ("session-undo-"@, left, right);
    }
}

/// Different deletions have different tokens.
pub proof fn history_tokens_are_told_apart(left: u64, right: u64)
    ensures
        history_token(left) == history_token(right) ==> left == right,
{
    if history_token(left) == history_token(right) {
        let prefix = "history-undo-"@;
        assert(history_token(left).skip(prefix.len() as int) =~= decimal(left as nat));
        assert(history_token(right).skip(prefix.len() as int) =~= decimal(right as nat));
        crate::text::decimal_is_injective(left as nat, right as nat);
    }
}

#[derive(Clone, Copy, Debug, PartialEq, Eq, Structural)]
pub enum SessionUndoError {
    Missing,
    Expired,
    Busy,
    NewData,
}

/// What putting back amounts to.
pub open spec fn put_back<T>(
    entry: Option<UndoEntry<T>>,
    token: Seq<char>,
    now: u128,
) -> Result<T, SessionUndoError> {
    match entry {
        Some(entry) if entry.token@ == token => if now <= entry.expires_at {
            Ok(entry.value)
        } else {
            Err(SessionUndoError::Expired)
        },
        _ => Err(SessionUndoError::Missing),
    }
}

impl<T> UndoSlot<T> {
    pub fn new() -> (result: Self)
        ensures
            result.sequence == 0,
            result.entry is None,
    {
        UndoSlot { sequence: 0, entry: None }
    }

    fn has_token(&self, token: &str) -> (result: bool)
        ensures
            result == (self.entry is Some && self.entry->0.token@ == token@),
    {
        match &self.entry {
            Some(entry) => same_text(entry.token.as_str(), token),
            None => false,
        }
    }

    /// Remembers a deleted record and returns its token.
    pub fn remember_deleted(&mut self, record: T, now: u128) -> (token: String)
        requires
            old(self).sequence < u64::MAX,
        ensures
            final(self).sequence == old(self).sequence + 1,
            token@ == history_token(final(self).sequence),
            final(self).entry == Some(
                UndoEntry { token, value: record, expires_at: window_end(now) },
            ),
    {
        self.sequence = self.sequence + 1;
        let mut token: String = "history-undo-".to_owned();
        token.append(decimal_text(self.sequence).as_str());
        self.entry =
        Some(
            UndoEntry { token: token.clone(), value: record, expires_at: end_of_window(now) },
        );
        token
    }

    /// Gives a deleted record back, once and within its window. A wrong token
    /// and a late one take nothing.
    pub fn take_deleted(&mut self, token: &str, now: u128) -> (record: Option<T>)
        ensures
            final(self).sequence == old(self).sequence,
            match put_back(old(self).entry, token@, now) {
                Ok(value) => record == Some(value) && final(self).entry is None,
                Err(_) => record is None && final(self).entry == old(self).entry,
            },
    {
        if !self.has_token(token) {
            return None;
        }
        let in_time = match &self.entry {
            Some(entry) => now <= entry.expires_at,
            None => false,
        };
        if !in_time {
            return None;
        }
        match self.entry.take() {
            Some(entry) => Some(entry.value),
            None => None,
        }
    }

    /// Remembers a session that is reset and returns its token.
    pub fn remember_session(&mut self, session: T, now: u128) -> (token: String)
        requires
            old(self).sequence < u64::MAX,
        ensures
            final(self).sequence == old(self).sequence + 1,
            token@ == session_token(final(self).sequence),
            final(self).entry == Some(
                UndoEntry { token, value: session, expires_at: window_end(now) },
            ),
    {
        self.sequence = self.sequence + 1;
        let mut token: String = "session-undo-".to_owned();
        token.append(hexadecimal_text(self.sequence).as_str());
        self.entry =
        Some(
            UndoEntry { token: token.clone(), value: session, expires_at: end_of_window(now) },
        );
        token
    }

    /// Gives a session back. A wrong token takes nothing, and the right one
    /// can be used once, in time or not.
    pub fn take_session(&mut self, token: &str, now: u128) -> (result: Result<T, SessionUndoError>)
        ensures
            final(self).sequence == old(self).sequence,
            result == put_back(old(self).entry, token@, now),
            final(self).entry == (if result == Err::<T, _>(SessionUndoError::Missing) {
                old(self).entry
            } else {
                None
            }),
    {
        if !self.has_token(token) {
            return Err(SessionUndoError::Missing);
        }
        match self.entry.take() {
            Some(entry) => if now > entry.expires_at {
                Err(SessionUndoError::Expired)
            } else {
                Ok(entry.value)
            },
            None => Err(SessionUndoError::Missing),
        }
    }
}

/// What was remembered is given back within its window, and not after it.
pub proof fn undo_keeps_its_window<T>(
    token: String,
    value: T,
    remembered_at: u128,
    now: u128,
)
    requires
        remembered_at <= u128::MAX - NOTICE_WINDOW,
    ensures
        ({
            let entry = Some(UndoEntry { token, value, expires_at: window_end(remembered_at) });
            &&& now <= remembered_at + NOTICE_WINDOW ==> put_back(entry, token@, now) == Ok::<
                T,
                SessionUndoError,
            >(value)
            &&& now > remembered_at + NOTICE_WINDOW ==> put_back(entry, token@, now) == Err::<T, _>(
                SessionUndoError::Expired,
            )
            &&& put_back(None::<UndoEntry<T>>, token@, now) == Err::<T, _>(
                SessionUndoError::Missing,
            )
        }),
{
}

} // verus!

//! The conversation transcript: an append-only sequence of timestamped turns.
//!
//! Each turn is a `ChatEntry` holding the instant it was recorded (UTC
//! milliseconds since the Unix epoch) and the text of the turn. Entries are
//! immutable once appended and are never reordered or deleted: the order of
//! the log is exactly append order.

use vstd::prelude::*;

verus! {

/// One durable turn of the conversation transcript.
pub struct ChatEntry {
    /// UTC instant the entry was recorded, in milliseconds since the Unix epoch.
    pub timestamp_millis: i64,
    /// The text of the turn.
    pub body: String,
}

/// The mathematical value of a `ChatEntry`.
pub struct ChatEntryModel {
    pub timestamp_millis: i64,
    pub body: Seq<char>,
}

impl View for ChatEntry {
    type V = ChatEntryModel;

    open spec fn view(&self) -> ChatEntryModel {
        ChatEntryModel { timestamp_millis: self.timestamp_millis, body: self.body@ }
    }
}

impl ChatEntry {
    /// Builds an entry from an instant and a body.
    pub fn new(timestamp_millis: i64, body: String) -> (e: ChatEntry)
        ensures
            e@ == (ChatEntryModel { timestamp_millis, body: body@ }),
    {
        ChatEntry { timestamp_millis, body }
    }

    pub fn clone_entry(&self) -> (e: ChatEntry)
        ensures
            e@ == self@,
    {
        ChatEntry { timestamp_millis: self.timestamp_millis, body: self.body.clone() }
    }
}

/// Relies on `std::time::SystemTime::now` and
/// `SystemTime::duration_since`: the current wall-clock instant, converted to
/// milliseconds since the Unix epoch. The result depends on the clock at the
/// moment of the call, so nothing is promised of its value. Every arm of the
/// conversion is handled, so the call returns on every clock reading: a clock
/// set before the epoch yields 0, and an instant too far ahead to fit yields
/// `i64::MAX`.
#[verifier::external_body]
fn now_millis() -> i64 {
    match std::time::SystemTime::now().duration_since(std::time::UNIX_EPOCH) {
        Ok(elapsed) => i64::try_from(elapsed.as_millis()).unwrap_or(i64::MAX),
        Err(_) => 0,
    }
}

/// The append-only transcript store. Its view is the sequence of entry
/// values in append order.
pub struct ChatLog {
    entries: Vec<ChatEntry>,
}

impl View for ChatLog {
    type V = Seq<ChatEntryModel>;

    closed spec fn view(&self) -> Seq<ChatEntryModel> {
        self.entries@.map(|i: int, e: ChatEntry| e@)
    }
}

impl ChatLog {
    /// An empty transcript.
    pub fn new() -> (log: ChatLog)
        ensures
            log@ =~= Seq::<ChatEntryModel>::empty(),
    {
        ChatLog { entries: Vec::new() }
    }

    /// Appends one entry at the end of the transcript; nothing already
    /// recorded changes.
    pub fn append(&mut self, entry: ChatEntry)
        ensures
            final(self)@ =~= old(self)@.push(entry@),
    {
        self.entries.push(entry);
    }

    /// Appends one turn with the given body, stamped with the clock's current
    /// instant. Whatever the clock returned, exactly one entry is appended,
    /// its body is the given text, and nothing already recorded changes.
    pub fn append_now(&mut self, body: String)
        ensures
            final(self)@.len() == old(self)@.len() + 1,
            final(self)@.drop_last() =~= old(self)@,
            final(self)@.last().body == body@,
    {
        let stamp = now_millis();
        self.append(ChatEntry::new(stamp, body));
        assert(self@.drop_last() =~= old(self)@);
    }

    /// The number of recorded turns.
    pub fn len(&self) -> (n: usize)
        ensures
            n == self@.len(),
    {
        self.entries.len()
    }

    /// The turn at a position, in append order.
    pub fn entry_at(&self, i: usize) -> (e: &ChatEntry)
        requires
            i < self@.len(),
        ensures
            e@ == self@[i as int],
    {
        &self.entries[i]
    }

    /// A copy of the whole transcript, in append order.
    pub fn list_all(&self) -> (all: Vec<ChatEntry>)
        ensures
            all@.map(|i: int, e: ChatEntry| e@) =~= self@,
    {
        let mut all: Vec<ChatEntry> = Vec::new();
        let mut i: usize = 0;
        while i < self.entries.len()
            invariant
                i <= self.entries.len(),
                all@.len() == i,
                forall|k: int| 0 <= k < i ==> all@[k]@ == self@[k],
            decreases self.entries.len() - i,
        {
            all.push(self.entries[i].clone_entry());
            i = i + 1;
        }
        assert(all@.map(|j: int, e: ChatEntry| e@) =~= self@);
        all
    }
}

} // verus!

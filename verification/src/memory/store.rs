//! Storage interfaces for memory, sessions and per-chat state, their limits and paths, and
//! an in-memory store of emotion signals.
use vstd::prelude::*;
use crate::error::Error;

verus! {

/// Largest single write of memory content (bytes); implementations refuse longer ones.
pub const MAX_MEMORY_CONTENT_LEN: usize = 262144;
/// Largest single write of SOUL or USER (bytes).
pub const MAX_SOUL_USER_LEN: usize = 32768;
/// Largest session message, role and content serialised (bytes).
pub const MAX_SESSION_MESSAGE_LEN: usize = 4096;
/// Most entries one session keeps; beyond it the oldest go first.
pub const MAX_SESSION_ENTRIES: usize = 128;

/// Relative path of the long-term memory file.
pub const REL_PATH_MEMORY: &'static str = "memory/MEMORY.md";
/// Relative path of the SOUL configuration.
pub const REL_PATH_SOUL: &'static str = "config/SOUL.md";
/// Relative path of the USER configuration.
pub const REL_PATH_USER: &'static str = "config/USER.md";
/// Relative directory of the daily notes.
pub const REL_PATH_DAILY_DIR: &'static str = "memory/daily";
/// Relative directory of the session files (`{chat_id}.jsonl`).
pub const REL_PATH_SESSIONS_DIR: &'static str = "s";
/// Relative path of the heartbeat to-do file.
pub const REL_PATH_HEARTBEAT: &'static str = "memory/HEARTBEAT.md";
/// Relative path of the message kept for a later retry.
pub const REL_PATH_PENDING_RETRY: &'static str = "memory/pending_retry.json";
/// Relative path of the multi-round continuation state.
pub const REL_PATH_TASK_CONTINUATION: &'static str = "memory/task_continuation.json";
/// Relative path of the important-message offsets.
pub const REL_PATH_IMPORTANT_MESSAGE: &'static str = "memory/important_message.json";
/// Relative path of the session summaries.
pub const REL_PATH_SESSION_SUMMARIES: &'static str = "memory/session_summaries.json";

/// Session summaries per chat.
pub trait SessionSummaryStore: Send + Sync {
    fn get(&self, chat_id: &str) -> Result<Option<String>, Error>;

    fn set(&self, chat_id: &str, summary: &str) -> Result<(), Error>;

    /// Stores a summary together with the message count it was made at; by default the
    /// count is not kept.
    fn set_with_count(&self, chat_id: &str, summary: &str, message_count: usize) -> Result<(), Error> {
        self.set(chat_id, summary)
    }

    /// The summary and the message count it was made at; by default the count reads 0.
    fn get_with_count(&self, chat_id: &str) -> (r: Result<Option<(String, usize)>, Error>)
        default_ensures
            r matches Ok(Some((_, n))) ==> n == 0,
    {
        match self.get(chat_id) {
            Ok(Some(s)) => Ok(Some((s, 0))),
            Ok(None) => Ok(None),
            Err(e) => Err(e),
        }
    }
}

/// The message to keep when a history is cut; an offset of 1 is the last user message.
pub trait ImportantMessageStore: Send + Sync {
    fn set_important_offset_from_end(&self, chat_id: &str, offset_from_end: u32) -> Result<(), Error>;

    fn get_important_offset(&self, chat_id: &str) -> Result<Option<u32>, Error>;

    fn clear_important(&self, chat_id: &str) -> Result<(), Error>;
}

/// Reminders due at a time.
pub trait RemindAtStore: Send + Sync {
    fn add(&self, channel: &str, chat_id: &str, at_unix_secs: u64, context: &str) -> Result<(), Error>;

    /// Removes and returns one entry (channel, chat id, context) due at `now_unix_secs`,
    /// or `None` when nothing is due.
    fn pop_due(&self, now_unix_secs: u64) -> Result<Option<(String, String, String)>, Error>;

    /// Reminders of a chat not yet due, earliest first, at most `limit` of them.
    fn list_upcoming(&self, channel: &str, chat_id: &str, now_unix_secs: u64, limit: usize) -> Result<Vec<(u64, String)>, Error>;
}

/// One pending emotion signal per chat: set after a round, taken by the next one.
pub trait EmotionSignalStore: Send + Sync {
    fn set(&self, chat_id: &str, signal: &str) -> Result<(), Error>;

    fn get_then_clear(&self, chat_id: &str) -> Result<Option<String>, Error>;
}

/// Multi-round continuation state: round number and last output per chat.
pub trait TaskContinuationStore: Send + Sync {
    fn get_task_continuation(&self, chat_id: &str) -> Result<Option<(u32, String)>, Error>;

    fn set_task_continuation(&self, chat_id: &str, round: u32, last_output: &str) -> Result<(), Error>;

    fn clear_task_continuation(&self, chat_id: &str) -> Result<(), Error>;
}

/// One message kept aside for a later retry.
pub trait PendingRetryStore: Send + Sync {
    /// The message type kept.
    type Msg;

    fn save_pending_retry(&self, msg: &Self::Msg) -> Result<(), Error>;

    fn load_pending_retry(&self) -> Result<Option<Self::Msg>, Error>;

    fn clear_pending_retry(&self) -> Result<(), Error>;
}

/// Long-term memory, SOUL, USER and daily notes.
pub trait MemoryStore {
    /// `r` is a result that reading the memory file can give. A store may say which; by
    /// default any result can come, and for a store of unknown type a caller knows of a result
    /// only by reading.
    open spec fn memory_read(&self, r: Result<String, Error>) -> bool {
        true
    }

    /// `r` is a result that writing `content` to the memory file can give (see `memory_read`).
    open spec fn memory_written(&self, content: Seq<char>, r: Result<(), Error>) -> bool {
        true
    }

    /// `r` is a result that reading the SOUL file can give (see `memory_read`).
    open spec fn soul_read(&self, r: Result<String, Error>) -> bool {
        true
    }

    /// `r` is a result that writing `content` to the SOUL file can give (see `memory_read`).
    open spec fn soul_written(&self, content: Seq<char>, r: Result<(), Error>) -> bool {
        true
    }

    fn get_memory(&self) -> (r: Result<String, Error>)
        ensures
            self.memory_read(r),
    ;

    fn set_memory(&self, content: &str) -> (r: Result<(), Error>)
        ensures
            self.memory_written(content@, r),
    ;

    fn get_soul(&self) -> (r: Result<String, Error>)
        ensures
            self.soul_read(r),
    ;

    /// Implementations refuse content longer than `MAX_SOUL_USER_LEN`.
    fn set_soul(&self, content: &str) -> (r: Result<(), Error>)
        ensures
            self.soul_written(content@, r),
    ;

    fn get_user(&self) -> Result<String, Error>;

    /// Implementations refuse content longer than `MAX_SOUL_USER_LEN`.
    fn set_user(&self, content: &str) -> Result<(), Error>;

    /// Names of the newest `recent_n` daily notes, newest first.
    fn list_daily_note_names(&self, recent_n: usize) -> Result<Vec<String>, Error>;

    fn get_daily_note(&self, name: &str) -> Result<String, Error>;

    fn write_daily_note(&self, name: &str, content: &str) -> Result<(), Error>;
}

/// One session line: role and content.
#[derive(Clone, Debug)]
pub struct SessionMessage {
    pub role: String,
    pub content: String,
}

/// Sessions per chat.
pub trait SessionStore {
    fn append(&self, chat_id: &str, role: &str, content: &str) -> Result<(), Error>;

    fn load_recent(&self, chat_id: &str, n: usize) -> Result<Vec<SessionMessage>, Error>;

    fn clear(&self, chat_id: &str) -> Result<(), Error>;

    fn list_chat_ids(&self) -> Result<Vec<String>, Error>;

    /// Removes sessions untouched for `max_age_secs` and returns how many; by default none.
    fn gc_stale(&self, max_age_secs: u64) -> (r: Result<usize, Error>)
        default_ensures
            r matches Ok(n) && n == 0,
    {
        Ok(0)
    }

    /// Deletes a session; by default the same as `clear`.
    fn delete(&self, chat_id: &str) -> Result<(), Error> {
        self.clear(chat_id)
    }
}

/// The chats and signals of a list of pairs, as a map.
pub open spec fn pairs_map(s: Seq<(Seq<char>, Seq<char>)>) -> Map<Seq<char>, Seq<char>>
    decreases s.len(),
{
    if s.len() == 0 {
        Map::empty()
    } else {
        pairs_map(s.drop_last()).insert(s.last().0, s.last().1)
    }
}

/// No chat occurs twice.
pub open spec fn keys_unique(s: Seq<(Seq<char>, Seq<char>)>) -> bool {
    forall|i: int, j: int| 0 <= i < j < s.len() ==> s[i].0 != s[j].0
}

/// What `get_then_clear` hands back from a map of signals.
pub open spec fn taken(m: Map<Seq<char>, Seq<char>>, chat: Seq<char>) -> Option<Seq<char>> {
    if m.contains_key(chat) { Some(m[chat]) } else { None }
}

proof fn lemma_pairs_map_dom(s: Seq<(Seq<char>, Seq<char>)>, k: Seq<char>)
    ensures
        pairs_map(s).contains_key(k) <==> exists|i: int| 0 <= i < s.len() && s[i].0 == k,
    decreases s.len(),
{
    if s.len() > 0 {
        lemma_pairs_map_dom(s.drop_last(), k);
        if pairs_map(s.drop_last()).contains_key(k) {
            let i = choose|i: int| 0 <= i < s.drop_last().len() && s.drop_last()[i].0 == k;
            assert(s[i].0 == k);
        }
        if exists|i: int| 0 <= i < s.len() && s[i].0 == k {
            let i = choose|i: int| 0 <= i < s.len() && s[i].0 == k;
            if i < s.len() - 1 {
                assert(s.drop_last()[i].0 == k);
            }
        }
    }
}

proof fn lemma_pairs_map_at(s: Seq<(Seq<char>, Seq<char>)>, i: int)
    requires
        keys_unique(s),
        0 <= i < s.len(),
    ensures
        pairs_map(s).contains_key(s[i].0),
        pairs_map(s)[s[i].0] == s[i].1,
    decreases s.len(),
{
    if i < s.len() - 1 {
        assert(keys_unique(s.drop_last()));
        lemma_pairs_map_at(s.drop_last(), i);
        assert(s.drop_last()[i] == s[i]);
    }
}

proof fn lemma_pairs_map_update(s: Seq<(Seq<char>, Seq<char>)>, i: int, v: Seq<char>)
    requires
        keys_unique(s),
        0 <= i < s.len(),
    ensures
        keys_unique(s.update(i, (s[i].0, v))),
        pairs_map(s.update(i, (s[i].0, v))) == pairs_map(s).insert(s[i].0, v),
{
    let t = s.update(i, (s[i].0, v));
    let k = s[i].0;
    assert(keys_unique(t)) by {
        assert forall|a: int, b: int| 0 <= a < b < t.len() implies t[a].0 != t[b].0 by {
            assert(t[a].0 == s[a].0 && t[b].0 == s[b].0);
        }
    }
    assert forall|kk: Seq<char>| #[trigger] pairs_map(t).contains_key(kk) <==> pairs_map(s).insert(k, v).contains_key(kk) by {
        lemma_pairs_map_dom(t, kk);
        lemma_pairs_map_dom(s, kk);
        if exists|j: int| 0 <= j < t.len() && t[j].0 == kk {
            let j = choose|j: int| 0 <= j < t.len() && t[j].0 == kk;
            assert(s[j].0 == kk);
        }
        if exists|j: int| 0 <= j < s.len() && s[j].0 == kk {
            let j = choose|j: int| 0 <= j < s.len() && s[j].0 == kk;
            assert(t[j].0 == kk);
        }
        if kk == k {
            assert(t[i].0 == kk);
        }
    }
    assert forall|kk: Seq<char>| #[trigger] pairs_map(t).contains_key(kk) implies pairs_map(t)[kk] == pairs_map(s).insert(k, v)[kk] by {
        lemma_pairs_map_dom(t, kk);
        let j = choose|j: int| 0 <= j < t.len() && t[j].0 == kk;
        lemma_pairs_map_at(t, j);
        if j != i {
            lemma_pairs_map_at(s, j);
        }
    }
    assert(pairs_map(t) =~= pairs_map(s).insert(k, v));
}

proof fn lemma_pairs_map_push(s: Seq<(Seq<char>, Seq<char>)>, k: Seq<char>, v: Seq<char>)
    requires
        keys_unique(s),
        forall|j: int| 0 <= j < s.len() ==> s[j].0 != k,
    ensures
        keys_unique(s.push((k, v))),
        pairs_map(s.push((k, v))) == pairs_map(s).insert(k, v),
{
    assert(s.push((k, v)).drop_last() =~= s);
}

proof fn lemma_pairs_map_remove(s: Seq<(Seq<char>, Seq<char>)>, i: int)
    requires
        keys_unique(s),
        0 <= i < s.len(),
    ensures
        keys_unique(s.remove(i)),
        pairs_map(s.remove(i)) == pairs_map(s).remove(s[i].0),
{
    let t = s.remove(i);
    let k = s[i].0;
    assert(keys_unique(t)) by {
        assert forall|a: int, b: int| 0 <= a < b < t.len() implies t[a].0 != t[b].0 by {
            let a2 = if a < i { a } else { a + 1 };
            let b2 = if b < i { b } else { b + 1 };
            assert(t[a] == s[a2] && t[b] == s[b2]);
        }
    }
    assert forall|kk: Seq<char>| #[trigger] pairs_map(t).contains_key(kk) <==> pairs_map(s).remove(k).contains_key(kk) by {
        lemma_pairs_map_dom(t, kk);
        lemma_pairs_map_dom(s, kk);
        if exists|j: int| 0 <= j < t.len() && t[j].0 == kk {
            let j = choose|j: int| 0 <= j < t.len() && t[j].0 == kk;
            let j2 = if j < i { j } else { j + 1 };
            assert(t[j] == s[j2]);
        }
        if kk != k && exists|j: int| 0 <= j < s.len() && s[j].0 == kk {
            let j = choose|j: int| 0 <= j < s.len() && s[j].0 == kk;
            if j < i {
                assert(t[j] == s[j]);
            } else {
                assert(j != i);
                assert(t[j - 1] == s[j]);
            }
        }
    }
    assert forall|kk: Seq<char>| #[trigger] pairs_map(t).contains_key(kk) implies pairs_map(t)[kk] == pairs_map(s).remove(k)[kk] by {
        lemma_pairs_map_dom(t, kk);
        let j = choose|j: int| 0 <= j < t.len() && t[j].0 == kk;
        let j2 = if j < i { j } else { j + 1 };
        assert(t[j] == s[j2]);
        lemma_pairs_map_at(t, j);
        lemma_pairs_map_at(s, j2);
    }
    assert(pairs_map(t) =~= pairs_map(s).remove(k));
}

/// Emotion signals kept in memory only, one per chat.
pub struct MemoryEmotionSignalStore {
    entries: Vec<(String, String)>,
}

impl MemoryEmotionSignalStore {
    /// The entries as character sequences.
    pub closed spec fn pairs(&self) -> Seq<(Seq<char>, Seq<char>)> {
        self.entries@.map_values(|e: (String, String)| (e.0@, e.1@))
    }

    /// The pending signal of each chat.
    pub closed spec fn view(&self) -> Map<Seq<char>, Seq<char>> {
        pairs_map(self.pairs())
    }

    pub closed spec fn wf(&self) -> bool {
        keys_unique(self.pairs())
    }

    /// An empty store.
    pub fn new() -> (r: Self)
        ensures
            r.wf(),
            r.view() == Map::<Seq<char>, Seq<char>>::empty(),
    {
        let r = MemoryEmotionSignalStore { entries: Vec::new() };
        assert(r.pairs() =~= Seq::<(Seq<char>, Seq<char>)>::empty());
        r
    }

    /// An empty store.
    pub fn default() -> (r: Self)
        ensures
            r.wf(),
            r.view() == Map::<Seq<char>, Seq<char>>::empty(),
    {
        Self::new()
    }

    fn find(&self, chat_id: &str) -> (r: Option<usize>)
        requires
            self.wf(),
        ensures
            r matches Some(i) ==> i < self.pairs().len() && self.pairs()[i as int].0 == chat_id@,
            r is None ==> forall|j: int| 0 <= j < self.pairs().len() ==> self.pairs()[j].0 != chat_id@,
    {
        let mut i: usize = 0;
        while i < self.entries.len()
            invariant
                i <= self.entries.len(),
                self.pairs().len() == self.entries.len(),
                forall|j: int| 0 <= j < i ==> self.pairs()[j].0 != chat_id@,
            decreases self.entries.len() - i,
        {
            if str_eq_string(&self.entries[i].0, chat_id) {
                return Some(i);
            }
            i = i + 1;
        }
        None
    }

    /// Sets the pending signal of a chat, replacing one already there.
    pub fn set(&mut self, chat_id: &str, signal: &str) -> (r: Result<(), Error>)
        requires
            old(self).wf(),
        ensures
            r is Ok,
            final(self).wf(),
            final(self).view() == old(self).view().insert(chat_id@, signal@),
    {
        let ghost s0 = self.pairs();
        match self.find(chat_id) {
            Some(i) => {
                let key = self.entries[i].0.clone();
                self.entries.set(i, (key, signal.to_owned()));
                proof {
                    lemma_pairs_map_update(s0, i as int, signal@);
                    assert(self.pairs() =~= s0.update(i as int, (s0[i as int].0, signal@)));
                }
            },
            None => {
                self.entries.push((chat_id.to_owned(), signal.to_owned()));
                proof {
                    lemma_pairs_map_push(s0, chat_id@, signal@);
                    assert(self.pairs() =~= s0.push((chat_id@, signal@)));
                }
            },
        }
        Ok(())
    }

    /// Takes the pending signal of a chat: returns it and removes it.
    pub fn get_then_clear(&mut self, chat_id: &str) -> (r: Result<Option<String>, Error>)
        requires
            old(self).wf(),
        ensures
            final(self).wf(),
            r is Ok,
            r matches Ok(o) ==> (match o {
                Some(s) => taken(old(self).view(), chat_id@) == Some(s@),
                None => taken(old(self).view(), chat_id@) is None,
            }),
            final(self).view() == old(self).view().remove(chat_id@),
    {
        let ghost s0 = self.pairs();
        match self.find(chat_id) {
            Some(i) => {
                let (_key, signal) = self.entries.remove(i);
                proof {
                    lemma_pairs_map_remove(s0, i as int);
                    lemma_pairs_map_at(s0, i as int);
                    assert(self.pairs() =~= s0.remove(i as int));
                }
                Ok(Some(signal))
            },
            None => {
                proof {
                    lemma_pairs_map_dom(s0, chat_id@);
                    assert(self.view() =~= old(self).view().remove(chat_id@));
                }
                Ok(None)
            },
        }
    }
}

/// Whether a string holds the same characters as a string slice.
fn str_eq_string(a: &String, b: &str) -> (r: bool)
    ensures
        r == (a@ == b@),
{
    crate::text::str_eq(a.as_str(), b)
}

/// A signal set for a chat is what the next take of that chat returns, and a second take
/// finds nothing.
pub proof fn lemma_signal_read_after_write(m: Map<Seq<char>, Seq<char>>, chat: Seq<char>, signal: Seq<char>)
    ensures
        taken(m.insert(chat, signal), chat) == Some(signal),
        taken(m.insert(chat, signal).remove(chat), chat) is None,
{
}

/// Setting or taking the signal of one chat leaves every other chat's signal as it was.
pub proof fn lemma_signal_other_chats(m: Map<Seq<char>, Seq<char>>, chat: Seq<char>, other: Seq<char>, signal: Seq<char>)
    requires
        chat != other,
    ensures
        taken(m.insert(chat, signal), other) == taken(m, other),
        taken(m.remove(chat), other) == taken(m, other),
{
}

} // verus!

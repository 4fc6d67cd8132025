use beetle::memory::store::{MemoryEmotionSignalStore, SessionMessage, MAX_SESSION_ENTRIES, REL_PATH_HEARTBEAT};
use beetle::memory::{build_system_prompt, SessionStore, SessionSummaryStore};
use beetle::error::Error;
use std::cell::RefCell;

#[test]
fn emotion_signal_is_taken_once() {
    let mut s = MemoryEmotionSignalStore::new();
    assert_eq!(s.get_then_clear("c1").unwrap(), None);
    s.set("c1", "comfort").unwrap();
    s.set("c2", "cheer").unwrap();
    s.set("c1", "calm").unwrap();
    assert_eq!(s.get_then_clear("c1").unwrap(), Some("calm".to_string()));
    assert_eq!(s.get_then_clear("c1").unwrap(), None);
    assert_eq!(s.get_then_clear("c2").unwrap(), Some("cheer".to_string()));
    let mut d = MemoryEmotionSignalStore::default();
    assert_eq!(d.get_then_clear("x").unwrap(), None);
}

#[test]
fn prompt_sections_and_cut() {
    let out = build_system_prompt("  Soul ", "User\n", "Mem", &["N1".to_string()], 100);
    assert_eq!(out, "Soul\n\nUser\n\nMem\n\nN1");
    // Only whole notes are kept: the first one that does not fit and all after it are dropped.
    let cut = build_system_prompt("A", "B", "C", &["ééé".to_string()], 10);
    assert_eq!(cut, "A\n\nB\n\nC");
    let whole = build_system_prompt("A", "B", "C", &["ééé".to_string()], 15);
    assert_eq!(whole, "A\n\nB\n\nC\n\nééé");
    let some = build_system_prompt("A", "B", "C", &["N1".to_string(), "ééé".to_string()], 12);
    assert_eq!(some, "A\n\nB\n\nC\n\nN1");
    let stop = build_system_prompt("A", "B", "C", &["ééé".to_string(), "x".to_string()], 12);
    assert_eq!(stop, "A\n\nB\n\nC");
    // A limit inside a multi-byte character cuts at the character boundary before it.
    assert_eq!(build_system_prompt("é", "", "", &[], 1), "");
    assert_eq!(build_system_prompt("aé", "", "", &[], 2), "a");
    // The base itself is cut to the limit.
    assert_eq!(build_system_prompt("Soul", "User", "Memory", &[], 6), "Soul\n\n");
}

#[test]
fn storage_constants() {
    assert_eq!(MAX_SESSION_ENTRIES, 128);
    assert_eq!(REL_PATH_HEARTBEAT, "memory/HEARTBEAT.md");
}

struct Summaries(std::sync::Mutex<Vec<(String, String)>>);

impl SessionSummaryStore for Summaries {
    fn get(&self, chat_id: &str) -> Result<Option<String>, Error> {
        Ok(self.0.lock().unwrap().iter().rev().find(|(c, _)| c == chat_id).map(|(_, s)| s.clone()))
    }
    fn set(&self, chat_id: &str, summary: &str) -> Result<(), Error> {
        self.0.lock().unwrap().push((chat_id.to_string(), summary.to_string()));
        Ok(())
    }
}

#[test]
fn summary_store_defaults() {
    let s = Summaries(std::sync::Mutex::new(Vec::new()));
    s.set_with_count("c", "short", 12).unwrap();
    assert_eq!(s.get_with_count("c").unwrap(), Some(("short".to_string(), 0)));
    assert_eq!(s.get_with_count("d").unwrap(), None);
}

struct Sessions(RefCell<Vec<String>>);

impl SessionStore for Sessions {
    fn append(&self, _chat_id: &str, _role: &str, _content: &str) -> Result<(), Error> {
        Ok(())
    }
    fn load_recent(&self, _chat_id: &str, _n: usize) -> Result<Vec<SessionMessage>, Error> {
        Ok(vec![SessionMessage { role: "user".into(), content: "hi".into() }])
    }
    fn clear(&self, chat_id: &str) -> Result<(), Error> {
        self.0.borrow_mut().push(chat_id.to_string());
        Ok(())
    }
    fn list_chat_ids(&self) -> Result<Vec<String>, Error> {
        Ok(vec![])
    }
}

#[test]
fn session_store_defaults() {
    let s = Sessions(RefCell::new(Vec::new()));
    assert_eq!(s.gc_stale(60).unwrap(), 0);
    s.delete("c9").unwrap();
    assert_eq!(*s.0.borrow(), vec!["c9".to_string()]);
    assert_eq!(s.load_recent("c9", 1).unwrap()[0].content, "hi");
}

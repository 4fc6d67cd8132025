use beetle::boot::{ensure_storage_ready, startup_self_check, storage_readable};
use beetle::error::Error;
use beetle::memory::MemoryStore;
use beetle::platform::abstraction::{ChunkSink, ConfigStore, PlatformHttpClient};
use beetle::platform::audio::{
    audio_plan, i2s_words_to_pcm16, pcm16_to_i2s_words, AudioBackendKind, AudioDeviceConfig, AudioPipeline,
    AudioRingBuffer, AudioSegment,
};
use beetle::platform::board_info::{
    count_cpuinfo_processors, cpu_model_from_cpuinfo, disk_usage_from_stats, host_state_root_usage,
    linux_os_release_from_str, parse_os_release_line, unquote_os_release_value,
};
use beetle::platform::fetch_url::fetch_url_to_bytes;
use beetle::platform::heap::{heap_free_internal, heap_free_spiram, is_heap_ok_for_agent_round, is_low_memory_no_spiram};
use beetle::platform::heartbeat_file::read_heartbeat_file;
use beetle::platform::http::{accept_body_chunk, default_post_headers, drain_step, normalize_proxy_for_ureq, streaming_budget};
use beetle::platform::MemorySnapshot;
use std::cell::RefCell;

#[test]
fn ring_buffer_keeps_newest_when_full() {
    let mut rb = AudioRingBuffer::with_capacity(4);
    rb.push_slice_drop_oldest(&[1, 2, 3]);
    assert_eq!(rb.len(), 3);
    assert_eq!(rb.available(), 1);
    rb.push_slice_drop_oldest(&[4, 5, 6]);
    assert_eq!(rb.len(), 4);
    let mut out = [0i16; 6];
    assert_eq!(rb.pop_into(&mut out), 4);
    assert_eq!(out, [3, 4, 5, 6, 0, 0]);
    assert_eq!(rb.len(), 0);
}

#[test]
fn ring_buffer_blocking_push_and_fifo() {
    let mut rb = AudioRingBuffer::with_capacity(3);
    assert_eq!(rb.push_slice_blocking(&[7, 8]), 2);
    assert_eq!(rb.push_slice_blocking(&[9, 10]), 1);
    let mut out = [0i16; 2];
    assert_eq!(rb.pop_into(&mut out), 2);
    assert_eq!(out, [7, 8]);
    assert_eq!(rb.push_slice_blocking(&[11, 12, 13]), 2);
    let mut all = [0i16; 5];
    assert_eq!(rb.pop_into(&mut all), 3);
    assert_eq!(&all[..3], &[9, 11, 12]);
    let mut none = AudioRingBuffer::default();
    none.push_slice_drop_oldest(&[1]);
    assert_eq!(none.len(), 0);
    assert_eq!(none.push_slice_blocking(&[1]), 0);
}

fn device(enabled: bool, t: &str, rate: u32, bits: u16) -> AudioDeviceConfig {
    AudioDeviceConfig { enabled, device_type: t.to_string(), sample_rate: rate, bits_per_sample: bits }
}

fn config_message<T: std::fmt::Debug>(r: Result<T, Error>) -> String {
    match r {
        Err(Error::Config { message, .. }) => message,
        other => panic!("expected a configuration error, got {:?}", other),
    }
}

#[test]
fn audio_plans() {
    let seg = AudioSegment {
        enabled: true,
        microphone: device(true, "i2s_inmp441", 16000, 16),
        speaker: device(true, "i2s_max98357a", 4000, 16),
    };
    let p = audio_plan(&seg).unwrap();
    assert_eq!(p.backend, AudioBackendKind::I2sStd);
    assert!(p.open_mic && p.open_speaker);
    assert_eq!(p.mic_capacity, 32000);
    assert_eq!(p.speaker_capacity, 16000);
    let pdm = AudioSegment { enabled: true, microphone: device(true, "pdm", 8000, 16), speaker: device(false, "x", 0, 8) };
    let pp = audio_plan(&pdm).unwrap();
    assert_eq!(pp.backend, AudioBackendKind::PdmStub);
    assert!(!pp.open_mic && !pp.open_speaker);
    let off = AudioSegment { enabled: false, microphone: device(true, "x", 0, 8), speaker: device(true, "y", 0, 8) };
    assert_eq!(audio_plan(&off).unwrap().backend, AudioBackendKind::Disabled);
    let bits = AudioSegment { enabled: true, microphone: device(true, "i2s_inmp441", 16000, 24), speaker: device(false, "", 0, 16) };
    assert_eq!(config_message(audio_plan(&bits)), "only 16-bit microphone sampling is supported (got 24)");
    let mic = AudioSegment { enabled: true, microphone: device(true, "analog", 16000, 16), speaker: device(false, "", 0, 16) };
    assert_eq!(config_message(audio_plan(&mic)), "unsupported microphone device_type 'analog', supported: i2s_inmp441, pdm");
    let spk = AudioSegment { enabled: true, microphone: device(false, "", 0, 16), speaker: device(true, "pwm", 16000, 16) };
    assert_eq!(config_message(audio_plan(&spk)), "unsupported speaker device_type 'pwm', only i2s_max98357a is supported now");
}

#[test]
fn i2s_sample_conversion() {
    let mut out = [0i16; 2];
    assert_eq!(i2s_words_to_pcm16(&[0x1234_5678, -65536, 5], &mut out), 2);
    assert_eq!(out, [0x1234, -1]);
    assert_eq!(pcm16_to_i2s_words(&[1, -1]), vec![65536, -65536]);
}

#[test]
fn audio_pipeline_directions() {
    let seg = AudioSegment { enabled: true, microphone: device(true, "i2s_inmp441", 8000, 16), speaker: device(false, "", 0, 16) };
    let plan = audio_plan(&seg).unwrap();
    let mut p = AudioPipeline::from_plan(plan, true, false);
    assert!(p.mic_ready());
    assert!(!p.speaker_ready());
    assert_eq!(config_message(p.write_speaker_pcm_i16(&[1, 2])), "speaker not initialized");
    p.mic.push_slice_drop_oldest(&[5, 6, 7]);
    let mut out = [0i16; 2];
    assert_eq!(p.read_mic_pcm_i16(&mut out).unwrap(), 2);
    assert_eq!(out, [5, 6]);
}

#[test]
fn cpuinfo_summaries() {
    let x86 = "processor\t: 0\nmodel name\t: Intel(R) Core(TM)\nprocessor\t: 1\nmodel name\t: other\n";
    assert_eq!(cpu_model_from_cpuinfo(x86).unwrap(), "Intel(R) Core(TM)");
    assert_eq!(count_cpuinfo_processors(x86), 2);
    let arm = "processor : 0\nCPU architecture: 7\nCPU implementer : 0x41\nCPU part : 0xc07\n\nHardware : \n";
    assert_eq!(cpu_model_from_cpuinfo(arm).unwrap(), "arch 7, implementer 0x41, part 0xc07");
    assert_eq!(cpu_model_from_cpuinfo("Hardware\t: BCM2835\r\nModel : Pi\n").unwrap(), "Pi");
    assert!(cpu_model_from_cpuinfo("foo: bar\nno colon here\n").is_none());
    assert_eq!(count_cpuinfo_processors(""), 0);
}

#[test]
fn os_release_details() {
    let v: Vec<char> = "  \"a\\\"b\\nc\"  ".chars().collect();
    let u: String = unquote_os_release_value(&v).into_iter().collect();
    assert_eq!(u, "a\"b\nc");
    let single: Vec<char> = "'x'".chars().collect();
    assert_eq!(unquote_os_release_value(&single).into_iter().collect::<String>(), "x");
    let lone: Vec<char> = "\"".chars().collect();
    assert_eq!(unquote_os_release_value(&lone).into_iter().collect::<String>(), "\"");
    let comment: Vec<char> = "# NAME=x".chars().collect();
    assert!(parse_os_release_line(&comment).is_none());
    let line: Vec<char> = " ID = debian ".chars().collect();
    let (k, val) = parse_os_release_line(&line).unwrap();
    assert_eq!(k.into_iter().collect::<String>(), "ID");
    assert_eq!(val.into_iter().collect::<String>(), "debian");
    assert_eq!(linux_os_release_from_str("NAME=Debian\nVERSION=\"12 (bookworm)\"\nID=debian"), ("Debian 12 (bookworm)".to_string(), "debian".to_string()));
    assert_eq!(linux_os_release_from_str("NAME=Alpine\nVERSION=\"\"\n"), ("Alpine".to_string(), "".to_string()));
    assert_eq!(linux_os_release_from_str("ID=arch\nID=arch2\n"), ("arch2".to_string(), "arch2".to_string()));
    assert_eq!(linux_os_release_from_str(""), ("".to_string(), "".to_string()));
}

#[test]
fn disk_usage() {
    assert_eq!(disk_usage_from_stats(100, 40, 4096), (409600, 245760, 163840));
    assert_eq!(disk_usage_from_stats(u64::MAX, 1, 2), (u64::MAX, u64::MAX - 2, 2));
    assert_eq!(disk_usage_from_stats(1, 5, 10), (10, 0, 50));
    assert_eq!(host_state_root_usage(Some((100, 40, 4096))), Some((409600, 245760)));
    assert_eq!(host_state_root_usage(None), None);
}

#[test]
fn heartbeat_reads() {
    assert_eq!(read_heartbeat_file(None).unwrap(), "");
    assert_eq!(read_heartbeat_file(Some(b"- water plants".to_vec())).unwrap(), "- water plants");
    let big = vec![b'a'; 9000];
    assert_eq!(read_heartbeat_file(Some(big)).unwrap().len(), 8192);
    assert_eq!(read_heartbeat_file(Some(vec![0x61, 0xff])).unwrap(), "a\u{fffd}");
}

#[test]
fn http_helpers() {
    assert_eq!(normalize_proxy_for_ureq("https://proxy.local:8443"), "http://proxy.local:8443");
    assert_eq!(normalize_proxy_for_ureq("http://p:1"), "http://p:1");
    assert_eq!(normalize_proxy_for_ureq("https:/"), "https:/");
    let h = default_post_headers(1234);
    assert_eq!(h[0], ("content-type".to_string(), "application/json".to_string()));
    assert_eq!(h[1], ("content-length".to_string(), "1234".to_string()));
    let mut body = Vec::new();
    assert!(accept_body_chunk(&mut body, &[1, 2, 3], 5));
    assert!(!accept_body_chunk(&mut body, &[4, 5, 6], 5));
    assert_eq!(body, vec![1, 2, 3, 4, 5]);
    assert!(!accept_body_chunk(&mut body, &[7], 5));
    assert_eq!(body.len(), 5);
    assert_eq!(streaming_budget(10, 5, 15), Some(15));
    assert_eq!(streaming_budget(10, 6, 15), None);
    assert_eq!(drain_step(1000, 512), (1512, true));
    assert_eq!(drain_step(524000, 288), (524288, false));
    assert_eq!(drain_step(524000, 512), (524512, false));
    match fetch_url_to_bytes("http://x", 10) {
        Err(Error::Config { stage, message }) => {
            assert_eq!(stage, "fetch_url");
            assert_eq!(message, "fetch_url_to_bytes not available on host");
        }
        other => panic!("unexpected {:?}", other),
    }
}

#[test]
fn heap_checks() {
    let snap = |i: u32, s: u32| MemorySnapshot { heap_free_internal: i, heap_free_spiram: s, heap_largest_block: 0 };
    assert!(is_low_memory_no_spiram(snap(1000, 0)));
    assert!(!is_low_memory_no_spiram(snap(1000, 10)));
    assert!(is_heap_ok_for_agent_round(snap(50000, 1)));
    assert!(!is_heap_ok_for_agent_round(snap(50000, 0)));
    assert!(is_heap_ok_for_agent_round(snap(98304, 0)));
    assert_eq!(heap_free_spiram(), 0);
}

struct MapConfig {
    data: std::sync::Mutex<Vec<(String, String)>>,
    fail_on: Option<String>,
}

impl ConfigStore for MapConfig {
    fn read_string(&self, key: &str) -> Result<Option<String>, Error> {
        if self.fail_on.as_deref() == Some(key) {
            return Err(Error::Other { stage: "nvs", message: "broken".to_string() });
        }
        Ok(self.data.lock().unwrap().iter().find(|(k, _)| k == key).map(|(_, v)| v.clone()))
    }
    fn write_string(&self, key: &str, value: &str) -> Result<(), Error> {
        if self.fail_on.as_deref() == Some(key) {
            return Err(Error::Other { stage: "nvs", message: "broken".to_string() });
        }
        self.data.lock().unwrap().push((key.to_string(), value.to_string()));
        Ok(())
    }
    fn erase_keys(&self, _keys: &[&str]) -> Result<(), Error> {
        Ok(())
    }
}

#[test]
fn config_store_defaults() {
    let store = MapConfig { data: std::sync::Mutex::new(vec![("a".to_string(), "1".to_string())]), fail_on: Some("bad".to_string()) };
    assert_eq!(store.read_strings(&["a", "b"]).unwrap(), vec![Some("1".to_string()), None]);
    assert!(store.read_strings(&["a", "bad", "b"]).is_err());
    assert!(store.write_strings(&[("x", "1"), ("y", "2")]).is_ok());
    assert_eq!(store.read_string("y").unwrap(), Some("2".to_string()));
    assert!(store.write_strings(&[("z", "1"), ("bad", "2"), ("w", "3")]).is_err());
    assert_eq!(store.read_string("w").unwrap(), None);
    assert_eq!(store.read_string("z").unwrap(), Some("1".to_string()));
}

struct EchoHttp {
    calls: Vec<String>,
}

impl PlatformHttpClient for EchoHttp {
    fn get(&mut self, url: &str, _headers: &[(String, String)]) -> Result<(u16, Vec<u8>), Error> {
        self.calls.push(format!("GET {}", url));
        Ok((200, b"got".to_vec()))
    }
    fn post(&mut self, url: &str, _headers: &[(String, String)], body: &[u8]) -> Result<(u16, Vec<u8>), Error> {
        self.calls.push(format!("POST {}", url));
        Ok((201, body.to_vec()))
    }
}

struct Collect(Vec<u8>);

impl ChunkSink for Collect {
    fn on_chunk(&mut self, chunk: &[u8]) -> Result<(), Error> {
        self.0.extend_from_slice(chunk);
        Ok(())
    }
}

#[test]
fn http_client_defaults() {
    let mut c = EchoHttp { calls: Vec::new() };
    assert_eq!(c.patch("u1", &[], b"p").unwrap(), (201, b"p".to_vec()));
    assert_eq!(c.put("u2", &[], b"q").unwrap().0, 201);
    assert_eq!(c.delete("u3", &[]).unwrap(), (200, b"got".to_vec()));
    let mut sink = Collect(Vec::new());
    assert_eq!(c.post_streaming("u4", &[], b"stream", &mut sink).unwrap(), 201);
    assert_eq!(sink.0, b"stream".to_vec());
    c.reset_connection_for_retry();
    assert_eq!(c.calls, vec!["POST u1", "POST u2", "GET u3", "POST u4"]);
}

struct Storage {
    memory_ok: bool,
    soul_ok: bool,
    writes: RefCell<Vec<String>>,
}

impl MemoryStore for Storage {
    fn get_memory(&self) -> Result<String, Error> {
        if self.memory_ok { Ok(String::new()) } else { Err(Error::Other { stage: "fs", message: "missing".to_string() }) }
    }
    fn set_memory(&self, _c: &str) -> Result<(), Error> {
        self.writes.borrow_mut().push("memory".to_string());
        Ok(())
    }
    fn get_soul(&self) -> Result<String, Error> {
        if self.soul_ok { Ok(String::new()) } else { Err(Error::Other { stage: "fs", message: "missing".to_string() }) }
    }
    fn set_soul(&self, _c: &str) -> Result<(), Error> {
        self.writes.borrow_mut().push("soul".to_string());
        Ok(())
    }
    fn get_user(&self) -> Result<String, Error> {
        Ok(String::new())
    }
    fn set_user(&self, _c: &str) -> Result<(), Error> {
        Ok(())
    }
    fn list_daily_note_names(&self, _n: usize) -> Result<Vec<String>, Error> {
        Ok(Vec::new())
    }
    fn get_daily_note(&self, _name: &str) -> Result<String, Error> {
        Ok(String::new())
    }
    fn write_daily_note(&self, _name: &str, _c: &str) -> Result<(), Error> {
        Ok(())
    }
}

#[test]
fn storage_startup_checks() {
    let empty = Storage { memory_ok: false, soul_ok: false, writes: RefCell::new(Vec::new()) };
    assert!(!startup_self_check(&empty));
    assert!(ensure_storage_ready(&empty));
    assert_eq!(*empty.writes.borrow(), vec!["memory".to_string(), "soul".to_string()]);
    let soul_only = Storage { memory_ok: false, soul_ok: true, writes: RefCell::new(Vec::new()) };
    assert!(startup_self_check(&soul_only));
    assert!(!ensure_storage_ready(&soul_only));
    assert!(soul_only.writes.borrow().is_empty());
}

#[test]
fn storage_readable_needs_one_readable_file() {
    let err = || -> Result<String, beetle::error::Error> {
        Err(beetle::error::Error::Other { stage: "read", message: "missing".to_string() })
    };
    assert!(storage_readable(&Ok(String::new()), &err()));
    assert!(storage_readable(&err(), &Ok("soul".to_string())));
    assert!(!storage_readable(&err(), &err()));
}

#[test]
fn host_internal_heap_reads_u32_max() {
    assert_eq!(heap_free_internal(), u32::MAX as usize);
}

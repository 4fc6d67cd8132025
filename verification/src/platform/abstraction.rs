//! Platform interfaces: key-value configuration, skill storage and the HTTP client, with the
//! default behaviour of their batch and fallback methods.
use vstd::prelude::*;

use crate::error::Error;

verus! {

/// Key-value configuration storage (such as NVS).
pub trait ConfigStore: Send + Sync {
    fn read_string(&self, key: &str) -> Result<Option<String>, Error>;

    /// Reads several keys; by default one `read_string` per key, in order, stopping at the
    /// first error.
    fn read_strings(&self, keys: &[&str]) -> (r: Result<Vec<Option<String>>, Error>)
        default_ensures
            r matches Ok(v) ==> v@.len() == keys@.len(),
    {
        let mut out: Vec<Option<String>> = Vec::new();
        let mut i: usize = 0;
        while i < keys.len()
            invariant
                i <= keys.len(),
                out@.len() == i,
            decreases keys.len() - i,
        {
            match self.read_string(keys[i]) {
                Ok(v) => out.push(v),
                Err(e) => return Err(e),
            }
            i = i + 1;
        }
        Ok(out)
    }

    fn write_string(&self, key: &str, value: &str) -> Result<(), Error>;

    /// Writes several pairs; by default one `write_string` per pair, in order, stopping at
    /// the first error.
    fn write_strings(&self, pairs: &[(&str, &str)]) -> Result<(), Error> {
        let mut i: usize = 0;
        while i < pairs.len()
            invariant
                i <= pairs.len(),
            decreases pairs.len() - i,
        {
            let (k, v) = pairs[i];
            self.write_string(k, v)?;
            i = i + 1;
        }
        Ok(())
    }

    /// Erases the given keys from the store's namespace.
    fn erase_keys(&self, keys: &[&str]) -> Result<(), Error>;
}

/// Skill metadata: the order of the skills and the disabled ones.
pub trait SkillMetaStore: Send + Sync {
    /// Returns (order, disabled).
    fn read_meta(&self) -> Result<(Vec<String>, Vec<String>), Error>;

    fn write_meta(&self, order: &[String], disabled: &[String]) -> Result<(), Error>;
}

/// Skill files; names are given without the `.md` suffix.
pub trait SkillStorage: Send + Sync {
    fn list_names(&self) -> Result<Vec<String>, Error>;

    fn read(&self, name: &str) -> Result<Vec<u8>, Error>;

    fn write(&self, name: &str, content: &[u8]) -> Result<(), Error>;

    fn remove(&self, name: &str) -> Result<(), Error>;
}

/// Receives the chunks of a streamed response body.
pub trait ChunkSink {
    fn on_chunk(&mut self, chunk: &[u8]) -> Result<(), Error>;
}

/// The platform's HTTP client: status and body of each request.
pub trait PlatformHttpClient {
    fn get(&mut self, url: &str, headers: &[(String, String)]) -> Result<(u16, Vec<u8>), Error>;

    fn post(&mut self, url: &str, headers: &[(String, String)], body: &[u8]) -> Result<(u16, Vec<u8>), Error>;

    /// HTTP PATCH; by default sent as a POST.
    fn patch(&mut self, url: &str, headers: &[(String, String)], body: &[u8]) -> Result<(u16, Vec<u8>), Error> {
        self.post(url, headers, body)
    }

    /// HTTP PUT; by default sent as a POST.
    fn put(&mut self, url: &str, headers: &[(String, String)], body: &[u8]) -> Result<(u16, Vec<u8>), Error> {
        self.post(url, headers, body)
    }

    /// HTTP DELETE; by default sent as a GET.
    fn delete(&mut self, url: &str, headers: &[(String, String)]) -> Result<(u16, Vec<u8>), Error> {
        self.get(url, headers)
    }

    /// Streaming POST: each chunk of the response goes to `on_chunk`; by default the whole
    /// body of a plain POST is handed over as one chunk.
    fn post_streaming<S: ChunkSink>(&mut self, url: &str, headers: &[(String, String)], body: &[u8], on_chunk: &mut S) -> Result<u16, Error> {
        let (status, resp_body) = self.post(url, headers, body)?;
        on_chunk.on_chunk(resp_body.as_slice())?;
        Ok(status)
    }

    /// Called before a retry; an implementation may replace its connection.
    fn reset_connection_for_retry(&mut self) {
    }
}

} // verus!

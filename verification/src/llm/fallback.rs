//! Several LLM sources tried in order: the first reply wins, and when all fail the last error
//! is returned and remembered.
use vstd::prelude::*;

use crate::error::{Error, error_text};
use crate::text::to_string;
use super::client::LlmHttpClient;
use super::types::{LlmResponse, Message, ToolSpec};

verus! {

/// Receives the text of a streamed reply as it grows: the new piece and the whole so far.
pub trait StreamProgress {
    fn on_progress(&mut self, delta: &str, accumulated: &str);
}

/// The tools of a request as a sequence.
pub open spec fn tools_view(tools: Option<&[ToolSpec]>) -> Option<Seq<ToolSpec>> {
    match tools {
        Some(t) => Some(t@),
        None => None,
    }
}

/// A model client: one conversation in, one reply out. The HTTP client is supplied per call.
pub trait LlmClient {
    /// `r` is an answer this client gives to the request (system prompt, messages, tools).
    /// A client may say what its answers are; by default any result is a possible answer, and
    /// for a client of unknown type a caller knows of an answer only by asking.
    open spec fn answers(&self, system: Seq<char>, messages: Seq<Message>, tools: Option<Seq<ToolSpec>>, r: Result<LlmResponse, Error>) -> bool {
        true
    }

    fn chat<H: LlmHttpClient>(&self, http: &mut H, system: &str, messages: &[Message], tools: Option<&[ToolSpec]>) -> (r: Result<LlmResponse, Error>)
        ensures
            self.answers(system@, messages@, tools_view(tools), r),
    ;

    /// Like `chat`, reporting streamed text as it comes; by default no progress is reported.
    fn chat_with_progress<H: LlmHttpClient, P: StreamProgress>(&self, http: &mut H, system: &str, messages: &[Message], tools: Option<&[ToolSpec]>, on_progress: &mut P) -> (r: Result<LlmResponse, Error>)
        ensures
            self.answers(system@, messages@, tools_view(tools), r),
    {
        self.chat(http, system, messages, tools)
    }
}

/// What the fallback does with the result of source `i` of `n`.
pub enum FallbackAction {
    /// Stop and return this result.
    Return(Result<LlmResponse, Error>),
    /// Ask the next source.
    TryNext,
}

/// The selection rule: a reply is returned at once; an error moves on to the next source, and
/// the last source's error is returned.
pub open spec fn fallback_action(i: int, n: int, res: Result<LlmResponse, Error>) -> FallbackAction {
    match res {
        Ok(r) => FallbackAction::Return(Ok(r)),
        Err(e) => if i + 1 < n { FallbackAction::TryNext } else { FallbackAction::Return(Err(e)) },
    }
}

/// One step of the fallback (see `fallback_action`).
pub fn fallback_step(i: usize, n: usize, res: Result<LlmResponse, Error>) -> (a: FallbackAction)
    ensures
        a == fallback_action(i as int, n as int, res),
{
    match res {
        Ok(r) => FallbackAction::Return(Ok(r)),
        Err(e) => if i < n && n - i > 1 { FallbackAction::TryNext } else { FallbackAction::Return(Err(e)) },
    }
}

/// The results of the sources asked in one chat, in list order, make a run of the fallback
/// over `n` sources: at least one source was asked and at most `n`; every source before the
/// last one asked failed; and the last one asked either replied or was the last source.
pub open spec fn fallback_run(tried: Seq<Result<LlmResponse, Error>>, n: int) -> bool {
    &&& 1 <= tried.len() <= n
    &&& forall|j: int| 0 <= j < tried.len() - 1 ==> #[trigger] tried[j] is Err
    &&& (tried.last() is Ok || tried.len() == n)
}

/// Tries its sources in order.
pub struct FallbackLlmClient<C: LlmClient> {
    clients: Vec<C>,
    last_error: Option<String>,
    tried: Ghost<Seq<Result<LlmResponse, Error>>>,
}

/// The error when there is no source.
pub open spec fn no_sources(e: Error) -> bool {
    e matches Error::Config { stage, message } && stage == "fallback_llm" && message@ == "no LLM sources configured"@
}

impl<C: LlmClient> FallbackLlmClient<C> {
    /// Number of sources.
    pub closed spec fn source_count(&self) -> nat {
        self.clients@.len()
    }

    /// The text of the last failure, if any.
    pub closed spec fn last_failure(&self) -> Option<Seq<char>> {
        match self.last_error {
            Some(s) => Some(s@),
            None => None,
        }
    }

    /// The sources, in the order they are asked.
    pub closed spec fn sources(&self) -> Seq<C> {
        self.clients@
    }

    /// What the sources asked by the last chat answered, in list order (source 0 first).
    pub closed spec fn last_run(&self) -> Seq<Result<LlmResponse, Error>> {
        self.tried@
    }

    /// A client over `clients`, in the order given; with none, every chat fails.
    pub fn new(clients: Vec<C>) -> (r: Self)
        ensures
            r.source_count() == clients@.len(),
            r.sources() == clients@,
            r.last_failure() is None,
            r.last_run() == Seq::<Result<LlmResponse, Error>>::empty(),
    {
        FallbackLlmClient { clients, last_error: None, tried: Ghost(Seq::empty()) }
    }

    pub fn len(&self) -> (r: usize)
        ensures
            r == self.source_count(),
    {
        self.clients.len()
    }

    /// The text of the most recent failure of `chat`.
    pub fn last_error(&self) -> (r: Option<String>)
        ensures
            match r {
                Some(s) => self.last_failure() == Some(s@),
                None => self.last_failure() is None,
            },
    {
        match &self.last_error {
            Some(s) => Some(s.clone()),
            None => None,
        }
    }

    fn set_last_error(&mut self, e: &Error)
        ensures
            final(self).last_failure() == Some(error_text(*e)),
            final(self).source_count() == old(self).source_count(),
            final(self).clients == old(self).clients,
            final(self).tried == old(self).tried,
    {
        self.last_error = Some(e.describe());
    }

    /// Finishes a chat with its result: the run is recorded, and an error is remembered.
    fn finish(&mut self, r: Result<LlmResponse, Error>, Ghost(tried): Ghost<Seq<Result<LlmResponse, Error>>>) -> (out: Result<LlmResponse, Error>)
        ensures
            out == r,
            final(self).last_run() == tried,
            final(self).clients == old(self).clients,
            r is Ok ==> final(self).last_failure() == old(self).last_failure(),
            r matches Err(e) ==> final(self).last_failure() == Some(error_text(e)),
    {
        self.tried = Ghost(tried);
        if let Err(e) = &r {
            self.set_last_error(e);
        }
        r
    }

    /// Asks each source in turn, with the same HTTP client, system prompt, messages and tools,
    /// and returns the first reply; later sources are not asked. When every source fails, the
    /// last source's error is returned and remembered. Without sources it fails at once.
    pub fn chat<H: LlmHttpClient>(&mut self, http: &mut H, system: &str, messages: &[Message], tools: Option<&[ToolSpec]>) -> (r: Result<LlmResponse, Error>)
        ensures
            final(self).source_count() == old(self).source_count(),
            old(self).source_count() == 0 ==> (r matches Err(e) && no_sources(e)),
            final(self).sources() == old(self).sources(),
            old(self).source_count() > 0 ==> {
                &&& fallback_run(final(self).last_run(), old(self).source_count() as int)
                &&& r == final(self).last_run().last()
                &&& forall|j: int| 0 <= j < final(self).last_run().len() ==>
                    #[trigger] old(self).sources()[j].answers(system@, messages@, tools_view(tools), final(self).last_run()[j])
            },
            r is Ok ==> final(self).last_failure() == old(self).last_failure(),
            r matches Err(e) ==> final(self).last_failure() == Some(error_text(e)),
    {
        let n = self.clients.len();
        if n == 0 {
            let err = Error::Config { stage: "fallback_llm", message: to_string("no LLM sources configured") };
            self.set_last_error(&err);
            return Err(err);
        }
        let ghost mut tried: Seq<Result<LlmResponse, Error>> = Seq::empty();
        let mut i: usize = 0;
        loop
            invariant
                n == self.clients@.len(),
                n > 0,
                i < n,
                self.clients == old(self).clients,
                self.last_error == old(self).last_error,
                tried.len() == i,
                forall|j: int| 0 <= j < tried.len() ==> #[trigger] tried[j] is Err,
                forall|j: int| 0 <= j < tried.len() ==>
                    #[trigger] self.clients@[j].answers(system@, messages@, tools_view(tools), tried[j]),
            decreases n - i,
        {
            let res = self.clients[i].chat(http, system, messages, tools);
            let ghost seen = res;
            proof { tried = tried.push(seen); }
            match fallback_step(i, n, res) {
                FallbackAction::Return(r) => {
                    assert(r == seen);
                    return self.finish(r, Ghost(tried));
                },
                FallbackAction::TryNext => {
                    i = i + 1;
                },
            }
        }
    }

    /// Like `chat`, with progress reported by the first source only; the later sources are
    /// asked without progress.
    pub fn chat_with_progress<H: LlmHttpClient, P: StreamProgress>(&mut self, http: &mut H, system: &str, messages: &[Message], tools: Option<&[ToolSpec]>, on_progress: &mut P) -> (r: Result<LlmResponse, Error>)
        ensures
            final(self).source_count() == old(self).source_count(),
            old(self).source_count() == 0 ==> (r matches Err(e) && no_sources(e)),
            final(self).sources() == old(self).sources(),
            old(self).source_count() > 0 ==> {
                &&& fallback_run(final(self).last_run(), old(self).source_count() as int)
                &&& r == final(self).last_run().last()
                &&& forall|j: int| 0 <= j < final(self).last_run().len() ==>
                    #[trigger] old(self).sources()[j].answers(system@, messages@, tools_view(tools), final(self).last_run()[j])
            },
            r is Ok ==> final(self).last_failure() == old(self).last_failure(),
            r matches Err(e) ==> final(self).last_failure() == Some(error_text(e)),
    {
        let n = self.clients.len();
        if n == 0 {
            let err = Error::Config { stage: "fallback_llm", message: to_string("no LLM sources configured") };
            self.set_last_error(&err);
            return Err(err);
        }
        let first = self.clients[0].chat_with_progress(http, system, messages, tools, on_progress);
        let ghost seen0 = first;
        let ghost mut tried: Seq<Result<LlmResponse, Error>> = seq![seen0];
        match fallback_step(0, n, first) {
            FallbackAction::Return(r) => {
                assert(r == seen0);
                return self.finish(r, Ghost(tried));
            },
            FallbackAction::TryNext => {},
        }
        let mut i: usize = 1;
        loop
            invariant
                n == self.clients@.len(),
                1 <= i < n,
                self.clients == old(self).clients,
                self.last_error == old(self).last_error,
                tried.len() == i,
                forall|j: int| 0 <= j < tried.len() ==> #[trigger] tried[j] is Err,
                forall|j: int| 0 <= j < tried.len() ==>
                    #[trigger] self.clients@[j].answers(system@, messages@, tools_view(tools), tried[j]),
            decreases n - i,
        {
            let res = self.clients[i].chat(http, system, messages, tools);
            let ghost seen = res;
            proof { tried = tried.push(seen); }
            match fallback_step(i, n, res) {
                FallbackAction::Return(r) => {
                    assert(r == seen);
                    return self.finish(r, Ghost(tried));
                },
                FallbackAction::TryNext => {
                    i = i + 1;
                },
            }
        }
    }
}

} // verus!

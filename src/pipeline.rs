use vstd::prelude::*;

use crate::chunker::{chunk_text, chunks_of, texts};
use crate::clean::{clean_llm_markdown_output, tidied, without_thinking_blocks};
use crate::prompts::{
    chunk_user, chunk_user_prompt, combine_user, combine_user_prompt, final_system_prompt,
    final_system_prompt_of, final_user_prompt, final_user_prompt_of, CHUNK_SYSTEM, COMBINE_SYSTEM,
};
use crate::template::{template_ok, Template};
use crate::tokens::{estimate_tokens, rough_token_count};

verus! {

broadcast use vstd::string::group_string_axioms;

/// The backend that answers the model calls.
#[derive(Debug, Clone, Copy, PartialEq, Eq, Structural)]
pub enum LlmProvider {
    /// A hosted service, assumed to take long contexts.
    Cloud,
    /// A local Ollama server, assumed to have a small context.
    Ollama,
}

/// Tokens kept free in each extraction call for the prompt around the chunk.
pub const PROMPT_HEADROOM_TOKENS: usize = 300;

/// Tokens that consecutive chunks share.
pub const CHUNK_OVERLAP_TOKENS: usize = 100;

/// Reported when no chunk could be summarized.
pub const NO_CHUNK_SUCCEEDED: &'static str = "Mehrstufige Zusammenfassung fehlgeschlagen: Es wurde kein Chunk erfolgreich verarbeitet.";

/// Start of the message reported when the template cannot be had.
pub const TEMPLATE_FAILED_HEAD: &'static str = "Vorlage '";

/// Middle of the message reported when the template cannot be had.
pub const TEMPLATE_FAILED_MID: &'static str = "' konnte nicht geladen werden: ";

/// Whether a run splits the transcript: only a local model with a transcript that reaches
/// the threshold does.
pub open spec fn uses_chunking(provider: LlmProvider, transcript: Seq<char>, threshold: nat) -> bool {
    provider == LlmProvider::Ollama && estimate_tokens(transcript.len()) >= threshold
}

/// The message of a run whose template could not be had.
pub open spec fn template_failure(template_id: Seq<char>, detail: Seq<char>) -> Seq<char> {
    TEMPLATE_FAILED_HEAD@ + template_id + TEMPLATE_FAILED_MID@ + detail
}

/// Where a run stands.
#[derive(Debug, Clone, Copy, PartialEq, Eq, Structural)]
pub enum Stage {
    /// Waiting for the summary of chunk `next_chunk`.
    Extracting,
    /// Waiting for the merged summary of all chunk summaries.
    Combining,
    /// Waiting for the template.
    LoadingTemplate,
    /// Waiting for the final report.
    Finalizing,
    /// The report was handed out.
    Done,
    /// The run failed.
    Aborted,
}

/// What the caller is to do next.
#[derive(Debug)]
pub enum Action {
    /// Call the model with these prompts and report the outcome with `on_model_reply`.
    CallModel { system: String, user: String },
    /// Look the template up and report the outcome with `on_template`.
    LoadTemplate { id: String },
    /// The run is over: the report and the number of chunks that were summarized.
    Finish { markdown: String, chunk_count: usize },
    /// The run failed for the reason given.
    Abort { message: String },
}

/// `a` asks for a model call with exactly these prompts.
pub open spec fn calls(a: Action, system: Seq<char>, user: Seq<char>) -> bool {
    a matches Action::CallModel { system: s, user: u } && s@ == system && u@ == user
}

/// `a` asks for the template `id`.
pub open spec fn loads(a: Action, id: Seq<char>) -> bool {
    a matches Action::LoadTemplate { id: i } && i@ == id
}

/// `a` ends the run with this message.
pub open spec fn aborts(a: Action, message: Seq<char>) -> bool {
    a matches Action::Abort { message: m } && m@ == message
}

/// `a` hands out this report for this number of chunks.
pub open spec fn finishes(a: Action, markdown: Seq<char>, chunk_count: nat) -> bool {
    a matches Action::Finish { markdown: m, chunk_count: n } && m@ == markdown && n == chunk_count
}

/// One summarization run: the decisions between the calls that the caller makes.
pub struct SummaryRun {
    /// Identifier of the template of the report.
    pub template_id: String,
    /// Context the user supplied; empty when there is none.
    pub custom_context: String,
    /// The chunks of the transcript; empty for a single pass.
    pub chunks: Vec<String>,
    /// Index of the chunk whose summary is awaited.
    pub next_chunk: usize,
    /// Summaries of the chunks that succeeded, in transcript order.
    pub summaries: Vec<String>,
    /// Number of chunks whose call failed.
    pub failures: usize,
    /// What the final report is written from.
    pub content: String,
    /// Number of chunks that were summarized; 1 for a single pass.
    pub chunk_count: usize,
    /// Where the run stands.
    pub stage: Stage,
}

impl SummaryRun {
    /// The bookkeeping of the run is consistent.
    pub open spec fn wf(&self) -> bool {
        &&& self.summaries@.len() + self.failures == self.next_chunk
        &&& self.next_chunk <= self.chunks@.len()
        &&& self.stage == Stage::Extracting ==> self.next_chunk < self.chunks@.len()
    }

    /// The run waits for the outcome of a model call.
    pub open spec fn awaits_model(&self) -> bool {
        self.stage == Stage::Extracting || self.stage == Stage::Combining || self.stage
            == Stage::Finalizing
    }

    /// Starts a run over `transcript`: a single pass unless the provider is local and the
    /// transcript reaches `token_threshold`, in which case it is cut into chunks of
    /// `token_threshold - 300` tokens that overlap by 100.
    pub fn start(
        provider: LlmProvider,
        transcript: &str,
        custom_context: &str,
        template_id: &str,
        token_threshold: usize,
    ) -> (r: (SummaryRun, Action))
        requires
            uses_chunking(provider, transcript@, token_threshold as nat) ==> token_threshold
                > PROMPT_HEADROOM_TOKENS,
        ensures
            r.0.wf(),
            r.0.template_id@ == template_id@,
            r.0.custom_context@ == custom_context@,
            r.0.summaries@.len() == 0,
            r.0.failures == 0,
            r.0.next_chunk == 0,
            !uses_chunking(provider, transcript@, token_threshold as nat) ==> {
                &&& r.0.stage == Stage::LoadingTemplate
                &&& r.0.content@ == transcript@
                &&& r.0.chunk_count == 1
                &&& r.0.chunks@.len() == 0
                &&& loads(r.1, template_id@)
            },
            uses_chunking(provider, transcript@, token_threshold as nat) ==> {
                &&& r.0.stage == Stage::Extracting
                &&& texts(r.0.chunks@) == chunks_of(
                    transcript@,
                    (token_threshold - PROMPT_HEADROOM_TOKENS) as nat,
                    CHUNK_OVERLAP_TOKENS as nat,
                )
                &&& calls(r.1, CHUNK_SYSTEM@, chunk_user_prompt(r.0.chunks@[0]@))
            },
    {
        let total_tokens = rough_token_count(transcript);
        if provider != LlmProvider::Ollama || total_tokens < token_threshold {
            let run = SummaryRun {
                template_id: String::from_str(template_id),
                custom_context: String::from_str(custom_context),
                chunks: Vec::new(),
                next_chunk: 0,
                summaries: Vec::new(),
                failures: 0,
                content: String::from_str(transcript),
                chunk_count: 1,
                stage: Stage::LoadingTemplate,
            };
            let action = Action::LoadTemplate { id: String::from_str(template_id) };
            return (run, action);
        }
        let chunks = chunk_text(
            transcript,
            token_threshold - PROMPT_HEADROOM_TOKENS,
            CHUNK_OVERLAP_TOKENS,
        );
        assert(texts(chunks@).len() == chunks@.len());
        assert(chunks@.len() > 0);
        let user = chunk_user(chunks[0].as_str());
        let run = SummaryRun {
            template_id: String::from_str(template_id),
            custom_context: String::from_str(custom_context),
            chunks,
            next_chunk: 0,
            summaries: Vec::new(),
            failures: 0,
            content: String::new(),
            chunk_count: 0,
            stage: Stage::Extracting,
        };
        let action = Action::CallModel { system: String::from_str(CHUNK_SYSTEM), user };
        (run, action)
    }

    /// Takes the outcome of the model call that the run asked for and says what comes
    /// next. A failed chunk is counted and skipped; the run aborts when no chunk succeeded,
    /// and when the merging or the final call fails, with that call's error.
    pub fn on_model_reply(&mut self, reply: Result<String, String>) -> (a: Action)
        requires
            old(self).wf(),
            old(self).awaits_model(),
        ensures
            final(self).wf(),
            final(self).template_id == old(self).template_id,
            final(self).custom_context == old(self).custom_context,
            final(self).chunks == old(self).chunks,
            old(self).stage == Stage::Extracting ==> {
                let k = old(self).next_chunk as int;
                let n = old(self).chunks@.len();
                &&& final(self).next_chunk == k + 1
                &&& final(self).summaries@ == match reply {
                    Ok(s) => old(self).summaries@.push(s),
                    Err(_) => old(self).summaries@,
                }
                &&& final(self).failures == old(self).failures + if reply is Ok {
                    0int
                } else {
                    1int
                }
                &&& if k + 1 < n {
                    &&& final(self).stage == Stage::Extracting
                    &&& calls(a, CHUNK_SYSTEM@, chunk_user_prompt(old(self).chunks@[k + 1]@))
                } else if final(self).summaries@.len() == 0 {
                    &&& final(self).stage == Stage::Aborted
                    &&& aborts(a, NO_CHUNK_SUCCEEDED@)
                } else if final(self).summaries@.len() == 1 {
                    &&& final(self).stage == Stage::LoadingTemplate
                    &&& final(self).content@ == final(self).summaries@[0]@
                    &&& final(self).chunk_count == 1
                    &&& loads(a, old(self).template_id@)
                } else {
                    &&& final(self).stage == Stage::Combining
                    &&& final(self).chunk_count == final(self).summaries@.len()
                    &&& calls(a, COMBINE_SYSTEM@, combine_user_prompt(texts(final(self).summaries@)))
                }
            },
            old(self).stage == Stage::Combining ==> {
                &&& final(self).chunk_count == old(self).chunk_count
                &&& match reply {
                    Ok(s) => {
                        &&& final(self).stage == Stage::LoadingTemplate
                        &&& final(self).content@ == s@
                        &&& loads(a, old(self).template_id@)
                    },
                    Err(e) => final(self).stage == Stage::Aborted && aborts(a, e@),
                }
            },
            old(self).stage == Stage::Finalizing ==> match reply {
                Ok(raw) => {
                    &&& final(self).stage == Stage::Done
                    &&& finishes(
                        a,
                        tidied(without_thinking_blocks(raw@)),
                        old(self).chunk_count as nat,
                    )
                },
                Err(e) => final(self).stage == Stage::Aborted && aborts(a, e@),
            },
    {
        match self.stage {
            Stage::Extracting => {
                let k = self.next_chunk;
                let n = self.chunks.len();
                assert(self.failures <= k < n);
                match reply {
                    Ok(s) => {
                        self.summaries.push(s);
                    },
                    Err(_) => {
                        self.failures = self.failures + 1;
                    },
                }
                self.next_chunk = k + 1;
                if k + 1 < n {
                    let user = chunk_user(self.chunks[k + 1].as_str());
                    return Action::CallModel { system: String::from_str(CHUNK_SYSTEM), user };
                }
                if self.summaries.len() == 0 {
                    self.stage = Stage::Aborted;
                    return Action::Abort { message: String::from_str(NO_CHUNK_SUCCEEDED) };
                }
                self.chunk_count = self.summaries.len();
                if self.summaries.len() == 1 {
                    self.content = self.summaries[0].clone();
                    self.stage = Stage::LoadingTemplate;
                    return Action::LoadTemplate { id: self.template_id.clone() };
                }
                self.stage = Stage::Combining;
                let user = combine_user(&self.summaries);
                Action::CallModel { system: String::from_str(COMBINE_SYSTEM), user }
            },
            Stage::Combining => match reply {
                Ok(s) => {
                    self.content = s;
                    self.stage = Stage::LoadingTemplate;
                    Action::LoadTemplate { id: self.template_id.clone() }
                },
                Err(e) => {
                    self.stage = Stage::Aborted;
                    Action::Abort { message: e }
                },
            },
            _ => match reply {
                Ok(raw) => {
                    self.stage = Stage::Done;
                    let markdown = clean_llm_markdown_output(raw.as_str());
                    Action::Finish { markdown, chunk_count: self.chunk_count }
                },
                Err(e) => {
                    self.stage = Stage::Aborted;
                    Action::Abort { message: e }
                },
            },
        }
    }

    /// Takes the outcome of the template lookup. A template that is found and valid leads
    /// to the final call; otherwise the run aborts, naming the template.
    pub fn on_template(&mut self, lookup: Result<Template, String>) -> (a: Action)
        requires
            old(self).wf(),
            old(self).stage == Stage::LoadingTemplate,
        ensures
            final(self).wf(),
            final(self).template_id == old(self).template_id,
            final(self).custom_context == old(self).custom_context,
            final(self).content == old(self).content,
            final(self).chunk_count == old(self).chunk_count,
            match lookup {
                Ok(t) => if template_ok(t) {
                    &&& final(self).stage == Stage::Finalizing
                    &&& calls(
                        a,
                        final_system_prompt_of(old(self).template_id@, t),
                        final_user_prompt_of(old(self).content@, old(self).custom_context@),
                    )
                } else {
                    &&& final(self).stage == Stage::Aborted
                    &&& exists|detail: Seq<char>|
                        aborts(a, #[trigger] template_failure(old(self).template_id@, detail))
                },
                Err(e) => final(self).stage == Stage::Aborted && aborts(
                    a,
                    template_failure(old(self).template_id@, e@),
                ),
            },
    {
        let detail = match lookup {
            Ok(t) => match t.validate() {
                Ok(()) => {
                    let system = final_system_prompt(self.template_id.as_str(), &t);
                    let user = final_user_prompt(
                        self.content.as_str(),
                        self.custom_context.as_str(),
                    );
                    self.stage = Stage::Finalizing;
                    return Action::CallModel { system, user };
                },
                Err(m) => m,
            },
            Err(e) => e,
        };
        let mut message = String::from_str(TEMPLATE_FAILED_HEAD);
        message.append(self.template_id.as_str());
        message.append(TEMPLATE_FAILED_MID);
        message.append(detail.as_str());
        self.stage = Stage::Aborted;
        assert(message@ == template_failure(self.template_id@, detail@));
        Action::Abort { message }
    }
}

} // verus!

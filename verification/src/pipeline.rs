//! The decisions of the assistant's request pipeline, as a state machine.
//!
//! Serving a prompt alternates work that the host performs (rate-limit queries,
//! model calls, knowledge-base search, streaming events to the client) with
//! decisions. A `Session` takes each result as a `Reply` and answers with the
//! `Effect`s to perform, in order; when the last effect is a `Call`, its result is
//! the next reply. The session is finished once it has emitted its one terminal
//! event, an `Error` or the `Response`.

use vstd::prelude::*;
use crate::error::AppError;
use crate::entities::{
    AiEvent, AiRequest, ChatMessage, DetailsView, LogDetails, LogEntry, LogRecord, Notice, SimilarDocument,
};
use crate::prompt::{
    chats_view, documents_view, final_prompt, final_prompt_spec, memory_context,
    memory_context_spec, rag_context, rag_context_spec,
};
use crate::text::{all_ws, is_blank};

verus! {

/// How many knowledge-base passages are retrieved for a prompt.
pub const CONTEXT_DOCUMENTS: i64 = 3;

/// How many recent exchanges are recalled for a prompt.
pub const RECENT_CHATS: i64 = 5;

/// Work for the host whose result drives the session.
#[derive(Debug, Clone)]
pub enum Request {
    /// Whether this client address may still ask today.
    CheckIpRateLimit { ip: String },
    /// Whether the service may still answer today.
    CheckGlobalRateLimit,
    /// Whether the model judges `text` safe.
    EvaluateGuardrail { text: String },
    /// Embed `text` and keep the embedding for the search.
    GetEmbedding { text: String },
    /// The `limit` passages nearest to the kept embedding.
    GetSimilarDocuments { limit: i64 },
    /// The `limit` most recent exchanges, newest first.
    GetRecentChats { limit: i64 },
    /// The model's answer to `prompt`.
    GenerateContent { prompt: String },
}

/// Something for the host to do.
#[derive(Debug, Clone)]
pub enum Effect {
    /// Stream an event to the client (its delivery is not awaited by the session).
    Emit(AiEvent),
    /// Write an audit record (its outcome does not matter to the session).
    Log(LogEntry),
    /// Store the exchange (a failure is only worth a warning).
    SaveChat { ip: String, prompt: String, response: String },
    /// Perform a request and hand its result back.
    Call(Request),
}

/// The result of the pending request.
#[derive(Debug, Clone)]
pub enum Reply {
    /// The answer of a rate limit or of a guardrail: `true` allows.
    Verdict(bool),
    /// The request failed.
    Failed,
    /// The embedding was computed and kept by the host.
    EmbeddingReady,
    /// The passages found.
    Documents(Vec<SimilarDocument>),
    /// The recent exchanges, newest first.
    Chats(Vec<ChatMessage>),
    /// The model's answer.
    Generated(String),
}

/// The characters of a `Request`.
pub enum RequestView {
    CheckIpRateLimit(Seq<char>),
    CheckGlobalRateLimit,
    EvaluateGuardrail(Seq<char>),
    GetEmbedding(Seq<char>),
    GetSimilarDocuments(i64),
    GetRecentChats(i64),
    GenerateContent(Seq<char>),
}

/// The characters of an `Effect`.
pub enum EffectView {
    Emit(Notice),
    Log(LogRecord),
    SaveChat(Seq<char>, Seq<char>, Seq<char>),
    Call(RequestView),
}

/// The characters of a `Reply`.
pub enum ReplyView {
    Verdict(bool),
    Failed,
    EmbeddingReady,
    Documents(Seq<Seq<char>>),
    Chats(Seq<(Seq<char>, Seq<char>)>),
    Generated(Seq<char>),
}

impl View for Request {
    type V = RequestView;

    open spec fn view(&self) -> RequestView {
        match self {
            Request::CheckIpRateLimit { ip } => RequestView::CheckIpRateLimit(ip@),
            Request::CheckGlobalRateLimit => RequestView::CheckGlobalRateLimit,
            Request::EvaluateGuardrail { text } => RequestView::EvaluateGuardrail(text@),
            Request::GetEmbedding { text } => RequestView::GetEmbedding(text@),
            Request::GetSimilarDocuments { limit } => RequestView::GetSimilarDocuments(*limit),
            Request::GetRecentChats { limit } => RequestView::GetRecentChats(*limit),
            Request::GenerateContent { prompt } => RequestView::GenerateContent(prompt@),
        }
    }
}

impl View for Effect {
    type V = EffectView;

    open spec fn view(&self) -> EffectView {
        match self {
            Effect::Emit(e) => EffectView::Emit(e@),
            Effect::Log(l) => EffectView::Log(l@),
            Effect::SaveChat { ip, prompt, response } => EffectView::SaveChat(
                ip@,
                prompt@,
                response@,
            ),
            Effect::Call(r) => EffectView::Call(r@),
        }
    }
}

impl View for Reply {
    type V = ReplyView;

    open spec fn view(&self) -> ReplyView {
        match self {
            Reply::Verdict(b) => ReplyView::Verdict(*b),
            Reply::Failed => ReplyView::Failed,
            Reply::EmbeddingReady => ReplyView::EmbeddingReady,
            Reply::Documents(d) => ReplyView::Documents(documents_view(d@)),
            Reply::Chats(c) => ReplyView::Chats(chats_view(c@)),
            Reply::Generated(t) => ReplyView::Generated(t@),
        }
    }
}

/// The characters of each effect.
pub open spec fn effects_view(effects: Seq<Effect>) -> Seq<EffectView> {
    effects.map_values(|e: Effect| e@)
}

/// Which request a session awaits.
#[derive(Debug)]
enum Stage {
    IpLimit,
    GlobalLimit,
    InputGuard,
    Embedding,
    Documents,
    History { rag: String },
    Generation,
    OutputGuard { response: String },
    Finished,
}

/// Which request a session awaits, with what it has gathered so far.
pub enum StageView {
    /// Awaits the per-address rate limit.
    IpLimit,
    /// Awaits the service-wide rate limit.
    GlobalLimit,
    /// Awaits the guardrail's verdict on the prompt.
    InputGuard,
    /// Awaits the embedding of the prompt.
    Embedding,
    /// Awaits the nearest passages.
    Documents,
    /// Awaits the recent exchanges; holds the retrieved context.
    History(Seq<char>),
    /// Awaits the model's answer.
    Generation,
    /// Awaits the guardrail's verdict on the answer it holds.
    OutputGuard(Seq<char>),
    /// Has emitted its terminal event.
    Finished,
}

impl View for Stage {
    type V = StageView;

    closed spec fn view(&self) -> StageView {
        match self {
            Stage::IpLimit => StageView::IpLimit,
            Stage::GlobalLimit => StageView::GlobalLimit,
            Stage::InputGuard => StageView::InputGuard,
            Stage::Embedding => StageView::Embedding,
            Stage::Documents => StageView::Documents,
            Stage::History { rag } => StageView::History(rag@),
            Stage::Generation => StageView::Generation,
            Stage::OutputGuard { response } => StageView::OutputGuard(response@),
            Stage::Finished => StageView::Finished,
        }
    }
}

/// The serving of one prompt from one client.
pub struct Session {
    ip: String,
    prompt: String,
    stage: Stage,
}

/// The characters of a `Session`.
pub struct SessionView {
    pub ip: Seq<char>,
    pub prompt: Seq<char>,
    pub stage: StageView,
}

impl View for Session {
    type V = SessionView;

    closed spec fn view(&self) -> SessionView {
        SessionView { ip: self.ip@, prompt: self.prompt@, stage: self.stage@ }
    }
}

/// Emit a progress event.
pub open spec fn thinking(msg: Seq<char>) -> EffectView {
    EffectView::Emit(Notice::Thinking(msg))
}

/// Emit the terminal error event.
pub open spec fn failure(msg: Seq<char>) -> EffectView {
    EffectView::Emit(Notice::Error(msg))
}

/// The session in `stage`, for the same client and prompt.
pub open spec fn at(s: SessionView, stage: StageView) -> SessionView {
    SessionView { ip: s.ip, prompt: s.prompt, stage }
}

/// The number of requests answered before a session reaches `stage`.
pub open spec fn stage_rank(stage: StageView) -> nat {
    match stage {
        StageView::IpLimit => 0,
        StageView::GlobalLimit => 1,
        StageView::InputGuard => 2,
        StageView::Embedding => 3,
        StageView::Documents => 4,
        StageView::History(_) => 5,
        StageView::Generation => 6,
        StageView::OutputGuard(_) => 7,
        StageView::Finished => 8,
    }
}

/// The refusal of a blank prompt.
pub open spec fn empty_prompt_text() -> Seq<char> {
    "Prompt cannot be empty"@
}

/// How a session begins: a blank prompt is refused at once; any other starts with
/// the per-address rate limit.
pub open spec fn start_spec(ip: Seq<char>, prompt: Seq<char>) -> (SessionView, Seq<EffectView>) {
    let s = SessionView { ip, prompt, stage: StageView::IpLimit };
    if all_ws(prompt) {
        (at(s, StageView::Finished), seq![failure(empty_prompt_text())])
    } else {
        (
            s,
            seq![
                thinking("Checking security rules and rate limits..."@),
                EffectView::Call(RequestView::CheckIpRateLimit(ip)),
            ],
        )
    }
}

/// How a session answers the result of its pending request. A reply of another kind
/// than the request calls for counts as a failure of the request.
pub open spec fn step_spec(s: SessionView, r: ReplyView) -> (SessionView, Seq<EffectView>) {
    let done = at(s, StageView::Finished);
    match s.stage {
        StageView::IpLimit => match r {
            ReplyView::Verdict(true) => (
                at(s, StageView::GlobalLimit),
                seq![EffectView::Call(RequestView::CheckGlobalRateLimit)],
            ),
            ReplyView::Verdict(false) => (done, seq![failure("Rate limit exceeded"@)]),
            _ => (done, seq![failure("Internal database error"@)]),
        },
        StageView::GlobalLimit => match r {
            ReplyView::Verdict(true) => (
                at(s, StageView::InputGuard),
                seq![
                    thinking("Evaluating input guardrails..."@),
                    EffectView::Call(RequestView::EvaluateGuardrail(s.prompt)),
                ],
            ),
            ReplyView::Verdict(false) => (done, seq![failure("Global rate limit exceeded"@)]),
            _ => (done, seq![failure("Internal database error"@)]),
        },
        StageView::InputGuard => match r {
            ReplyView::Verdict(true) => (
                at(s, StageView::Embedding),
                seq![
                    thinking("Embedding query and searching knowledge base..."@),
                    EffectView::Call(RequestView::GetEmbedding(s.prompt)),
                ],
            ),
            ReplyView::Verdict(false) => (
                done,
                seq![
                    EffectView::Log(
                        LogRecord {
                            level: "WARNING"@,
                            event: "Input Guardrail Rejected"@,
                            details: DetailsView::Prompt { ip: s.ip, prompt: s.prompt },
                        },
                    ),
                    failure("Input rejected by safety guidelines."@),
                ],
            ),
            _ => (done, seq![failure("Failed to evaluate safety guidelines."@)]),
        },
        StageView::Embedding => match r {
            ReplyView::EmbeddingReady => (
                at(s, StageView::Documents),
                seq![EffectView::Call(RequestView::GetSimilarDocuments(CONTEXT_DOCUMENTS))],
            ),
            _ => (done, seq![failure("Failed to generate embedding."@)]),
        },
        StageView::Documents => match r {
            ReplyView::Documents(docs) => (
                at(s, StageView::History(rag_context_spec(docs))),
                seq![
                    thinking("Fetching global chat history..."@),
                    EffectView::Call(RequestView::GetRecentChats(RECENT_CHATS)),
                ],
            ),
            _ => (done, seq![failure("Failed to search knowledge base."@)]),
        },
        StageView::History(rag) => match r {
            ReplyView::Chats(chats) => (
                at(s, StageView::Generation),
                seq![
                    thinking("Generating response..."@),
                    EffectView::Call(
                        RequestView::GenerateContent(
                            final_prompt_spec(rag, memory_context_spec(chats), s.prompt),
                        ),
                    ),
                ],
            ),
            _ => (done, seq![failure("Failed to fetch chat history."@)]),
        },
        StageView::Generation => match r {
            ReplyView::Generated(text) => (
                at(s, StageView::OutputGuard(text)),
                seq![
                    thinking("Verifying output safety..."@),
                    EffectView::Call(RequestView::EvaluateGuardrail(text)),
                ],
            ),
            _ => (done, seq![failure("Failed to generate response."@)]),
        },
        StageView::OutputGuard(response) => match r {
            ReplyView::Verdict(true) => (
                done,
                seq![
                    thinking("Saving session..."@),
                    EffectView::SaveChat(s.ip, s.prompt, response),
                    EffectView::Log(
                        LogRecord {
                            level: "INFO"@,
                            event: "AI Response Generated"@,
                            details: DetailsView::Lengths {
                                ip: s.ip,
                                prompt_length: vstd::utf8::encode_utf8(s.prompt).len() as usize,
                                response_length: vstd::utf8::encode_utf8(response).len() as usize,
                            },
                        },
                    ),
                    EffectView::Emit(Notice::Response(response)),
                ],
            ),
            ReplyView::Verdict(false) => (
                done,
                seq![
                    EffectView::Log(
                        LogRecord {
                            level: "WARNING"@,
                            event: "Output Guardrail Rejected"@,
                            details: DetailsView::Exchange {
                                ip: s.ip,
                                prompt: s.prompt,
                                response,
                            },
                        },
                    ),
                    failure("Generated response rejected by safety guidelines."@),
                ],
            ),
            _ => (done, seq![failure("Failed to verify output safety."@)]),
        },
        StageView::Finished => (s, Seq::empty()),
    }
}

/// A progress event.
fn emit_thinking(msg: &str) -> (res: Effect)
    ensures
        res@ == thinking(msg@),
{
    Effect::Emit(AiEvent::Thinking(msg.to_owned()))
}

/// The terminal error event.
fn emit_failure(msg: &str) -> (res: Effect)
    ensures
        res@ == failure(msg@),
{
    Effect::Emit(AiEvent::Error(msg.to_owned()))
}

/// The effects of a step that ends the session with an error.
fn fail_with(msg: &str) -> (res: Vec<Effect>)
    ensures
        effects_view(res@) == seq![failure(msg@)],
{
    let mut res = Vec::new();
    res.push(emit_failure(msg));
    proof {
        assert(effects_view(res@) =~= seq![failure(msg@)]);
    }
    res
}

/// The effects of a step that emits progress and then calls.
fn think_then_call(msg: &str, request: Request) -> (res: Vec<Effect>)
    ensures
        effects_view(res@) == seq![thinking(msg@), EffectView::Call(request@)],
{
    let mut res = Vec::new();
    res.push(emit_thinking(msg));
    res.push(Effect::Call(request));
    proof {
        assert(effects_view(res@) =~= seq![thinking(msg@), EffectView::Call(request@)]);
    }
    res
}

impl Session {
    /// Whether the session has emitted its terminal event.
    pub fn is_finished(&self) -> (res: bool)
        ensures
            res == (self@.stage is Finished),
    {
        match self.stage {
            Stage::Finished => true,
            _ => false,
        }
    }

    /// Begins serving `prompt` for the client at `ip`.
    pub fn start(ip: String, prompt: String) -> (res: (Session, Vec<Effect>))
        ensures
            (res.0@, effects_view(res.1@)) == start_spec(ip@, prompt@),
    {
        if is_blank(prompt.as_str()) {
            let effects = fail_with("Prompt cannot be empty");
            (Session { ip, prompt, stage: Stage::Finished }, effects)
        } else {
            let request = Request::CheckIpRateLimit { ip: ip.clone() };
            let effects = think_then_call("Checking security rules and rate limits...", request);
            (Session { ip, prompt, stage: Stage::IpLimit }, effects)
        }
    }

    /// Answers the result of the pending request with the effects to perform, in order.
    pub fn advance(&mut self, reply: Reply) -> (effects: Vec<Effect>)
        ensures
            (final(self)@, effects_view(effects@)) == step_spec(old(self)@, reply@),
    {
        let mut stage = Stage::Finished;
        std::mem::swap(&mut stage, &mut self.stage);
        match stage {
            Stage::IpLimit => match reply {
                Reply::Verdict(true) => {
                    self.stage = Stage::GlobalLimit;
                    let mut res = Vec::new();
                    res.push(Effect::Call(Request::CheckGlobalRateLimit));
                    proof {
                        assert(effects_view(res@) =~= seq![
                            EffectView::Call(RequestView::CheckGlobalRateLimit),
                        ]);
                    }
                    res
                },
                Reply::Verdict(false) => fail_with("Rate limit exceeded"),
                _ => fail_with("Internal database error"),
            },
            Stage::GlobalLimit => match reply {
                Reply::Verdict(true) => {
                    self.stage = Stage::InputGuard;
                    let request = Request::EvaluateGuardrail { text: self.prompt.clone() };
                    think_then_call("Evaluating input guardrails...", request)
                },
                Reply::Verdict(false) => fail_with("Global rate limit exceeded"),
                _ => fail_with("Internal database error"),
            },
            Stage::InputGuard => match reply {
                Reply::Verdict(true) => {
                    self.stage = Stage::Embedding;
                    let request = Request::GetEmbedding { text: self.prompt.clone() };
                    think_then_call("Embedding query and searching knowledge base...", request)
                },
                Reply::Verdict(false) => {
                    let entry = LogEntry {
                        level: "WARNING".to_owned(),
                        event: "Input Guardrail Rejected".to_owned(),
                        details: LogDetails::Prompt { ip: self.ip.clone(), prompt: self.prompt.clone() },
                    };
                    let mut res = Vec::new();
                    res.push(Effect::Log(entry));
                    res.push(emit_failure("Input rejected by safety guidelines."));
                    proof {
                        assert(effects_view(res@) =~= step_spec(old(self)@, reply@).1);
                    }
                    res
                },
                _ => fail_with("Failed to evaluate safety guidelines."),
            },
            Stage::Embedding => match reply {
                Reply::EmbeddingReady => {
                    self.stage = Stage::Documents;
                    let mut res = Vec::new();
                    res.push(Effect::Call(Request::GetSimilarDocuments { limit: CONTEXT_DOCUMENTS }));
                    proof {
                        assert(effects_view(res@) =~= step_spec(old(self)@, reply@).1);
                    }
                    res
                },
                _ => fail_with("Failed to generate embedding."),
            },
            Stage::Documents => match reply {
                Reply::Documents(docs) => {
                    let rag = rag_context(&docs);
                    self.stage = Stage::History { rag };
                    let request = Request::GetRecentChats { limit: RECENT_CHATS };
                    think_then_call("Fetching global chat history...", request)
                },
                _ => fail_with("Failed to search knowledge base."),
            },
            Stage::History { rag } => match reply {
                Reply::Chats(chats) => {
                    let memory = memory_context(&chats);
                    let prompt = final_prompt(rag.as_str(), memory.as_str(), self.prompt.as_str());
                    self.stage = Stage::Generation;
                    let request = Request::GenerateContent { prompt };
                    think_then_call("Generating response...", request)
                },
                _ => fail_with("Failed to fetch chat history."),
            },
            Stage::Generation => match reply {
                Reply::Generated(text) => {
                    let request = Request::EvaluateGuardrail { text: text.clone() };
                    self.stage = Stage::OutputGuard { response: text };
                    think_then_call("Verifying output safety...", request)
                },
                _ => fail_with("Failed to generate response."),
            },
            Stage::OutputGuard { response } => match reply {
                Reply::Verdict(true) => {
                    let prompt_length = self.prompt.as_str().len();
                    let response_length = response.as_str().len();
                    let entry = LogEntry {
                        level: "INFO".to_owned(),
                        event: "AI Response Generated".to_owned(),
                        details: LogDetails::Lengths {
                            ip: self.ip.clone(),
                            prompt_length,
                            response_length,
                        },
                    };
                    let mut res = Vec::new();
                    res.push(emit_thinking("Saving session..."));
                    res.push(
                        Effect::SaveChat {
                            ip: self.ip.clone(),
                            prompt: self.prompt.clone(),
                            response: response.clone(),
                        },
                    );
                    res.push(Effect::Log(entry));
                    res.push(Effect::Emit(AiEvent::Response(response)));
                    proof {
                        assert(effects_view(res@) =~= step_spec(old(self)@, reply@).1);
                    }
                    res
                },
                Reply::Verdict(false) => {
                    let entry = LogEntry {
                        level: "WARNING".to_owned(),
                        event: "Output Guardrail Rejected".to_owned(),
                        details: LogDetails::Exchange {
                            ip: self.ip.clone(),
                            prompt: self.prompt.clone(),
                            response,
                        },
                    };
                    let mut res = Vec::new();
                    res.push(Effect::Log(entry));
                    res.push(emit_failure("Generated response rejected by safety guidelines."));
                    proof {
                        assert(effects_view(res@) =~= step_spec(old(self)@, reply@).1);
                    }
                    res
                },
                _ => fail_with("Failed to verify output safety."),
            },
            Stage::Finished => {
                let res = Vec::new();
                proof {
                    assert(effects_view(res@) =~= Seq::<EffectView>::empty());
                }
                res
            },
        }
    }
}

} // verus!

verus! {

/// An effect that ends the session: the error event or the response event.
pub open spec fn is_terminal(e: EffectView) -> bool {
    e matches EffectView::Emit(n) && (n is Error || n is Response)
}

/// Whether `r` is the successful result of the request that `stage` awaits.
pub open spec fn succeeds(stage: StageView, r: ReplyView) -> bool {
    match stage {
        StageView::IpLimit | StageView::GlobalLimit | StageView::InputGuard | StageView::OutputGuard(
            _,
        ) => r == ReplyView::Verdict(true),
        StageView::Embedding => r is EmbeddingReady,
        StageView::Documents => r is Documents,
        StageView::History(_) => r is Chats,
        StageView::Generation => r is Generated,
        StageView::Finished => false,
    }
}

/// A finished session stays finished and does nothing more, whatever it is told.
pub proof fn lemma_finished_is_final(s: SessionView, r: ReplyView)
    requires
        s.stage is Finished,
    ensures
        step_spec(s, r) == (s, Seq::<EffectView>::empty()),
{
}

/// Each step of an unfinished session keeps its client and prompt, does something,
/// and either ends the session with exactly one terminal event, its last effect, or
/// moves on to the next stage and ends with the call that this stage awaits; it
/// moves on exactly when the reply is the pending request's success.
pub proof fn lemma_step_shape(s: SessionView, r: ReplyView)
    requires
        !(s.stage is Finished),
    ensures
        ({
            let (t, es) = step_spec(s, r);
            &&& t.ip == s.ip && t.prompt == s.prompt
            &&& es.len() > 0
            &&& forall|i: int| 0 <= i < es.len() - 1 ==> !is_terminal(#[trigger] es[i])
            &&& (t.stage is Finished) == is_terminal(es.last())
            &&& !(t.stage is Finished) ==> es.last() is Call
            &&& succeeds(s.stage, r) ==> stage_rank(t.stage) == stage_rank(s.stage) + 1
            &&& !succeeds(s.stage, r) ==> t.stage is Finished
        }),
{
}

/// The answer reaches the client only from a session holding that answer, on the
/// guardrail's approval of it.
pub proof fn lemma_response_needs_output_approval(s: SessionView, r: ReplyView, text: Seq<char>)
    requires
        step_spec(s, r).1.contains(EffectView::Emit(Notice::Response(text))),
    ensures
        s.stage == StageView::OutputGuard(text),
        r == ReplyView::Verdict(true),
{
    let es = step_spec(s, r).1;
    let i = choose|i: int| 0 <= i < es.len() && es[i] == EffectView::Emit(Notice::Response(text));
    assert(es[i] == EffectView::Emit(Notice::Response(text)));
}

/// The session after starting and answering `replies` in turn, with all effects so far.
pub open spec fn run_spec(ip: Seq<char>, prompt: Seq<char>, replies: Seq<ReplyView>) -> (
    SessionView,
    Seq<EffectView>,
)
    decreases replies.len(),
{
    if replies.len() == 0 {
        start_spec(ip, prompt)
    } else {
        let (s, es) = run_spec(ip, prompt, replies.drop_last());
        let (t, more) = step_spec(s, replies.last());
        (t, es + more)
    }
}

/// The stage that a session reaches after `k` successful replies.
pub open spec fn stage_after(k: nat, replies: Seq<ReplyView>) -> StageView {
    if k == 0 {
        StageView::IpLimit
    } else if k == 1 {
        StageView::GlobalLimit
    } else if k == 2 {
        StageView::InputGuard
    } else if k == 3 {
        StageView::Embedding
    } else if k == 4 {
        StageView::Documents
    } else if k == 5 {
        StageView::History(rag_context_spec(replies[4]->Documents_0))
    } else if k == 6 {
        StageView::Generation
    } else {
        StageView::OutputGuard(replies[6]->Generated_0)
    }
}

/// Whether the first `k` replies each succeeded.
pub open spec fn all_succeed(replies: Seq<ReplyView>, k: nat) -> bool {
    forall|j: nat| j < k ==> #[trigger] succeeds(stage_after(j, replies), replies[j as int])
}

proof fn lemma_run_invariant(ip: Seq<char>, prompt: Seq<char>, replies: Seq<ReplyView>)
    ensures
        ({
            let (s, es) = run_spec(ip, prompt, replies);
            &&& s.ip == ip && s.prompt == prompt
            &&& !(s.stage is Finished) ==> {
                &&& !all_ws(prompt)
                &&& replies.len() < 8
                &&& all_succeed(replies, replies.len())
                &&& s.stage == stage_after(replies.len(), replies)
            }
            &&& forall|text: Seq<char>|
                #[trigger] es.contains(EffectView::Emit(Notice::Response(text))) ==> {
                    &&& !all_ws(prompt)
                    &&& replies.len() >= 8
                    &&& all_succeed(replies, 8)
                    &&& replies[6] == ReplyView::Generated(text)
                }
        }),
    decreases replies.len(),
{
    if replies.len() == 0 {
        let (s, es) = run_spec(ip, prompt, replies);
        assert forall|text: Seq<char>| !es.contains(EffectView::Emit(Notice::Response(text))) by {
            if es.contains(EffectView::Emit(Notice::Response(text))) {
                let i = choose|i: int| 0 <= i < es.len() && es[i] == EffectView::Emit(Notice::Response(text));
                assert(es[i] == EffectView::Emit(Notice::Response(text)));
            }
        }
    } else {
        let prev = replies.drop_last();
        let r = replies.last();
        lemma_run_invariant(ip, prompt, prev);
        let (s, es) = run_spec(ip, prompt, prev);
        let (t, more) = step_spec(s, r);
        let n = prev.len();
        assert forall|j: nat| j < n implies stage_after(j, replies) == stage_after(j, prev) && replies[j as int] == prev[j as int] by {
        }
        if !(s.stage is Finished) {
            lemma_step_shape(s, r);
            if succeeds(s.stage, r) {
                assert forall|j: nat| j < n + 1 implies #[trigger] succeeds(stage_after(j, replies), replies[j as int]) by {
                    if j < n {
                        assert(succeeds(stage_after(j, prev), prev[j as int]));
                    }
                }
            }
        } else {
            lemma_finished_is_final(s, r);
        }
        assert forall|text: Seq<char>|
            #[trigger] (es + more).contains(EffectView::Emit(Notice::Response(text))) implies {
                &&& !all_ws(prompt)
                &&& replies.len() >= 8
                &&& all_succeed(replies, 8)
                &&& replies[6] == ReplyView::Generated(text)
            } by {
            let all = es + more;
            let i = choose|i: int| 0 <= i < all.len() && all[i] == EffectView::Emit(Notice::Response(text));
            if i < es.len() {
                assert(es[i] == all[i]);
                assert(es.contains(EffectView::Emit(Notice::Response(text))));
                assert forall|j: nat| j < 8 implies #[trigger] succeeds(stage_after(j, replies), replies[j as int]) by {
                    assert(succeeds(stage_after(j, prev), prev[j as int]));
                }
            } else {
                assert(more[i - es.len()] == all[i]);
                assert(more.contains(EffectView::Emit(Notice::Response(text))));
                lemma_response_needs_output_approval(s, r, text);
                assert forall|j: nat| j < 8 implies #[trigger] succeeds(stage_after(j, replies), replies[j as int]) by {
                    if j < 7 {
                        assert(succeeds(stage_after(j, prev), prev[j as int]));
                    }
                }
            }
        }
    }
}

/// The answer reaches the client only if the prompt is not blank and the first eight
/// results were, in order: both rate limits allowing, the guardrail approving the
/// prompt, the embedding, the passages, the history, the generated answer (which is
/// the one sent), and the guardrail approving that answer.
pub proof fn lemma_response_needs_every_check(
    ip: Seq<char>,
    prompt: Seq<char>,
    replies: Seq<ReplyView>,
    text: Seq<char>,
)
    requires
        run_spec(ip, prompt, replies).1.contains(EffectView::Emit(Notice::Response(text))),
    ensures
        !all_ws(prompt),
        replies.len() >= 8,
        replies[0] == ReplyView::Verdict(true),
        replies[1] == ReplyView::Verdict(true),
        replies[2] == ReplyView::Verdict(true),
        replies[3] is EmbeddingReady,
        replies[4] is Documents,
        replies[5] is Chats,
        replies[6] == ReplyView::Generated(text),
        replies[7] == ReplyView::Verdict(true),
{
    lemma_run_invariant(ip, prompt, replies);
    assert(succeeds(stage_after(0, replies), replies[0]));
    assert(succeeds(stage_after(1, replies), replies[1]));
    assert(succeeds(stage_after(2, replies), replies[2]));
    assert(succeeds(stage_after(3, replies), replies[3]));
    assert(succeeds(stage_after(4, replies), replies[4]));
    assert(succeeds(stage_after(5, replies), replies[5]));
    assert(succeeds(stage_after(6, replies), replies[6]));
    assert(succeeds(stage_after(7, replies), replies[7]));
}

} // verus!

verus! {

/// The request for the model, unless the prompt is blank, which is a validation error.
pub fn validate_prompt(prompt: String) -> (res: Result<AiRequest, AppError>)
    ensures
        all_ws(prompt@) ==> (res matches Err(AppError::Validation(m)) && m@
            == empty_prompt_text()),
        !all_ws(prompt@) ==> (res matches Ok(r) && r.prompt@ == prompt@),
{
    if is_blank(prompt.as_str()) {
        Err(AppError::Validation("Prompt cannot be empty".to_owned()))
    } else {
        Ok(AiRequest { prompt })
    }
}

} // verus!

verus! {

/// Over any run, an unfinished session has emitted no terminal event and awaits its
/// last effect, a call; a finished one has emitted exactly one terminal event, the
/// last of all its effects. So every prompt is answered by one `Error` or one
/// `Response`, and nothing follows it.
pub proof fn lemma_run_has_one_outcome(ip: Seq<char>, prompt: Seq<char>, replies: Seq<ReplyView>)
    ensures
        ({
            let (s, es) = run_spec(ip, prompt, replies);
            &&& es.len() > 0
            &&& forall|i: int| 0 <= i < es.len() - 1 ==> !is_terminal(#[trigger] es[i])
            &&& (s.stage is Finished) == is_terminal(es.last())
            &&& !(s.stage is Finished) ==> es.last() is Call
        }),
    decreases replies.len(),
{
    if replies.len() > 0 {
        let prev = replies.drop_last();
        lemma_run_has_one_outcome(ip, prompt, prev);
        let (s, es) = run_spec(ip, prompt, prev);
        let (t, more) = step_spec(s, replies.last());
        if s.stage is Finished {
            lemma_finished_is_final(s, replies.last());
            assert(es + more == es);
        } else {
            lemma_step_shape(s, replies.last());
            let all = es + more;
            assert forall|i: int| 0 <= i < all.len() - 1 implies !is_terminal(#[trigger] all[i]) by {
                if i < es.len() {
                    assert(all[i] == es[i]);
                } else {
                    assert(all[i] == more[i - es.len()]);
                }
            }
            assert(all.last() == more.last());
        }
    }
}

} // verus!

verus! {

/// Whether an effect streams a progress event.
pub open spec fn is_progress(e: EffectView) -> bool {
    e matches EffectView::Emit(n) && n is Thinking
}

/// The number of progress events among `es`.
pub open spec fn progress_count(es: Seq<EffectView>) -> nat
    decreases es.len(),
{
    if es.len() == 0 {
        0
    } else {
        progress_count(es.drop_last()) + if is_progress(es.last()) {
            1nat
        } else {
            0nat
        }
    }
}

proof fn lemma_progress_count_concat(a: Seq<EffectView>, b: Seq<EffectView>)
    ensures
        progress_count(a + b) == progress_count(a) + progress_count(b),
    decreases b.len(),
{
    if b.len() > 0 {
        lemma_progress_count_concat(a, b.drop_last());
        assert((a + b).drop_last() == a + b.drop_last());
        assert((a + b).last() == b.last());
    } else {
        assert(a + b == a);
    }
}

/// The most progress events that a session may have streamed on reaching `stage`.
pub open spec fn progress_budget(stage: StageView) -> nat {
    match stage {
        StageView::IpLimit => 1,
        StageView::GlobalLimit => 1,
        StageView::InputGuard => 2,
        StageView::Embedding => 3,
        StageView::Documents => 3,
        StageView::History(_) => 4,
        StageView::Generation => 5,
        StageView::OutputGuard(_) => 6,
        StageView::Finished => 7,
    }
}

proof fn lemma_step_progress(s: SessionView, r: ReplyView)
    requires
        !(s.stage is Finished),
    ensures
        progress_count(step_spec(s, r).1) + progress_budget(s.stage) <= progress_budget(
            step_spec(s, r).0.stage,
        ),
{
    reveal_with_fuel(progress_count, 5);
    lemma_step_shape(s, r);
}

/// Over any run, the client receives at most seven progress events; none when the
/// prompt is blank, at least one otherwise. With `lemma_run_has_one_outcome`, what
/// the client receives is some progress events, then exactly one `Error` or `Response`.
pub proof fn lemma_run_progress_events(ip: Seq<char>, prompt: Seq<char>, replies: Seq<ReplyView>)
    ensures
        ({
            let (s, es) = run_spec(ip, prompt, replies);
            &&& progress_count(es) <= progress_budget(s.stage) <= 7
            &&& all_ws(prompt) ==> progress_count(es) == 0 && s.stage is Finished
            &&& !all_ws(prompt) ==> progress_count(es) >= 1
        }),
    decreases replies.len(),
{
    reveal_with_fuel(progress_count, 3);
    if replies.len() > 0 {
        let prev = replies.drop_last();
        lemma_run_progress_events(ip, prompt, prev);
        lemma_run_invariant(ip, prompt, prev);
        let (s, es) = run_spec(ip, prompt, prev);
        let (t, more) = step_spec(s, replies.last());
        lemma_progress_count_concat(es, more);
        if s.stage is Finished {
            lemma_finished_is_final(s, replies.last());
        } else {
            lemma_step_progress(s, replies.last());
        }
    }
}

} // verus!

verus! {

/// What each refusal tells the client: the text of the error event that ends a
/// session at each stage.
pub proof fn lemma_refusal_messages(s: SessionView, r: ReplyView)
    ensures
        empty_prompt_text() == "Prompt cannot be empty"@,
        all_ws(s.prompt) ==> start_spec(s.ip, s.prompt).1 == seq![
            EffectView::Emit(Notice::Error("Prompt cannot be empty"@)),
        ],
        s.stage is IpLimit && r == ReplyView::Verdict(false) ==> step_spec(s, r).1.last()
            == EffectView::Emit(Notice::Error("Rate limit exceeded"@)),
        s.stage is IpLimit && r is Failed ==> step_spec(s, r).1.last() == EffectView::Emit(
            Notice::Error("Internal database error"@),
        ),
        s.stage is GlobalLimit && r == ReplyView::Verdict(false) ==> step_spec(s, r).1.last()
            == EffectView::Emit(Notice::Error("Global rate limit exceeded"@)),
        s.stage is GlobalLimit && r is Failed ==> step_spec(s, r).1.last() == EffectView::Emit(
            Notice::Error("Internal database error"@),
        ),
        s.stage is InputGuard && r == ReplyView::Verdict(false) ==> step_spec(s, r).1 == seq![
            EffectView::Log(
                LogRecord {
                    level: "WARNING"@,
                    event: "Input Guardrail Rejected"@,
                    details: DetailsView::Prompt { ip: s.ip, prompt: s.prompt },
                },
            ),
            EffectView::Emit(Notice::Error("Input rejected by safety guidelines."@)),
        ],
        s.stage is InputGuard && r is Failed ==> step_spec(s, r).1.last() == EffectView::Emit(
            Notice::Error("Failed to evaluate safety guidelines."@),
        ),
        s.stage is Embedding && r is Failed ==> step_spec(s, r).1.last() == EffectView::Emit(
            Notice::Error("Failed to generate embedding."@),
        ),
        s.stage is Documents && r is Failed ==> step_spec(s, r).1.last() == EffectView::Emit(
            Notice::Error("Failed to search knowledge base."@),
        ),
        s.stage is History && r is Failed ==> step_spec(s, r).1.last() == EffectView::Emit(
            Notice::Error("Failed to fetch chat history."@),
        ),
        s.stage is Generation && r is Failed ==> step_spec(s, r).1.last() == EffectView::Emit(
            Notice::Error("Failed to generate response."@),
        ),
        s.stage is OutputGuard && r == ReplyView::Verdict(false) ==> step_spec(s, r).1 == seq![
            EffectView::Log(
                LogRecord {
                    level: "WARNING"@,
                    event: "Output Guardrail Rejected"@,
                    details: DetailsView::Exchange {
                        ip: s.ip,
                        prompt: s.prompt,
                        response: s.stage->OutputGuard_0,
                    },
                },
            ),
            EffectView::Emit(Notice::Error("Generated response rejected by safety guidelines."@)),
        ],
        s.stage is OutputGuard && r is Failed ==> step_spec(s, r).1.last() == EffectView::Emit(
            Notice::Error("Failed to verify output safety."@),
        ),
{
}

/// What a session asks for after each success, and what it tells the client meanwhile:
/// the rate limits for this client and for the service, the guardrail on the prompt,
/// its embedding, three passages, five recent exchanges, the answer to the final
/// prompt built from them, the guardrail on that answer; and on its approval it saves
/// the exchange, logs it, and sends the answer.
pub proof fn lemma_requests_in_order(s: SessionView, r: ReplyView)
    ensures
        !all_ws(s.prompt) ==> start_spec(s.ip, s.prompt).1 == seq![
            EffectView::Emit(Notice::Thinking("Checking security rules and rate limits..."@)),
            EffectView::Call(RequestView::CheckIpRateLimit(s.ip)),
        ],
        s.stage is IpLimit && r == ReplyView::Verdict(true) ==> step_spec(s, r).1 == seq![
            EffectView::Call(RequestView::CheckGlobalRateLimit),
        ],
        s.stage is GlobalLimit && r == ReplyView::Verdict(true) ==> step_spec(s, r).1 == seq![
            EffectView::Emit(Notice::Thinking("Evaluating input guardrails..."@)),
            EffectView::Call(RequestView::EvaluateGuardrail(s.prompt)),
        ],
        s.stage is InputGuard && r == ReplyView::Verdict(true) ==> step_spec(s, r).1 == seq![
            EffectView::Emit(Notice::Thinking("Embedding query and searching knowledge base..."@)),
            EffectView::Call(RequestView::GetEmbedding(s.prompt)),
        ],
        s.stage is Embedding && r is EmbeddingReady ==> step_spec(s, r).1 == seq![
            EffectView::Call(RequestView::GetSimilarDocuments(3)),
        ],
        s.stage is Documents && r is Documents ==> step_spec(s, r).1 == seq![
            EffectView::Emit(Notice::Thinking("Fetching global chat history..."@)),
            EffectView::Call(RequestView::GetRecentChats(5)),
        ] && step_spec(s, r).0.stage == StageView::History(rag_context_spec(r->Documents_0)),
        s.stage is History && r is Chats ==> step_spec(s, r).1 == seq![
            EffectView::Emit(Notice::Thinking("Generating response..."@)),
            EffectView::Call(
                RequestView::GenerateContent(
                    final_prompt_spec(
                        s.stage->History_0,
                        memory_context_spec(r->Chats_0),
                        s.prompt,
                    ),
                ),
            ),
        ],
        s.stage is Generation && r is Generated ==> step_spec(s, r).1 == seq![
            EffectView::Emit(Notice::Thinking("Verifying output safety..."@)),
            EffectView::Call(RequestView::EvaluateGuardrail(r->Generated_0)),
        ],
        s.stage is OutputGuard && r == ReplyView::Verdict(true) ==> {
            let t = s.stage->OutputGuard_0;
            let es = step_spec(s, r).1;
            &&& es.len() == 4
            &&& es[0] == EffectView::Emit(Notice::Thinking("Saving session..."@))
            &&& es[1] == EffectView::SaveChat(s.ip, s.prompt, t)
            &&& es[2] == EffectView::Log(
                LogRecord {
                    level: "INFO"@,
                    event: "AI Response Generated"@,
                    details: DetailsView::Lengths {
                        ip: s.ip,
                        prompt_length: vstd::utf8::encode_utf8(s.prompt).len() as usize,
                        response_length: vstd::utf8::encode_utf8(t).len() as usize,
                    },
                },
            )
            &&& es[3] == EffectView::Emit(Notice::Response(t))
        },
{
}

} // verus!

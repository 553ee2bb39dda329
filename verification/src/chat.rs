use vstd::prelude::*;
pub use crate::content::ChatRole;

verus! {

/// Which provider a chat request goes to.
#[derive(Clone, Copy, Debug, PartialEq, Eq, Structural)]
pub enum ModelProvider {
    Local,
    Ollama,
    OpenAI,
    Groq,
}

/// Whether a request addresses a text-only model or a vision model.
#[derive(Clone, Copy, Debug, PartialEq, Eq, Structural)]
pub enum ModelType {
    LLM,
    VLM,
}

/// An image attached to a request, already base64-encoded.
#[derive(Clone, Debug)]
pub struct Image {
    pub base64_image: String,
    pub caption: Option<String>,
}

/// The content of one chat turn: text, optionally with one encoded image.
#[derive(Clone, Debug)]
pub struct MessageContent {
    pub text: String,
    pub image: Option<String>,
}

/// Mathematical model of `MessageContent`.
pub struct MessageContentView {
    pub text: Seq<char>,
    pub image: Option<Seq<char>>,
}

impl View for MessageContent {
    type V = MessageContentView;

    open spec fn view(&self) -> MessageContentView {
        MessageContentView {
            text: self.text@,
            image: match &self.image {
                Some(s) => Some(s@),
                None => None,
            },
        }
    }
}

/// One prior turn of the conversation, as sent with a chat request.
#[derive(Clone, Debug)]
pub struct ChatMessage {
    pub role: ChatRole,
    pub content: MessageContent,
}

/// Mathematical model of `ChatMessage`.
pub struct ChatMessageView {
    pub role: ChatRole,
    pub content: MessageContentView,
}

impl View for ChatMessage {
    type V = ChatMessageView;

    open spec fn view(&self) -> ChatMessageView {
        ChatMessageView { role: self.role, content: self.content@ }
    }
}

/// One chunk of a chat answer, with whether more chunks follow.
#[derive(Clone, Debug)]
pub struct ChatResponse {
    pub response: String,
    pub is_streaming: bool,
    pub usage: Option<UsageInfo>,
}

/// Throughput counters reported alongside an answer.
#[derive(Clone, Copy, Debug, PartialEq, Eq, Structural)]
pub struct UsageInfo {
    pub avg_prompt_tok_per_sec: u32,
    pub avg_compl_tok_per_sec: u32,
}

/// One entry of the history handed to the agent: the model of the
/// role-tagged messages the agent framework consumes.
#[derive(Clone, Debug)]
pub enum HistoryEntry {
    Human { text: String },
    Ai { text: String },
    System { text: String },
    HumanImages { urls: Vec<String> },
}

/// Mathematical model of `HistoryEntry`.
pub enum HistoryEntryView {
    Human { text: Seq<char> },
    Ai { text: Seq<char> },
    System { text: Seq<char> },
    HumanImages { urls: Seq<Seq<char>> },
}

impl View for HistoryEntry {
    type V = HistoryEntryView;

    open spec fn view(&self) -> HistoryEntryView {
        match self {
            HistoryEntry::Human { text } => HistoryEntryView::Human { text: text@ },
            HistoryEntry::Ai { text } => HistoryEntryView::Ai { text: text@ },
            HistoryEntry::System { text } => HistoryEntryView::System { text: text@ },
            HistoryEntry::HumanImages { urls } => HistoryEntryView::HumanImages {
                urls: urls.deep_view(),
            },
        }
    }
}

/// The history entries one chat message contributes: an assistant turn maps
/// to one model answer, a system turn to one system entry, and a user turn
/// to a human entry — followed, for a vision model with an attached image,
/// by one entry carrying the image as a data URL.
pub open spec fn entries_of(m: ChatMessageView, vlm: bool) -> Seq<HistoryEntryView> {
    match m.role {
        ChatRole::Assistant => seq![HistoryEntryView::Ai { text: m.content.text }],
        ChatRole::System => seq![HistoryEntryView::System { text: m.content.text }],
        ChatRole::User => match m.content.image {
            Some(img) => if vlm {
                seq![
                    HistoryEntryView::Human { text: m.content.text },
                    HistoryEntryView::HumanImages { urls: seq!["data:image/jpeg;base64,"@ + img] },
                ]
            } else {
                seq![HistoryEntryView::Human { text: m.content.text }]
            },
            None => seq![HistoryEntryView::Human { text: m.content.text }],
        },
    }
}

/// The full history for a request: the entries of each message, in order.
pub open spec fn history_of(ms: Seq<ChatMessageView>, vlm: bool) -> Seq<HistoryEntryView>
    decreases ms.len(),
{
    if ms.len() == 0 {
        Seq::empty()
    } else {
        entries_of(ms[0], vlm) + history_of(ms.drop_first(), vlm)
    }
}

/// Builds the agent history for a request: text-only models ignore attached
/// images; vision models receive each image as a `data:image/jpeg;base64,`
/// URL right after its message.
pub fn build_history(messages: &Vec<ChatMessage>, model_type: ModelType) -> (r: Vec<HistoryEntry>)
    ensures
        r@.map_values(|e: HistoryEntry| e@) == history_of(
            messages@.map_values(|m: ChatMessage| m@),
            model_type is VLM,
        ),
{
    let ghost ms = messages@.map_values(|m: ChatMessage| m@);
    let ghost vlm = model_type is VLM;
    let mut r: Vec<HistoryEntry> = Vec::new();
    let mut i: usize = 0;
    proof {
        assert(ms.skip(0) =~= ms);
    }
    while i < messages.len()
        invariant
            i <= messages@.len(),
            ms == messages@.map_values(|m: ChatMessage| m@),
            vlm == (model_type is VLM),
            r@.map_values(|e: HistoryEntry| e@) + history_of(ms.skip(i as int), vlm) == history_of(
                ms,
                vlm,
            ),
        decreases messages@.len() - i,
    {
        let ghost res0 = r@.map_values(|e: HistoryEntry| e@);
        let m = &messages[i];
        proof {
            assert(m@ == ms[i as int]);
            assert(ms.skip(i as int).drop_first() =~= ms.skip(i as int + 1));
            assert(ms.skip(i as int)[0] == ms[i as int]);
        }
        match m.role {
            ChatRole::Assistant => {
                r.push(HistoryEntry::Ai { text: m.content.text.clone() });
            },
            ChatRole::System => {
                r.push(HistoryEntry::System { text: m.content.text.clone() });
            },
            ChatRole::User => {
                r.push(HistoryEntry::Human { text: m.content.text.clone() });
                let vlm_request = match model_type {
                    ModelType::VLM => true,
                    ModelType::LLM => false,
                };
                match &m.content.image {
                    Some(img) => {
                        if vlm_request {
                            let url = String::from_str("data:image/jpeg;base64,").concat(
                                img.as_str(),
                            );
                            let mut urls: Vec<String> = Vec::new();
                            urls.push(url);
                            proof {
                                assert(urls.deep_view() =~= seq!["data:image/jpeg;base64,"@ + img@]);
                            }
                            r.push(HistoryEntry::HumanImages { urls });
                        }
                    },
                    None => {},
                }
            },
        }
        proof {
            assert(r@.map_values(|e: HistoryEntry| e@) =~= res0 + entries_of(ms[i as int], vlm));
            assert(res0 + entries_of(ms[i as int], vlm) + history_of(ms.skip(i as int + 1), vlm)
                =~= res0 + (entries_of(ms[i as int], vlm) + history_of(ms.skip(i as int + 1), vlm)));
        }
        i = i + 1;
    }
    proof {
        assert(ms.skip(ms.len() as int) =~= Seq::<ChatMessageView>::empty());
        assert(r@.map_values(|e: HistoryEntry| e@) =~= history_of(ms, vlm));
    }
    r
}

/// Accumulates a streamed chat answer: each chunk is reported to the caller
/// as it arrives and appended to the full response, which the final
/// non-streaming report carries whole.
pub struct StreamAccumulator {
    pub full_response: String,
    pub avg_prompt_tok_per_sec: u32,
    pub avg_compl_tok_per_sec: u32,
}

impl StreamAccumulator {
    /// An accumulator with nothing received yet.
    pub fn new() -> (r: StreamAccumulator)
        ensures
            r.full_response@ == Seq::<char>::empty(),
            r.avg_prompt_tok_per_sec == 0,
            r.avg_compl_tok_per_sec == 0,
    {
        StreamAccumulator {
            full_response: String::new(),
            avg_prompt_tok_per_sec: 0,
            avg_compl_tok_per_sec: 0,
        }
    }

    /// Takes one streamed chunk: appends it to the full response and
    /// returns the streaming report for this chunk.
    pub fn push_chunk(&mut self, chunk: &str) -> (r: ChatResponse)
        ensures
            final(self).full_response@ == old(self).full_response@ + chunk@,
            final(self).avg_prompt_tok_per_sec == old(self).avg_prompt_tok_per_sec,
            final(self).avg_compl_tok_per_sec == old(self).avg_compl_tok_per_sec,
            r.response@ == chunk@,
            r.is_streaming,
            r.usage == Some(UsageInfo {
                avg_prompt_tok_per_sec: old(self).avg_prompt_tok_per_sec,
                avg_compl_tok_per_sec: old(self).avg_compl_tok_per_sec,
            }),
    {
        self.full_response.append(chunk);
        ChatResponse {
            response: String::from_str(chunk),
            is_streaming: true,
            usage: Some(UsageInfo {
                avg_prompt_tok_per_sec: self.avg_prompt_tok_per_sec,
                avg_compl_tok_per_sec: self.avg_compl_tok_per_sec,
            }),
        }
    }

    /// The final report once the stream ends: the whole accumulated
    /// response, marked as no longer streaming.
    pub fn finish(&self) -> (r: ChatResponse)
        ensures
            r.response@ == self.full_response@,
            !r.is_streaming,
            r.usage == Some(UsageInfo {
                avg_prompt_tok_per_sec: self.avg_prompt_tok_per_sec,
                avg_compl_tok_per_sec: self.avg_compl_tok_per_sec,
            }),
    {
        ChatResponse {
            response: self.full_response.clone(),
            is_streaming: false,
            usage: Some(UsageInfo {
                avg_prompt_tok_per_sec: self.avg_prompt_tok_per_sec,
                avg_compl_tok_per_sec: self.avg_compl_tok_per_sec,
            }),
        }
    }
}

} // verus!

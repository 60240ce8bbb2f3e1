//! Messages exchanged with the language model, generation requests and
//! results, and the models with their token prices.

use vstd::prelude::*;
use crate::codec::{ArgRecord, DecodeError, ToolCallParameters};
use crate::registry::Tool;

verus! {

#[derive(Debug, Clone, PartialEq, Eq)]
pub struct ToolCall {
    pub id: String,
    pub expanded: bool,
    pub waiting_permission: bool,
    pub tool: ToolCallParameters,
}

#[derive(Debug, Clone, PartialEq, Eq)]
pub struct AssistantMsg {
    pub content: String,
    pub tool_calls: Vec<ToolCall>,
}

#[derive(Debug, Clone, PartialEq, Eq)]
pub struct ToolResponse {
    pub id: String,
    pub content: String,
}

/// One turn of the conversation.
#[derive(Debug, Clone, PartialEq, Eq)]
pub enum LLMMessage {
    System(String),
    User(String),
    Assistant(AssistantMsg),
    ToolResponse(ToolResponse),
}

/// What a message says, with the assistant's tool calls as a sequence.
pub enum MessageView {
    System(Seq<char>),
    User(Seq<char>),
    Assistant { content: Seq<char>, tool_calls: Seq<ToolCall> },
    ToolResponse { id: Seq<char>, content: Seq<char> },
}

impl View for LLMMessage {
    type V = MessageView;

    open spec fn view(&self) -> MessageView {
        match self {
            LLMMessage::System(s) => MessageView::System(s@),
            LLMMessage::User(s) => MessageView::User(s@),
            LLMMessage::Assistant(m) => MessageView::Assistant {
                content: m.content@,
                tool_calls: m.tool_calls@,
            },
            LLMMessage::ToolResponse(t) => MessageView::ToolResponse {
                id: t.id@,
                content: t.content@,
            },
        }
    }
}

impl ToolCall {
    pub fn duplicate(&self) -> (r: Self)
        ensures
            r == *self,
    {
        ToolCall {
            id: self.id.clone(),
            expanded: self.expanded,
            waiting_permission: self.waiting_permission,
            tool: self.tool.duplicate(),
        }
    }
}

impl AssistantMsg {
    pub fn duplicate(&self) -> (r: Self)
        ensures
            r.content == self.content,
            r.tool_calls@ == self.tool_calls@,
    {
        let n = self.tool_calls.len();
        let mut calls: Vec<ToolCall> = Vec::new();
        let mut i: usize = 0;
        while i < n
            invariant
                n == self.tool_calls@.len(),
                i <= n,
                calls@ == self.tool_calls@.subrange(0, i as int),
            decreases n - i,
        {
            calls.push(self.tool_calls[i].duplicate());
            assert(calls@ =~= self.tool_calls@.subrange(0, i + 1));
            i = i + 1;
        }
        assert(calls@ =~= self.tool_calls@);
        AssistantMsg { content: self.content.clone(), tool_calls: calls }
    }
}

impl LLMMessage {
    pub fn duplicate(&self) -> (r: Self)
        ensures
            r@ == self@,
    {
        match self {
            LLMMessage::System(s) => LLMMessage::System(s.clone()),
            LLMMessage::User(s) => LLMMessage::User(s.clone()),
            LLMMessage::Assistant(m) => LLMMessage::Assistant(m.duplicate()),
            LLMMessage::ToolResponse(t) => LLMMessage::ToolResponse(
                ToolResponse { id: t.id.clone(), content: t.content.clone() },
            ),
        }
    }
}

/// A model of the generation backend.
#[derive(Debug, Clone, Copy, PartialEq, Eq, Structural)]
pub enum LLMModel {
    GPT4O,
    GPT4OMini,
}

impl Default for LLMModel {
    fn default() -> (r: LLMModel)
        ensures
            r == LLMModel::GPT4OMini,
    {
        LLMModel::GPT4OMini
    }
}

/// The backend's identifier of a model.
pub open spec fn model_name(m: LLMModel) -> Seq<char> {
    match m {
        LLMModel::GPT4O => "gpt-4o"@,
        LLMModel::GPT4OMini => "gpt-4o-mini"@,
    }
}

/// The model whose backend identifier is `s`, if any.
pub open spec fn model_of_name(s: Seq<char>) -> Option<LLMModel> {
    if s == "gpt-4o"@ {
        Some(LLMModel::GPT4O)
    } else if s == "gpt-4o-mini"@ {
        Some(LLMModel::GPT4OMini)
    } else {
        None
    }
}

/// The price of one prompt token, in billionths of a dollar.
pub open spec fn input_rate(m: LLMModel) -> nat {
    match m {
        LLMModel::GPT4O => 2500,
        LLMModel::GPT4OMini => 150,
    }
}

/// The price of one completion token, in billionths of a dollar.
pub open spec fn output_rate(m: LLMModel) -> nat {
    match m {
        LLMModel::GPT4O => 10000,
        LLMModel::GPT4OMini => 600,
    }
}

impl LLMModel {
    /// The price of `token_count` prompt tokens, in billionths of a dollar.
    pub fn input_cost(&self, token_count: u32) -> (r: u64)
        ensures
            r == token_count * input_rate(*self),
    {
        match self {
            LLMModel::GPT4O => token_count as u64 * 2500,
            LLMModel::GPT4OMini => token_count as u64 * 150,
        }
    }

    /// The price of `token_count` completion tokens, in billionths of a dollar.
    pub fn output_cost(&self, token_count: u32) -> (r: u64)
        ensures
            r == token_count * output_rate(*self),
    {
        match self {
            LLMModel::GPT4O => token_count as u64 * 10000,
            LLMModel::GPT4OMini => token_count as u64 * 600,
        }
    }

    pub fn to_str(&self) -> (r: &'static str)
        ensures
            r@ == model_name(*self),
    {
        match self {
            LLMModel::GPT4O => "gpt-4o",
            LLMModel::GPT4OMini => "gpt-4o-mini",
        }
    }

    /// The model with the backend identifier `s`, if any.
    pub fn from_str(s: &str) -> (r: Option<LLMModel>)
        ensures
            r == model_of_name(s@),
            forall|m: LLMModel| #[trigger] model_name(m) == s@ <==> r == Some(m),
    {
        proof {
            reveal_strlit("gpt-4o");
            reveal_strlit("gpt-4o-mini");
            assert("gpt-4o"@.len() == 6);
            assert("gpt-4o-mini"@.len() == 11);
        }
        if crate::text::str_eq(s, "gpt-4o") {
            Some(LLMModel::GPT4O)
        } else if crate::text::str_eq(s, "gpt-4o-mini") {
            Some(LLMModel::GPT4OMini)
        } else {
            None
        }
    }
}

/// What is sent to the backend for one generation round.
#[derive(Debug)]
pub struct GenRequest {
    pub model: LLMModel,
    pub messages: Vec<LLMMessage>,
    pub tools: Vec<Tool>,
}

/// A tool invocation as the backend reports it.
#[derive(Debug, Clone, PartialEq, Eq)]
pub struct ToolUse {
    pub id: String,
    pub name: String,
    pub args: ArgRecord,
}

impl ToolUse {
    /// Decodes the invocation into a typed tool call with the same id.
    pub fn decode(&self) -> (r: Result<ToolCall, DecodeError>)
        ensures
            crate::codec::decodes_to(
                self.name@,
                self.args.fields@,
                match r {
                    Ok(c) => Ok(c.tool),
                    Err(e) => Err(e),
                },
            ),
            r matches Ok(c) ==> c.id == self.id && !c.expanded && !c.waiting_permission,
    {
        match ToolCallParameters::parse(self.name.as_str(), &self.args) {
            Ok(tool) => Ok(
                ToolCall { id: self.id.clone(), expanded: false, waiting_permission: false, tool },
            ),
            Err(e) => Err(e),
        }
    }
}

/// A successful generation round: the assistant's message and what it cost.
#[derive(Debug)]
pub struct SuccessfullGenResponse {
    pub prompt_tokens: u32,
    pub completion_tokens: u32,
    pub total_tokens: u32,
    /// In billionths of a dollar.
    pub promt_cost: u64,
    /// In billionths of a dollar.
    pub completion_cost: u64,
    pub msg: AssistantMsg,
}

impl SuccessfullGenResponse {
    /// A response priced at the rates of `model`.
    pub fn priced(
        model: LLMModel,
        prompt_tokens: u32,
        completion_tokens: u32,
        total_tokens: u32,
        msg: AssistantMsg,
    ) -> (r: Self)
        ensures
            r.prompt_tokens == prompt_tokens,
            r.completion_tokens == completion_tokens,
            r.total_tokens == total_tokens,
            r.promt_cost == prompt_tokens * input_rate(model),
            r.completion_cost == completion_tokens * output_rate(model),
            r.msg == msg,
    {
        SuccessfullGenResponse {
            prompt_tokens,
            completion_tokens,
            total_tokens,
            promt_cost: model.input_cost(prompt_tokens),
            completion_cost: model.output_cost(completion_tokens),
            msg,
        }
    }
}

/// The outcome of one generation round; a failure of the network or the
/// backend arrives as `Error` with its description.
#[derive(Debug)]
pub enum GenResult {
    Response(SuccessfullGenResponse),
    Error(String),
}

} // verus!

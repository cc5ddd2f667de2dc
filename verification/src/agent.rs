//! The decisions of the interactive agent: what a line of input means, what a reply
//! asks for, how the conversation grows, and how many requests one question may take.

use vstd::prelude::*;
use crate::text::{str_eq, trim_end, trim_end_spec};
use crate::types::{is_text_message, is_tool_message, Choice, Message, Role, ToolCall};

verus! {

/// Requests one question may take before the agent gives up on it.
pub const MAX_ROUNDS: usize = 8;

/// The instruction that opens every conversation.
pub open spec fn system_prompt() -> Seq<char> {
    "你是本地agent助手，做危险的操作时，需要获取用户的授权"@
}

/// What a line typed by the user asks for.
#[derive(Debug, PartialEq, Eq)]
pub enum UserInput {
    /// Leave the program.
    Exit,
    /// Ask the model, with the line stripped of trailing white space.
    Ask(String),
}

/// The meaning of an input line: `exit` (trailing white space ignored) leaves,
/// anything else is a question.
pub open spec fn user_input_spec(line: Seq<char>, u: UserInput) -> bool {
    if trim_end_spec(line) == "exit"@ {
        u == UserInput::Exit
    } else {
        u matches UserInput::Ask(q) && q@ == trim_end_spec(line)
    }
}

/// Reads a line typed by the user.
pub fn read_input(line: &str) -> (u: UserInput)
    ensures
        user_input_spec(line@, u),
{
    let input = trim_end(line);
    if str_eq(input, "exit") {
        UserInput::Exit
    } else {
        UserInput::Ask(String::from_str(input))
    }
}

/// Where a tool call is sent.
#[derive(Debug, PartialEq, Eq, Structural)]
pub enum ToolRoute {
    /// The PowerShell tool.
    RunShell,
    /// No tool of that name.
    Unknown,
}

/// Routes a tool call by the function name: only `run_shell` is known.
pub fn route_tool(name: &str) -> (r: ToolRoute)
    ensures
        r == (if name@ == "run_shell"@ {
            ToolRoute::RunShell
        } else {
            ToolRoute::Unknown
        }),
{
    if str_eq(name, "run_shell") {
        ToolRoute::RunShell
    } else {
        ToolRoute::Unknown
    }
}

/// The error reported to the model for a call of an unknown tool.
pub fn unknown_tool_error(name: &str) -> (m: String)
    ensures
        m@ == "未知工具："@ + name@,
{
    let mut m = String::from_str("未知工具：");
    m.append(name);
    m
}

/// What the agent does after a reply.
#[derive(Debug)]
pub enum Outcome {
    /// Run these tool calls, record each result, and ask again.
    RunTools(Vec<ToolCall>),
    /// The model finished normally with this text.
    Finished(String),
    /// The reply carries no finish reason.
    NoFinishReason,
    /// The model stopped for another reason.
    Unfinished(String),
}

/// Why the agent cannot go on.
#[derive(Debug, PartialEq, Eq, Structural)]
pub enum AgentError {
    /// The reply has no choices.
    EmptyResponse,
}

impl AgentError {
    /// The message shown to the user.
    pub fn message(&self) -> (m: String)
        ensures
            m@ == "大模型返回空"@,
    {
        String::from_str("大模型返回空")
    }
}

/// What the agent does after a reply whose first choice is `c`.
pub open spec fn outcome_spec(c: Choice, o: Outcome) -> bool {
    if c.message.tool_calls@.len() > 0 {
        o matches Outcome::RunTools(calls) && calls@ == c.message.tool_calls@
    } else {
        match c.finish_reason {
            Some(f) => if f@ == "stop"@ {
                o matches Outcome::Finished(t) && t@ == (match c.message.content {
                    Some(s) => s@,
                    None => Seq::<char>::empty(),
                })
            } else {
                o matches Outcome::Unfinished(g) && g@ == f@
            },
            None => o matches Outcome::NoFinishReason,
        }
    }
}

/// A conversation in progress.
#[derive(Debug)]
pub struct AgentSession {
    messages: Vec<Message>,
    rounds: usize,
}

/// The state of a conversation: its messages and the requests made for the current question.
pub ghost struct SessionView {
    pub messages: Seq<Message>,
    pub rounds: nat,
}

impl View for AgentSession {
    type V = SessionView;

    closed spec fn view(&self) -> SessionView {
        SessionView { messages: self.messages@, rounds: self.rounds as nat }
    }
}

impl AgentSession {
    /// Well-formedness: the conversation always opens with the system prompt, and no question takes
    /// more than `MAX_ROUNDS` requests.
    pub closed spec fn wf(&self) -> bool {
        &&& self.messages@.len() >= 1
        &&& is_text_message(self.messages@[0], Role::System, system_prompt())
        &&& self.rounds <= MAX_ROUNDS
    }

    /// Every conversation opens with the system prompt, and the current question has
    /// taken at most `MAX_ROUNDS` requests.
    pub proof fn lemma_session_shape(&self)
        requires
            self.wf(),
        ensures
            self@.messages.len() >= 1,
            is_text_message(self@.messages[0], Role::System, system_prompt()),
            self@.rounds <= MAX_ROUNDS,
    {
    }

    /// A conversation holding only the system prompt.
    pub fn new() -> (s: Self)
        ensures
            s.wf(),
            s@.messages.len() == 1,
            is_text_message(s@.messages[0], Role::System, system_prompt()),
            s@.rounds == 0,
    {
        let mut messages: Vec<Message> = Vec::new();
        messages.push(Message::system("你是本地agent助手，做危险的操作时，需要获取用户的授权"));
        AgentSession { messages, rounds: 0 }
    }

    /// The messages so far, oldest first.
    pub fn messages(&self) -> (m: &Vec<Message>)
        ensures
            m@ == self@.messages,
    {
        &self.messages
    }

    /// Starts a new question: the user's message is appended and the request count reset.
    pub fn begin_turn(&mut self, question: &str)
        requires
            old(self).wf(),
        ensures
            final(self).wf(),
            final(self)@.messages.len() == old(self)@.messages.len() + 1,
            final(self)@.messages.subrange(0, old(self)@.messages.len() as int)
                == old(self)@.messages,
            is_text_message(
                final(self)@.messages.last(),
                Role::User,
                question@,
            ),
            final(self)@.rounds == 0,
    {
        let m = Message::user(question);
        self.messages.push(m);
        self.rounds = 0;
        assert(self.messages@.subrange(0, self.messages@.len() - 1) =~= old(self)@.messages);
    }

    /// Whether the current question may take another request.
    pub fn can_request(&self) -> (b: bool)
        ensures
            b == (self@.rounds < MAX_ROUNDS),
    {
        self.rounds < MAX_ROUNDS
    }

    /// Takes the first choice of a reply: with none the agent stops; otherwise its
    /// message is appended, the request is counted, and the outcome says what next.
    pub fn on_reply(&mut self, choice: Option<Choice>) -> (r: Result<Outcome, AgentError>)
        requires
            old(self).wf(),
            old(self)@.rounds < MAX_ROUNDS,
        ensures
            final(self).wf(),
            choice is None ==> r matches Err(AgentError::EmptyResponse),
            choice is None ==> final(self)@ == old(self)@,
            choice matches Some(c) ==> {
                &&& final(self)@.messages == old(self)@.messages.push(c.message)
                &&& final(self)@.rounds == old(self)@.rounds + 1
                &&& r matches Ok(o) && outcome_spec(c, o)
            },
    {
        let c = match choice {
            Some(c) => c,
            None => {
                return Err(AgentError::EmptyResponse);
            },
        };
        let outcome = if c.message.tool_calls.len() > 0 {
            let calls = c.message.tool_calls.clone();
            assert(calls@ =~= c.message.tool_calls@);
            Outcome::RunTools(calls)
        } else {
            match &c.finish_reason {
                Some(f) => if str_eq(f.as_str(), "stop") {
                    let text = match &c.message.content {
                        Some(s) => s.clone(),
                        None => String::new(),
                    };
                    Outcome::Finished(text)
                } else {
                    Outcome::Unfinished(f.clone())
                },
                None => Outcome::NoFinishReason,
            }
        };
        self.messages.push(c.message);
        self.rounds = self.rounds + 1;
        Ok(outcome)
    }

    /// Appends the result of tool call `call_id`.
    pub fn record_tool_result(&mut self, call_id: &str, content: &str)
        requires
            old(self).wf(),
        ensures
            final(self).wf(),
            final(self)@.messages.len() == old(self)@.messages.len() + 1,
            final(self)@.messages.subrange(0, old(self)@.messages.len() as int)
                == old(self)@.messages,
            is_tool_message(final(self)@.messages.last(), call_id@, content@),
            final(self)@.rounds == old(self)@.rounds,
    {
        let m = Message::tool(call_id, content);
        self.messages.push(m);
        assert(self.messages@.subrange(0, self.messages@.len() - 1) =~= old(self)@.messages);
    }
}

} // verus!

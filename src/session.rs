//! The orchestration state: projects, the draft message, and the rules of a
//! generation round. At most one round is in flight per project; each round
//! has a ticket, and a result is taken only for the ticket in flight.

use vstd::prelude::*;
use crate::history::History;
use crate::llm::{
    AssistantMsg, GenRequest, GenResult, LLMMessage, LLMModel, MessageView, ToolCall, ToolResponse,
};
use crate::project::{Project, ToolError};
use crate::codec::DecodeError;
use crate::registry::{all_tools, Tool};

verus! {

/// The folder a new project works in.
pub fn default_folder_path() -> (r: String)
    ensures
        r@ == "./workdir"@,
{
    String::from_str("./workdir")
}

/// The tools of `catalogue` that `activated` holds, in catalogue order.
pub open spec fn enabled_tools(catalogue: Seq<Tool>, activated: Seq<Tool>) -> Seq<Tool>
    decreases catalogue.len(),
{
    if catalogue.len() == 0 {
        Seq::empty()
    } else {
        let prev = enabled_tools(catalogue.drop_last(), activated);
        if activated.contains(catalogue.last()) {
            prev.push(catalogue.last())
        } else {
            prev
        }
    }
}

/// The messages of a request: the instructions as a system message, where
/// there are any, then the whole conversation.
pub open spec fn request_messages(instructions: String, context: Seq<MessageView>) -> Seq<
    MessageView,
> {
    if instructions@.len() == 0 {
        context
    } else {
        seq![MessageView::System(instructions@)] + context
    }
}

pub open spec fn message_views(v: Seq<LLMMessage>) -> Seq<MessageView> {
    v.map_values(|m: LLMMessage| m@)
}

/// The history message of a generation result, if it brings one.
pub open spec fn reply_of(res: GenResult) -> Option<MessageView> {
    match res {
        GenResult::Response(x) => Some(LLMMessage::Assistant(x.msg)@),
        GenResult::Error(_) => None,
    }
}

/// What a submission does to the guard and the conversation: refused while
/// a round is in flight, else the message is appended and a round with the
/// next ticket starts.
pub open spec fn guard_submit(before: Project, after: Project, msg: String, r: Option<u64>) -> bool {
    if before.in_flight is Some {
        &&& r is None
        &&& after.in_flight == before.in_flight
        &&& after.history.context() == before.history.context()
    } else {
        &&& r == Some(before.next_ticket)
        &&& after.in_flight == Some(before.next_ticket)
        &&& after.history.context() == before.history.context().push(MessageView::User(msg@))
    }
}

/// What a generation result does to the guard and the conversation: taken
/// only for the ticket in flight, which ends the round and appends the reply;
/// any other result changes nothing.
pub open spec fn guard_result(
    before: Project,
    after: Project,
    ticket: u64,
    res: GenResult,
    taken: bool,
) -> bool {
    if before.in_flight == Some(ticket) {
        &&& taken
        &&& after.in_flight is None
        &&& after.history.context() == match reply_of(res) {
            Some(m) => before.history.context().push(m),
            None => before.history.context(),
        }
    } else {
        &&& !taken
        &&& after.in_flight == before.in_flight
        &&& after.history.context() == before.history.context()
    }
}

/// While a round is in flight a second submission is refused, and a result
/// that arrives for any other ticket changes nothing: the conversation gains
/// the first message and the one reply of its round, in that order, however
/// the results arrive.
pub proof fn lemma_one_round_at_a_time(
    start: Project,
    sent: Project,
    refused: Project,
    stale: Project,
    answered: Project,
    first: String,
    second: String,
    first_ticket: Option<u64>,
    second_ticket: Option<u64>,
    other: u64,
    other_res: GenResult,
    res: GenResult,
    stale_taken: bool,
    answer_taken: bool,
)
    requires
        start.in_flight is None,
        guard_submit(start, sent, first, first_ticket),
        guard_submit(sent, refused, second, second_ticket),
        other != start.next_ticket,
        guard_result(refused, stale, other, other_res, stale_taken),
        guard_result(stale, answered, start.next_ticket, res, answer_taken),
        res is Response,
    ensures
        first_ticket == Some(start.next_ticket),
        second_ticket is None,
        !stale_taken,
        answer_taken,
        answered.in_flight is None,
        answered.history.context() == start.history.context().push(MessageView::User(first@)).push(
            reply_of(res)->Some_0,
        ),
{
}

/// The sum, or `u32::MAX` where it does not fit.
pub open spec fn sat_u32(a: int, b: int) -> int {
    if a + b <= u32::MAX {
        a + b
    } else {
        u32::MAX as int
    }
}

/// The sum, or `u64::MAX` where it does not fit.
pub open spec fn sat_u64(a: int, b: int) -> int {
    if a + b <= u64::MAX {
        a + b
    } else {
        u64::MAX as int
    }
}

/// The ticket after `t`, wrapping around.
pub open spec fn next_ticket_after(t: u64) -> u64 {
    if t == u64::MAX {
        0
    } else {
        (t + 1) as u64
    }
}

/// `req` is the request of project `p` for its next round: its model, its
/// instructions and whole conversation, and its activated tools.
pub open spec fn request_of(p: Project, req: GenRequest) -> bool {
    &&& req.model == p.model
    &&& message_views(req.messages@) == request_messages(p.instructions, p.history.context())
    &&& req.tools@ == enabled_tools(all_tools(), p.activated_tools@)
}

/// What submitting `msg` does to a project and hands out: refused and
/// nothing changed while a round is in flight; else the message appended,
/// the round started with the next ticket, the project marked as changed,
/// every other field kept, and the request of the project as it now is.
pub open spec fn submitted(
    before: Project,
    after: Project,
    msg: String,
    r: Option<(u64, GenRequest)>,
) -> bool {
    &&& guard_submit(
        before,
        after,
        msg,
        match r {
            Some(x) => Some(x.0),
            None => None,
        },
    )
    &&& match r {
        Some(x) => {
            &&& request_of(after, x.1)
            &&& after == Project {
                history: after.history,
                in_flight: Some(before.next_ticket),
                next_ticket: next_ticket_after(before.next_ticket),
                modified: true,
                ..before
            }
        },
        None => after == before,
    }
}

/// What a generation result does to a project: see `guard_result`; a taken
/// reply also adds its tokens and costs to the totals (saturating) and marks
/// the project as changed; a taken error only ends the round; every other
/// field is kept.
pub open spec fn result_taken(
    before: Project,
    after: Project,
    ticket: u64,
    res: GenResult,
    taken: bool,
) -> bool {
    &&& guard_result(before, after, ticket, res, taken)
    &&& if !taken {
        after == before
    } else {
        match res {
            GenResult::Response(x) => after == Project {
                history: after.history,
                in_flight: None,
                input_token_count: sat_u32(
                    before.input_token_count as int,
                    x.prompt_tokens as int,
                ) as u32,
                output_token_count: sat_u32(
                    before.output_token_count as int,
                    x.completion_tokens as int,
                ) as u32,
                input_token_cost: sat_u64(before.input_token_cost as int, x.promt_cost as int) as u64,
                output_token_cost: sat_u64(
                    before.output_token_cost as int,
                    x.completion_cost as int,
                ) as u64,
                modified: true,
                ..before
            },
            GenResult::Error(_) => after == Project { in_flight: None, ..before },
        }
    }
}

/// The catalogue's tools that are on `activated`, in catalogue order.
pub fn enabled_of(activated: &Vec<Tool>) -> (r: Vec<Tool>)
    ensures
        r@ == enabled_tools(all_tools(), activated@),
{
    let catalogue = crate::registry::tools();
    let n = catalogue.len();
    let mut out: Vec<Tool> = Vec::new();
    let mut i: usize = 0;
    while i < n
        invariant
            n == catalogue@.len(),
            catalogue@ == all_tools(),
            i <= n,
            out@ == enabled_tools(catalogue@.subrange(0, i as int), activated@),
        decreases n - i,
    {
        let t = catalogue[i];
        let ghost pre = catalogue@.subrange(0, i as int);
        let ghost next = catalogue@.subrange(0, i + 1);
        assert(next.drop_last() =~= pre);
        assert(next.last() == t);
        let m = activated.len();
        let mut j: usize = 0;
        let mut found = false;
        while j < m
            invariant
                m == activated@.len(),
                j <= m,
                found <==> exists|k: int| 0 <= k < j && activated@[k] == t,
            decreases m - j,
        {
            if activated[j] == t {
                found = true;
            }
            j = j + 1;
        }
        assert(found <==> activated@.contains(t));
        if found {
            out.push(t);
        }
        i = i + 1;
    }
    assert(catalogue@.subrange(0, n as int) =~= catalogue@);
    out
}

/// The text of an error as the tool response shows it to the model.
pub open spec fn error_text(e: ToolError) -> Seq<char> {
    match e {
        ToolError::FileMissing => "file does not exist"@,
        ToolError::Io(e) => e@,
        ToolError::NotFound(n) => n@,
        ToolError::OutsideRoot(p) => p@,
        ToolError::LineOutOfRange => "line number out of range"@,
        ToolError::UnexpectedEvent => "unexpected file system event"@,
        ToolError::BadCall(d) => decode_error_text(d),
    }
}

/// The text of a decoding failure.
pub open spec fn decode_error_text(e: DecodeError) -> Seq<char> {
    match e {
        DecodeError::UnknownTool(n) => "unknown tool: "@ + n@,
        DecodeError::MalformedArguments { tool, field } => "malformed argument: "@ + field@,
    }
}

/// The text of a tool call's outcome.
pub open spec fn outcome_text(o: Result<String, ToolError>) -> Seq<char> {
    match o {
        Ok(t) => t@,
        Err(e) => error_text(e),
    }
}

impl ToolError {
    /// The error as the tool response shows it to the model.
    pub fn describe(&self) -> (r: String)
        ensures
            r@ == error_text(*self),
    {
        match self {
            ToolError::FileMissing => String::from_str("file does not exist"),
            ToolError::Io(e) => e.clone(),
            ToolError::NotFound(n) => n.clone(),
            ToolError::OutsideRoot(p) => p.clone(),
            ToolError::LineOutOfRange => String::from_str("line number out of range"),
            ToolError::UnexpectedEvent => String::from_str("unexpected file system event"),
            ToolError::BadCall(DecodeError::UnknownTool(n)) => {
                let mut t = String::from_str("unknown tool: ");
                t.append(n.as_str());
                t
            },
            ToolError::BadCall(DecodeError::MalformedArguments { field, .. }) => {
                let mut t = String::from_str("malformed argument: ");
                t.append(field.as_str());
                t
            },
        }
    }
}

impl Project {
    /// An empty project with the default model and folder.
    pub fn new() -> (r: Project)
        ensures
            r.history.context() == Seq::<MessageView>::empty(),
            r.in_flight is None,
            r.todo_items@.len() == 0,
            r.memories@.len() == 0,
            r.forbidden_files@.len() == 0,
            r.activated_tools@.len() == 0,
            r.folder_path@ == "./workdir"@,
            r.model == LLMModel::GPT4OMini,
    {
        Project {
            name: String::new(),
            model: LLMModel::GPT4OMini,
            output_token_count: 0,
            input_token_count: 0,
            input_token_cost: 0,
            output_token_cost: 0,
            todo_items: Vec::new(),
            memories: Vec::new(),
            history: History::new(),
            instructions: String::new(),
            current_msg: String::new(),
            activated_tools: Vec::new(),
            folder_path: default_folder_path(),
            forbidden_files: Vec::new(),
            modified: false,
            in_flight: None,
            next_ticket: 0,
        }
    }

    /// The request for the next round: the instructions, the whole
    /// conversation and the activated tools.
    pub fn build_request(&self) -> (r: GenRequest)
        ensures
            r.model == self.model,
            message_views(r.messages@) == request_messages(
                self.instructions,
                self.history.context(),
            ),
            r.tools@ == enabled_tools(all_tools(), self.activated_tools@),
    {
        let context = self.history.get_context();
        let mut messages: Vec<LLMMessage> = Vec::new();
        if !self.instructions.as_str().is_empty() {
            messages.push(LLMMessage::System(self.instructions.clone()));
        }
        let ghost head = messages@;
        let n = context.len();
        let mut i: usize = 0;
        while i < n
            invariant
                n == context@.len(),
                i <= n,
                message_views(messages@) == message_views(head) + message_views(
                    context@.subrange(0, i as int),
                ),
            decreases n - i,
        {
            let m = context[i].duplicate();
            let ghost prev = messages@;
            messages.push(m);
            assert(message_views(messages@) =~= message_views(prev).push(m@));
            assert(message_views(context@.subrange(0, i + 1)) =~= message_views(
                context@.subrange(0, i as int),
            ).push(context@[i as int]@));
            i = i + 1;
        }
        assert(context@.subrange(0, n as int) =~= context@);
        proof {
            if self.instructions@.len() == 0 {
                assert(message_views(head) =~= Seq::<MessageView>::empty());
            } else {
                assert(message_views(head) =~= seq![MessageView::System(self.instructions@)]);
            }
        }
        assert(message_views(messages@) =~= request_messages(
            self.instructions,
            self.history.context(),
        ));
        GenRequest {
            model: self.model,
            messages,
            tools: enabled_of(&self.activated_tools),
        }
    }

    /// Starts a round with the user's message, unless one is in flight.
    /// Returns the round's ticket and request.
    pub fn submit(&mut self, msg: String) -> (r: Option<(u64, GenRequest)>)
        ensures
            submitted(*old(self), *final(self), msg, r),
    {
        if self.in_flight.is_some() {
            return None;
        }
        let ticket = self.next_ticket;
        self.modified = true;
        self.history.add_message(LLMMessage::User(msg));
        self.in_flight = Some(ticket);
        self.next_ticket = self.next_ticket.wrapping_add(1);
        let req = self.build_request();
        Some((ticket, req))
    }

    /// Takes the result of the round with `ticket`. A result for any other
    /// ticket is stale and changes nothing. A reply is appended to the
    /// conversation and its tokens and cost are added to the project's
    /// totals, saturating at the largest value.
    pub fn accept_result(&mut self, ticket: u64, res: &GenResult) -> (taken: bool)
        ensures
            result_taken(*old(self), *final(self), ticket, *res, taken),
    {
        match self.in_flight {
            Some(t) => {
                if t != ticket {
                    return false;
                }
            },
            None => {
                return false;
            },
        }
        self.in_flight = None;
        match res {
            GenResult::Response(x) => {
                self.history.add_message(LLMMessage::Assistant(x.msg.duplicate()));
                self.input_token_count = self.input_token_count.saturating_add(x.prompt_tokens);
                self.output_token_count = self.output_token_count.saturating_add(
                    x.completion_tokens,
                );
                self.input_token_cost = self.input_token_cost.saturating_add(x.promt_cost);
                self.output_token_cost = self.output_token_cost.saturating_add(x.completion_cost);
                self.modified = true;
            },
            GenResult::Error(_) => {},
        }
        true
    }

    /// Appends the result of one tool call as the tool response to the call
    /// with id `id`: the result's text, or the error's description.
    pub fn record_tool_result(&mut self, id: String, outcome: &Result<String, ToolError>)
        ensures
            final(self).history.context() == old(self).history.context().push(
                (MessageView::ToolResponse { id: id@, content: outcome_text(*outcome) }),
            ),
            *final(self) == (Project { history: final(self).history, modified: true, ..*old(self) }),
    {
        let content = match outcome {
            Ok(t) => t.clone(),
            Err(e) => e.describe(),
        };
        self.history.add_message(LLMMessage::ToolResponse(ToolResponse { id, content }));
        self.modified = true;
    }
}

/// A round handed to the generation client: the project it belongs to, its
/// ticket and its request.
#[derive(Debug)]
pub struct Submission {
    pub project: usize,
    pub ticket: u64,
    pub request: GenRequest,
}

#[derive(Debug)]
pub struct State {
    pub projects: Vec<Project>,
    pub active_project: Option<usize>,
    pub current_msg: String,
    pub new_forbidden_file_name: String,
    pub max_conversation_turns: u32,
    pub conversation_turns: u32,
    pub max_context_size: u32,
}

/// The active project's position, where it names a project.
pub open spec fn active_index(s: State) -> Option<int> {
    match s.active_project {
        Some(i) => if i < s.projects@.len() {
            Some(i as int)
        } else {
            None
        },
        None => None,
    }
}

impl State {
    pub fn new(projects: Vec<Project>) -> (r: State)
        ensures
            r.projects@ == projects@,
            r.active_project is None,
            r.current_msg@.len() == 0,
    {
        State {
            projects,
            active_project: None,
            current_msg: String::new(),
            new_forbidden_file_name: String::new(),
            max_conversation_turns: 0,
            conversation_turns: 0,
            max_context_size: 0,
        }
    }

    fn active_index(&self) -> (r: Option<usize>)
        ensures
            match r {
                Some(i) => active_index(*self) == Some(i as int),
                None => active_index(*self) is None,
            },
    {
        match self.active_project {
            Some(i) => if i < self.projects.len() {
                Some(i)
            } else {
                None
            },
            None => None,
        }
    }

    /// Sends the draft message to the active project. Nothing happens to an
    /// empty draft. Without an active project the draft is dropped. While the
    /// active project has a round in flight the draft is kept and nothing is
    /// sent.
    pub fn send_message(&mut self) -> (r: Option<Submission>)
        ensures
            old(self).current_msg@.len() == 0 ==> r is None && *final(self) == *old(self),
            old(self).current_msg@.len() > 0 && active_index(*old(self)) is None ==> {
                &&& r is None
                &&& *final(self) == (State { current_msg: final(self).current_msg, ..*old(self) })
                &&& final(self).current_msg@.len() == 0
            },
            old(self).current_msg@.len() > 0 ==> (active_index(*old(self)) matches Some(i) ==> {
                &&& submitted(
                    old(self).projects@[i],
                    final(self).projects@[i],
                    old(self).current_msg,
                    match r {
                        Some(x) => Some((x.ticket, x.request)),
                        None => None,
                    },
                )
                &&& final(self).projects@ == old(self).projects@.update(
                    i,
                    final(self).projects@[i],
                )
                &&& *final(self) == (State {
                    projects: final(self).projects,
                    current_msg: final(self).current_msg,
                    ..*old(self)
                })
                &&& r matches Some(x) ==> x.project == i && final(self).current_msg@.len() == 0
                &&& r is None ==> *final(self) == *old(self)
            }),
    {
        if self.current_msg.as_str().is_empty() {
            return None;
        }
        let i = match self.active_index() {
            Some(i) => i,
            None => {
                self.current_msg = String::new();
                return None;
            },
        };
        if self.projects[i].in_flight.is_some() {
            return None;
        }
        let msg = self.current_msg.clone();
        let mut project = self.projects.remove(i);
        let r = project.submit(msg);
        self.projects.insert(i, project);
        assert(self.projects@ =~= old(self).projects@.update(i as int, self.projects@[i as int]));
        self.current_msg = String::new();
        match r {
            Some((ticket, request)) => Some(Submission { project: i, ticket, request }),
            None => None,
        }
    }

    /// Takes a generation result for round `ticket` of project `project`.
    /// `None` where the result is stale or names no project, which changes
    /// nothing; else the tool calls of the reply, which the caller is to
    /// execute in order.
    pub fn handle_result(&mut self, project: usize, ticket: u64, res: &GenResult) -> (r: Option<
        Vec<ToolCall>,
    >)
        ensures
            project >= old(self).projects@.len() ==> *final(self) == *old(self) && r is None,
            project < old(self).projects@.len() ==> {
                &&& result_taken(
                    old(self).projects@[project as int],
                    final(self).projects@[project as int],
                    ticket,
                    *res,
                    r is Some,
                )
                &&& r matches Some(v) ==> match *res {
                    GenResult::Response(x) => v@ == x.msg.tool_calls@,
                    GenResult::Error(_) => v@.len() == 0,
                }
                &&& with_project(
                    *old(self),
                    *final(self),
                    project as int,
                    final(self).projects@[project as int],
                )
            },
    {
        if project >= self.projects.len() {
            return None;
        }
        let mut p = self.projects.remove(project);
        let taken = p.accept_result(ticket, res);
        self.projects.insert(project, p);
        assert(self.projects@ =~= old(self).projects@.update(
            project as int,
            self.projects@[project as int],
        ));
        if !taken {
            return None;
        }
        match res {
            GenResult::Response(x) => Some(x.msg.duplicate().tool_calls),
            GenResult::Error(_) => Some(Vec::new()),
        }
    }

    /// Records the outcome of one tool call in project `project`.
    pub fn record_tool_result(
        &mut self,
        project: usize,
        id: String,
        outcome: &Result<String, ToolError>,
    )
        ensures
            project >= old(self).projects@.len() ==> *final(self) == *old(self),
            project < old(self).projects@.len() ==> {
                &&& final(self).projects@[project as int].history.context() == old(
                    self,
                ).projects@[project as int].history.context().push(
                    (MessageView::ToolResponse { id: id@, content: outcome_text(*outcome) }),
                )
                &&& with_project(
                    *old(self),
                    *final(self),
                    project as int,
                    (Project {
                        history: final(self).projects@[project as int].history,
                        modified: true,
                        ..old(self).projects@[project as int]
                    }),
                )
            },
    {
        if project >= self.projects.len() {
            return;
        }
        let mut p = self.projects.remove(project);
        p.record_tool_result(id, outcome);
        self.projects.insert(project, p);
        assert(self.projects@ =~= old(self).projects@.update(
            project as int,
            self.projects@[project as int],
        ));
    }
}

proof fn lemma_remove_membership(before: Seq<Tool>, i: int, t: Tool)
    requires
        before.no_duplicates(),
        0 <= i < before.len(),
        before[i] == t,
    ensures
        before.remove(i).no_duplicates(),
        !before.remove(i).contains(t),
        forall|u: Tool| u != t ==> (before.remove(i).contains(u) <==> before.contains(u)),
{
    let after = before.remove(i);
    before.remove_ensures(i);
    assert forall|k: int| 0 <= k < after.len() implies after[k] == before[if k < i {
        k
    } else {
        k + 1
    }] by {}
    assert forall|k: int, m: int| 0 <= k < after.len() && 0 <= m < after.len() && k != m implies after[k] != after[m] by {
        let kk = if k < i { k } else { k + 1 };
        let mm = if m < i { m } else { m + 1 };
        assert(after[k] == before[kk] && after[m] == before[mm]);
    }
    assert forall|u: Tool| #[trigger] after.contains(u) implies before.contains(u) && u != t by {
        let k = choose|k: int| 0 <= k < after.len() && after[k] == u;
        let kk = if k < i { k } else { k + 1 };
        assert(before[kk] == u);
    }
    assert forall|u: Tool| u != t && #[trigger] before.contains(u) implies after.contains(u) by {
        let k = choose|k: int| 0 <= k < before.len() && before[k] == u;
        if k < i {
            assert(after[k] == u);
        } else {
            assert(after[k - 1] == u);
        }
    }
}

proof fn lemma_push_membership(before: Seq<Tool>, t: Tool)
    requires
        before.no_duplicates(),
        !before.contains(t),
    ensures
        before.push(t).no_duplicates(),
        before.push(t).contains(t),
        forall|u: Tool| u != t ==> (before.push(t).contains(u) <==> before.contains(u)),
{
    let after = before.push(t);
    assert(after[before.len() as int] == t);
    assert forall|u: Tool| u != t && #[trigger] before.contains(u) implies after.contains(u) by {
        let k = choose|k: int| 0 <= k < before.len() && before[k] == u;
        assert(after[k] == u);
    }
    assert forall|u: Tool| #[trigger] after.contains(u) && u != t implies before.contains(u) by {
        let k = choose|k: int| 0 <= k < after.len() && after[k] == u;
        assert(before[k] == u);
    }
    assert forall|k: int, m: int| 0 <= k < after.len() && 0 <= m < after.len() && k != m implies after[k] != after[m] by {
        if k < before.len() && m < before.len() {
        } else if k < before.len() {
            assert(before.contains(after[k]));
        } else {
            assert(before.contains(after[m]));
        }
    }
}

/// Toggling a tool flips whether the list holds it and keeps whether it
/// holds any other tool; a list without repeats stays without repeats.
pub proof fn lemma_toggled_membership(before: Seq<Tool>, after: Seq<Tool>, t: Tool)
    requires
        before.no_duplicates(),
        toggled(before, after, t),
    ensures
        after.no_duplicates(),
        after.contains(t) <==> !before.contains(t),
        forall|u: Tool| u != t ==> (after.contains(u) <==> before.contains(u)),
{
    if before.contains(t) {
        let i = choose|i: int|
            0 <= i < before.len() && before[i] == t && (forall|j: int| 0 <= j < i ==> before[j] != t)
                && after == before.remove(i);
        lemma_remove_membership(before, i, t);
    } else {
        lemma_push_membership(before, t);
    }
}

/// Toggling the same tool twice gives back a list that holds exactly the
/// tools it held before.
pub proof fn lemma_toggle_twice(a: Seq<Tool>, b: Seq<Tool>, c: Seq<Tool>, t: Tool)
    requires
        a.no_duplicates(),
        toggled(a, b, t),
        toggled(b, c, t),
    ensures
        c.no_duplicates(),
        forall|u: Tool| c.contains(u) <==> a.contains(u),
{
    lemma_toggled_membership(a, b, t);
    lemma_toggled_membership(b, c, t);
}

/// `after` is `before` with project `i` replaced by `p`, every other field
/// of the state kept.
pub open spec fn with_project(before: State, after: State, i: int, p: Project) -> bool {
    &&& after.projects@ == before.projects@.update(i, p)
    &&& after == (State { projects: after.projects, ..before })
}

/// `after` is `before` with only its project list changed.
pub open spec fn keeps_state(before: State, after: State) -> bool {
    after == (State { projects: after.projects, ..before })
}

/// `after` is `before` with `t` toggled: its first occurrence removed, or
/// `t` appended where it is absent.
pub open spec fn toggled(before: Seq<Tool>, after: Seq<Tool>, t: Tool) -> bool {
    if before.contains(t) {
        exists|i: int|
            0 <= i < before.len() && before[i] == t && (forall|j: int| 0 <= j < i ==> before[j] != t)
                && after == before.remove(i)
    } else {
        after == before.push(t)
    }
}

impl State {
    /// Makes project `inx` the active one.
    pub fn select_project(&mut self, inx: usize)
        ensures
            *final(self) == (State { active_project: Some(inx), ..*old(self) }),
    {
        self.active_project = Some(inx);
    }

    pub fn set_current_msg(&mut self, value: String)
        ensures
            *final(self) == (State { current_msg: value, ..*old(self) }),
    {
        self.current_msg = value;
    }

    pub fn set_new_forbidden_file_name(&mut self, value: String)
        ensures
            *final(self) == (State { new_forbidden_file_name: value, ..*old(self) }),
    {
        self.new_forbidden_file_name = value;
    }

    /// Adds an empty project, marked as not saved.
    pub fn new_project(&mut self)
        ensures
            final(self).projects@.len() == old(self).projects@.len() + 1,
            final(self).projects@.drop_last() == old(self).projects@,
            final(self).projects@.last().modified,
            final(self).projects@.last().history.context().len() == 0,
            final(self).projects@.last().in_flight is None,
            keeps_state(*old(self), *final(self)),
    {
        let mut p = Project::new();
        p.modified = true;
        self.projects.push(p);
        assert(self.projects@.drop_last() =~= old(self).projects@);
    }

    /// Switches catalogue tool `inx` on or off for the active project.
    pub fn toggle_tool(&mut self, inx: usize)
        ensures
            inx < all_tools().len() ==> (active_index(*old(self)) matches Some(i) ==> {
                &&& with_project(
                    *old(self),
                    *final(self),
                    i,
                    (Project {
                        activated_tools: final(self).projects@[i].activated_tools,
                        ..old(self).projects@[i]
                    }),
                )
                &&& toggled(
                    old(self).projects@[i].activated_tools@,
                    final(self).projects@[i].activated_tools@,
                    all_tools()[inx as int],
                )
            }),
            !(inx < all_tools().len() && active_index(*old(self)) is Some) ==> *final(self) == *old(self),
    {
        let catalogue = crate::registry::tools();
        if inx >= catalogue.len() {
            return;
        }
        let i = match self.active_index() {
            Some(i) => i,
            None => {
                return;
            },
        };
        let t = catalogue[inx];
        let mut p = self.projects.remove(i);
        let n = p.activated_tools.len();
        let mut j: usize = 0;
        let mut pos: Option<usize> = None;
        while j < n
            invariant
                n == p.activated_tools@.len(),
                j <= n,
                match pos {
                    Some(k) => k < j && p.activated_tools@[k as int] == t && forall|m: int|
                        0 <= m < k ==> p.activated_tools@[m] != t,
                    None => forall|m: int| 0 <= m < j ==> p.activated_tools@[m] != t,
                },
            decreases n - j,
        {
            if pos.is_none() && p.activated_tools[j] == t {
                pos = Some(j);
            }
            j = j + 1;
        }
        let ghost before = p.activated_tools@;
        match pos {
            Some(k) => {
                assert(before.contains(t));
                p.activated_tools.remove(k);
            },
            None => {
                assert(!before.contains(t));
                p.activated_tools.push(t);
            },
        }
        self.projects.insert(i, p);
        assert(self.projects@ =~= old(self).projects@.update(i as int, self.projects@[i as int]));
    }

    /// Adds the draft forbidden file name to the active project's list.
    pub fn add_forbidden_file(&mut self)
        ensures
            active_index(*old(self)) matches Some(i) ==> {
                &&& with_project(
                    *old(self),
                    *final(self),
                    i,
                    (Project {
                        forbidden_files: final(self).projects@[i].forbidden_files,
                        modified: true,
                        ..old(self).projects@[i]
                    }),
                )
                &&& final(self).projects@[i].forbidden_files@ == old(self).projects@[i].forbidden_files@.push(
                    old(self).new_forbidden_file_name,
                )
            },
            active_index(*old(self)) is None ==> *final(self) == *old(self),
    {
        let i = match self.active_index() {
            Some(i) => i,
            None => {
                return;
            },
        };
        let mut p = self.projects.remove(i);
        p.forbidden_files.push(self.new_forbidden_file_name.clone());
        p.modified = true;
        self.projects.insert(i, p);
        assert(self.projects@ =~= old(self).projects@.update(i as int, self.projects@[i as int]));
    }

    /// Removes entry `inx` of the active project's forbidden file list.
    pub fn delete_forbidden_file(&mut self, inx: usize)
        ensures
            active_index(*old(self)) matches Some(i) ==> if inx < old(self).projects@[i].forbidden_files@.len() {
                &&& with_project(
                    *old(self),
                    *final(self),
                    i,
                    (Project {
                        forbidden_files: final(self).projects@[i].forbidden_files,
                        modified: true,
                        ..old(self).projects@[i]
                    }),
                )
                &&& final(self).projects@[i].forbidden_files@ == old(self).projects@[i].forbidden_files@.remove(inx as int)
            } else {
                *final(self) == *old(self)
            },
            active_index(*old(self)) is None ==> *final(self) == *old(self),
    {
        let i = match self.active_index() {
            Some(i) => i,
            None => {
                return;
            },
        };
        if inx >= self.projects[i].forbidden_files.len() {
            return;
        }
        let mut p = self.projects.remove(i);
        p.forbidden_files.remove(inx);
        p.modified = true;
        self.projects.insert(i, p);
        assert(self.projects@ =~= old(self).projects@.update(i as int, self.projects@[i as int]));
    }

    /// Renames the active project.
    pub fn set_project_name(&mut self, value: String)
        ensures
            active_index(*old(self)) matches Some(i) ==> {
                &&& with_project(
                    *old(self),
                    *final(self),
                    i,
                    (Project {
                        name: final(self).projects@[i].name,
                        modified: true,
                        ..old(self).projects@[i]
                    }),
                )
                &&& final(self).projects@[i].name == value
            },
            active_index(*old(self)) is None ==> *final(self) == *old(self),
    {
        let i = match self.active_index() {
            Some(i) => i,
            None => {
                return;
            },
        };
        let mut p = self.projects.remove(i);
        p.name = value;
        p.modified = true;
        self.projects.insert(i, p);
        assert(self.projects@ =~= old(self).projects@.update(i as int, self.projects@[i as int]));
    }

    /// Points the active project at another folder.
    pub fn set_folder_path(&mut self, value: String)
        ensures
            active_index(*old(self)) matches Some(i) ==> {
                &&& with_project(
                    *old(self),
                    *final(self),
                    i,
                    (Project {
                        folder_path: final(self).projects@[i].folder_path,
                        modified: true,
                        ..old(self).projects@[i]
                    }),
                )
                &&& final(self).projects@[i].folder_path == value
            },
            active_index(*old(self)) is None ==> *final(self) == *old(self),
    {
        let i = match self.active_index() {
            Some(i) => i,
            None => {
                return;
            },
        };
        let mut p = self.projects.remove(i);
        p.folder_path = value;
        p.modified = true;
        self.projects.insert(i, p);
        assert(self.projects@ =~= old(self).projects@.update(i as int, self.projects@[i as int]));
    }

    /// Replaces the active project's instructions.
    pub fn set_instructions(&mut self, value: String)
        ensures
            active_index(*old(self)) matches Some(i) ==> {
                &&& with_project(
                    *old(self),
                    *final(self),
                    i,
                    (Project {
                        instructions: final(self).projects@[i].instructions,
                        modified: true,
                        ..old(self).projects@[i]
                    }),
                )
                &&& final(self).projects@[i].instructions == value
            },
            active_index(*old(self)) is None ==> *final(self) == *old(self),
    {
        let i = match self.active_index() {
            Some(i) => i,
            None => {
                return;
            },
        };
        let mut p = self.projects.remove(i);
        p.instructions = value;
        p.modified = true;
        self.projects.insert(i, p);
        assert(self.projects@ =~= old(self).projects@.update(i as int, self.projects@[i as int]));
    }

    /// Sets the active project's model by its backend identifier; an unknown
    /// identifier changes nothing.
    pub fn select_model(&mut self, name: &str)
        ensures
            active_index(*old(self)) matches Some(i) ==> match crate::llm::model_of_name(name@) {
                Some(m) => with_project(
                    *old(self),
                    *final(self),
                    i,
                    (Project { model: m, modified: true, ..old(self).projects@[i] }),
                ),
                None => *final(self) == *old(self),
            },
            active_index(*old(self)) is None ==> *final(self) == *old(self),
    {
        let i = match self.active_index() {
            Some(i) => i,
            None => {
                return;
            },
        };
        let model = match LLMModel::from_str(name) {
            Some(m) => m,
            None => {
                return;
            },
        };
        assert(crate::llm::model_name(model) == name@);
        let mut p = self.projects.remove(i);
        p.model = model;
        p.modified = true;
        self.projects.insert(i, p);
        assert(self.projects@ =~= old(self).projects@.update(i as int, self.projects@[i as int]));
    }
}

} // verus!

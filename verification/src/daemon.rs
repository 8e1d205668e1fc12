//! The line protocol of the local daemon.
//!
//! The daemon reads one JSON request per line and answers each request with
//! one line. Its decisions are a state machine: the caller performs each
//! action (reading a line, parsing it, executing the request, serializing
//! the response, writing a reply) and hands back what came of it as the next
//! event.
use vstd::prelude::*;
use crate::text::{
    all_white_space, inner_bounds, is_white_space, json_quote, json_string_literal, lemma_json_literal_one_line,
    lemma_trim_ignores_padding, lemma_trim_is_inner_part, trim, trim_chars,
};

verus! {

/// Where the daemon stands.
#[derive(Clone, Copy, Debug, PartialEq, Eq, Structural)]
pub enum DaemonState {
    /// Waiting for the next input line.
    AwaitLine,
    /// Waiting for a request line to be parsed.
    AwaitParse,
    /// Waiting for a parsed request to be executed.
    AwaitExecution,
    /// Waiting for the response of an execution to be serialized.
    AwaitSerialization,
    /// The input has ended; nothing more is done.
    Finished,
}

/// What came of the last action.
#[derive(Debug)]
pub enum DaemonEvent {
    /// A line was read (without its line break).
    LineRead(String),
    /// The input ended, or could not be read.
    InputEnded,
    /// The request line is no valid request; the parser's message.
    ParseFailed(String),
    /// The request line was parsed.
    Parsed,
    /// The execution failed; its error message.
    ExecutionFailed(String),
    /// The execution succeeded.
    Executed,
    /// The response was serialized to this JSON text.
    Serialized(String),
    /// The response could not be serialized; the serializer's message.
    SerializeFailed(String),
}

/// What the daemon asks for next.
#[derive(Debug)]
pub enum DaemonAction {
    /// Read the next line.
    ReadNext,
    /// Parse this request text.
    Parse(String),
    /// Execute the parsed request.
    Execute,
    /// Serialize the response of the execution.
    Serialize,
    /// Write this line, flush, and read the next line.
    Reply(String),
    /// Stop: the daemon has finished successfully.
    Stop,
}

/// An event, as mathematical values.
pub enum EventView {
    LineRead(Seq<char>),
    InputEnded,
    ParseFailed(Seq<char>),
    Parsed,
    ExecutionFailed(Seq<char>),
    Executed,
    Serialized(Seq<char>),
    SerializeFailed(Seq<char>),
}

/// An action, as mathematical values.
pub enum ActionView {
    ReadNext,
    Parse(Seq<char>),
    Execute,
    Serialize,
    Reply(Seq<char>),
    Stop,
}

impl View for DaemonEvent {
    type V = EventView;

    open spec fn view(&self) -> EventView {
        match self {
            DaemonEvent::LineRead(l) => EventView::LineRead(l@),
            DaemonEvent::InputEnded => EventView::InputEnded,
            DaemonEvent::ParseFailed(m) => EventView::ParseFailed(m@),
            DaemonEvent::Parsed => EventView::Parsed,
            DaemonEvent::ExecutionFailed(m) => EventView::ExecutionFailed(m@),
            DaemonEvent::Executed => EventView::Executed,
            DaemonEvent::Serialized(t) => EventView::Serialized(t@),
            DaemonEvent::SerializeFailed(m) => EventView::SerializeFailed(m@),
        }
    }
}

impl View for DaemonAction {
    type V = ActionView;

    open spec fn view(&self) -> ActionView {
        match self {
            DaemonAction::ReadNext => ActionView::ReadNext,
            DaemonAction::Parse(t) => ActionView::Parse(t@),
            DaemonAction::Execute => ActionView::Execute,
            DaemonAction::Serialize => ActionView::Serialize,
            DaemonAction::Reply(l) => ActionView::Reply(l@),
            DaemonAction::Stop => ActionView::Stop,
        }
    }
}

/// The reply line that reports an error: a JSON object whose one member
/// `error` holds the message.
pub open spec fn error_reply_text(message: Seq<char>) -> Seq<char> {
    "{\"error\":"@ + json_string_literal(message) + "}"@
}

/// Whether `event` is one that can follow the action taken in `state`.
pub open spec fn accepts(state: DaemonState, event: EventView) -> bool {
    match state {
        DaemonState::AwaitLine => event is LineRead || event is InputEnded,
        DaemonState::AwaitParse => event is ParseFailed || event is Parsed,
        DaemonState::AwaitExecution => event is ExecutionFailed || event is Executed,
        DaemonState::AwaitSerialization => event is Serialized || event is SerializeFailed,
        DaemonState::Finished => false,
    }
}

/// The next state and action of the daemon.
pub open spec fn transition(state: DaemonState, event: EventView) -> (DaemonState, ActionView) {
    match event {
        EventView::LineRead(line) => if trim_chars(line).len() == 0 {
            (DaemonState::AwaitLine, ActionView::ReadNext)
        } else {
            (DaemonState::AwaitParse, ActionView::Parse(trim_chars(line)))
        },
        EventView::InputEnded => (DaemonState::Finished, ActionView::Stop),
        EventView::ParseFailed(m) => (
            DaemonState::AwaitLine,
            ActionView::Reply(error_reply_text("Invalid JSON request: "@ + m)),
        ),
        EventView::Parsed => (DaemonState::AwaitExecution, ActionView::Execute),
        EventView::ExecutionFailed(m) => (
            DaemonState::AwaitLine,
            ActionView::Reply(error_reply_text("Execution failed: "@ + m)),
        ),
        EventView::Executed => (DaemonState::AwaitSerialization, ActionView::Serialize),
        EventView::Serialized(t) => (DaemonState::AwaitLine, ActionView::Reply(t)),
        EventView::SerializeFailed(m) => (
            DaemonState::AwaitLine,
            ActionView::Reply(error_reply_text("Failed to serialize response: "@ + m)),
        ),
    }
}

/// The state and the actions of the daemon after `events`, from `state`.
pub open spec fn run(state: DaemonState, events: Seq<EventView>) -> (DaemonState, Seq<ActionView>)
    decreases events.len(),
{
    if events.len() == 0 {
        (state, Seq::empty())
    } else {
        let before = run(state, events.drop_last());
        let next = transition(before.0, events.last());
        (next.0, before.1.push(next.1))
    }
}

/// Whether each of `events` can follow the action before it, from `state`.
pub open spec fn valid_run(state: DaemonState, events: Seq<EventView>) -> bool
    decreases events.len(),
{
    events.len() == 0 || (valid_run(state, events.drop_last()) && accepts(
        run(state, events.drop_last()).0,
        events.last(),
    ))
}

/// The number of replies among `actions`.
pub open spec fn reply_count(actions: Seq<ActionView>) -> nat
    decreases actions.len(),
{
    if actions.len() == 0 {
        0
    } else {
        reply_count(actions.drop_last()) + if actions.last() is Reply {
            1nat
        } else {
            0nat
        }
    }
}

/// The number of request lines among `events`: lines that are not blank.
pub open spec fn request_count(events: Seq<EventView>) -> nat
    decreases events.len(),
{
    if events.len() == 0 {
        0
    } else {
        request_count(events.drop_last()) + match events.last() {
            EventView::LineRead(line) => if trim_chars(line).len() > 0 {
                1nat
            } else {
                0nat
            },
            _ => 0nat,
        }
    }
}

/// One while a request is being handled, zero otherwise.
pub open spec fn in_flight(state: DaemonState) -> nat {
    match state {
        DaemonState::AwaitParse | DaemonState::AwaitExecution
        | DaemonState::AwaitSerialization => 1,
        _ => 0,
    }
}

/// The error reply for `message`.
pub fn error_reply(message: &str) -> (r: String)
    ensures
        r@ == error_reply_text(message@),
{
    let mut r = String::from_str("{\"error\":");
    r.append(json_quote(message).as_str());
    r.append("}");
    proof {
        reveal_strlit("{\"error\":");
        reveal_strlit("}");
    }
    r
}

/// `prefix` followed by `message`.
fn join(prefix: &str, message: &str) -> (r: String)
    ensures
        r@ == prefix@ + message@,
{
    let mut r = String::from_str(prefix);
    r.append(message);
    r
}

impl DaemonState {
    /// Whether `event` can follow the action taken in this state.
    pub fn accepts(&self, event: &DaemonEvent) -> (r: bool)
        ensures
            r == accepts(*self, event@),
    {
        match self {
            DaemonState::AwaitLine => match event {
                DaemonEvent::LineRead(_) | DaemonEvent::InputEnded => true,
                _ => false,
            },
            DaemonState::AwaitParse => match event {
                DaemonEvent::ParseFailed(_) | DaemonEvent::Parsed => true,
                _ => false,
            },
            DaemonState::AwaitExecution => match event {
                DaemonEvent::ExecutionFailed(_) | DaemonEvent::Executed => true,
                _ => false,
            },
            DaemonState::AwaitSerialization => match event {
                DaemonEvent::Serialized(_) | DaemonEvent::SerializeFailed(_) => true,
                _ => false,
            },
            DaemonState::Finished => false,
        }
    }

    /// The next state of the daemon, and its next action, after `event`.
    pub fn step(self, event: DaemonEvent) -> (r: (DaemonState, DaemonAction))
        requires
            accepts(self, event@),
        ensures
            (r.0, r.1@) == transition(self, event@),
    {
        proof {
            reveal_strlit("Invalid JSON request: ");
            reveal_strlit("Execution failed: ");
            reveal_strlit("Failed to serialize response: ");
        }
        match event {
            DaemonEvent::LineRead(line) => {
                let t = trim(line.as_str());
                if t.is_empty() {
                    (DaemonState::AwaitLine, DaemonAction::ReadNext)
                } else {
                    (DaemonState::AwaitParse, DaemonAction::Parse(t.to_owned()))
                }
            },
            DaemonEvent::InputEnded => (DaemonState::Finished, DaemonAction::Stop),
            DaemonEvent::ParseFailed(m) => {
                let msg = join("Invalid JSON request: ", m.as_str());
                (DaemonState::AwaitLine, DaemonAction::Reply(error_reply(msg.as_str())))
            },
            DaemonEvent::Parsed => (DaemonState::AwaitExecution, DaemonAction::Execute),
            DaemonEvent::ExecutionFailed(m) => {
                let msg = join("Execution failed: ", m.as_str());
                (DaemonState::AwaitLine, DaemonAction::Reply(error_reply(msg.as_str())))
            },
            DaemonEvent::Executed => (DaemonState::AwaitSerialization, DaemonAction::Serialize),
            DaemonEvent::Serialized(t) => (DaemonState::AwaitLine, DaemonAction::Reply(t)),
            DaemonEvent::SerializeFailed(m) => {
                let msg = join("Failed to serialize response: ", m.as_str());
                (DaemonState::AwaitLine, DaemonAction::Reply(error_reply(msg.as_str())))
            },
        }
    }
}

/// The daemon starts by waiting for a line.
pub fn start() -> (r: DaemonState)
    ensures
        r == DaemonState::AwaitLine,
{
    DaemonState::AwaitLine
}

/// Every request line is answered by exactly one reply: over any run from
/// the start, the replies written, plus the request still being handled if
/// there is one, are as many as the request lines read. Blank lines get no
/// reply.
pub proof fn lemma_one_reply_per_request(events: Seq<EventView>)
    requires
        valid_run(DaemonState::AwaitLine, events),
    ensures
        reply_count(run(DaemonState::AwaitLine, events).1) + in_flight(
            run(DaemonState::AwaitLine, events).0,
        ) == request_count(events),
        run(DaemonState::AwaitLine, events).1.len() == events.len(),
    decreases events.len(),
{
    if events.len() > 0 {
        let prefix = events.drop_last();
        lemma_one_reply_per_request(prefix);
        let before = run(DaemonState::AwaitLine, prefix);
        let acts = before.1.push(transition(before.0, events.last()).1);
        assert(acts.drop_last() =~= before.1);
    }
}

/// After the input ends, the daemon accepts no further event.
pub proof fn lemma_finished_is_final(event: EventView)
    ensures
        transition(DaemonState::AwaitLine, EventView::InputEnded).0 == DaemonState::Finished,
        !accepts(DaemonState::Finished, event),
{
}

/// Each reply leaves the daemon waiting for the next line.
pub proof fn lemma_reply_awaits_next_line(state: DaemonState, event: EventView)
    requires
        accepts(state, event),
        transition(state, event).1 is Reply,
    ensures
        transition(state, event).0 == DaemonState::AwaitLine,
{
}

/// White space around a request line does not change how the daemon
/// answers it.
pub proof fn lemma_padding_keeps_answer(
    state: DaemonState,
    before: Seq<char>,
    line: Seq<char>,
    after: Seq<char>,
)
    requires
        all_white_space(before),
        all_white_space(after),
    ensures
        transition(state, EventView::LineRead(before + line + after)) == transition(
            state,
            EventView::LineRead(line),
        ),
{
    lemma_trim_ignores_padding(before, line, after);
}

/// An error reply is a single line: it holds no line break, whatever the
/// message.
pub proof fn lemma_error_reply_one_line(message: Seq<char>)
    ensures
        forall|i: int|
            0 <= i < error_reply_text(message).len() ==> #[trigger] error_reply_text(message)[i]
                != '\n',
{
    reveal_strlit("{\"error\":");
    reveal_strlit("}");
    lemma_json_literal_one_line(message);
    let p = "{\"error\":"@;
    let l = json_string_literal(message);
    let r = error_reply_text(message);
    assert forall|i: int| 0 <= i < r.len() implies #[trigger] r[i] != '\n' by {
        if i < p.len() {
            assert(r[i] == p[i]);
        } else if i < p.len() + l.len() {
            assert(r[i] == l[i - p.len()]);
        } else {
            assert(r[i] == '}');
        }
    }
}

/// A line that is not blank is handed to the parser whole: the text to parse
/// is the line with only its surrounding white space removed, whatever its
/// length, and the daemon then waits for the parse. A blank line is not
/// parsed and gets no reply.
pub proof fn lemma_request_line_parsed_whole(state: DaemonState, line: Seq<char>)
    ensures
        trim_chars(line).len() > 0 ==> transition(state, EventView::LineRead(line)) == (
        DaemonState::AwaitParse,
        ActionView::Parse(trim_chars(line)),
        ),
        trim_chars(line).len() == 0 ==> transition(state, EventView::LineRead(line)) == (
        DaemonState::AwaitLine,
        ActionView::ReadNext,
        ),
{
}

/// The text handed to the parser is the part of the line between its
/// leading and trailing white space: a contiguous piece of the line, with no
/// character dropped inside it, that neither starts nor ends with white
/// space.
pub proof fn lemma_trimmed_is_inner_part(line: Seq<char>)
    ensures
        exists|a: int, b: int|
            inner_bounds(line, a, b) && trim_chars(line) == line.subrange(a, b),
        trim_chars(line).len() > 0 ==> !is_white_space(trim_chars(line)[0]) && !is_white_space(
            trim_chars(line).last(),
        ),
{
    lemma_trim_is_inner_part(line);
}

/// How each outcome of a request is answered: a parse error with
/// `Invalid JSON request: `, an execution error with `Execution failed: `,
/// a serialization error with `Failed to serialize response: `, each in an
/// error reply, and a serialized response with that very text; the end of
/// the input stops the daemon.
pub proof fn lemma_outcomes_answered(state: DaemonState, m: Seq<char>)
    ensures
        transition(state, EventView::ParseFailed(m)) == (
            DaemonState::AwaitLine,
            ActionView::Reply(error_reply_text("Invalid JSON request: "@ + m)),
        ),
        transition(state, EventView::ExecutionFailed(m)) == (
            DaemonState::AwaitLine,
            ActionView::Reply(error_reply_text("Execution failed: "@ + m)),
        ),
        transition(state, EventView::SerializeFailed(m)) == (
            DaemonState::AwaitLine,
            ActionView::Reply(error_reply_text("Failed to serialize response: "@ + m)),
        ),
        transition(state, EventView::Serialized(m)) == (DaemonState::AwaitLine, ActionView::Reply(m)),
        transition(state, EventView::Parsed) == (DaemonState::AwaitExecution, ActionView::Execute),
        transition(state, EventView::Executed) == (
            DaemonState::AwaitSerialization,
            ActionView::Serialize,
        ),
        transition(state, EventView::InputEnded) == (DaemonState::Finished, ActionView::Stop),
        error_reply_text(m) == "{\"error\":"@ + json_string_literal(m) + "}"@,
{
}

} // verus!

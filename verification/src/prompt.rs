//! Rendering a conversation into one prompt string.
//!
//! A prompt is a pure function of the system text and the turns of the
//! conversation. The rendering is stated once, as [`llama3_prompt`], and the
//! executable formatter is proved to produce exactly that text.

use vstd::prelude::*;

verus! {

/// One turn of a conversation.
#[derive(Debug, PartialEq, Eq)]
pub enum Message {
    User(String),
    Assistant(String),
}

/// A turn as the contracts see it: who speaks, and the characters said.
pub enum Turn {
    User(Seq<char>),
    Assistant(Seq<char>),
}

impl View for Message {
    type V = Turn;

    open spec fn view(&self) -> Turn {
        match self {
            Message::User(text) => Turn::User(text@),
            Message::Assistant(text) => Turn::Assistant(text@),
        }
    }
}

impl DeepView for Message {
    type V = Turn;

    open spec fn deep_view(&self) -> Turn {
        self@
    }
}

/// A conversation can be rendered when it is not empty and both its first and
/// its last turn are the user's.
pub open spec fn valid_conversation(turns: Seq<Turn>) -> bool {
    &&& turns.len() > 0
    &&& turns.first() is User
    &&& turns.last() is User
}

/// The header that opens the system segment, begin-of-text marker included.
pub open spec fn system_header() -> Seq<char> {
    "<|begin_of_text|><|start_header_id|>system<|end_header_id|>\n\n"@
}

/// The header that opens a user's segment.
pub open spec fn user_header() -> Seq<char> {
    "<|start_header_id|>user<|end_header_id|>\n\n"@
}

/// The header that opens an assistant's segment.
pub open spec fn assistant_header() -> Seq<char> {
    "<|start_header_id|>assistant<|end_header_id|>\n\n"@
}

/// The marker that closes a segment.
pub open spec fn end_of_turn() -> Seq<char> {
    "<|eot_id|>"@
}

/// The segment of one turn: the header of its role, its text as it stands,
/// the end-of-turn marker.
pub open spec fn segment(turn: Turn) -> Seq<char> {
    match turn {
        Turn::User(text) => user_header() + text + end_of_turn(),
        Turn::Assistant(text) => assistant_header() + text + end_of_turn(),
    }
}

/// The segments of all turns, in their order.
pub open spec fn segments(turns: Seq<Turn>) -> Seq<char>
    decreases turns.len(),
{
    if turns.len() == 0 {
        Seq::empty()
    } else {
        segments(turns.drop_last()) + segment(turns.last())
    }
}

/// The whole prompt: the system segment, the segment of each turn, and an
/// assistant header left open for the model to continue.
pub open spec fn llama3_prompt(system: Seq<char>, turns: Seq<Turn>) -> Seq<char> {
    system_header() + system + end_of_turn() + segments(turns) + assistant_header()
}

/// Rendering one more turn appends its segment.
pub proof fn lemma_segments_push(turns: Seq<Turn>, turn: Turn)
    ensures
        segments(turns.push(turn)) == segments(turns) + segment(turn),
{
    assert(turns.push(turn).drop_last() =~= turns);
}

/// The turns are rendered in their order, each for itself: the segments of a
/// conversation followed by another are those of the first, then those of the
/// second.
pub proof fn lemma_segments_concat(earlier: Seq<Turn>, later: Seq<Turn>)
    ensures
        segments(earlier + later) == segments(earlier) + segments(later),
    decreases later.len(),
{
    if later.len() == 0 {
        assert(earlier + later =~= earlier);
        assert(segments(earlier) + segments(later) =~= segments(earlier));
    } else {
        lemma_segments_concat(earlier, later.drop_last());
        assert((earlier + later).drop_last() =~= earlier + later.drop_last());
        assert((earlier + later).last() == later.last());
        assert(segments(earlier) + (segments(later.drop_last()) + segment(later.last())) =~= (segments(
            earlier,
        ) + segments(later.drop_last())) + segment(later.last()));
    }
}

/// Whether the conversation has the shape that a formatter accepts.
pub fn is_valid_conversation(messages: &[Message]) -> (valid: bool)
    ensures
        valid == valid_conversation(messages.deep_view()),
{
    let n: usize = messages.len();
    if n == 0 {
        return false;
    }
    let first_is_user = match &messages[0] {
        Message::User(_) => true,
        Message::Assistant(_) => false,
    };
    let last_is_user = match &messages[n - 1] {
        Message::User(_) => true,
        Message::Assistant(_) => false,
    };
    first_is_user && last_is_user
}

/// A way of rendering a conversation into a prompt.
///
/// A format is a pure function: what `format` returns is fixed by the
/// characters of its arguments, and is the text that `render` names.
pub trait PromptFormat {
    /// The conversations that this format renders.
    spec fn accepts(&self, system: Seq<char>, turns: Seq<Turn>) -> bool;

    /// The prompt that this format gives for a conversation.
    spec fn render(&self, system: Seq<char>, turns: Seq<Turn>) -> Seq<char>;

    /// Whether this format renders the conversation.
    fn check(&self, system: &str, messages: &[Message]) -> (accepted: bool)
        ensures
            accepted == self.accepts(system@, messages.deep_view()),
    ;

    /// Renders the conversation into its prompt.
    fn format(&self, system: &str, messages: &[Message]) -> (prompt: String)
        requires
            self.accepts(system@, messages.deep_view()),
        ensures
            prompt@ == self.render(system@, messages.deep_view()),
    ;
}

/// The Llama 3 instruct format.
pub struct Llama3;

impl PromptFormat for Llama3 {
    open spec fn accepts(&self, system: Seq<char>, turns: Seq<Turn>) -> bool {
        valid_conversation(turns)
    }

    open spec fn render(&self, system: Seq<char>, turns: Seq<Turn>) -> Seq<char> {
        llama3_prompt(system, turns)
    }

    fn check(&self, system: &str, messages: &[Message]) -> (accepted: bool) {
        is_valid_conversation(messages)
    }

    fn format(&self, system: &str, messages: &[Message]) -> (prompt: String) {
        let ghost turns = messages.deep_view();
        let mut formatted = String::new();
        formatted.append("<|begin_of_text|><|start_header_id|>system<|end_header_id|>\n\n");
        formatted.append(system);
        formatted.append("<|eot_id|>");
        let ghost head = formatted@;
        assert(turns.take(0) =~= Seq::<Turn>::empty());
        let mut i: usize = 0;
        while i < messages.len()
            invariant
                i <= messages.len(),
                turns == messages.deep_view(),
                formatted@ == head + segments(turns.take(i as int)),
            decreases messages.len() - i,
        {
            proof {
                assert(turns.take(i + 1) =~= turns.take(i as int).push(turns[i as int]));
                lemma_segments_push(turns.take(i as int), turns[i as int]);
            }
            match &messages[i] {
                Message::User(text) => {
                    formatted.append("<|start_header_id|>user<|end_header_id|>\n\n");
                    formatted.append(text.as_str());
                    formatted.append("<|eot_id|>");
                },
                Message::Assistant(text) => {
                    formatted.append("<|start_header_id|>assistant<|end_header_id|>\n\n");
                    formatted.append(text.as_str());
                    formatted.append("<|eot_id|>");
                },
            }
            i = i + 1;
        }
        assert(turns.take(i as int) =~= turns);
        formatted.append("<|start_header_id|>assistant<|end_header_id|>\n\n");
        formatted
    }
}

/// The formatter used to create the prompt for the model.
pub struct PromptFormatter<F: PromptFormat>(pub F);

impl<F: PromptFormat> PromptFormatter<F> {
    /// A formatter that renders as `format` does.
    pub fn new(format: F) -> (formatter: Self)
        ensures
            formatter.0 == format,
    {
        PromptFormatter(format)
    }

    /// The conversations that this formatter renders.
    pub open spec fn accepts(&self, system: Seq<char>, turns: Seq<Turn>) -> bool {
        self.0.accepts(system, turns)
    }

    /// The prompt that this formatter gives for a conversation.
    pub open spec fn render(&self, system: Seq<char>, turns: Seq<Turn>) -> Seq<char> {
        self.0.render(system, turns)
    }

    /// Whether this formatter renders the conversation.
    pub fn check(&self, system: &str, messages: &[Message]) -> (accepted: bool)
        ensures
            accepted == self.accepts(system@, messages.deep_view()),
    {
        self.0.check(system, messages)
    }

    /// Renders the conversation into its prompt.
    pub fn format(&self, system: &str, messages: &[Message]) -> (prompt: String)
        requires
            self.accepts(system@, messages.deep_view()),
        ensures
            prompt@ == self.render(system@, messages.deep_view()),
    {
        self.0.format(system, messages)
    }
}

/// A prompt is fixed by the characters of what it is made from: two calls of
/// `format` whose system texts read the same, and whose conversations read
/// the same turn for turn, give prompts that read the same.
pub proof fn lemma_format_is_deterministic<F: PromptFormat>(
    formatter: PromptFormatter<F>,
    system_a: &str,
    messages_a: &[Message],
    system_b: &str,
    messages_b: &[Message],
)
    requires
        system_a@ == system_b@,
        messages_a.deep_view() == messages_b.deep_view(),
    ensures
        formatter.accepts(system_a@, messages_a.deep_view()) == formatter.accepts(
            system_b@,
            messages_b.deep_view(),
        ),
        formatter.render(system_a@, messages_a.deep_view()) == formatter.render(
            system_b@,
            messages_b.deep_view(),
        ),
{
}

/// The Llama 3 formatter turns away a conversation that is empty, that does
/// not begin with the user, or that does not end with the user. Nothing can
/// be formatted, and so nothing sent, for such a conversation.
pub proof fn lemma_malformed_conversation_is_rejected(system: Seq<char>, turns: Seq<Turn>)
    requires
        turns.len() == 0 || !(turns.first() is User) || !(turns.last() is User),
    ensures
        !PromptFormatter(Llama3).accepts(system, turns),
{
}

impl PromptFormatter<Llama3> {
    /// The formatter of the Llama 3 instruct format.
    pub fn default_const() -> (formatter: Self)
        ensures
            formatter.0 == Llama3,
    {
        PromptFormatter(Llama3)
    }
}

impl Default for PromptFormatter<Llama3> {
    fn default() -> (formatter: Self)
        ensures
            formatter.0 == Llama3,
    {
        Self::default_const()
    }
}

} // verus!

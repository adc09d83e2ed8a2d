//! The reference filter: given a selection of code that is about to change
//! and the symbols that refer to it, it asks a model, one reference at a
//! time, whether that reference has to change too.

use std::sync::Arc;
use vstd::prelude::*;
use vstd::string::*;
use crate::broker::{DispatchRequest, LLMBroker};
use crate::identifier::{LLMProperties, LLMPropertiesView};
use crate::outline::{OutlineNode, OutlineNodeContentView, outline_views};
use crate::prompts::{LATER_SYSTEM_MESSAGE, SYSTEM_MESSAGE};
use crate::text::{
    chars_of, contains_text, join, join_strings, line_spans, lines, span_contains, views,
};
use crate::tool::{ToolError, ToolInput, ToolOutput};
use crate::types::{
    FloatBits, LLMClientCompletionRequest, LLMClientError, LLMClientMessage, LLMClientRole,
    MessageView, RequestView,
};

verus! {

/// The bits of the sampling temperature that the filter asks with: 0.2.
pub const REFERENCE_FILTER_TEMPERATURE: u32 = 0x3E4C_CCCD;

/// The most reference checks that are in flight at once.
pub const REFERENCE_FILTER_CONCURRENCY: usize = 200;

/// A selected symbol: its name, its file and its text, as characters.
pub type AnchoredSymbolView = (Seq<char>, Seq<char>, Seq<char>);

/// The views of a run of selected symbols.
pub open spec fn anchored_views(symbols: Seq<(String, String, String)>) -> Seq<
    AnchoredSymbolView,
> {
    Seq::new(symbols.len(), |i: int| (symbols[i].0@, symbols[i].1@, symbols[i].2@))
}

/// What a filter request holds, as plain values.
pub struct ReferenceFilterRequestView {
    pub user_instruction: Seq<char>,
    pub reference_outlines: Seq<OutlineNodeContentView>,
    pub anchored_symbols: Seq<AnchoredSymbolView>,
    pub llm_properties: LLMPropertiesView,
    pub root_id: Seq<char>,
}

/// Represents a request for filtering references in the codebase.
#[derive(Debug)]
pub struct ReferenceFilterRequest {
    /// The instruction or query provided by the user.
    user_instruction: String,
    /// A collection of outline nodes representing the references to be filtered.
    reference_outlines: Vec<OutlineNode>,
    /// The selected symbols: for each its name, its file and its text.
    anchored_symbols: Vec<(String, String, String)>,
    llm_properties: LLMProperties,
    /// The unique identifier for the root request.
    root_id: String,
}

impl View for ReferenceFilterRequest {
    type V = ReferenceFilterRequestView;

    closed spec fn view(&self) -> ReferenceFilterRequestView {
        ReferenceFilterRequestView {
            user_instruction: self.user_instruction@,
            reference_outlines: outline_views(self.reference_outlines@),
            anchored_symbols: anchored_views(self.anchored_symbols@),
            llm_properties: self.llm_properties@,
            root_id: self.root_id@,
        }
    }
}

impl ReferenceFilterRequest {
    pub fn new(
        user_instruction: String,
        reference_outlines: Vec<OutlineNode>,
        anchored_symbols: Vec<(String, String, String)>,
        llm_properties: LLMProperties,
        root_id: String,
    ) -> (request: Self)
        ensures
            request@ == (ReferenceFilterRequestView {
                user_instruction: user_instruction@,
                reference_outlines: outline_views(reference_outlines@),
                anchored_symbols: anchored_views(anchored_symbols@),
                llm_properties: llm_properties@,
                root_id: root_id@,
            }),
    {
        Self { user_instruction, reference_outlines, llm_properties, anchored_symbols, root_id }
    }

    pub fn reference_outlines(&self) -> (outlines: &[OutlineNode])
        ensures
            outline_views(outlines@) == self@.reference_outlines,
    {
        self.reference_outlines.as_slice()
    }

    pub fn user_instruction(&self) -> (instruction: &str)
        ensures
            instruction@ == self@.user_instruction,
    {
        self.user_instruction.as_str()
    }

    pub fn llm_properties(&self) -> (properties: &LLMProperties)
        ensures
            properties@ == self@.llm_properties,
    {
        &self.llm_properties
    }

    pub fn anchored_symbols(&self) -> (symbols: &[(String, String, String)])
        ensures
            anchored_views(symbols@) == self@.anchored_symbols,
    {
        self.anchored_symbols.as_slice()
    }

    pub fn root_id(&self) -> (root_id: &str)
        ensures
            root_id@ == self@.root_id,
    {
        self.root_id.as_str()
    }
}

/// What the filter answers.
#[derive(Debug)]
pub struct ReferenceFilterResponse {
    answer: String,
}

impl View for ReferenceFilterResponse {
    type V = Seq<char>;

    closed spec fn view(&self) -> Seq<char> {
        self.answer@
    }
}

impl ReferenceFilterResponse {
    pub fn new(answer: &str) -> (response: Self)
        ensures
            response@ == answer@,
    {
        Self { answer: answer.to_owned() }
    }

    pub fn answer(&self) -> (answer: &str)
        ensures
            answer@ == self@,
    {
        self.answer.as_str()
    }
}

/// How a selected symbol is shown to the model.
pub open spec fn anchored_symbol_text(symbol: AnchoredSymbolView) -> Seq<char> {
    symbol.0 + " in "@ + symbol.1 + ":\n"@ + symbol.2
}

/// How the whole selection is shown to the model: symbol after symbol, a
/// line feed between neighbours.
pub open spec fn anchored_symbol_prompt(symbols: Seq<AnchoredSymbolView>) -> Seq<char> {
    join(Seq::new(symbols.len(), |i: int| anchored_symbol_text(symbols[i])), "\n"@)
}

/// How a reference is shown to the model.
pub open spec fn reference_text(reference: OutlineNodeContentView) -> Seq<char> {
    reference.name + " in "@ + reference.fs_file_path + "\n"@ + reference.content
}

/// The question about one reference: the user's query, the selection, and
/// the reference, each in a section of its own.
pub open spec fn reference_prompt(
    user_query: Seq<char>,
    selection: Seq<char>,
    reference: OutlineNodeContentView,
) -> Seq<char> {
    "<user_query>\n"@ + user_query + "\n</user_query>\n\n<code_selected>\n"@ + selection
        + "\n</code_selected>\n\n<reference>\n"@ + reference_text(reference) + "\n</reference>"@
}

/// The questions of a request: one for each of its references, in order.
pub open spec fn reference_prompts(request: ReferenceFilterRequestView) -> Seq<Seq<char>> {
    Seq::new(
        request.reference_outlines.len(),
        |i: int|
            reference_prompt(
                request.user_instruction,
                anchored_symbol_prompt(request.anchored_symbols),
                request.reference_outlines[i],
            ),
    )
}

/// The place of the first line that holds `pattern`, or the number of lines
/// where none does.
pub open spec fn first_line_with(all: Seq<Seq<char>>, pattern: Seq<char>) -> nat
    decreases all.len(),
{
    if all.len() == 0 {
        0
    } else if contains_text(all[0], pattern) {
        0
    } else {
        1 + first_line_with(all.drop_first(), pattern)
    }
}

/// The lines of an answer that stand between the first line that opens the
/// reply and the next line that closes it. An answer that never opens a
/// reply has none; a reply that is never closed runs to the end.
pub open spec fn reply_lines(response: Seq<char>) -> Seq<Seq<char>> {
    let all = lines(response);
    let opened = first_line_with(all, "<reply>"@) as int;
    let inside = if opened < all.len() {
        all.skip(opened + 1)
    } else {
        Seq::empty()
    };
    inside.take(first_line_with(inside, "</reply>"@) as int)
}

/// The reply that an answer holds: its reply lines, a line feed between
/// neighbours.
pub open spec fn reply_body(response: Seq<char>) -> Seq<char> {
    join(reply_lines(response), "\n"@)
}

/// The first line that holds a pattern stands where no line before it holds
/// the pattern.
pub proof fn lemma_first_line_with(all: Seq<Seq<char>>, pattern: Seq<char>, at: int)
    requires
        0 <= at <= all.len(),
        forall|j: int| 0 <= j < at ==> !contains_text(#[trigger] all[j], pattern),
        at < all.len() ==> contains_text(all[at], pattern),
    ensures
        first_line_with(all, pattern) == at,
    decreases all.len(),
{
    if all.len() > 0 && at > 0 {
        let rest = all.drop_first();
        assert(!contains_text(all[0], pattern));
        assert forall|j: int| 0 <= j < at - 1 implies !contains_text(
            #[trigger] rest[j],
            pattern,
        ) by {
            assert(rest[j] == all[j + 1]);
        }
        lemma_first_line_with(rest, pattern, at - 1);
    }
}

/// The labels under which a reference check is filed.
pub open spec fn filter_metadata(root_id: Seq<char>) -> Seq<(Seq<char>, Seq<char>)> {
    seq![("event_type"@, "filter_references"@), ("root_id"@, root_id)]
}

/// The views of a run of labels.
pub open spec fn metadata_views(metadata: Seq<(String, String)>) -> Seq<(Seq<char>, Seq<char>)> {
    Seq::new(metadata.len(), |i: int| (metadata[i].0@, metadata[i].1@))
}

/// The request that asks the model one question of the filter.
pub open spec fn filter_request(properties: LLMPropertiesView, question: Seq<char>) -> RequestView {
    RequestView {
        model: properties.llm,
        messages: seq![
            MessageView {
                role: LLMClientRole::System,
                content: SYSTEM_MESSAGE@,
                function_call: None,
            },
            MessageView { role: LLMClientRole::User, content: question, function_call: None },
        ],
        temperature: FloatBits::from_bits(REFERENCE_FILTER_TEMPERATURE),
        frequency_penalty: None,
    }
}

/// The first place from `from` on where a line holds `pattern`, or the
/// number of lines where none does.
fn next_line_with(
    chars: &Vec<char>,
    spans: &Vec<(usize, usize)>,
    from: usize,
    pattern: &Vec<char>,
) -> (at: usize)
    requires
        from <= spans@.len(),
        spans@.len() == lines(chars@).len(),
        forall|k: int|
            0 <= k < spans@.len() ==> (#[trigger] spans@[k]).0 <= spans@[k].1 <= chars@.len()
                && chars@.subrange(spans@[k].0 as int, spans@[k].1 as int) == lines(chars@)[k],
    ensures
        from <= at <= spans@.len(),
        at - from == first_line_with(lines(chars@).skip(from as int), pattern@),
{
    let ghost rest = lines(chars@).skip(from as int);
    let mut at: usize = from;
    while at < spans.len()
        invariant
            from <= at <= spans@.len(),
            spans@.len() == lines(chars@).len(),
            rest == lines(chars@).skip(from as int),
            forall|k: int|
                0 <= k < spans@.len() ==> (#[trigger] spans@[k]).0 <= spans@[k].1 <= chars@.len()
                    && chars@.subrange(spans@[k].0 as int, spans@[k].1 as int) == lines(
                    chars@,
                )[k],
            forall|j: int| 0 <= j < at - from ==> !contains_text(#[trigger] rest[j], pattern@),
        decreases spans.len() - at,
    {
        let span = spans[at];
        if span_contains(chars, span.0, span.1, pattern) {
            proof {
                assert(rest[at - from] == lines(chars@)[at as int]);
                lemma_first_line_with(rest, pattern@, at - from);
            }
            return at;
        }
        assert(rest[at - from] == lines(chars@)[at as int]);
        at += 1;
    }
    proof {
        lemma_first_line_with(rest, pattern@, at - from);
    }
    at
}

/// Asks a model which references of a selection a change will touch.
pub struct ReferenceFilterBroker {
    llm_client: Arc<LLMBroker>,
    _fail_over_llm: LLMProperties,
}

impl ReferenceFilterBroker {
    pub fn new(llm_client: Arc<LLMBroker>, fail_over_llm: LLMProperties) -> (broker: Self)
        ensures
            broker.spec_fail_over_llm() == fail_over_llm,
            broker.spec_llm_client() == llm_client,
    {
        Self { llm_client, _fail_over_llm: fail_over_llm }
    }

    /// The model to fall back on.
    pub closed spec fn spec_fail_over_llm(&self) -> LLMProperties {
        self._fail_over_llm
    }

    /// The broker that the questions go out through.
    pub closed spec fn spec_llm_client(&self) -> Arc<LLMBroker> {
        self.llm_client
    }

    /// The broker that the questions go out through.
    pub fn llm_client(&self) -> (llm_client: &Arc<LLMBroker>)
        ensures
            *llm_client == self.spec_llm_client(),
    {
        &self.llm_client
    }

    pub fn later_system_message(&self) -> (message: String)
        ensures
            message@ == LATER_SYSTEM_MESSAGE@,
    {
        LATER_SYSTEM_MESSAGE.to_owned()
    }

    pub fn system_message(&self) -> (message: String)
        ensures
            message@ == SYSTEM_MESSAGE@,
    {
        SYSTEM_MESSAGE.to_owned()
    }

    /// The questions to ask for `request`: one for each reference, in order.
    pub fn user_message(&self, request: &ReferenceFilterRequest) -> (messages: Vec<String>)
        ensures
            views(messages@) == reference_prompts(request@),
    {
        let references = request.reference_outlines();
        let user_query = request.user_instruction();
        let anchored_symbols = request.anchored_symbols();

        let mut shown: Vec<String> = Vec::new();
        let mut i: usize = 0;
        while i < anchored_symbols.len()
            invariant
                i <= anchored_symbols@.len(),
                shown@.len() == i,
                anchored_views(anchored_symbols@) == request@.anchored_symbols,
                views(shown@) == Seq::new(
                    i as nat,
                    |k: int| anchored_symbol_text(request@.anchored_symbols[k]),
                ),
            decreases anchored_symbols.len() - i,
        {
            let symbol = &anchored_symbols[i];
            let mut text = String::new();
            text.append(symbol.0.as_str());
            text.append(" in ");
            text.append(symbol.1.as_str());
            text.append(":\n");
            text.append(symbol.2.as_str());
            assert(text@ == anchored_symbol_text(anchored_views(anchored_symbols@)[i as int]));
            let ghost before = views(shown@);
            shown.push(text);
            i += 1;
            proof {
                let after = Seq::new(
                    i as nat,
                    |k: int| anchored_symbol_text(request@.anchored_symbols[k]),
                );
                assert(views(shown@).len() == i);
                assert forall|k: int| 0 <= k < i implies views(shown@)[k] == after[k] by {
                    assert(views(shown@)[k] == shown@[k]@);
                    if k < i - 1 {
                        assert(before[k] == shown@[k]@);
                    }
                }
                assert(views(shown@) =~= after);
            }
        }
        assert(views(shown@) == Seq::new(
            request@.anchored_symbols.len(),
            |k: int| anchored_symbol_text(request@.anchored_symbols[k]),
        ));
        let selection = join_strings(&shown, "\n");

        let mut messages: Vec<String> = Vec::new();
        assert(views(messages@) =~= reference_prompts(request@).take(0));
        let mut j: usize = 0;
        while j < references.len()
            invariant
                j <= references@.len(),
                messages@.len() == j,
                outline_views(references@) == request@.reference_outlines,
                user_query@ == request@.user_instruction,
                selection@ == anchored_symbol_prompt(request@.anchored_symbols),
                views(messages@) == reference_prompts(request@).take(j as int),
            decreases references.len() - j,
        {
            let reference = &references[j];
            let mut message = String::new();
            message.append("<user_query>\n");
            message.append(user_query);
            message.append("\n</user_query>\n\n<code_selected>\n");
            message.append(selection.as_str());
            message.append("\n</code_selected>\n\n<reference>\n");
            let mut shown_reference = String::new();
            shown_reference.append(reference.name());
            shown_reference.append(" in ");
            shown_reference.append(reference.fs_file_path());
            shown_reference.append("\n");
            shown_reference.append(reference.content().content());
            message.append(shown_reference.as_str());
            message.append("\n</reference>");
            proof {
                let view = outline_views(references@)[j as int];
                assert(shown_reference@ == reference_text(view));
                assert(message@ == reference_prompt(
                    request@.user_instruction,
                    anchored_symbol_prompt(request@.anchored_symbols),
                    view,
                ));
            }
            let ghost before = views(messages@);
            messages.push(message);
            j += 1;
            proof {
                let after = reference_prompts(request@).take(j as int);
                assert(views(messages@).len() == j);
                assert forall|k: int| 0 <= k < j implies views(messages@)[k] == after[k] by {
                    assert(views(messages@)[k] == messages@[k]@);
                    if k < j - 1 {
                        assert(before[k] == messages@[k]@);
                        assert(before[k] == reference_prompts(request@).take(j - 1)[k]);
                    }
                }
                assert(views(messages@) =~= after);
            }
        }
        assert(reference_prompts(request@).take(references@.len() as int) == reference_prompts(
            request@,
        ));
        messages
    }

    /// The reply that `response` holds: the lines between the line that
    /// opens the reply and the line that closes it.
    pub fn parse_response(response: &str) -> (answer: String)
        ensures
            answer@ == reply_body(response@),
    {
        let chars = chars_of(response);
        let spans = line_spans(&chars);
        let open = chars_of("<reply>");
        let close = chars_of("</reply>");
        let ghost all = lines(response@);
        assert(all.skip(0) == all);
        let opened = next_line_with(&chars, &spans, 0, &open);
        if opened >= spans.len() {
            assert(reply_lines(response@).len() == 0);
            return String::new();
        }
        let from = opened + 1;
        let until = next_line_with(&chars, &spans, from, &close);
        let ghost inside = reply_lines(response@);
        assert(inside == all.skip(from as int).take(until - from));
        let mut answer = String::new();
        let mut i: usize = from;
        assert(inside.take(0).len() == 0);
        while i < until
            invariant
                from <= i <= until <= spans@.len(),
                chars@ == response@,
                all == lines(response@),
                spans@.len() == all.len(),
                inside == all.skip(from as int).take(until - from),
                forall|k: int|
                    0 <= k < spans@.len() ==> (#[trigger] spans@[k]).0 <= spans@[k].1
                        <= chars@.len() && chars@.subrange(spans@[k].0 as int, spans@[k].1 as int)
                        == all[k],
                answer@ == join(inside.take(i - from), "\n"@),
            decreases until - i,
        {
            let ghost done = inside.take(i - from);
            let ghost next = inside.take(i - from + 1);
            assert(next.drop_last() == done);
            assert(next.last() == all[i as int]);
            if i > from {
                answer.append("\n");
            }
            let span = spans[i];
            answer.append(response.substring_char(span.0, span.1));
            i += 1;
        }
        assert(inside.take(until - from) == inside);
        answer
    }

    /// The completions to ask for `context`: one for each reference, each
    /// with the filter's instructions followed by the question about that
    /// reference, all to the model and with the credentials that the context
    /// names.
    pub fn completion_requests(&self, context: &ReferenceFilterRequest) -> (requests: Vec<
        DispatchRequest,
    >)
        ensures
            requests@.len() == context@.reference_outlines.len(),
            forall|i: int|
                0 <= i < requests@.len() ==> {
                    &&& (#[trigger] requests@[i]).request@ == filter_request(
                        context@.llm_properties,
                        reference_prompts(context@)[i],
                    )
                    &&& requests@[i].api_key@ == context@.llm_properties.api_key
                    &&& requests@[i].provider == context@.llm_properties.provider
                    &&& metadata_views(requests@[i].metadata@) == filter_metadata(context@.root_id)
                },
    {
        let llm_properties = context.llm_properties();
        let user_messages = self.user_message(context);
        let mut requests: Vec<DispatchRequest> = Vec::new();
        assert(views(user_messages@).len() == user_messages@.len());
        let mut i: usize = 0;
        while i < user_messages.len()
            invariant
                i <= user_messages@.len(),
                views(user_messages@) == reference_prompts(context@),
                llm_properties@ == context@.llm_properties,
                requests@.len() == i,
                forall|k: int|
                    0 <= k < i ==> {
                        &&& (#[trigger] requests@[k]).request@ == filter_request(
                            context@.llm_properties,
                            reference_prompts(context@)[k],
                        )
                        &&& requests@[k].api_key@ == context@.llm_properties.api_key
                        &&& requests@[k].provider == context@.llm_properties.provider
                        &&& metadata_views(requests@[k].metadata@) == filter_metadata(
                            context@.root_id,
                        )
                    },
            decreases user_messages.len() - i,
        {
            let system_message = LLMClientMessage::system(self.system_message());
            let user_message = LLMClientMessage::user(user_messages[i].clone());
            let messages = vec![system_message, user_message];
            let request = LLMClientCompletionRequest::new(
                *llm_properties.llm(),
                messages,
                FloatBits::from_bits(REFERENCE_FILTER_TEMPERATURE),
                None,
            );
            let metadata = vec![
                ("event_type".to_owned(), "filter_references".to_owned()),
                ("root_id".to_owned(), context.root_id().to_owned()),
            ];
            proof {
                assert(views(user_messages@)[i as int] == user_messages@[i as int]@);
                assert(request@.messages =~= filter_request(
                    context@.llm_properties,
                    reference_prompts(context@)[i as int],
                ).messages);
                assert(metadata_views(metadata@) =~= filter_metadata(context@.root_id));
            }
            requests.push(
                DispatchRequest {
                    request,
                    api_key: llm_properties.api_key().clone(),
                    provider: *llm_properties.provider(),
                    metadata,
                },
            );
            i += 1;
        }
        requests
    }

    /// The first half of a run of the filter: the completions to ask for
    /// `input`, or the refusal of an input that is meant for another tool.
    pub fn plan_invocation(&self, input: ToolInput) -> (plan: Result<
        Vec<DispatchRequest>,
        ToolError,
    >)
        ensures
            match input {
                ToolInput::ReferencesFilter(context) => plan is Ok && plan->Ok_0@.len()
                    == context@.reference_outlines.len() && forall|i: int|
                    0 <= i < plan->Ok_0@.len() ==> {
                        &&& (#[trigger] plan->Ok_0@[i]).request@ == filter_request(
                            context@.llm_properties,
                            reference_prompts(context@)[i],
                        )
                        &&& plan->Ok_0@[i].api_key@ == context@.llm_properties.api_key
                        &&& plan->Ok_0@[i].provider == context@.llm_properties.provider
                        &&& metadata_views(plan->Ok_0@[i].metadata@) == filter_metadata(
                            context@.root_id,
                        )
                    },
                _ => plan == Err::<Vec<DispatchRequest>, ToolError>(ToolError::WrongToolInput),
            },
    {
        let context = match input.filter_references_request() {
            Ok(context) => context,
            Err(error) => {
                return Err(error);
            },
        };
        Ok(self.completion_requests(&context))
    }

    /// The second half of a run of the filter: what the run hands back once
    /// every completion has ended. However they ended, the filter has no
    /// output to give and says so.
    pub fn conclude_invocation(&self, _outcomes: Vec<(usize, Result<String, LLMClientError>)>) -> (output:
        Result<ToolOutput, ToolError>)
        ensures
            output == Err::<ToolOutput, ToolError>(ToolError::MissingTool),
    {
        Err(ToolError::MissingTool)
    }
}

} // verus!

//! The completion API: what it is asked and how its answer is read.
//!
//! The request is a system instruction that never changes and a user message
//! built from the identity, its traits and the day's behaviors. The answer is
//! the text of the first choice, freed of the Markdown code fence that models
//! like to wrap JSON in. That text is kept as it is: whether it is the JSON
//! that was asked for is for its reader to check.

use vstd::prelude::*;
use crate::failure::{result_view, Failure, FailureView};
use crate::json::{
    as_text, element, lemma_below_nothing, member, parse_document, parsed_texts, text_at,
    texts_of, JsonStep, Texts,
};
use crate::reflection::{
    BehaviorForReflection, BehaviorForReflectionView, ReflectionInput, ReflectionInputView,
};
use crate::text::{
    chars_of, decimal, decimal_text, ends_with, join, join_text, lemma_trim, lemma_trim_end_concat,
    lemma_trim_start, lemma_trim_start_concat, skip_whitespace, skip_whitespace_back, starts_with,
    trim, trim_end, trim_start, without_prefix, without_suffix,
};

verus! {

broadcast use vstd::string::group_string_axioms;

/// Where completions are asked for.
pub const ENDPOINT: &'static str = "https://api.openai.com/v1/chat/completions";

/// The model that is asked.
pub const MODEL: &'static str = "gpt-4o-mini";

/// The sampling temperature, in tenths: 0.7.
pub const TEMPERATURE_TENTHS: u32 = 7;

/// The instruction that opens every conversation.
pub const SYSTEM_INSTRUCTION: &'static str =
    "You are a psychologically intelligent identity performance coach.\nAnalyze behavioral alignment with the stated identity.\nBe specific, insightful, and constructive.\nAvoid generic motivation.\nFocus on identity reinforcement and misalignment patterns.\n\nRespond with valid JSON only, in this exact structure:\n{\n  \"title\": \"string\",\n  \"alignmentSummary\": \"string\",\n  \"observations\": [\"string\", \"string\", \"string\"],\n  \"identityCorrection\": \"string\",\n  \"closingStatement\": \"string\"\n}";

/// The line that tells of one behavior.
pub open spec fn behavior_line(behavior: BehaviorForReflectionView) -> Seq<char> {
    "- "@ + behavior.description + " (alignment: "@ + decimal(behavior.alignment_score as int)
        + "/10)"@
}

/// The lines of the day's behaviors, one below the other.
pub open spec fn behavior_lines(behaviors: Seq<BehaviorForReflectionView>) -> Seq<char> {
    join(behaviors.map_values(|behavior: BehaviorForReflectionView| behavior_line(behavior)), "\n"@)
}

/// The user message: identity, description, traits, and the day's behaviors
/// or, for a day without any, a sentence that says so.
pub open spec fn user_message(input: ReflectionInputView) -> Seq<char> {
    let behaviors = if input.behaviors.len() == 0 {
        "(No behaviors logged today)"@
    } else {
        behavior_lines(input.behaviors)
    };
    "Identity: "@ + input.identity_name + "\nDescription: "@ + input.identity_description
        + "\nTraits: "@ + join(input.traits, ", "@) + "\n\nToday's behaviors and alignment:\n"@
        + behaviors + "\n"@
}

/// The lines of a day are empty only for a day without behaviors.
pub proof fn lemma_behavior_lines(behaviors: Seq<BehaviorForReflectionView>)
    ensures
        behavior_lines(behaviors).len() == 0 <==> behaviors.len() == 0,
{
    reveal_strlit("- ");
    let lines = behaviors.map_values(|behavior: BehaviorForReflectionView| behavior_line(behavior));
    if behaviors.len() > 0 {
        if lines.len() == 1 {
        }
    }
}

/// The header value that carries the credential.
pub open spec fn bearer(api_key: Seq<char>) -> Seq<char> {
    "Bearer "@ + api_key
}

/// One message of a conversation.
#[derive(Debug, Clone, PartialEq, Eq)]
pub struct ChatMessage {
    pub role: String,
    pub content: String,
}

/// Mathematical model of a [`ChatMessage`].
pub struct ChatMessageView {
    pub role: Seq<char>,
    pub content: Seq<char>,
}

impl View for ChatMessage {
    type V = ChatMessageView;

    open spec fn view(&self) -> ChatMessageView {
        ChatMessageView { role: self.role@, content: self.content@ }
    }
}

impl DeepView for ChatMessage {
    type V = ChatMessageView;

    open spec fn deep_view(&self) -> ChatMessageView {
        self@
    }
}

/// A request to the completion API: a POST to `endpoint` with the header
/// `Authorization: <authorization>` and the JSON body
/// `{model, messages: [{role, content}, ...], temperature}`.
#[derive(Debug, Clone, PartialEq, Eq)]
pub struct CompletionRequest {
    pub endpoint: String,
    pub authorization: String,
    pub model: String,
    pub messages: Vec<ChatMessage>,
    /// The sampling temperature in tenths.
    pub temperature_tenths: u32,
}

/// Mathematical model of a [`CompletionRequest`].
pub struct CompletionRequestView {
    pub endpoint: Seq<char>,
    pub authorization: Seq<char>,
    pub model: Seq<char>,
    pub messages: Seq<ChatMessageView>,
    pub temperature_tenths: u32,
}

impl View for CompletionRequest {
    type V = CompletionRequestView;

    open spec fn view(&self) -> CompletionRequestView {
        CompletionRequestView {
            endpoint: self.endpoint@,
            authorization: self.authorization@,
            model: self.model@,
            messages: self.messages.deep_view(),
            temperature_tenths: self.temperature_tenths,
        }
    }
}

impl DeepView for CompletionRequest {
    type V = CompletionRequestView;

    open spec fn deep_view(&self) -> CompletionRequestView {
        self@
    }
}

/// The request that asks for the reflection of `input`'s day.
pub open spec fn reflection_request(
    api_key: Seq<char>,
    input: ReflectionInputView,
) -> CompletionRequestView {
    CompletionRequestView {
        endpoint: ENDPOINT@,
        authorization: bearer(api_key),
        model: MODEL@,
        messages: seq![
            ChatMessageView { role: "system"@, content: SYSTEM_INSTRUCTION@ },
            ChatMessageView { role: "user"@, content: user_message(input) },
        ],
        temperature_tenths: TEMPERATURE_TENTHS,
    }
}

/// Writes the line that tells of one behavior.
pub fn compose_behavior_line(behavior: &BehaviorForReflection) -> (line: String)
    ensures
        line@ == behavior_line(behavior@),
{
    let mut line = "- ".to_string();
    line.append(behavior.description.as_str());
    line.append(" (alignment: ");
    line.append(decimal_text(behavior.alignment_score as i64).as_str());
    line.append("/10)");
    line
}

/// Writes the lines of the day's behaviors.
pub fn compose_behavior_lines(behaviors: &Vec<BehaviorForReflection>) -> (text: String)
    ensures
        text@ == behavior_lines(behaviors.deep_view()),
{
    let ghost line_of = |behavior: BehaviorForReflectionView| behavior_line(behavior);
    let mut lines: Vec<String> = Vec::new();
    let mut i: usize = 0;
    while i < behaviors.len()
        invariant
            0 <= i <= behaviors@.len(),
            lines@.len() == i,
            forall|j: int| 0 <= j < i ==> (#[trigger] lines@[j])@ == behavior_line(behaviors@[j]@),
        decreases behaviors@.len() - i,
    {
        lines.push(compose_behavior_line(&behaviors[i]));
        i = i + 1;
    }
    assert(lines.deep_view() =~= behaviors.deep_view().map_values(line_of));
    join_text(&lines, "\n")
}

/// Writes the user message for `input`.
pub fn compose_user_message(input: &ReflectionInput) -> (text: String)
    ensures
        text@ == user_message(input@),
{
    let lines = compose_behavior_lines(&input.behaviors);
    let traits = join_text(&input.traits, ", ");
    let mut text = "Identity: ".to_string();
    text.append(input.identity_name.as_str());
    text.append("\nDescription: ");
    text.append(input.identity_description.as_str());
    text.append("\nTraits: ");
    text.append(traits.as_str());
    text.append("\n\nToday's behaviors and alignment:\n");
    proof {
        lemma_behavior_lines(input@.behaviors);
    }
    if lines.as_str().is_empty() {
        text.append("(No behaviors logged today)");
    } else {
        text.append(lines.as_str());
    }
    text.append("\n");
    text
}

/// Builds the request that asks for the reflection of `input`'s day.
pub fn compose_request(api_key: &str, input: &ReflectionInput) -> (request: CompletionRequest)
    ensures
        request@ == reflection_request(api_key@, input@),
{
    let mut authorization = "Bearer ".to_string();
    authorization.append(api_key);
    let system = ChatMessage {
        role: "system".to_string(),
        content: SYSTEM_INSTRUCTION.to_string(),
    };
    let user = ChatMessage { role: "user".to_string(), content: compose_user_message(input) };
    let messages = vec![system, user];
    let request = CompletionRequest {
        endpoint: ENDPOINT.to_string(),
        authorization,
        model: MODEL.to_string(),
        messages,
        temperature_tenths: TEMPERATURE_TENTHS,
    };
    assert(request@.messages =~= reflection_request(api_key@, input@).messages);
    request
}

/// The fence that opens or closes a Markdown code block.
pub open spec fn fence() -> Seq<char> {
    "```"@
}

/// The fence that opens a Markdown code block of JSON.
pub open spec fn json_fence() -> Seq<char> {
    "```json"@
}

/// The payload of an answer: the answer without the whitespace around it,
/// without an opening fence, with or without `json` behind it, and without a
/// closing fence, and without the whitespace that the fences leave behind.
pub open spec fn payload(raw: Seq<char>) -> Seq<char> {
    let answer = trim(raw);
    let opened = without_prefix(without_prefix(answer, json_fence()), fence());
    let closed = without_suffix(trim(opened), fence());
    trim(closed)
}

/// The payload of an answer in a fenced block of JSON is what stands between
/// the fences, trimmed: for every `inner`, an answer of the form
/// "```json", new line, `inner`, new line, "```" has the payload `trim(inner)`.
pub proof fn lemma_payload_of_json_block(inner: Seq<char>)
    ensures
        payload(json_fence() + "\n"@ + inner + "\n"@ + fence()) == trim(inner),
{
    reveal_strlit("```json");
    reveal_strlit("```");
    reveal_strlit("\n");
    let answer = json_fence() + "\n"@ + inner + "\n"@ + fence();
    let body = "\n"@ + inner + "\n"@ + fence();
    assert(answer.skip(json_fence().len() as int) =~= body);
    assert(!fence().is_prefix_of(body)) by {
        if fence().is_prefix_of(body) {
            assert(body.subrange(0, fence().len() as int)[0] == fence()[0]);
        }
    }
    lemma_payload_of_block_body(inner);
}

/// The payload of an answer in a fenced block without a language is what
/// stands between the fences, trimmed.
pub proof fn lemma_payload_of_block(inner: Seq<char>)
    ensures
        payload(fence() + "\n"@ + inner + "\n"@ + fence()) == trim(inner),
{
    reveal_strlit("```json");
    reveal_strlit("```");
    reveal_strlit("\n");
    let answer = fence() + "\n"@ + inner + "\n"@ + fence();
    let body = "\n"@ + inner + "\n"@ + fence();
    assert(!json_fence().is_prefix_of(answer)) by {
        if json_fence().is_prefix_of(answer) {
            assert(answer.subrange(0, json_fence().len() as int)[3] == json_fence()[3]);
        }
    }
    assert(answer.skip(fence().len() as int) =~= body);
    lemma_payload_of_block_body(inner);
}

/// What is left of a block once its opening fence is gone, a new line, `inner`,
/// a new line and the closing fence, comes down to `inner`, trimmed.
proof fn lemma_payload_of_block_body(inner: Seq<char>)
    ensures
        trim(without_suffix(trim("\n"@ + inner + "\n"@ + fence()), fence())) == trim(inner),
{
    reveal_strlit("```");
    reveal_strlit("\n");
    let close = "\n"@ + fence();
    let body = "\n"@ + inner + "\n"@ + fence();
    assert(body =~= "\n"@ + (inner + close));
    lemma_trim_start_concat("\n"@, inner + close);
    assert(trim_start("\n"@) =~= Seq::<char>::empty()) by {
        assert(trim_start("\n"@.drop_first()) =~= Seq::<char>::empty());
    }
    lemma_trim_start_concat(inner, close);
    assert(trim_start(close) == fence()) by {
        assert(close.drop_first() =~= fence());
        assert(trim_start(fence()) == fence());
    }
    let head = trim_start(inner);
    lemma_trim_start(inner);
    if head.len() > 0 {
        assert(without_suffix(trim_start(body), fence()) =~= head + "\n"@);
        lemma_trim_end_concat(head, "\n"@);
        assert(trim_end("\n"@) =~= Seq::<char>::empty()) by {
            assert(trim_end("\n"@.drop_last()) =~= Seq::<char>::empty());
        }
    }
}

/// The payload of an answer that no fence opens or closes is the answer, trimmed.
pub proof fn lemma_payload_of_plain(answer: Seq<char>)
    requires
        !fence().is_prefix_of(trim(answer)),
        !fence().is_suffix_of(trim(answer)),
    ensures
        payload(answer) == trim(answer),
{
    reveal_strlit("```json");
    reveal_strlit("```");
    lemma_trim(answer);
}

/// Takes the payload out of an answer.
pub fn extract_payload(raw: &str) -> (text: String)
    ensures
        text@ == payload(raw@),
{
    let chars = chars_of(raw);
    let json_mark = chars_of("```json");
    let mark = chars_of("```");
    let len = chars.len();
    assert(chars@.subrange(0, len as int) =~= raw@);
    let mut from = skip_whitespace(&chars, 0, len);
    let to = skip_whitespace_back(&chars, from, len);
    if starts_with(&chars, from, to, &json_mark) {
        from = from + json_mark.len();
    }
    if starts_with(&chars, from, to, &mark) {
        from = from + mark.len();
    }
    let ghost opened = without_prefix(without_prefix(trim(raw@), json_fence()), fence());
    assert(chars@.subrange(from as int, to as int) == opened);
    let start = skip_whitespace(&chars, from, to);
    let mut end = skip_whitespace_back(&chars, start, to);
    if ends_with(&chars, start, end, &mark) {
        end = end - mark.len();
    }
    let ghost closed = without_suffix(trim(opened), fence());
    assert(chars@.subrange(start as int, end as int) == closed);
    let first = skip_whitespace(&chars, start, end);
    let last = skip_whitespace_back(&chars, first, end);
    raw.substring_char(first, last).to_string()
}

/// Where the answer stands in a response: `choices[0].message.content`.
pub open spec fn content_path() -> Seq<JsonStep> {
    seq![
        JsonStep::Key("choices"@),
        JsonStep::Index(0),
        JsonStep::Key("message"@),
        JsonStep::Key("content"@),
    ]
}

/// The answer in a parsed response, where it has one.
pub fn first_choice_content(response: &serde_json::Value) -> (answer: Option<String>)
    ensures
        answer.deep_view() == text_at(texts_of(*response), content_path()),
{
    let ghost texts = texts_of(*response);
    let ghost choices_step = JsonStep::Key("choices"@);
    let ghost first_step = JsonStep::Index(0);
    let ghost message_step = JsonStep::Key("message"@);
    let ghost content_step = JsonStep::Key("content"@);
    let ghost from_first = seq![first_step, message_step, content_step];
    let ghost from_message = seq![message_step, content_step];
    let ghost from_content = seq![content_step];
    proof {
        assert(content_path() =~= seq![choices_step] + from_first);
        assert(from_first =~= seq![first_step] + from_message);
        assert(from_message =~= seq![message_step] + from_content);
    }
    let choices = match member(response, "choices") {
        Some(found) => found,
        None => {
            proof {
                lemma_below_nothing(texts, choices_step, from_first);
            }
            return None;
        },
    };
    let first = match element(choices, 0) {
        Some(found) => found,
        None => {
            proof {
                lemma_below_nothing(texts_of(*choices), first_step, from_message);
            }
            return None;
        },
    };
    let message = match member(first, "message") {
        Some(found) => found,
        None => {
            proof {
                lemma_below_nothing(texts_of(*first), message_step, from_content);
            }
            return None;
        },
    };
    let content = match member(message, "content") {
        Some(found) => found,
        None => {
            proof {
                lemma_below_nothing(texts_of(*message), content_step, Seq::empty());
            }
            return None;
        },
    };
    match as_text(content) {
        Some(text) => Some(text.to_string()),
        None => None,
    }
}

/// What a response body yields: the payload of its answer. A body that is no
/// JSON document cannot be decoded; a document without an answer is invalid.
pub open spec fn content_of_texts(parsed: Option<Texts>) -> Result<Seq<char>, FailureView> {
    match parsed {
        None => Err(FailureView::Undecodable),
        Some(texts) => match text_at(texts, content_path()) {
            None => Err(FailureView::InvalidResponse),
            Some(answer) => Ok(payload(answer)),
        },
    }
}

/// Reads the body of a successful response.
pub fn read_response(body: &Vec<u8>) -> (content: Result<String, Failure>)
    ensures
        result_view(content) == content_of_texts(parsed_texts(body@)),
{
    match parse_document(body.as_slice()) {
        None => Err(Failure::Undecodable),
        Some(response) => match first_choice_content(&response) {
            None => Err(Failure::InvalidResponse),
            Some(answer) => Ok(extract_payload(answer.as_str())),
        },
    }
}

} // verus!

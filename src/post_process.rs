//! The post-processing fallback ladder. `first_step` decides, from the
//! settings, whether to skip or which request to send first; `after_reply`
//! decides, from each reply, whether the ladder is done and with which text,
//! or which request to send next. Sending the requests is left to the caller.
use vstd::prelude::*;
use vstd::string::*;
use crate::text::{
    free_of_invisible, replace_all, same_text, strip_invisible_chars, trim_text, trimmed, replaced,
    without_invisible,
};

verus! {

#[verifier::external_type_specification]
#[verifier::external_body]
pub struct ExJsonValue(serde_json::Value);

#[verifier::external_type_specification]
#[verifier::external_body]
pub struct ExJsonError(serde_json::Error);

/// The placeholder a prompt template holds for the transcription.
pub open spec fn placeholder() -> Seq<char> {
    "${output}"@
}

/// The identifier of the on-device provider, which is called directly
/// rather than over the network.
pub open spec fn on_device_provider_id() -> Seq<char> {
    "apple_intelligence"@
}

/// The member of a structured reply that holds the refined text.
pub open spec fn transcription_field() -> Seq<char> {
    "transcription"@
}

/// Whether every character is an ASCII decimal digit.
pub open spec fn all_digits(d: Seq<char>) -> bool {
    forall|i: int| 0 <= i < d.len() ==> '0' <= #[trigger] d[i] <= '9'
}

/// The value of a run of decimal digits.
pub open spec fn digits_value(d: Seq<char>) -> int
    decreases d.len(),
{
    if d.len() == 0 {
        0
    } else {
        digits_value(d.drop_last()) * 10 + (d.last() as int - '0' as int)
    }
}

/// The JSON schema a structured request asks the answer to follow: an
/// object with one required string member, `transcription`, and no other.
pub open spec fn transcription_schema() -> Seq<char> {
    "{\"type\":\"object\",\"properties\":{\"transcription\":{\"type\":\"string\",\"description\":\"The cleaned and processed transcription text\"}},\"required\":[\"transcription\"],\"additionalProperties\":false}"@
}

/// What `str::parse::<i32>` makes of a text: an optional `+` or `-`, then
/// one or more ASCII digits and nothing else, whose value fits in an `i32`.
pub open spec fn parsed_i32(s: Seq<char>) -> Option<i32> {
    let negative = s.len() > 0 && s[0] == '-';
    let digits = if s.len() > 0 && (s[0] == '-' || s[0] == '+') {
        s.drop_first()
    } else {
        s
    };
    let v = if negative {
        -digits_value(digits)
    } else {
        digits_value(digits)
    };
    if digits.len() > 0 && all_digits(digits) && i32::MIN <= v <= i32::MAX {
        Some(v as i32)
    } else {
        None
    }
}

/// Whether `serde_json` accepts a text as one JSON value.
pub uninterp spec fn json_parses(s: Seq<char>) -> bool;

/// Relies on `str::parse::<i32>` (`FromStr` for `i32`): an optional sign,
/// then decimal digits only, in range.
#[verifier::external_body]
fn parse_i32(s: &str) -> (r: Option<i32>)
    ensures
        r == parsed_i32(s@),
{
    s.parse::<i32>().ok()
}

/// Relies on `serde_json::from_str` into a `serde_json::Value`: whether it
/// succeeds depends on the text alone.
#[verifier::external_body]
fn parse_json(s: &str) -> (r: Result<serde_json::Value, serde_json::Error>)
    ensures
        r is Ok == json_parses(s@),
{
    serde_json::from_str::<serde_json::Value>(s)
}

/// Relies on `serde_json::Value::get`: the member of an object under a key,
/// if it has one.
#[verifier::external_body]
fn json_member<'a>(v: &'a serde_json::Value, key: &str) -> (r: Option<&'a serde_json::Value>) {
    v.get(key)
}

/// Relies on `serde_json::Value::as_str`: the text of a JSON string.
#[verifier::external_body]
fn json_text<'a>(v: &'a serde_json::Value) -> (r: Option<&'a str>) {
    v.as_str()
}

/// A language-model provider as far as the ladder needs to know it.
pub struct ProviderInfo {
    pub id: String,
    pub supports_structured_output: bool,
}

/// A stored prompt template.
pub struct PromptEntry {
    pub id: String,
    pub prompt: String,
}

/// The post-processing configuration in force.
pub struct PostProcessSettings {
    /// The selected provider, if any.
    pub provider: Option<ProviderInfo>,
    /// The model configured for that provider; empty if none is.
    pub model: String,
    /// The key for that provider; empty if none is stored.
    pub api_key: String,
    pub prompts: Vec<PromptEntry>,
    pub selected_prompt_id: Option<String>,
}

/// The template of the first entry with the given identifier.
pub open spec fn prompt_with_id(entries: Seq<PromptEntry>, id: Seq<char>) -> Option<Seq<char>>
    decreases entries.len(),
{
    if entries.len() == 0 {
        None
    } else if entries[0].id@ == id {
        Some(entries[0].prompt@)
    } else {
        prompt_with_id(entries.subrange(1, entries.len() as int), id)
    }
}

/// The template the settings select, if one is selected and exists.
pub open spec fn configured_prompt(s: PostProcessSettings) -> Option<Seq<char>> {
    match s.selected_prompt_id {
        Some(id) => prompt_with_id(s.prompts@, id@),
        None => None,
    }
}

/// The system prompt made from a template: the placeholder removed, then
/// trimmed; the transcription travels as the user message.
pub open spec fn system_prompt_of(template: Seq<char>) -> Seq<char> {
    trimmed(replaced(template, placeholder(), Seq::<char>::empty()))
}

/// The single prompt of the plain request: the template with the
/// transcription in place of the placeholder.
pub open spec fn legacy_prompt_of(template: Seq<char>, transcription: Seq<char>) -> Seq<char> {
    replaced(template, placeholder(), transcription)
}

/// The token budget for the on-device provider, read from the model
/// setting; 0 where it is no `i32`.
pub open spec fn token_limit_of(model: Seq<char>) -> i32 {
    match parsed_i32(trimmed(model)) {
        Some(n) => n,
        None => 0,
    }
}

/// A request to a language model.
#[derive(Debug)]
pub enum LlmRequest {
    /// To the on-device model, with a token budget.
    OnDevice { system_prompt: String, user_content: String, token_limit: i32 },
    /// A chat request whose answer must follow the JSON schema `schema`: an
    /// object with one string member, `transcription`.
    Structured { system_prompt: String, user_content: String, schema: String },
    /// A plain chat completion on one prompt.
    Legacy { prompt: String },
}

/// `LlmRequest` with its texts seen as characters.
pub enum LlmRequestView {
    OnDevice { system_prompt: Seq<char>, user_content: Seq<char>, token_limit: i32 },
    Structured { system_prompt: Seq<char>, user_content: Seq<char>, schema: Seq<char> },
    Legacy { prompt: Seq<char> },
}

impl View for LlmRequest {
    type V = LlmRequestView;

    open spec fn view(&self) -> LlmRequestView {
        match self {
            LlmRequest::OnDevice { system_prompt, user_content, token_limit } =>
                LlmRequestView::OnDevice {
                system_prompt: system_prompt@,
                user_content: user_content@,
                token_limit: *token_limit,
            },
            LlmRequest::Structured { system_prompt, user_content, schema } =>
                LlmRequestView::Structured {
                system_prompt: system_prompt@,
                user_content: user_content@,
                schema: schema@,
            },
            LlmRequest::Legacy { prompt } => LlmRequestView::Legacy { prompt: prompt@ },
        }
    }
}

/// How a request went.
#[derive(Debug)]
pub enum LlmReply {
    /// The call failed (transport, service or platform error).
    Failed,
    /// The call succeeded with no content.
    NoContent,
    Content(String),
}

/// `LlmReply` with its text seen as characters.
pub enum LlmReplyView {
    Failed,
    NoContent,
    Content(Seq<char>),
}

impl View for LlmReply {
    type V = LlmReplyView;

    open spec fn view(&self) -> LlmReplyView {
        match self {
            LlmReply::Failed => LlmReplyView::Failed,
            LlmReply::NoContent => LlmReplyView::NoContent,
            LlmReply::Content(c) => LlmReplyView::Content(c@),
        }
    }
}

/// Where the ladder stands.
#[derive(Debug)]
pub enum LadderStep {
    /// Finished: the refined text, or `None` to keep the text as it was.
    Done(Option<String>),
    /// Send this request and hand its reply to `after_reply`.
    Send(LlmRequest),
}

/// `LadderStep` with its texts seen as characters.
pub enum LadderStepView {
    Done(Option<Seq<char>>),
    Send(LlmRequestView),
}

impl View for LadderStep {
    type V = LadderStepView;

    open spec fn view(&self) -> LadderStepView {
        match self {
            LadderStep::Done(r) => LadderStepView::Done(
                match r {
                    Some(t) => Some(t@),
                    None => None,
                },
            ),
            LadderStep::Send(q) => LadderStepView::Send(q@),
        }
    }
}

/// The ladder's first step. It is skipped, with the text kept, when no
/// provider is selected, its model is blank, no prompt is selected or found,
/// or the prompt is blank. The on-device provider never makes a remote call:
/// it is asked directly, or skipped when unavailable, whatever its
/// structured-output flag says. Any other provider gets a structured request
/// if it supports structured output, and a plain one otherwise.
pub open spec fn first_step_of(s: PostProcessSettings, transcription: Seq<char>, on_device_available: bool) -> LadderStepView {
    match s.provider {
        None => LadderStepView::Done(None),
        Some(p) => if trimmed(s.model@).len() == 0 {
            LadderStepView::Done(None)
        } else {
            match configured_prompt(s) {
                None => LadderStepView::Done(None),
                Some(template) => if trimmed(template).len() == 0 {
                    LadderStepView::Done(None)
                } else if p.id@ == on_device_provider_id() {
                    if on_device_available {
                        LadderStepView::Send(
                            LlmRequestView::OnDevice {
                                system_prompt: system_prompt_of(template),
                                user_content: transcription,
                                token_limit: token_limit_of(s.model@),
                            },
                        )
                    } else {
                        LadderStepView::Done(None)
                    }
                } else if p.supports_structured_output {
                    LadderStepView::Send(
                        LlmRequestView::Structured {
                            system_prompt: system_prompt_of(template),
                            user_content: transcription,
                            schema: transcription_schema(),
                        },
                    )
                } else {
                    LadderStepView::Send(
                        LlmRequestView::Legacy { prompt: legacy_prompt_of(template, transcription) },
                    )
                },
            }
        },
    }
}

/// The step after a reply, for every reply but the content of a structured
/// request. An on-device answer counts only if it is not blank. A failed
/// structured request falls back to the plain request on the same template;
/// a failed plain request ends the ladder with the text kept.
pub open spec fn settled_step_of(
    request: LlmRequestView,
    reply: LlmReplyView,
    template: Seq<char>,
    transcription: Seq<char>,
) -> LadderStepView {
    match request {
        LlmRequestView::OnDevice { .. } => match reply {
            LlmReplyView::Content(c) => if trimmed(c).len() == 0 {
                LadderStepView::Done(None)
            } else {
                LadderStepView::Done(Some(without_invisible(c)))
            },
            _ => LadderStepView::Done(None),
        },
        LlmRequestView::Structured { .. } => match reply {
            LlmReplyView::Failed => LadderStepView::Send(
                LlmRequestView::Legacy { prompt: legacy_prompt_of(template, transcription) },
            ),
            _ => LadderStepView::Done(None),
        },
        LlmRequestView::Legacy { .. } => match reply {
            LlmReplyView::Content(c) => LadderStepView::Done(Some(without_invisible(c))),
            _ => LadderStepView::Done(None),
        },
    }
}

/// The template of the first entry whose identifier is `id`.
pub fn find_prompt(prompts: &Vec<PromptEntry>, id: &str) -> (r: Option<String>)
    ensures
        match r {
            Some(t) => prompt_with_id(prompts@, id@) == Some(t@),
            None => prompt_with_id(prompts@, id@) is None,
        },
{
    let n = prompts.len();
    let mut i: usize = 0;
    assert(prompts@.subrange(0, n as int) =~= prompts@);
    while i < n
        invariant
            n == prompts@.len(),
            i <= n,
            prompt_with_id(prompts@.subrange(i as int, n as int), id@) == prompt_with_id(prompts@, id@),
        decreases n - i,
    {
        let ghost rest = prompts@.subrange(i as int, n as int);
        assert(rest[0] == prompts@[i as int]);
        if same_text(prompts[i].id.as_str(), id) {
            return Some(prompts[i].prompt.clone());
        }
        assert(rest.subrange(1, rest.len() as int) =~= prompts@.subrange(i + 1, n as int));
        i = i + 1;
    }
    None
}

/// The system prompt for a template.
pub fn build_system_prompt(prompt_template: &str) -> (r: String)
    ensures
        r@ == system_prompt_of(prompt_template@),
{
    proof {
        reveal_strlit("${output}");
        reveal_strlit("");
    }
    let empty = "";
    assert(empty@ =~= Seq::<char>::empty());
    let stripped = replace_all(prompt_template, "${output}", empty);
    String::from_str(trim_text(stripped.as_str()))
}

/// The plain request's prompt for a template and a transcription.
pub fn build_legacy_prompt(prompt_template: &str, transcription: &str) -> (r: String)
    ensures
        r@ == legacy_prompt_of(prompt_template@, transcription@),
{
    proof {
        reveal_strlit("${output}");
    }
    replace_all(prompt_template, "${output}", transcription)
}

/// Whether a text is empty once trimmed.
fn is_blank(s: &str) -> (r: bool)
    ensures
        r == (trimmed(s@).len() == 0),
{
    trim_text(s).unicode_len() == 0
}

/// The ladder's first step for the given settings and transcription.
pub fn first_step(settings: &PostProcessSettings, transcription: &str, on_device_available: bool) -> (r: LadderStep)
    ensures
        r@ == first_step_of(*settings, transcription@, on_device_available),
{
    let provider = match &settings.provider {
        Some(p) => p,
        None => return LadderStep::Done(None),
    };
    if is_blank(settings.model.as_str()) {
        return LadderStep::Done(None);
    }
    let template = match &settings.selected_prompt_id {
        Some(id) => match find_prompt(&settings.prompts, id.as_str()) {
            Some(t) => t,
            None => return LadderStep::Done(None),
        },
        None => return LadderStep::Done(None),
    };
    if is_blank(template.as_str()) {
        return LadderStep::Done(None);
    }
    if same_text(provider.id.as_str(), "apple_intelligence") {
        if !on_device_available {
            return LadderStep::Done(None);
        }
        let token_limit = match parse_i32(trim_text(settings.model.as_str())) {
            Some(n) => n,
            None => 0,
        };
        return LadderStep::Send(
            LlmRequest::OnDevice {
                system_prompt: build_system_prompt(template.as_str()),
                user_content: String::from_str(transcription),
                token_limit,
            },
        );
    }
    if provider.supports_structured_output {
        return LadderStep::Send(
            LlmRequest::Structured {
                system_prompt: build_system_prompt(template.as_str()),
                user_content: String::from_str(transcription),
                schema: String::from_str(
                    "{\"type\":\"object\",\"properties\":{\"transcription\":{\"type\":\"string\",\"description\":\"The cleaned and processed transcription text\"}},\"required\":[\"transcription\"],\"additionalProperties\":false}",
                ),
            },
        );
    }
    LadderStep::Send(LlmRequest::Legacy { prompt: build_legacy_prompt(template.as_str(), transcription) })
}

/// The text a structured reply yields, given the reply and what was found
/// under its `transcription` member: that member's text, or else the whole
/// reply, with invisible characters removed either way.
pub fn structured_reply_text(content: &str, member: Option<&str>) -> (r: String)
    ensures
        free_of_invisible(r@),
        r@ == match member {
            Some(m) => without_invisible(m@),
            None => without_invisible(content@),
        },
{
    match member {
        Some(m) => strip_invisible_chars(m),
        None => strip_invisible_chars(content),
    }
}

/// What holds of the text taken from a structured reply whatever its JSON
/// held: a reply that is no JSON is used whole.
pub open spec fn structured_text_allowed(content: Seq<char>, text: Seq<char>) -> bool {
    !json_parses(content) ==> text == without_invisible(content)
}

/// The text of a structured reply: the string member `transcription` of
/// the JSON object if it has one, else the raw reply.
pub fn read_structured_reply(content: &str) -> (r: String)
    ensures
        structured_text_allowed(content@, r@),
        free_of_invisible(r@),
{
    match parse_json(content) {
        Ok(value) => {
            let member = match json_member(&value, "transcription") {
                Some(v) => json_text(v),
                None => None,
            };
            structured_reply_text(content, member)
        },
        Err(_) => structured_reply_text(content, None),
    }
}

/// The ladder's next step after `request` got `reply`. `template` and
/// `transcription` are those the ladder started with.
pub fn after_reply(request: &LlmRequest, reply: LlmReply, template: &str, transcription: &str) -> (r: LadderStep)
    ensures
        match (request@, reply@) {
            (LlmRequestView::Structured { .. }, LlmReplyView::Content(c)) => match r@ {
                LadderStepView::Done(Some(t)) => structured_text_allowed(c, t) && free_of_invisible(t),
                _ => false,
            },
            _ => r@ == settled_step_of(request@, reply@, template@, transcription@),
        },
        r@ matches LadderStepView::Done(Some(t)) ==> free_of_invisible(t),
{
    match request {
        LlmRequest::OnDevice { .. } => match reply {
            LlmReply::Content(c) => if is_blank(c.as_str()) {
                LadderStep::Done(None)
            } else {
                LadderStep::Done(Some(strip_invisible_chars(c.as_str())))
            },
            _ => LadderStep::Done(None),
        },
        LlmRequest::Structured { .. } => match reply {
            LlmReply::Content(c) => LadderStep::Done(Some(read_structured_reply(c.as_str()))),
            LlmReply::NoContent => LadderStep::Done(None),
            LlmReply::Failed => LadderStep::Send(
                LlmRequest::Legacy { prompt: build_legacy_prompt(template, transcription) },
            ),
        },
        LlmRequest::Legacy { .. } => match reply {
            LlmReply::Content(c) => LadderStep::Done(Some(strip_invisible_chars(c.as_str()))),
            _ => LadderStep::Done(None),
        },
    }
}

/// With a configured provider that supports structured output (other than
/// the on-device one), the ladder first sends the structured request. If that
/// fails, the ladder does not end: it falls back to the plain request on the
/// same template, and when that one answers, its answer, without invisible
/// characters, is the result.
pub proof fn lemma_structured_failure_falls_back_to_plain(
    s: PostProcessSettings,
    template: Seq<char>,
    transcription: Seq<char>,
    on_device_available: bool,
    answer: Seq<char>,
)
    requires
        s.provider matches Some(p) && p.supports_structured_output && p.id@ != on_device_provider_id(),
        trimmed(s.model@).len() != 0,
        configured_prompt(s) == Some(template),
        trimmed(template).len() != 0,
    ensures
        ({
            let structured = LlmRequestView::Structured {
                system_prompt: system_prompt_of(template),
                user_content: transcription,
                schema: transcription_schema(),
            };
            let plain = LlmRequestView::Legacy { prompt: legacy_prompt_of(template, transcription) };
            &&& first_step_of(s, transcription, on_device_available) == LadderStepView::Send(
                structured,
            )
            &&& settled_step_of(structured, LlmReplyView::Failed, template, transcription)
                == LadderStepView::Send(plain)
            &&& settled_step_of(plain, LlmReplyView::Content(answer), template, transcription)
                == LadderStepView::Done(Some(without_invisible(answer)))
        }),
{
}

/// The on-device provider never leads to a remote request: whatever its
/// structured-output flag, the first step asks the on-device model or ends
/// the ladder with the text kept.
pub proof fn lemma_on_device_never_remote(s: PostProcessSettings, transcription: Seq<char>, on_device_available: bool)
    requires
        s.provider matches Some(p) && p.id@ == on_device_provider_id(),
    ensures
        first_step_of(s, transcription, on_device_available) matches LadderStepView::Done(None)
            || first_step_of(s, transcription, on_device_available) matches LadderStepView::Send(
            LlmRequestView::OnDevice { .. },
        ),
{
}

} // verus!

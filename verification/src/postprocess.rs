//! Text post-processing through a chat-completion endpoint: provider
//! selection, prompts, the dynamic timeout, and the request layout.
//! The HTTP call is the driver's work; where it fails or times out the
//! caller keeps the original text.

use vstd::prelude::*;

use crate::text::{str_eq, trim_of, trim_str};

verus! {

/// One configured language-model provider.
#[derive(Clone, Debug)]
pub struct LlmProvider {
    pub id: String,
    pub name: String,
    pub api_base: String,
    pub api_key: String,
    pub model: String,
}

/// What the post-processing is asked to optimise the transcript for.
#[derive(Clone, Copy, Debug, PartialEq, Eq, Structural)]
pub enum PostProcessMode {
    General,
    Code,
    Meeting,
}

impl Default for PostProcessMode {
    fn default() -> (r: PostProcessMode)
        ensures
            r == PostProcessMode::General,
    {
        PostProcessMode::General
    }
}

/// Post-processing configuration: whether it runs, the provider list,
/// the active provider and the mode.
#[derive(Clone, Debug)]
pub struct PostProcessConfig {
    pub enabled: bool,
    pub providers: Vec<LlmProvider>,
    pub active_provider_id: String,
    pub mode: PostProcessMode,
}

impl Default for PostProcessConfig {
    /// Off by default, with one pre-filled provider entry that still
    /// lacks its key.
    fn default() -> (r: PostProcessConfig)
        ensures
            !r.enabled,
            r.providers@.len() == 1,
            r.providers@[0].id@ == ("default")@,
            r.providers@[0].name@ == ("DeepSeek")@,
            r.providers@[0].api_base@ == ("https://api.deepseek.com/v1")@,
            r.providers@[0].api_key@.len() == 0,
            r.providers@[0].model@ == ("deepseek-chat")@,
            r.active_provider_id@ == ("default")@,
            r.mode == PostProcessMode::General,
    {
        let default_provider = LlmProvider {
            id: String::from_str("default"),
            name: String::from_str("DeepSeek"),
            api_base: String::from_str("https://api.deepseek.com/v1"),
            api_key: String::new(),
            model: String::from_str("deepseek-chat"),
        };
        let mut providers: Vec<LlmProvider> = Vec::new();
        providers.push(default_provider);
        PostProcessConfig {
            enabled: false,
            providers,
            active_provider_id: String::from_str("default"),
            mode: PostProcessMode::General,
        }
    }
}

impl PostProcessConfig {
    /// The first provider whose id is the active one; nothing where no
    /// entry matches.
    pub fn get_active_provider(&self) -> (r: Option<&LlmProvider>)
        ensures
            r is None ==> forall|i: int|
                0 <= i < self.providers@.len() ==> (#[trigger] self.providers@[i]).id@
                    != self.active_provider_id@,
            r matches Some(p) ==> exists|i: int|
                0 <= i < self.providers@.len() && (#[trigger] self.providers@[i]).id@
                    == self.active_provider_id@ && *p == self.providers@[i] && (forall|j: int|
                    0 <= j < i ==> (#[trigger] self.providers@[j]).id@
                        != self.active_provider_id@),
    {
        let mut i: usize = 0;
        while i < self.providers.len()
            invariant
                i <= self.providers@.len(),
                forall|j: int|
                    0 <= j < i ==> (#[trigger] self.providers@[j]).id@
                        != self.active_provider_id@,
            decreases self.providers@.len() - i,
        {
            if str_eq(self.providers[i].id.as_str(), self.active_provider_id.as_str()) {
                return Some(&self.providers[i]);
            }
            i = i + 1;
        }
        None
    }
}

/// The instruction set for transcripts of everyday writing.
pub const GENERAL_PROMPT: &'static str = "你是一个语音转文字后处理助手。请对用户的语音识别结果进行优化：\n\n1. 添加正确的标点符号（句号、逗号、问号等）\n2. 修正明显的识别错误（根据上下文推断正确的词）\n3. 删除语气词和口头禅（如：嗯、啊、呃、那个、就是说、然后）\n4. 合理断句，使文本更易读\n5. 保持原意不变，不添加额外内容\n\n直接输出处理后的文本，不要任何解释或前缀。";

/// The instruction set for transcripts destined for code comments.
pub const CODE_PROMPT: &'static str = "你是一个语音转代码注释助手。请对用户的语音识别结果进行优化：\n\n1. 识别并保留代码相关术语（如函数名、变量名、技术名词）\n2. 添加合适的标点符号\n3. 删除语气词（嗯、啊、呃等）\n4. 使用技术写作风格，简洁明了\n5. 保留英文技术术语不翻译\n\n直接输出处理后的文本，不要任何解释或前缀。";

/// The instruction set for meeting notes.
pub const MEETING_PROMPT: &'static str = "你是一个会议记录后处理助手。请对用户的语音识别结果进行优化：\n\n1. 整理成清晰的文本\n2. 添加正确的标点符号\n3. 删除语气词和重复表达\n4. 保持发言的完整性和逻辑性\n5. 使用正式的书面语言\n\n直接输出处理后的文本，不要任何解释或前缀。";

/// The instruction set a mode selects.
pub open spec fn spec_prompt(mode: PostProcessMode) -> Seq<char> {
    match mode {
        PostProcessMode::General => GENERAL_PROMPT@,
        PostProcessMode::Code => CODE_PROMPT@,
        PostProcessMode::Meeting => MEETING_PROMPT@,
    }
}

/// The system prompt for a mode.
pub fn get_prompt(mode: &PostProcessMode) -> (r: &'static str)
    ensures
        r@ == spec_prompt(*mode),
{
    match mode {
        PostProcessMode::General => GENERAL_PROMPT,
        PostProcessMode::Code => CODE_PROMPT,
        PostProcessMode::Meeting => MEETING_PROMPT,
    }
}

/// How long a post-processing call may take, in milliseconds: a three
/// second base plus five per character, at most ten seconds.
pub open spec fn spec_timeout_ms(text_len: nat) -> int {
    if text_len * 5 > 7000 {
        10000
    } else {
        3000 + text_len * 5 as int
    }
}

/// The timeout for a text of `text_len` characters, in milliseconds.
pub fn calculate_timeout(text_len: usize) -> (r: u64)
    ensures
        r == spec_timeout_ms(text_len as nat),
        3000 <= r <= 10000,
{
    if text_len > 1400 {
        10000
    } else {
        3000 + (text_len as u64) * 5
    }
}

/// One message of a chat-completion request.
#[derive(Clone, Debug)]
pub struct ChatMessage {
    pub role: String,
    pub content: String,
}

/// A chat-completion client's connection parameters.
pub struct LlmClient {
    pub api_base: String,
    pub api_key: String,
    pub model: String,
}

impl LlmClient {
    /// Takes the connection parameters from a provider entry.
    pub fn new(provider: &LlmProvider) -> (r: LlmClient)
        ensures
            r.api_base@ == provider.api_base@,
            r.api_key@ == provider.api_key@,
            r.model@ == provider.model@,
    {
        LlmClient {
            api_base: provider.api_base.clone(),
            api_key: provider.api_key.clone(),
            model: provider.model.clone(),
        }
    }

    /// The two messages of a processing request: the system prompt,
    /// then the user's text.
    pub fn chat_messages(&self, text: &str, system_prompt: &str) -> (r: Vec<ChatMessage>)
        ensures
            r@.len() == 2,
            r@[0].role@ == ("system")@,
            r@[0].content@ == system_prompt@,
            r@[1].role@ == ("user")@,
            r@[1].content@ == text@,
    {
        let mut v: Vec<ChatMessage> = Vec::new();
        v.push(
            ChatMessage { role: String::from_str("system"), content: String::from_str(system_prompt) },
        );
        v.push(ChatMessage { role: String::from_str("user"), content: String::from_str(text) });
        v
    }
}

/// Everything a post-processing call needs, decided up front.
pub struct PostProcessPlan {
    pub client: LlmClient,
    pub prompt: &'static str,
    pub timeout_ms: u64,
}

/// Decides whether a text is post-processed at all, and with what.
/// Nothing is planned — and the caller keeps the text unchanged — for
/// blank text, a disabled configuration, a missing active provider, or
/// a provider without a key.
pub fn postprocess_plan(text: &str, config: &PostProcessConfig) -> (r: Option<PostProcessPlan>)
    ensures
        trim_of(text@).len() == 0 ==> r is None,
        !config.enabled ==> r is None,
        (trim_of(text@).len() > 0 && config.enabled && exists|i: int|
            0 <= i < config.providers@.len() && (#[trigger] config.providers@[i]).id@
                == config.active_provider_id@ && config.providers@[i].api_key@.len() > 0 && (
            forall|j: int|
                0 <= j < i ==> (#[trigger] config.providers@[j]).id@
                    != config.active_provider_id@)) ==> r is Some,
        r matches Some(plan) ==> {
            &&& trim_of(text@).len() > 0
            &&& config.enabled
            &&& exists|i: int|
                0 <= i < config.providers@.len() && (#[trigger] config.providers@[i]).id@
                    == config.active_provider_id@ && config.providers@[i].api_key@.len() > 0
                    && plan.client.api_base@ == config.providers@[i].api_base@
                    && plan.client.api_key@ == config.providers@[i].api_key@
                    && plan.client.model@ == config.providers@[i].model@
            &&& plan.prompt@ == spec_prompt(config.mode)
            &&& plan.timeout_ms == spec_timeout_ms(text@.len())
        },
{
    if trim_str(text).is_empty() {
        return None;
    }
    if !config.enabled {
        return None;
    }
    let provider = match config.get_active_provider() {
        Some(p) => p,
        None => {
            return None;
        },
    };
    if provider.api_key.as_str().is_empty() {
        return None;
    }
    let client = LlmClient::new(provider);
    let prompt = get_prompt(&config.mode);
    let timeout_ms = calculate_timeout(crate::text::char_count(text));
    Some(PostProcessPlan { client, prompt, timeout_ms })
}

} // verus!

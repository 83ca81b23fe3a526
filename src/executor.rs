use vstd::prelude::*;
use crate::accounting::{ChatMessage, PromptTokensError, chat_tokens, num_tokens_from_messages};
use crate::options::{Opt, OptDiscriminants, Options, OptionsCascade, cascade_lookup};
use crate::tokenizer::{
    Family, OpenAITokenizer, bpe_builds, family_of_model, model_from_cascade, model_name_of,
};

verus! {

/// The context size that the encoder crate gives for a model name.
pub uninterp spec fn context_size_of(model: Seq<char>) -> usize;

/// Relies on tiktoken_rs::model::get_context_size: the context size of a model,
/// looked up by prefix; it never panics, and every size in its table, the
/// default of 4096 included, lies between 2048 and 128000.
#[verifier::external_body]
fn context_size(model: &str) -> (r: usize)
    ensures
        r == context_size_of(model@),
        2048 <= r <= 128000,
{
    tiktoken_rs::model::get_context_size(model)
}

/// The context size assumed when the known one does not fit an `i32`.
pub const DEFAULT_CONTEXT_SIZE: i32 = 4096;

/// The number of tokens a model accepts, as reported to callers.
pub open spec fn allowed_tokens(model: Seq<char>) -> int {
    if context_size_of(model) <= i32::MAX {
        context_size_of(model) as int
    } else {
        DEFAULT_CONTEXT_SIZE as int
    }
}

/// A token budget: what the model accepts, and what a prompt uses of it.
#[derive(Clone, Copy, Debug, PartialEq, Eq, Structural)]
pub struct TokenCount {
    pub max_tokens: i32,
    pub tokens_used: i32,
}

impl TokenCount {
    pub fn new(max_tokens: i32, tokens_used: i32) -> (r: TokenCount)
        ensures
            r.max_tokens == max_tokens,
            r.tokens_used == tokens_used,
    {
        TokenCount { max_tokens, tokens_used }
    }

    /// Tokens still free, which is negative when the prompt does not fit.
    pub fn tokens_remaining(&self) -> (r: i64)
        ensures
            r == self.max_tokens - self.tokens_used,
    {
        self.max_tokens as i64 - self.tokens_used as i64
    }

    /// Whether the prompt fits in the model's context.
    pub fn has_tokens_remaining(&self) -> (r: bool)
        ensures
            r == (self.tokens_used < self.max_tokens),
    {
        self.tokens_used < self.max_tokens
    }
}

/// The text of an option that holds text.
pub open spec fn text_of(o: Option<Opt>) -> Option<Seq<char>> {
    match o {
        Some(Opt::Model(s)) => Some(s@),
        Some(Opt::ApiKey(s)) => Some(s@),
        Some(Opt::AzureDeployment(s)) => Some(s@),
        Some(Opt::AzureBaseUrl(s)) => Some(s@),
        Some(Opt::AzureApiVersion(s)) => Some(s@),
        _ => None,
    }
}

pub open spec fn view_of(o: Option<String>) -> Option<Seq<char>> {
    match o {
        Some(s) => Some(s@),
        None => None,
    }
}

fn text_option(c: &OptionsCascade, d: OptDiscriminants) -> (r: Option<String>)
    ensures
        view_of(r) == text_of(cascade_lookup(c@, d)),
{
    match c.get(d) {
        Some(Opt::Model(s)) => Some(s.clone()),
        Some(Opt::ApiKey(s)) => Some(s.clone()),
        Some(Opt::AzureDeployment(s)) => Some(s.clone()),
        Some(Opt::AzureBaseUrl(s)) => Some(s.clone()),
        Some(Opt::AzureApiVersion(s)) => Some(s.clone()),
        _ => None,
    }
}

/// The connection settings that an executor's options give; each is unset
/// where no option sets it.
#[derive(Debug)]
pub struct AzureSettings {
    pub api_key: Option<String>,
    pub deployment: Option<String>,
    pub base_url: Option<String>,
    pub api_version: Option<String>,
}

/// What one call sends: the model, and whether the response is streamed.
#[derive(Debug)]
pub struct ChatRequestPlan {
    pub model: String,
    pub stream: bool,
}

/// Runs chat prompts with the options it was made with, overridden per call.
pub struct Executor {
    options: Options,
}

impl View for Executor {
    type V = Seq<Opt>;

    closed spec fn view(&self) -> Seq<Opt> {
        self.options@
    }
}

/// The layers of a call: the executor's own, then the call's.
pub open spec fn call_layers(base: Seq<Opt>, call: Seq<Opt>) -> Seq<Seq<Opt>> {
    seq![base, call]
}

impl Executor {
    /// An executor with the given options.
    pub fn new_with_options(options: Options) -> (r: Executor)
        ensures
            r@ == options@,
    {
        Executor { options }
    }

    /// The connection settings that the executor's own options give.
    pub fn azure_settings(&self) -> (r: AzureSettings)
        ensures
            view_of(r.api_key) == text_of(cascade_lookup(seq![self@], OptDiscriminants::ApiKey)),
            view_of(r.deployment) == text_of(
                cascade_lookup(seq![self@], OptDiscriminants::AzureDeployment),
            ),
            view_of(r.base_url) == text_of(
                cascade_lookup(seq![self@], OptDiscriminants::AzureBaseUrl),
            ),
            view_of(r.api_version) == text_of(
                cascade_lookup(seq![self@], OptDiscriminants::AzureApiVersion),
            ),
    {
        let opts = OptionsCascade::new().with_options(&self.options);
        assert(opts@ =~= seq![self@]);
        AzureSettings {
            api_key: text_option(&opts, OptDiscriminants::ApiKey),
            deployment: text_option(&opts, OptDiscriminants::AzureDeployment),
            base_url: text_option(&opts, OptDiscriminants::AzureBaseUrl),
            api_version: text_option(&opts, OptDiscriminants::AzureApiVersion),
        }
    }

    /// The cascade of a call: the executor's options, then the call's if given.
    pub fn cascade<'a>(&'a self, opts: Option<&'a Options>) -> (r: OptionsCascade<'a>)
        ensures
            r@ == match opts {
                Some(o) => call_layers(self@, o@),
                None => seq![self@],
            },
    {
        let r = OptionsCascade::new().with_options(&self.options);
        match opts {
            Some(o) => {
                let r = r.with_options(o);
                assert(r@ =~= call_layers(self@, o@));
                r
            },
            None => {
                assert(r@ =~= seq![self@]);
                r
            },
        }
    }

    fn get_model_from_invocation_options(&self, opts: &OptionsCascade) -> (r: String)
        ensures
            r@ == model_name_of(opts@),
    {
        model_from_cascade(opts)
    }

    /// What a call with `options` sends: the model the options select, and
    /// whether they ask for a stream.
    pub fn plan_request(&self, options: &Options) -> (r: ChatRequestPlan)
        ensures
            r.model@ == model_name_of(call_layers(self@, options@)),
            r.stream == (cascade_lookup(call_layers(self@, options@), OptDiscriminants::Stream)
                == Some(Opt::Stream(true))),
    {
        let opts = self.cascade(Some(options));
        let model = self.get_model_from_invocation_options(&opts);
        let stream = opts.is_streaming();
        ChatRequestPlan { model, stream }
    }

    /// The context size of the model that a call with `opts` selects, or the
    /// default where it does not fit an `i32`.
    pub fn max_tokens_allowed(&self, opts: &Options) -> (r: i32)
        ensures
            r == allowed_tokens(model_name_of(call_layers(self@, opts@))),
    {
        let opts_cas = self.cascade(Some(opts));
        let model = self.get_model_from_invocation_options(&opts_cas);
        let size = context_size(model.as_str());
        if size <= i32::MAX as usize {
            size as i32
        } else {
            DEFAULT_CONTEXT_SIZE
        }
    }

    /// The token budget of `messages` in a call with `opts`.
    pub fn tokens_used(&self, opts: &Options, messages: &Vec<ChatMessage>) -> (r: Result<
        TokenCount,
        PromptTokensError,
    >)
        ensures
            ({
                let model = model_name_of(call_layers(self@, opts@));
                &&& family_of_model(model) != Some(Family::Cl100kBase) ==> r == Err::<
                    TokenCount,
                    PromptTokensError,
                >(PromptTokensError::NotAvailable)
                &&& r matches Ok(t) ==> t.max_tokens == allowed_tokens(model) && t.tokens_used
                    == chat_tokens(Family::Cl100kBase, model, messages@)
                &&& r == Err::<TokenCount, PromptTokensError>(PromptTokensError::UnableToCompute)
                    ==> chat_tokens(Family::Cl100kBase, model, messages@) > i32::MAX
                &&& family_of_model(model) == Some(Family::Cl100kBase) && chat_tokens(
                    Family::Cl100kBase,
                    model,
                    messages@,
                ) > i32::MAX ==> r is Err
                &&& family_of_model(model) == Some(Family::Cl100kBase) && bpe_builds(
                    Family::Cl100kBase,
                ) && chat_tokens(Family::Cl100kBase, model, messages@) <= i32::MAX ==> r == Ok::<
                    TokenCount,
                    PromptTokensError,
                >(
                    (TokenCount {
                        max_tokens: allowed_tokens(model) as i32,
                        tokens_used: chat_tokens(Family::Cl100kBase, model, messages@) as i32,
                    }),
                )
                &&& r == Err::<TokenCount, PromptTokensError>(PromptTokensError::NotAvailable)
                    ==> family_of_model(model) != Some(Family::Cl100kBase) || !bpe_builds(
                    Family::Cl100kBase,
                )
                &&& r matches Err(e) ==> e == PromptTokensError::NotAvailable || e
                    == PromptTokensError::UnableToCompute
            }),
    {
        let opts_cas = self.cascade(Some(opts));
        let model = self.get_model_from_invocation_options(&opts_cas);
        let used = match num_tokens_from_messages(model.as_str(), messages) {
            Ok(n) => n,
            Err(e) => {
                return Err(e);
            },
        };
        if used > i32::MAX as usize {
            return Err(PromptTokensError::UnableToCompute);
        }
        Ok(TokenCount::new(self.max_tokens_allowed(opts), used as i32))
    }

    /// Chat executors put nothing before the model's answer.
    pub fn answer_prefix(&self) -> (r: Option<String>)
        ensures
            r is None,
    {
        None
    }

    /// A tokenizer for the model that a call with `options` selects.
    pub fn get_tokenizer(&self, options: &Options) -> (r: OpenAITokenizer)
        ensures
            r@ == model_name_of(call_layers(self@, options@)),
    {
        OpenAITokenizer::new(self.cascade(Some(options)))
    }
}

} // verus!

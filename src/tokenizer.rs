use vstd::prelude::*;
use crate::options::{Opt, OptDiscriminants, OptionsCascade, cascade_lookup};
use tiktoken_rs::tokenizer::Tokenizer;

verus! {

/// A byte-pair encoding scheme, one per tokenizer family of the encoder crate.
#[derive(Clone, Copy, Debug, PartialEq, Eq, Structural)]
pub enum Family {
    O200kBase,
    Cl100kBase,
    P50kBase,
    R50kBase,
    P50kEdit,
    Gpt2,
}

/// The encoding family that the encoder crate assigns to a model name.
pub uninterp spec fn family_of_model(model: Seq<char>) -> Option<Family>;

/// The tokens that the family's encoder gives for a text, special tokens allowed.
pub uninterp spec fn special_encoding(family: Family, text: Seq<char>) -> Seq<usize>;

/// The tokens that the family's encoder gives for a text, special tokens read as text.
pub uninterp spec fn ordinary_encoding(family: Family, text: Seq<char>) -> Seq<usize>;

/// Whether the encoder crate builds a family's encoder from its bundled tables.
pub uninterp spec fn bpe_builds(family: Family) -> bool;

/// Whether a text holds only printable ASCII characters (space to tilde).
pub open spec fn is_printable_ascii(text: Seq<char>) -> bool {
    forall|i: int| 0 <= i < text.len() ==> 0x20 <= #[trigger] (text[i] as u32) <= 0x7e
}

/// Whether a token id is one that the family's encoder can produce.
pub uninterp spec fn in_vocabulary(family: Family, token: usize) -> bool;

/// The text that the family's decoder gives for tokens, if it is valid UTF-8.
pub uninterp spec fn decoding(family: Family, tokens: Seq<usize>) -> Option<Seq<char>>;

#[verifier::external_type_specification]
#[verifier::external_body]
pub struct ExCoreBPE(tiktoken_rs::CoreBPE);

/// Relies on tiktoken_rs::tokenizer::get_tokenizer: the family for a model name,
/// looked up by exact name and then by prefix.
#[verifier::external_body]
pub(crate) fn family_of(model: &str) -> (r: Option<Family>)
    ensures
        r == family_of_model(model@),
{
    tiktoken_rs::tokenizer::get_tokenizer(model).map(|t| match t {
        Tokenizer::O200kBase => Family::O200kBase,
        Tokenizer::Cl100kBase => Family::Cl100kBase,
        Tokenizer::P50kBase => Family::P50kBase,
        Tokenizer::R50kBase => Family::R50kBase,
        Tokenizer::P50kEdit => Family::P50kEdit,
        Tokenizer::Gpt2 => Family::Gpt2,
    })
}

/// Relies on tiktoken_rs::get_bpe_from_tokenizer: builds the encoder of a family
/// from the tables bundled with the crate, so the outcome depends on the family
/// alone.
#[verifier::external_body]
fn bpe_of_family(family: Family) -> (r: Option<tiktoken_rs::CoreBPE>)
    ensures
        r is Some == bpe_builds(family),
{
    let t = match family {
        Family::O200kBase => Tokenizer::O200kBase,
        Family::Cl100kBase => Tokenizer::Cl100kBase,
        Family::P50kBase => Tokenizer::P50kBase,
        Family::R50kBase => Tokenizer::R50kBase,
        Family::P50kEdit => Tokenizer::P50kEdit,
        Family::Gpt2 => Tokenizer::Gpt2,
    };
    tiktoken_rs::get_bpe_from_tokenizer(t).ok()
}

/// A built encoder, together with the family whose tables it holds.
pub struct Encoder {
    family: Family,
    bpe: tiktoken_rs::CoreBPE,
}

/// Relies on tiktoken_rs::CoreBPE::encode_with_special_tokens: every id it
/// returns is a rank of the encoder's tables.
#[verifier::external_body]
fn encode_special(enc: &Encoder, text: &str) -> (r: Vec<usize>)
    ensures
        r@ == special_encoding(enc.family, text@),
        forall|i: int| 0 <= i < r@.len() ==> in_vocabulary(enc.family, #[trigger] r@[i]),
{
    enc.bpe.encode_with_special_tokens(text)
}

/// Relies on tiktoken_rs::CoreBPE::encode_ordinary: every id it returns is a
/// rank of the encoder's tables, and the pieces that the split pattern cuts
/// from a printable ASCII text cover it, so decoding the ids gives it back.
#[verifier::external_body]
fn encode_plain(enc: &Encoder, text: &str) -> (r: Vec<usize>)
    ensures
        r@ == ordinary_encoding(enc.family, text@),
        forall|i: int| 0 <= i < r@.len() ==> in_vocabulary(enc.family, #[trigger] r@[i]),
        is_printable_ascii(text@) ==> decoding(enc.family, r@) == Some(text@),
{
    enc.bpe.encode_ordinary(text)
}

/// Relies on tiktoken_rs::CoreBPE::decode: joins the tokens' bytes and fails
/// where they are not UTF-8. It indexes its tables by each id, so every id must
/// be one of theirs.
#[verifier::external_body]
fn decode_tokens(enc: &Encoder, tokens: Vec<usize>) -> (r: Option<String>)
    requires
        forall|i: int| 0 <= i < tokens@.len() ==> in_vocabulary(enc.family, #[trigger] tokens@[i]),
    ensures
        match r {
            Some(s) => decoding(enc.family, tokens@) == Some(s@),
            None => decoding(enc.family, tokens@) is None,
        },
{
    enc.bpe.decode(tokens).ok()
}

impl Encoder {
    pub closed spec fn spec_family(&self) -> Family {
        self.family
    }

    /// Builds the encoder of a family.
    pub fn for_family(family: Family) -> (r: Option<Encoder>)
        ensures
            r is Some == bpe_builds(family),
            r matches Some(e) ==> e.spec_family() == family,
    {
        match bpe_of_family(family) {
            Some(bpe) => Some(Encoder { family, bpe }),
            None => None,
        }
    }

    pub fn family(&self) -> (r: Family)
        ensures
            r == self.spec_family(),
    {
        self.family
    }

    /// The tokens of `text`, special tokens allowed.
    pub fn encode_with_special_tokens(&self, text: &str) -> (r: Vec<usize>)
        ensures
            r@ == special_encoding(self.spec_family(), text@),
    {
        encode_special(self, text)
    }

    /// The tokens of `text`, special tokens read as text.
    pub fn encode_ordinary(&self, text: &str) -> (r: TokenCollection)
        ensures
            r.spec_family() == self.spec_family(),
            r@ == ordinary_encoding(self.spec_family(), text@),
            is_printable_ascii(text@) ==> decoding(self.spec_family(), r@) == Some(text@),
    {
        let tokens = encode_plain(self, text);
        TokenCollection { family: self.family, tokens }
    }
}

/// Tokens produced by one encoding family. Each is in that family's vocabulary.
pub struct TokenCollection {
    family: Family,
    tokens: Vec<usize>,
}

impl View for TokenCollection {
    type V = Seq<usize>;

    closed spec fn view(&self) -> Seq<usize> {
        self.tokens@
    }
}

impl TokenCollection {
    #[verifier::type_invariant]
    spec fn well_formed(&self) -> bool {
        forall|i: int| 0 <= i < self.tokens@.len() ==> in_vocabulary(self.family, #[trigger] self.tokens@[i])
    }

    pub closed spec fn spec_family(&self) -> Family {
        self.family
    }

    pub fn family(&self) -> (r: Family)
        ensures
            r == self.spec_family(),
    {
        self.family
    }

    pub fn len(&self) -> (r: usize)
        ensures
            r == self@.len(),
    {
        self.tokens.len()
    }

    /// The token ids, in order.
    pub fn as_usize(&self) -> (r: &Vec<usize>)
        ensures
            r@ == self@,
    {
        &self.tokens
    }
}

/// Why a text could not be turned into tokens or back.
#[derive(Debug, PartialEq, Eq, Structural)]
pub enum TokenizerError {
    TokenizationError,
    ToStringError,
}

/// The model asked for when no option names one.
pub const DEFAULT_MODEL: &'static str = "gpt-3.5-turbo";

/// The model name that a cascade selects: its model option, or the default.
pub open spec fn model_name_of(layers: Seq<Seq<Opt>>) -> Seq<char> {
    match cascade_lookup(layers, OptDiscriminants::Model) {
        Some(Opt::Model(m)) => m@,
        _ => DEFAULT_MODEL@,
    }
}

/// Reads the model name from a cascade, falling back to the default model.
pub fn model_from_cascade(options: &OptionsCascade) -> (r: String)
    ensures
        r@ == model_name_of(options@),
{
    match options.get(OptDiscriminants::Model) {
        Some(Opt::Model(m)) => m.clone(),
        _ => DEFAULT_MODEL.to_owned(),
    }
}

/// Turns text into tokens and back with the encoding of a named model.
pub struct OpenAITokenizer {
    model_name: String,
}

impl View for OpenAITokenizer {
    type V = Seq<char>;

    closed spec fn view(&self) -> Seq<char> {
        self.model_name@
    }
}

impl OpenAITokenizer {
    /// A tokenizer for the model that the cascade selects.
    pub fn new(options: OptionsCascade) -> (r: OpenAITokenizer)
        ensures
            r@ == model_name_of(options@),
    {
        let model_name = model_from_cascade(&options);
        Self::for_model_name(model_name)
    }

    /// A tokenizer for the named model.
    pub fn for_model_name(model_name: String) -> (r: OpenAITokenizer)
        ensures
            r@ == model_name@,
    {
        OpenAITokenizer { model_name }
    }

    pub fn model_name(&self) -> (r: &str)
        ensures
            r@ == self@,
    {
        self.model_name.as_str()
    }

    fn get_bpe_from_model(&self) -> (r: Option<Encoder>)
        ensures
            r is Some == (family_of_model(self@) is Some && bpe_builds(family_of_model(self@)->0)),
            r matches Some(e) ==> family_of_model(self@) == Some(e.spec_family()),
    {
        match family_of(self.model_name.as_str()) {
            Some(f) => Encoder::for_family(f),
            None => None,
        }
    }

    /// The tokens of `doc` under this model's encoding.
    pub fn tokenize_str(&self, doc: &str) -> (r: Result<TokenCollection, TokenizerError>)
        ensures
            family_of_model(self@) is None ==> r == Err::<TokenCollection, TokenizerError>(
                TokenizerError::TokenizationError,
            ),
            r is Err ==> r == Err::<TokenCollection, TokenizerError>(TokenizerError::TokenizationError),
            family_of_model(self@) is Some && bpe_builds(family_of_model(self@)->0) ==> r is Ok,
            family_of_model(self@) is Some && !bpe_builds(family_of_model(self@)->0) ==> r is Err,
            r matches Ok(t) ==> family_of_model(self@) == Some(t.spec_family()) && t@
                == ordinary_encoding(t.spec_family(), doc@),
            r is Ok && is_printable_ascii(doc@) ==> decoding(r->Ok_0.spec_family(), r->Ok_0@)
                == Some(doc@),
    {
        match self.get_bpe_from_model() {
            Some(enc) => Ok(enc.encode_ordinary(doc)),
            None => Err(TokenizerError::TokenizationError),
        }
    }

    /// The text of `tokens` under this model's encoding. Tokens of another
    /// encoding are refused.
    pub fn to_string(&self, tokens: TokenCollection) -> (r: Result<String, TokenizerError>)
        ensures
            family_of_model(self@) is None ==> r is Err,
            family_of_model(self@) matches Some(f) && f != tokens.spec_family() ==> r is Err,
            r is Err ==> r == Err::<String, TokenizerError>(TokenizerError::ToStringError),
            r matches Ok(s) ==> family_of_model(self@) == Some(tokens.spec_family()) && decoding(
                tokens.spec_family(),
                tokens@,
            ) == Some(s@),
            family_of_model(self@) == Some(tokens.spec_family()) && decoding(
                tokens.spec_family(),
                tokens@,
            ) is None ==> r is Err,
            !bpe_builds(tokens.spec_family()) ==> r is Err,
            family_of_model(self@) == Some(tokens.spec_family()) && bpe_builds(tokens.spec_family())
                && decoding(tokens.spec_family(), tokens@) is Some ==> (r is Ok && r->Ok_0@
                == decoding(tokens.spec_family(), tokens@)->0),
    {
        let enc = match self.get_bpe_from_model() {
            Some(e) => e,
            None => {
                return Err(TokenizerError::ToStringError);
            },
        };
        if enc.family() != tokens.family() {
            return Err(TokenizerError::ToStringError);
        }
        proof {
            use_type_invariant(&tokens);
        }
        let TokenCollection { family: _, tokens: ids } = tokens;
        match decode_tokens(&enc, ids) {
            Some(s) => Ok(s),
            None => Err(TokenizerError::ToStringError),
        }
    }
}

} // verus!

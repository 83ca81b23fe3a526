use vstd::prelude::*;
use vstd::string::StrSliceExecFns;
use crate::tokenizer::{Encoder, Family, TokenizerError, bpe_builds, family_of_model, special_encoding};

verus! {

/// Who speaks in a chat message.
#[derive(Clone, Copy, Debug, PartialEq, Eq, Structural)]
pub enum Role {
    System,
    User,
    Assistant,
    Tool,
    Function,
}

/// The name under which a role is sent.
pub open spec fn role_text(r: Role) -> Seq<char> {
    match r {
        Role::System => "system"@,
        Role::User => "user"@,
        Role::Assistant => "assistant"@,
        Role::Tool => "tool"@,
        Role::Function => "function"@,
    }
}

impl Role {
    pub fn as_str(&self) -> (r: &'static str)
        ensures
            r@ == role_text(*self),
    {
        match self {
            Role::System => "system",
            Role::User => "user",
            Role::Assistant => "assistant",
            Role::Tool => "tool",
            Role::Function => "function",
        }
    }
}

/// A role-tagged chat message. A user message whose content is not plain text
/// carries no content here.
#[derive(Debug)]
pub struct ChatMessage {
    pub role: Role,
    pub content: Option<String>,
    pub name: Option<String>,
}

impl ChatMessage {
    pub fn new(role: Role, content: Option<String>, name: Option<String>) -> (r: ChatMessage)
        ensures
            r == (ChatMessage { role, content, name }),
    {
        ChatMessage { role, content, name }
    }
}

/// The text of a message that is counted: its content, or nothing.
pub open spec fn content_text(m: ChatMessage) -> Seq<char> {
    match m.content {
        Some(c) => c@,
        None => Seq::empty(),
    }
}

/// Whether `p` is a prefix of `s`.
pub open spec fn has_prefix(s: Seq<char>, p: Seq<char>) -> bool {
    p.len() <= s.len() && s.take(p.len() as int) == p
}

/// Whether `s` starts with `p`.
pub fn starts_with(s: &str, p: &str) -> (r: bool)
    ensures
        r == has_prefix(s@, p@),
{
    let n = p.unicode_len();
    let m = s.unicode_len();
    if n > m {
        return false;
    }
    let mut i: usize = 0;
    while i < n
        invariant
            0 <= i <= n,
            n == p@.len(),
            n <= m == s@.len(),
            s@.take(i as int) == p@.take(i as int),
        decreases n - i,
    {
        if s.get_char(i) != p.get_char(i) {
            assert(s@.take(p@.len() as int)[i as int] != p@[i as int]);
            return false;
        }
        assert(s@.take(i + 1) =~= s@.take(i as int).push(s@[i as int]));
        assert(p@.take(i + 1) =~= p@.take(i as int).push(p@[i as int]));
        i = i + 1;
    }
    assert(p@.take(n as int) =~= p@);
    true
}

/// The model-name prefix of the family framed with four tokens per message.
pub const TURBO_PREFIX: &'static str = "gpt-3.5";

/// Whether a model belongs to the "3.5" family.
pub open spec fn is_turbo_model(model: Seq<char>) -> bool {
    has_prefix(model, TURBO_PREFIX@)
}

/// Fixed tokens charged for each message.
pub open spec fn tokens_per_message(turbo: bool) -> int {
    if turbo {
        4
    } else {
        3
    }
}

/// Further tokens charged for a message that carries a name.
pub open spec fn tokens_per_name(turbo: bool) -> int {
    if turbo {
        -1
    } else {
        1
    }
}

/// Tokens that prime every reply.
pub const REPLY_PRIMING: usize = 3;

/// The length of a text's encoding, special tokens allowed.
pub open spec fn encoded_len(family: Family, text: Seq<char>) -> int {
    special_encoding(family, text).len() as int
}

/// What one message costs.
pub open spec fn message_tokens(family: Family, turbo: bool, m: ChatMessage) -> int {
    tokens_per_message(turbo) + encoded_len(family, role_text(m.role)) + encoded_len(
        family,
        content_text(m),
    ) + match m.name {
        Some(n) => encoded_len(family, n@) + tokens_per_name(turbo),
        None => 0,
    }
}

/// What a sequence of messages costs, before the reply priming.
pub open spec fn messages_tokens(family: Family, turbo: bool, msgs: Seq<ChatMessage>) -> int
    decreases msgs.len(),
{
    if msgs.len() == 0 {
        0
    } else {
        messages_tokens(family, turbo, msgs.drop_last()) + message_tokens(family, turbo, msgs.last())
    }
}

/// What a chat costs under a model: its messages, framed by the model's family,
/// and the reply priming.
pub open spec fn chat_tokens(family: Family, model: Seq<char>, msgs: Seq<ChatMessage>) -> int {
    messages_tokens(family, is_turbo_model(model), msgs) + REPLY_PRIMING
}

/// Why a token count could not be given.
#[derive(Debug, PartialEq, Eq, Structural)]
pub enum PromptTokensError {
    /// The model has no tokenizer, or not the one whose framing is known.
    NotAvailable,
    /// The count does not fit in a machine word.
    UnableToCompute,
    /// The prompt could not be formatted into messages.
    PromptFormatFailed,
    /// The tokenizer failed.
    TokenizerError(TokenizerError),
}

/// Every message costs at least three tokens.
proof fn lemma_message_positive(family: Family, turbo: bool, m: ChatMessage)
    ensures
        message_tokens(family, turbo, m) >= 3,
{
}

/// The cost of a prefix of the messages is at most the cost of all of them.
proof fn lemma_prefix_bounded(family: Family, turbo: bool, msgs: Seq<ChatMessage>, i: int)
    requires
        0 <= i <= msgs.len(),
    ensures
        messages_tokens(family, turbo, msgs.take(i)) <= messages_tokens(family, turbo, msgs),
    decreases msgs.len() - i,
{
    if i < msgs.len() {
        lemma_prefix_bounded(family, turbo, msgs, i + 1);
        assert(msgs.take(i + 1).drop_last() =~= msgs.take(i));
        lemma_message_positive(family, turbo, msgs.take(i + 1).last());
    } else {
        assert(msgs.take(i) =~= msgs);
    }
}

/// What one message costs, counted with `enc`.
fn message_cost(enc: &Encoder, turbo: bool, m: &ChatMessage) -> (r: u128)
    ensures
        r == message_tokens(enc.spec_family(), turbo, *m),
        r <= 3 * (usize::MAX as u128) + 4,
{
    let per_message: u128 = if turbo {
        4
    } else {
        3
    };
    let role = enc.encode_with_special_tokens(m.role.as_str());
    let content = match &m.content {
        Some(c) => enc.encode_with_special_tokens(c.as_str()),
        None => {
            proof {
                reveal_strlit("");
                assert(""@ =~= Seq::<char>::empty());
            }
            enc.encode_with_special_tokens("")
        },
    };
    assert(role@.len() == encoded_len(enc.spec_family(), role_text(m.role)));
    assert(content@.len() == encoded_len(enc.spec_family(), content_text(*m)));
    let base: u128 = per_message + role.len() as u128 + content.len() as u128;
    match &m.name {
        Some(n) => {
            let named = enc.encode_with_special_tokens(n.as_str());
            assert(named@.len() == encoded_len(enc.spec_family(), n@));
            if turbo {
                base + named.len() as u128 - 1
            } else {
                base + named.len() as u128 + 1
            }
        },
        None => base,
    }
}

/// The tokens that a chat costs under `model`: for each message the framing
/// constants of the model's family, the encoded role, content and name; then
/// the reply priming. Only models of the cl100k family are counted.
pub fn num_tokens_from_messages(model: &str, messages: &Vec<ChatMessage>) -> (r: Result<
    usize,
    PromptTokensError,
>)
    ensures
        family_of_model(model@) != Some(Family::Cl100kBase) ==> r == Err::<usize, PromptTokensError>(
            PromptTokensError::NotAvailable,
        ),
        r matches Ok(n) ==> family_of_model(model@) == Some(Family::Cl100kBase) && n == chat_tokens(
            Family::Cl100kBase,
            model@,
            messages@,
        ),
        r == Err::<usize, PromptTokensError>(PromptTokensError::UnableToCompute) ==> chat_tokens(
            Family::Cl100kBase,
            model@,
            messages@,
        ) > usize::MAX,
        family_of_model(model@) == Some(Family::Cl100kBase) && chat_tokens(
            Family::Cl100kBase,
            model@,
            messages@,
        ) > usize::MAX ==> r is Err,
        family_of_model(model@) == Some(Family::Cl100kBase) && bpe_builds(Family::Cl100kBase)
            && chat_tokens(Family::Cl100kBase, model@, messages@) <= usize::MAX ==> r == Ok::<
            usize,
            PromptTokensError,
        >(chat_tokens(Family::Cl100kBase, model@, messages@) as usize),
        r == Err::<usize, PromptTokensError>(PromptTokensError::NotAvailable) ==> family_of_model(
            model@,
        ) != Some(Family::Cl100kBase) || !bpe_builds(Family::Cl100kBase),
        !bpe_builds(Family::Cl100kBase) ==> r == Err::<usize, PromptTokensError>(
            PromptTokensError::NotAvailable,
        ),
        r matches Err(e) ==> e == PromptTokensError::NotAvailable || e
            == PromptTokensError::UnableToCompute,
{
    let family = match crate::tokenizer::family_of(model) {
        Some(f) => f,
        None => {
            return Err(PromptTokensError::NotAvailable);
        },
    };
    if family != Family::Cl100kBase {
        return Err(PromptTokensError::NotAvailable);
    }
    let enc = match Encoder::for_family(family) {
        Some(e) => e,
        None => {
            return Err(PromptTokensError::NotAvailable);
        },
    };
    let turbo = starts_with(model, TURBO_PREFIX);
    let ghost msgs = messages@;
    let mut total: usize = 0;
    let mut i: usize = 0;
    while i < messages.len()
        invariant
            0 <= i <= msgs.len(),
            msgs == messages@,
            enc.spec_family() == Family::Cl100kBase,
            family_of_model(model@) == Some(Family::Cl100kBase),
            bpe_builds(Family::Cl100kBase),
            turbo == is_turbo_model(model@),
            total == messages_tokens(Family::Cl100kBase, turbo, msgs.take(i as int)),
        decreases msgs.len() - i,
    {
        let cost = message_cost(&enc, turbo, &messages[i]);
        assert(msgs.take(i + 1).drop_last() =~= msgs.take(i as int));
        proof {
            lemma_prefix_bounded(Family::Cl100kBase, turbo, msgs, i + 1);
        }
        let sum: u128 = total as u128 + cost;
        if sum > usize::MAX as u128 {
            return Err(PromptTokensError::UnableToCompute);
        }
        total = sum as usize;
        i = i + 1;
    }
    assert(msgs.take(i as int) =~= msgs);
    if total > usize::MAX - REPLY_PRIMING {
        return Err(PromptTokensError::UnableToCompute);
    }
    Ok(total + REPLY_PRIMING)
}

/// Replacing one message changes the cost by the difference of the two
/// messages' costs.
proof fn lemma_replace_message(
    family: Family,
    turbo: bool,
    msgs: Seq<ChatMessage>,
    i: int,
    m: ChatMessage,
)
    requires
        0 <= i < msgs.len(),
    ensures
        messages_tokens(family, turbo, msgs.update(i, m)) == messages_tokens(family, turbo, msgs)
            - message_tokens(family, turbo, msgs[i]) + message_tokens(family, turbo, m),
    decreases msgs.len(),
{
    let u = msgs.update(i, m);
    if i == msgs.len() - 1 {
        assert(u.drop_last() =~= msgs.drop_last());
    } else {
        assert(u.drop_last() =~= msgs.drop_last().update(i, m));
        lemma_replace_message(family, turbo, msgs.drop_last(), i, m);
    }
}

/// In the "3.5" family, giving a message a name adds the name's encoded length
/// less one token to the chat's cost; so where the name encodes to nothing,
/// the cost goes down by one.
pub proof fn lemma_turbo_name_cost(
    family: Family,
    model: Seq<char>,
    msgs: Seq<ChatMessage>,
    i: int,
    name: String,
)
    requires
        0 <= i < msgs.len(),
        is_turbo_model(model),
    ensures
        chat_tokens(
            family,
            model,
            msgs.update(i, (ChatMessage { role: msgs[i].role, content: msgs[i].content, name: Some(name) })),
        ) == chat_tokens(
            family,
            model,
            msgs.update(i, (ChatMessage { role: msgs[i].role, content: msgs[i].content, name: None })),
        ) + encoded_len(family, name@) - 1,
{
    let named = ChatMessage { role: msgs[i].role, content: msgs[i].content, name: Some(name) };
    let bare = ChatMessage { role: msgs[i].role, content: msgs[i].content, name: None };
    lemma_replace_message(family, true, msgs, i, named);
    lemma_replace_message(family, true, msgs, i, bare);
}

/// Outside the "3.5" family, giving a message a name adds the name's encoded
/// length plus one token: a name never lowers the cost there.
pub proof fn lemma_other_name_cost(
    family: Family,
    model: Seq<char>,
    msgs: Seq<ChatMessage>,
    i: int,
    name: String,
)
    requires
        0 <= i < msgs.len(),
        !is_turbo_model(model),
    ensures
        chat_tokens(
            family,
            model,
            msgs.update(i, (ChatMessage { role: msgs[i].role, content: msgs[i].content, name: Some(name) })),
        ) == chat_tokens(
            family,
            model,
            msgs.update(i, (ChatMessage { role: msgs[i].role, content: msgs[i].content, name: None })),
        ) + encoded_len(family, name@) + 1,
        tokens_per_name(is_turbo_model(model)) == 1,
{
    let named = ChatMessage { role: msgs[i].role, content: msgs[i].content, name: Some(name) };
    let bare = ChatMessage { role: msgs[i].role, content: msgs[i].content, name: None };
    lemma_replace_message(family, false, msgs, i, named);
    lemma_replace_message(family, false, msgs, i, bare);
}

} // verus!

//! Request wire formats and the policy that selects one.

use vstd::prelude::*;
use crate::text::{lower, lowered, same_text, trim, trimmed};

verus! {

/// Wire protocol spoken by a provider.
#[derive(Debug, Clone, Copy, PartialEq, Eq, Structural)]
pub enum WireFormat {
    /// OpenAI-compatible `/v1/chat/completions` style payloads.
    ChatCompletions,
    /// OpenAI Responses API (`/responses`).
    Responses,
    /// Native Anthropic Messages API (`/v1/messages`).
    AnthropicMessages,
}

/// How a provider selects its request wire format.
#[derive(Debug, Clone, Copy, PartialEq, Eq, Structural)]
pub enum WirePolicy {
    /// Every model served by the provider uses the same wire format.
    Fixed(WireFormat),
    /// The provider catalog selects a wire format per model/endpoint.
    ModelAware,
}

/// The wire format that an endpoint key names, whatever its ASCII case and
/// surrounding white space.
pub open spec fn endpoint_key_format(endpoint_key: Seq<char>) -> Option<WireFormat> {
    let key = lower(trim(endpoint_key));
    if key == "chat"@ || key == "chat_completions"@ || key == "chat-completions"@ {
        Some(WireFormat::ChatCompletions)
    } else if key == "responses"@ {
        Some(WireFormat::Responses)
    } else if key == "messages"@ || key == "anthropic_messages"@ || key == "anthropic-messages"@ {
        Some(WireFormat::AnthropicMessages)
    } else {
        None
    }
}

/// The wire format that `policy` selects for an endpoint key.
pub open spec fn resolved_format(policy: WirePolicy, endpoint_key: Seq<char>) -> Option<
    WireFormat,
> {
    match policy {
        WirePolicy::Fixed(format) => Some(format),
        WirePolicy::ModelAware => endpoint_key_format(endpoint_key),
    }
}

impl WirePolicy {
    /// Return the fixed format, or `None` for model-aware providers.
    #[must_use]
    pub fn fixed(self) -> (r: Option<WireFormat>)
        ensures
            r == (match self {
                WirePolicy::Fixed(format) => Some(format),
                WirePolicy::ModelAware => None,
            }),
    {
        match self {
            WirePolicy::Fixed(format) => Some(format),
            WirePolicy::ModelAware => None,
        }
    }

    /// Resolve a concrete format from an offering endpoint key.
    #[must_use]
    pub fn resolve(self, endpoint_key: &str) -> (r: Option<WireFormat>)
        ensures
            r == resolved_format(self, endpoint_key@),
    {
        if let WirePolicy::Fixed(format) = self {
            return Some(format);
        }
        let key: String = lowered(trimmed(endpoint_key));
        let key: &str = key.as_str();
        if same_text(key, "chat") || same_text(key, "chat_completions") || same_text(
            key,
            "chat-completions",
        ) {
            Some(WireFormat::ChatCompletions)
        } else if same_text(key, "responses") {
            Some(WireFormat::Responses)
        } else if same_text(key, "messages") || same_text(key, "anthropic_messages") || same_text(
            key,
            "anthropic-messages",
        ) {
            Some(WireFormat::AnthropicMessages)
        } else {
            None
        }
    }
}

/// A fixed wire policy ignores the catalog's endpoint keys.
pub proof fn fixed_policy_ignores_endpoint_keys(format: WireFormat, a: Seq<char>, b: Seq<char>)
    ensures
        resolved_format(WirePolicy::Fixed(format), a) == Some(format),
        resolved_format(WirePolicy::Fixed(format), a) == resolved_format(
            WirePolicy::Fixed(format),
            b,
        ),
{
}

/// Two endpoint keys that differ only in ASCII case and in surrounding white
/// space select the same format under every policy.
pub proof fn endpoint_keys_match_up_to_case_and_space(
    policy: WirePolicy,
    a: Seq<char>,
    b: Seq<char>,
)
    requires
        lower(trim(a)) == lower(trim(b)),
    ensures
        resolved_format(policy, a) == resolved_format(policy, b),
{
}


/// An endpoint key names one of three formats, whatever its case and surrounding
/// white space, and any other key names none.
pub proof fn an_endpoint_key_names_its_format(endpoint_key: Seq<char>)
    ensures
        ({
            let key = lower(trim(endpoint_key));
            let format = resolved_format(WirePolicy::ModelAware, endpoint_key);
            &&& format == Some(WireFormat::ChatCompletions) <==> key == "chat"@ || key
                == "chat_completions"@ || key == "chat-completions"@
            &&& format == Some(WireFormat::Responses) <==> key == "responses"@
            &&& format == Some(WireFormat::AnthropicMessages) <==> key == "messages"@ || key
                == "anthropic_messages"@ || key == "anthropic-messages"@
        }),
{
    reveal_strlit("chat");
    reveal_strlit("chat_completions");
    reveal_strlit("chat-completions");
    reveal_strlit("responses");
    reveal_strlit("messages");
    reveal_strlit("anthropic_messages");
    reveal_strlit("anthropic-messages");
    assert("chat"@[0] == 'c' && "chat_completions"@[0] == 'c' && "chat-completions"@[0] == 'c');
    assert("responses"@[0] == 'r' && "messages"@[0] == 'm');
    assert("anthropic_messages"@[0] == 'a' && "anthropic-messages"@[0] == 'a');
}

} // verus!

//! The message normalizer: maps each caller message (role plus possibly
//! multi-part content) into the engine's internal message representation,
//! given the upstream model name and a per-request user identifier.
//! Order-preserving and one-to-one; a message whose role or content
//! cannot be represented fails the whole request.

use vstd::prelude::*;
use vstd::string::StringExecFns;

use crate::types::GatewayApiError;
use crate::types::GatewayApiErrorView;

verus! {

/// One part of a multi-part message content.
#[derive(PartialEq, Eq, Debug)]
pub enum ContentPart {
    Text(String),
    ImageUrl(String),
}

#[verifier::ext_equal]
pub enum ContentPartView {
    Text(Seq<char>),
    ImageUrl(Seq<char>),
}

impl View for ContentPart {
    type V = ContentPartView;

    open spec fn view(&self) -> ContentPartView {
        match self {
            ContentPart::Text(t) => ContentPartView::Text(t@),
            ContentPart::ImageUrl(u) => ContentPartView::ImageUrl(u@),
        }
    }
}

impl DeepView for ContentPart {
    type V = ContentPartView;

    open spec fn deep_view(&self) -> ContentPartView {
        self.view()
    }
}

impl Clone for ContentPart {
    fn clone(&self) -> (res: Self)
        ensures
            res@ == self@,
    {
        match self {
            ContentPart::Text(t) => ContentPart::Text(t.clone()),
            ContentPart::ImageUrl(u) => ContentPart::ImageUrl(u.clone()),
        }
    }
}

/// The content of one caller message: plain text or a list of parts.
#[derive(PartialEq, Eq, Debug)]
pub enum MessageContent {
    Text(String),
    Parts(Vec<ContentPart>),
}

#[verifier::ext_equal]
pub enum MessageContentView {
    Text(Seq<char>),
    Parts(Seq<ContentPartView>),
}

impl View for MessageContent {
    type V = MessageContentView;

    open spec fn view(&self) -> MessageContentView {
        match self {
            MessageContent::Text(t) => MessageContentView::Text(t@),
            MessageContent::Parts(ps) => MessageContentView::Parts(ps.deep_view()),
        }
    }
}

impl DeepView for MessageContent {
    type V = MessageContentView;

    open spec fn deep_view(&self) -> MessageContentView {
        self.view()
    }
}

/// One caller message as received by the gateway.
#[derive(PartialEq, Eq, Debug)]
pub struct ChatCompletionMessage {
    pub role: String,
    pub content: Option<MessageContent>,
}

#[verifier::ext_equal]
pub struct ChatCompletionMessageView {
    pub role: Seq<char>,
    pub content: Option<MessageContentView>,
}

impl View for ChatCompletionMessage {
    type V = ChatCompletionMessageView;

    open spec fn view(&self) -> ChatCompletionMessageView {
        ChatCompletionMessageView { role: self.role@, content: self.content.deep_view() }
    }
}

impl DeepView for ChatCompletionMessage {
    type V = ChatCompletionMessageView;

    open spec fn deep_view(&self) -> ChatCompletionMessageView {
        self.view()
    }
}

/// A message role the engine's internal representation knows.
#[derive(Clone, Copy, PartialEq, Eq, Structural, Debug)]
pub enum InternalRole {
    System,
    User,
    Assistant,
    Tool,
}

/// The engine's internal message representation.
#[derive(PartialEq, Eq, Debug)]
pub struct InternalMessage {
    pub role: InternalRole,
    pub content: String,
    /// The upstream model name the message is bound for.
    pub model: String,
    /// The caller/session identifier used for provider-side bookkeeping.
    pub user_id: String,
}

#[verifier::ext_equal]
pub struct InternalMessageView {
    pub role: InternalRole,
    pub content: Seq<char>,
    pub model: Seq<char>,
    pub user_id: Seq<char>,
}

impl View for InternalMessage {
    type V = InternalMessageView;

    open spec fn view(&self) -> InternalMessageView {
        InternalMessageView {
            role: self.role,
            content: self.content@,
            model: self.model@,
            user_id: self.user_id@,
        }
    }
}

impl DeepView for InternalMessage {
    type V = InternalMessageView;

    open spec fn deep_view(&self) -> InternalMessageView {
        self.view()
    }
}

impl Clone for InternalMessage {
    fn clone(&self) -> (res: Self)
        ensures
            res@ == self@,
    {
        InternalMessage {
            role: self.role,
            content: self.content.clone(),
            model: self.model.clone(),
            user_id: self.user_id.clone(),
        }
    }
}

/// The internal role a caller-supplied role string denotes, if any.
pub open spec fn role_spec(role: Seq<char>) -> Option<InternalRole> {
    if role == "system"@ {
        Some(InternalRole::System)
    } else if role == "user"@ {
        Some(InternalRole::User)
    } else if role == "assistant"@ {
        Some(InternalRole::Assistant)
    } else if role == "tool"@ {
        Some(InternalRole::Tool)
    } else {
        None
    }
}

/// The flattened text of a part list, or nothing when a part cannot be
/// represented as text.
pub open spec fn parts_content_spec(parts: Seq<ContentPartView>) -> Option<Seq<char>>
    decreases parts.len(),
{
    if parts.len() == 0 {
        Some(Seq::empty())
    } else {
        match parts.last() {
            ContentPartView::ImageUrl(_) => None,
            ContentPartView::Text(t) => match parts_content_spec(parts.drop_last()) {
                Some(p) => Some(p + t),
                None => None,
            },
        }
    }
}

/// A part list with a non-text part anywhere has no flattened text.
proof fn lemma_parts_content_none(parts: Seq<ContentPartView>, i: int)
    requires
        0 <= i < parts.len(),
        parts[i] is ImageUrl,
    ensures
        parts_content_spec(parts) is None,
    decreases parts.len(),
{
    if i < parts.len() - 1 {
        lemma_parts_content_none(parts.drop_last(), i);
    }
}

/// The internal text of a message content; an absent content maps to the
/// empty text.
pub open spec fn content_spec(content: Option<MessageContentView>) -> Option<Seq<char>> {
    match content {
        None => Some(Seq::empty()),
        Some(MessageContentView::Text(t)) => Some(t),
        Some(MessageContentView::Parts(ps)) => parts_content_spec(ps),
    }
}

/// Whether a caller message has an internal representation.
pub open spec fn message_mappable(m: ChatCompletionMessageView) -> bool {
    role_spec(m.role) is Some && content_spec(m.content) is Some
}

/// The internal representation of a mappable caller message.
pub open spec fn mapped_message(
    m: ChatCompletionMessageView,
    model: Seq<char>,
    user_id: Seq<char>,
) -> InternalMessageView {
    InternalMessageView {
        role: role_spec(m.role).unwrap(),
        content: content_spec(m.content).unwrap(),
        model,
        user_id,
    }
}

/// Whether every message of a request has an internal representation.
pub open spec fn all_messages_mappable(ms: Seq<ChatCompletionMessageView>) -> bool {
    forall|i: int| 0 <= i < ms.len() ==> message_mappable(#[trigger] ms[i])
}

/// The internal representations of a request's messages, in order.
pub open spec fn mapped_messages(
    ms: Seq<ChatCompletionMessageView>,
    model: Seq<char>,
    user_id: Seq<char>,
) -> Seq<InternalMessageView> {
    ms.map_values(|m: ChatCompletionMessageView| mapped_message(m, model, user_id))
}

/// Maps caller messages into the engine's internal representation.
pub struct MessageMapper {}

impl MessageMapper {
    /// Maps one caller message, or fails when its role is unknown or its
    /// content cannot be represented as text.
    pub fn map_completions_message(
        message: &ChatCompletionMessage,
        model: &String,
        user_id: &String,
    ) -> (r: Result<InternalMessage, GatewayApiError>)
        ensures
            match r {
                Ok(im) => message_mappable(message@) && im@ == mapped_message(
                    message@,
                    model@,
                    user_id@,
                ),
                Err(e) => !message_mappable(message@) && e@ matches
                    GatewayApiErrorView::MessageMappingError(_),
            },
    {
        let role = if message.role == String::from_str("system") {
            InternalRole::System
        } else if message.role == String::from_str("user") {
            InternalRole::User
        } else if message.role == String::from_str("assistant") {
            InternalRole::Assistant
        } else if message.role == String::from_str("tool") {
            InternalRole::Tool
        } else {
            return Err(
                GatewayApiError::MessageMappingError(
                    String::from_str("message role is not supported"),
                ),
            );
        };
        let content = match &message.content {
            None => String::new(),
            Some(MessageContent::Text(t)) => t.clone(),
            Some(MessageContent::Parts(ps)) => {
                let mut acc = String::new();
                let mut i: usize = 0;
                while i < ps.len()
                    invariant
                        i <= ps.len(),
                        message@.content == Some(MessageContentView::Parts(ps.deep_view())),
                        parts_content_spec(ps.deep_view().take(i as int)) == Some(acc@),
                    decreases ps.len() - i,
                {
                    match &ps[i] {
                        ContentPart::ImageUrl(_) => {
                            proof {
                                assert(ps.deep_view()[i as int] == ps@[i as int]@);
                                lemma_parts_content_none(ps.deep_view(), i as int);
                            }
                            return Err(
                                GatewayApiError::MessageMappingError(
                                    String::from_str("message content part is not text"),
                                ),
                            );
                        },
                        ContentPart::Text(t) => {
                            acc.append(t.as_str());
                        },
                    }
                    proof {
                        let parts = ps.deep_view();
                        assert(parts.take(i as int + 1).drop_last() =~= parts.take(i as int));
                        assert(parts.take(i as int + 1).last() == parts[i as int]);
                        assert(parts[i as int] == ps@[i as int]@);
                    }
                    i = i + 1;
                }
                proof {
                    assert(ps.deep_view().take(ps@.len() as int) =~= ps.deep_view());
                }
                acc
            },
        };
        Ok(InternalMessage { role, content, model: model.clone(), user_id: user_id.clone() })
    }

    /// Maps every message of a request, in order; the first message
    /// without an internal representation aborts the whole request.
    pub fn map_messages(
        messages: &Vec<ChatCompletionMessage>,
        model: &String,
        user_id: &String,
    ) -> (r: Result<Vec<InternalMessage>, GatewayApiError>)
        ensures
            match r {
                Ok(v) => all_messages_mappable(messages.deep_view()) && v.deep_view()
                    == mapped_messages(messages.deep_view(), model@, user_id@),
                Err(e) => !all_messages_mappable(messages.deep_view()) && e@ matches
                    GatewayApiErrorView::MessageMappingError(_),
            },
    {
        let mut out: Vec<InternalMessage> = Vec::new();
        let mut i: usize = 0;
        while i < messages.len()
            invariant
                i <= messages.len(),
                out@.len() == i as int,
                forall|k: int|
                    0 <= k < i ==> message_mappable(#[trigger] messages.deep_view()[k]),
                forall|k: int|
                    0 <= k < i ==> #[trigger] out.deep_view()[k] == mapped_message(
                        messages.deep_view()[k],
                        model@,
                        user_id@,
                    ),
            decreases messages.len() - i,
        {
            proof {
                assert(messages.deep_view()[i as int] == messages@[i as int]@);
            }
            match Self::map_completions_message(&messages[i], model, user_id) {
                Ok(im) => {
                    let ghost imv = im@;
                    let ghost prev = out.deep_view();
                    out.push(im);
                    proof {
                        assert(out.deep_view() =~= prev.push(imv));
                    }
                },
                Err(e) => {
                    return Err(e);
                },
            }
            i = i + 1;
        }
        proof {
            assert(out.deep_view() =~= mapped_messages(messages.deep_view(), model@, user_id@));
        }
        Ok(out)
    }
}

} // verus!

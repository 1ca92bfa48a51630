//! The provider's error codes, at the level of the request, of one message,
//! and of one address. Each is a closed set with a fallback, `UnknownErrorCode`,
//! that stands for any code the provider may add later: decoding a code never
//! fails.

use vstd::prelude::*;
use crate::text::same_text;

verus! {
/// Return codes of the response as a whole: the status of the injection request.
#[derive(Debug, Clone, Copy, PartialEq, Eq, Structural)]
pub enum PostMessageErrorCode {
    Success,
    Warning,
    AccountDisabled,
    InternalError,
    InvalidAuthentication,
    InvalidData,
    NoMessages,
    EmptyMessage,
    OverQuota,
    TooManyErrors,
    TooManyMessages,
    TooManyRecipients,
    NoValidRecipients,
    /// A code outside the known set.
    UnknownErrorCode,
}

impl PostMessageErrorCode {
    /// The text by which the provider writes this code; none for the fallback.
    pub open spec fn spec_tag(self) -> Option<Seq<char>> {
        match self {
            PostMessageErrorCode::Success => Some("Success"@),
            PostMessageErrorCode::Warning => Some("Warning"@),
            PostMessageErrorCode::AccountDisabled => Some("AccountDisabled"@),
            PostMessageErrorCode::InternalError => Some("InternalError"@),
            PostMessageErrorCode::InvalidAuthentication => Some("InvalidAuthentication"@),
            PostMessageErrorCode::InvalidData => Some("InvalidData"@),
            PostMessageErrorCode::NoMessages => Some("NoMessages"@),
            PostMessageErrorCode::EmptyMessage => Some("EmptyMessage"@),
            PostMessageErrorCode::OverQuota => Some("OverQuota"@),
            PostMessageErrorCode::TooManyErrors => Some("TooManyErrors"@),
            PostMessageErrorCode::TooManyMessages => Some("TooManyMessages"@),
            PostMessageErrorCode::TooManyRecipients => Some("TooManyRecipients"@),
            PostMessageErrorCode::NoValidRecipients => Some("NoValidRecipients"@),
            PostMessageErrorCode::UnknownErrorCode => None,
        }
    }

    /// The code that a text stands for: the known code written so, or the fallback.
    pub open spec fn spec_from_tag(t: Seq<char>) -> Self {
        if t == "Success"@ {
            PostMessageErrorCode::Success
        } else if t == "Warning"@ {
            PostMessageErrorCode::Warning
        } else if t == "AccountDisabled"@ {
            PostMessageErrorCode::AccountDisabled
        } else if t == "InternalError"@ {
            PostMessageErrorCode::InternalError
        } else if t == "InvalidAuthentication"@ {
            PostMessageErrorCode::InvalidAuthentication
        } else if t == "InvalidData"@ {
            PostMessageErrorCode::InvalidData
        } else if t == "NoMessages"@ {
            PostMessageErrorCode::NoMessages
        } else if t == "EmptyMessage"@ {
            PostMessageErrorCode::EmptyMessage
        } else if t == "OverQuota"@ {
            PostMessageErrorCode::OverQuota
        } else if t == "TooManyErrors"@ {
            PostMessageErrorCode::TooManyErrors
        } else if t == "TooManyMessages"@ {
            PostMessageErrorCode::TooManyMessages
        } else if t == "TooManyRecipients"@ {
            PostMessageErrorCode::TooManyRecipients
        } else if t == "NoValidRecipients"@ {
            PostMessageErrorCode::NoValidRecipients
        } else {
            PostMessageErrorCode::UnknownErrorCode
        }
    }

    /// Decodes a code from the provider's text; an unknown text gives
    /// `UnknownErrorCode`.
    pub fn from_tag(tag: &str) -> (r: Self)
        ensures
            r == Self::spec_from_tag(tag@),
    {
        if same_text(tag, "Success") {
            PostMessageErrorCode::Success
        } else if same_text(tag, "Warning") {
            PostMessageErrorCode::Warning
        } else if same_text(tag, "AccountDisabled") {
            PostMessageErrorCode::AccountDisabled
        } else if same_text(tag, "InternalError") {
            PostMessageErrorCode::InternalError
        } else if same_text(tag, "InvalidAuthentication") {
            PostMessageErrorCode::InvalidAuthentication
        } else if same_text(tag, "InvalidData") {
            PostMessageErrorCode::InvalidData
        } else if same_text(tag, "NoMessages") {
            PostMessageErrorCode::NoMessages
        } else if same_text(tag, "EmptyMessage") {
            PostMessageErrorCode::EmptyMessage
        } else if same_text(tag, "OverQuota") {
            PostMessageErrorCode::OverQuota
        } else if same_text(tag, "TooManyErrors") {
            PostMessageErrorCode::TooManyErrors
        } else if same_text(tag, "TooManyMessages") {
            PostMessageErrorCode::TooManyMessages
        } else if same_text(tag, "TooManyRecipients") {
            PostMessageErrorCode::TooManyRecipients
        } else if same_text(tag, "NoValidRecipients") {
            PostMessageErrorCode::NoValidRecipients
        } else {
            PostMessageErrorCode::UnknownErrorCode
        }
    }

    /// The text by which the provider writes this code.
    pub fn tag(&self) -> (r: Option<&'static str>)
        ensures
            r matches Some(t) ==> self.spec_tag() == Some(t@),
            r is None <==> self.spec_tag() is None,
    {
        match self {
            PostMessageErrorCode::Success => Some("Success"),
            PostMessageErrorCode::Warning => Some("Warning"),
            PostMessageErrorCode::AccountDisabled => Some("AccountDisabled"),
            PostMessageErrorCode::InternalError => Some("InternalError"),
            PostMessageErrorCode::InvalidAuthentication => Some("InvalidAuthentication"),
            PostMessageErrorCode::InvalidData => Some("InvalidData"),
            PostMessageErrorCode::NoMessages => Some("NoMessages"),
            PostMessageErrorCode::EmptyMessage => Some("EmptyMessage"),
            PostMessageErrorCode::OverQuota => Some("OverQuota"),
            PostMessageErrorCode::TooManyErrors => Some("TooManyErrors"),
            PostMessageErrorCode::TooManyMessages => Some("TooManyMessages"),
            PostMessageErrorCode::TooManyRecipients => Some("TooManyRecipients"),
            PostMessageErrorCode::NoValidRecipients => Some("NoValidRecipients"),
            PostMessageErrorCode::UnknownErrorCode => None,
        }
    }

    /// What the code means, in words.
    pub fn description(&self) -> &'static str {
        match self {
            PostMessageErrorCode::Success => "Success.",
            PostMessageErrorCode::Warning => "There were one or more failed messages and/or recipients.",
            PostMessageErrorCode::AccountDisabled => "The account has been disabled.",
            PostMessageErrorCode::InternalError => "Internal server error. (Please report to SocketLabs support if encountered.)",
            PostMessageErrorCode::InvalidAuthentication => "The ServerId/ApiKey combination is invalid.",
            PostMessageErrorCode::InvalidData => "PostBody parameter does not have a valid structure, or contains invalid or missing data.",
            PostMessageErrorCode::NoMessages => "There were no messages to inject included in the request.",
            PostMessageErrorCode::EmptyMessage => "One or more messages have insufficient content to process.",
            PostMessageErrorCode::OverQuota => "Rate limit exceeded.",
            PostMessageErrorCode::TooManyErrors => "Authentication error limit exceeded.",
            PostMessageErrorCode::TooManyMessages => "Too many messages in a single request.",
            PostMessageErrorCode::TooManyRecipients => "Too many recipients in a single message.",
            PostMessageErrorCode::NoValidRecipients => "A merge was attempted, but there were no valid recipients.",
            PostMessageErrorCode::UnknownErrorCode => "SocketLabs returned an unknown error code.",
        }
    }
}

/// Return codes of a message result: the status of one message.
#[derive(Debug, Clone, Copy, PartialEq, Eq, Structural)]
pub enum MessageResultErrorCode {
    Warning,
    InvalidAttachment,
    MessageTooLarge,
    EmptySubject,
    EmptyToAddress,
    InvalidFromAddress,
    NoValidBodyParts,
    NoValidRecipients,
    InvalidMergeData,
    InvalidTemplateId,
    MessageBodyConflict,
    /// A code outside the known set.
    UnknownErrorCode,
}

impl MessageResultErrorCode {
    /// The text by which the provider writes this code; none for the fallback.
    pub open spec fn spec_tag(self) -> Option<Seq<char>> {
        match self {
            MessageResultErrorCode::Warning => Some("Warning"@),
            MessageResultErrorCode::InvalidAttachment => Some("InvalidAttachment"@),
            MessageResultErrorCode::MessageTooLarge => Some("MessageTooLarge"@),
            MessageResultErrorCode::EmptySubject => Some("EmptySubject"@),
            MessageResultErrorCode::EmptyToAddress => Some("EmptyToAddress"@),
            MessageResultErrorCode::InvalidFromAddress => Some("InvalidFromAddress"@),
            MessageResultErrorCode::NoValidBodyParts => Some("NoValidBodyParts"@),
            MessageResultErrorCode::NoValidRecipients => Some("NoValidRecipients"@),
            MessageResultErrorCode::InvalidMergeData => Some("InvalidMergeData"@),
            MessageResultErrorCode::InvalidTemplateId => Some("InvalidTemplateId"@),
            MessageResultErrorCode::MessageBodyConflict => Some("MessageBodyConflict"@),
            MessageResultErrorCode::UnknownErrorCode => None,
        }
    }

    /// The code that a text stands for: the known code written so, or the fallback.
    pub open spec fn spec_from_tag(t: Seq<char>) -> Self {
        if t == "Warning"@ {
            MessageResultErrorCode::Warning
        } else if t == "InvalidAttachment"@ {
            MessageResultErrorCode::InvalidAttachment
        } else if t == "MessageTooLarge"@ {
            MessageResultErrorCode::MessageTooLarge
        } else if t == "EmptySubject"@ {
            MessageResultErrorCode::EmptySubject
        } else if t == "EmptyToAddress"@ {
            MessageResultErrorCode::EmptyToAddress
        } else if t == "InvalidFromAddress"@ {
            MessageResultErrorCode::InvalidFromAddress
        } else if t == "NoValidBodyParts"@ {
            MessageResultErrorCode::NoValidBodyParts
        } else if t == "NoValidRecipients"@ {
            MessageResultErrorCode::NoValidRecipients
        } else if t == "InvalidMergeData"@ {
            MessageResultErrorCode::InvalidMergeData
        } else if t == "InvalidTemplateId"@ {
            MessageResultErrorCode::InvalidTemplateId
        } else if t == "MessageBodyConflict"@ {
            MessageResultErrorCode::MessageBodyConflict
        } else {
            MessageResultErrorCode::UnknownErrorCode
        }
    }

    /// Decodes a code from the provider's text; an unknown text gives
    /// `UnknownErrorCode`.
    pub fn from_tag(tag: &str) -> (r: Self)
        ensures
            r == Self::spec_from_tag(tag@),
    {
        if same_text(tag, "Warning") {
            MessageResultErrorCode::Warning
        } else if same_text(tag, "InvalidAttachment") {
            MessageResultErrorCode::InvalidAttachment
        } else if same_text(tag, "MessageTooLarge") {
            MessageResultErrorCode::MessageTooLarge
        } else if same_text(tag, "EmptySubject") {
            MessageResultErrorCode::EmptySubject
        } else if same_text(tag, "EmptyToAddress") {
            MessageResultErrorCode::EmptyToAddress
        } else if same_text(tag, "InvalidFromAddress") {
            MessageResultErrorCode::InvalidFromAddress
        } else if same_text(tag, "NoValidBodyParts") {
            MessageResultErrorCode::NoValidBodyParts
        } else if same_text(tag, "NoValidRecipients") {
            MessageResultErrorCode::NoValidRecipients
        } else if same_text(tag, "InvalidMergeData") {
            MessageResultErrorCode::InvalidMergeData
        } else if same_text(tag, "InvalidTemplateId") {
            MessageResultErrorCode::InvalidTemplateId
        } else if same_text(tag, "MessageBodyConflict") {
            MessageResultErrorCode::MessageBodyConflict
        } else {
            MessageResultErrorCode::UnknownErrorCode
        }
    }

    /// The text by which the provider writes this code.
    pub fn tag(&self) -> (r: Option<&'static str>)
        ensures
            r matches Some(t) ==> self.spec_tag() == Some(t@),
            r is None <==> self.spec_tag() is None,
    {
        match self {
            MessageResultErrorCode::Warning => Some("Warning"),
            MessageResultErrorCode::InvalidAttachment => Some("InvalidAttachment"),
            MessageResultErrorCode::MessageTooLarge => Some("MessageTooLarge"),
            MessageResultErrorCode::EmptySubject => Some("EmptySubject"),
            MessageResultErrorCode::EmptyToAddress => Some("EmptyToAddress"),
            MessageResultErrorCode::InvalidFromAddress => Some("InvalidFromAddress"),
            MessageResultErrorCode::NoValidBodyParts => Some("NoValidBodyParts"),
            MessageResultErrorCode::NoValidRecipients => Some("NoValidRecipients"),
            MessageResultErrorCode::InvalidMergeData => Some("InvalidMergeData"),
            MessageResultErrorCode::InvalidTemplateId => Some("InvalidTemplateId"),
            MessageResultErrorCode::MessageBodyConflict => Some("MessageBodyConflict"),
            MessageResultErrorCode::UnknownErrorCode => None,
        }
    }

    /// What the code means, in words.
    pub fn description(&self) -> &'static str {
        match self {
            MessageResultErrorCode::Warning => "The message has one or more bad recipients.",
            MessageResultErrorCode::InvalidAttachment => "The message has one or more invalid attachments.",
            MessageResultErrorCode::MessageTooLarge => "The message was larger than the allowed size.",
            MessageResultErrorCode::EmptySubject => "This message contained an empty subject line, which is not allowed.",
            MessageResultErrorCode::EmptyToAddress => "This message does not contain a To address.",
            MessageResultErrorCode::InvalidFromAddress => "This message does not contain a valid From address.",
            MessageResultErrorCode::NoValidBodyParts => "This message does not have a valid text HTML body specified.",
            MessageResultErrorCode::NoValidRecipients => "There are no valid addresses specified as message recipients.",
            MessageResultErrorCode::InvalidMergeData => "The included merge data does not follow the API specification.",
            MessageResultErrorCode::InvalidTemplateId => "The selected API Template does not exist.",
            MessageResultErrorCode::MessageBodyConflict => "The Html Body and Text Body cannot be set when also specifying an API Template ID.",
            MessageResultErrorCode::UnknownErrorCode => "SocketLabs returned an unknown error code.",
        }
    }
}

/// Return codes of an address result: the status of one recipient.
#[derive(Debug, Clone, Copy, PartialEq, Eq, Structural)]
pub enum AddressResultErrorCode {
    InvalidAddress,
    /// A code outside the known set.
    UnknownErrorCode,
}

impl AddressResultErrorCode {
    /// The text by which the provider writes this code; none for the fallback.
    pub open spec fn spec_tag(self) -> Option<Seq<char>> {
        match self {
            AddressResultErrorCode::InvalidAddress => Some("InvalidAddress"@),
            AddressResultErrorCode::UnknownErrorCode => None,
        }
    }

    /// The code that a text stands for: the known code written so, or the fallback.
    pub open spec fn spec_from_tag(t: Seq<char>) -> Self {
        if t == "InvalidAddress"@ {
            AddressResultErrorCode::InvalidAddress
        } else {
            AddressResultErrorCode::UnknownErrorCode
        }
    }

    /// Decodes a code from the provider's text; an unknown text gives
    /// `UnknownErrorCode`.
    pub fn from_tag(tag: &str) -> (r: Self)
        ensures
            r == Self::spec_from_tag(tag@),
    {
        if same_text(tag, "InvalidAddress") {
            AddressResultErrorCode::InvalidAddress
        } else {
            AddressResultErrorCode::UnknownErrorCode
        }
    }

    /// The text by which the provider writes this code.
    pub fn tag(&self) -> (r: Option<&'static str>)
        ensures
            r matches Some(t) ==> self.spec_tag() == Some(t@),
            r is None <==> self.spec_tag() is None,
    {
        match self {
            AddressResultErrorCode::InvalidAddress => Some("InvalidAddress"),
            AddressResultErrorCode::UnknownErrorCode => None,
        }
    }

    /// What the code means, in words.
    pub fn description(&self) -> &'static str {
        match self {
            AddressResultErrorCode::InvalidAddress => "The address did not meet specification requirements.",
            AddressResultErrorCode::UnknownErrorCode => "SocketLabs returned an unknown error code.",
        }
    }
}

/// A text that is not the tag of any known code decodes to the fallback.
pub proof fn lemma_post_unknown_tag_falls_back(t: Seq<char>)
    requires
        forall|c: PostMessageErrorCode| #[trigger] c.spec_tag() != Some(t),
    ensures
        PostMessageErrorCode::spec_from_tag(t) == PostMessageErrorCode::UnknownErrorCode,
{
    assert(PostMessageErrorCode::Success.spec_tag() != Some(t));
    assert(PostMessageErrorCode::Warning.spec_tag() != Some(t));
    assert(PostMessageErrorCode::AccountDisabled.spec_tag() != Some(t));
    assert(PostMessageErrorCode::InternalError.spec_tag() != Some(t));
    assert(PostMessageErrorCode::InvalidAuthentication.spec_tag() != Some(t));
    assert(PostMessageErrorCode::InvalidData.spec_tag() != Some(t));
    assert(PostMessageErrorCode::NoMessages.spec_tag() != Some(t));
    assert(PostMessageErrorCode::EmptyMessage.spec_tag() != Some(t));
    assert(PostMessageErrorCode::OverQuota.spec_tag() != Some(t));
    assert(PostMessageErrorCode::TooManyErrors.spec_tag() != Some(t));
    assert(PostMessageErrorCode::TooManyMessages.spec_tag() != Some(t));
    assert(PostMessageErrorCode::TooManyRecipients.spec_tag() != Some(t));
    assert(PostMessageErrorCode::NoValidRecipients.spec_tag() != Some(t));
}

/// A text that is not the tag of any known code decodes to the fallback.
pub proof fn lemma_message_unknown_tag_falls_back(t: Seq<char>)
    requires
        forall|c: MessageResultErrorCode| #[trigger] c.spec_tag() != Some(t),
    ensures
        MessageResultErrorCode::spec_from_tag(t) == MessageResultErrorCode::UnknownErrorCode,
{
    assert(MessageResultErrorCode::Warning.spec_tag() != Some(t));
    assert(MessageResultErrorCode::InvalidAttachment.spec_tag() != Some(t));
    assert(MessageResultErrorCode::MessageTooLarge.spec_tag() != Some(t));
    assert(MessageResultErrorCode::EmptySubject.spec_tag() != Some(t));
    assert(MessageResultErrorCode::EmptyToAddress.spec_tag() != Some(t));
    assert(MessageResultErrorCode::InvalidFromAddress.spec_tag() != Some(t));
    assert(MessageResultErrorCode::NoValidBodyParts.spec_tag() != Some(t));
    assert(MessageResultErrorCode::NoValidRecipients.spec_tag() != Some(t));
    assert(MessageResultErrorCode::InvalidMergeData.spec_tag() != Some(t));
    assert(MessageResultErrorCode::InvalidTemplateId.spec_tag() != Some(t));
    assert(MessageResultErrorCode::MessageBodyConflict.spec_tag() != Some(t));
}

/// A text that is not the tag of any known code decodes to the fallback.
pub proof fn lemma_address_unknown_tag_falls_back(t: Seq<char>)
    requires
        forall|c: AddressResultErrorCode| #[trigger] c.spec_tag() != Some(t),
    ensures
        AddressResultErrorCode::spec_from_tag(t) == AddressResultErrorCode::UnknownErrorCode,
{
    assert(AddressResultErrorCode::InvalidAddress.spec_tag() != Some(t));
}

/// Every known code decodes from its own tag.
pub proof fn lemma_post_tag_round_trip(c: PostMessageErrorCode)
    requires
        c.spec_tag() is Some,
    ensures
        PostMessageErrorCode::spec_from_tag(c.spec_tag()->0) == c,
{
    reveal_strlit("Success");
    reveal_strlit("Warning");
    reveal_strlit("AccountDisabled");
    reveal_strlit("InternalError");
    reveal_strlit("InvalidAuthentication");
    reveal_strlit("InvalidData");
    reveal_strlit("NoMessages");
    reveal_strlit("EmptyMessage");
    reveal_strlit("OverQuota");
    reveal_strlit("TooManyErrors");
    reveal_strlit("TooManyMessages");
    reveal_strlit("TooManyRecipients");
    reveal_strlit("NoValidRecipients");
    assert("Warning"@[0] != "Success"@[0]);
    assert("AccountDisabled"@.len() != "Success"@.len());
    assert("AccountDisabled"@.len() != "Warning"@.len());
    assert("InternalError"@.len() != "Success"@.len());
    assert("InternalError"@.len() != "Warning"@.len());
    assert("InternalError"@.len() != "AccountDisabled"@.len());
    assert("InvalidAuthentication"@.len() != "Success"@.len());
    assert("InvalidAuthentication"@.len() != "Warning"@.len());
    assert("InvalidAuthentication"@.len() != "AccountDisabled"@.len());
    assert("InvalidAuthentication"@.len() != "InternalError"@.len());
    assert("InvalidData"@.len() != "Success"@.len());
    assert("InvalidData"@.len() != "Warning"@.len());
    assert("InvalidData"@.len() != "AccountDisabled"@.len());
    assert("InvalidData"@.len() != "InternalError"@.len());
    assert("InvalidData"@.len() != "InvalidAuthentication"@.len());
    assert("NoMessages"@.len() != "Success"@.len());
    assert("NoMessages"@.len() != "Warning"@.len());
    assert("NoMessages"@.len() != "AccountDisabled"@.len());
    assert("NoMessages"@.len() != "InternalError"@.len());
    assert("NoMessages"@.len() != "InvalidAuthentication"@.len());
    assert("NoMessages"@.len() != "InvalidData"@.len());
    assert("EmptyMessage"@.len() != "Success"@.len());
    assert("EmptyMessage"@.len() != "Warning"@.len());
    assert("EmptyMessage"@.len() != "AccountDisabled"@.len());
    assert("EmptyMessage"@.len() != "InternalError"@.len());
    assert("EmptyMessage"@.len() != "InvalidAuthentication"@.len());
    assert("EmptyMessage"@.len() != "InvalidData"@.len());
    assert("EmptyMessage"@.len() != "NoMessages"@.len());
    assert("OverQuota"@.len() != "Success"@.len());
    assert("OverQuota"@.len() != "Warning"@.len());
    assert("OverQuota"@.len() != "AccountDisabled"@.len());
    assert("OverQuota"@.len() != "InternalError"@.len());
    assert("OverQuota"@.len() != "InvalidAuthentication"@.len());
    assert("OverQuota"@.len() != "InvalidData"@.len());
    assert("OverQuota"@.len() != "NoMessages"@.len());
    assert("OverQuota"@.len() != "EmptyMessage"@.len());
    assert("TooManyErrors"@.len() != "Success"@.len());
    assert("TooManyErrors"@.len() != "Warning"@.len());
    assert("TooManyErrors"@.len() != "AccountDisabled"@.len());
    assert("TooManyErrors"@[0] != "InternalError"@[0]);
    assert("TooManyErrors"@.len() != "InvalidAuthentication"@.len());
    assert("TooManyErrors"@.len() != "InvalidData"@.len());
    assert("TooManyErrors"@.len() != "NoMessages"@.len());
    assert("TooManyErrors"@.len() != "EmptyMessage"@.len());
    assert("TooManyErrors"@.len() != "OverQuota"@.len());
    assert("TooManyMessages"@.len() != "Success"@.len());
    assert("TooManyMessages"@.len() != "Warning"@.len());
    assert("TooManyMessages"@[0] != "AccountDisabled"@[0]);
    assert("TooManyMessages"@.len() != "InternalError"@.len());
    assert("TooManyMessages"@.len() != "InvalidAuthentication"@.len());
    assert("TooManyMessages"@.len() != "InvalidData"@.len());
    assert("TooManyMessages"@.len() != "NoMessages"@.len());
    assert("TooManyMessages"@.len() != "EmptyMessage"@.len());
    assert("TooManyMessages"@.len() != "OverQuota"@.len());
    assert("TooManyMessages"@.len() != "TooManyErrors"@.len());
    assert("TooManyRecipients"@.len() != "Success"@.len());
    assert("TooManyRecipients"@.len() != "Warning"@.len());
    assert("TooManyRecipients"@.len() != "AccountDisabled"@.len());
    assert("TooManyRecipients"@.len() != "InternalError"@.len());
    assert("TooManyRecipients"@.len() != "InvalidAuthentication"@.len());
    assert("TooManyRecipients"@.len() != "InvalidData"@.len());
    assert("TooManyRecipients"@.len() != "NoMessages"@.len());
    assert("TooManyRecipients"@.len() != "EmptyMessage"@.len());
    assert("TooManyRecipients"@.len() != "OverQuota"@.len());
    assert("TooManyRecipients"@.len() != "TooManyErrors"@.len());
    assert("TooManyRecipients"@.len() != "TooManyMessages"@.len());
    assert("NoValidRecipients"@.len() != "Success"@.len());
    assert("NoValidRecipients"@.len() != "Warning"@.len());
    assert("NoValidRecipients"@.len() != "AccountDisabled"@.len());
    assert("NoValidRecipients"@.len() != "InternalError"@.len());
    assert("NoValidRecipients"@.len() != "InvalidAuthentication"@.len());
    assert("NoValidRecipients"@.len() != "InvalidData"@.len());
    assert("NoValidRecipients"@.len() != "NoMessages"@.len());
    assert("NoValidRecipients"@.len() != "EmptyMessage"@.len());
    assert("NoValidRecipients"@.len() != "OverQuota"@.len());
    assert("NoValidRecipients"@.len() != "TooManyErrors"@.len());
    assert("NoValidRecipients"@.len() != "TooManyMessages"@.len());
    assert("NoValidRecipients"@[0] != "TooManyRecipients"@[0]);
}

/// Every known code decodes from its own tag.
pub proof fn lemma_message_tag_round_trip(c: MessageResultErrorCode)
    requires
        c.spec_tag() is Some,
    ensures
        MessageResultErrorCode::spec_from_tag(c.spec_tag()->0) == c,
{
    reveal_strlit("Warning");
    reveal_strlit("InvalidAttachment");
    reveal_strlit("MessageTooLarge");
    reveal_strlit("EmptySubject");
    reveal_strlit("EmptyToAddress");
    reveal_strlit("InvalidFromAddress");
    reveal_strlit("NoValidBodyParts");
    reveal_strlit("NoValidRecipients");
    reveal_strlit("InvalidMergeData");
    reveal_strlit("InvalidTemplateId");
    reveal_strlit("MessageBodyConflict");
    assert("InvalidAttachment"@.len() != "Warning"@.len());
    assert("MessageTooLarge"@.len() != "Warning"@.len());
    assert("MessageTooLarge"@.len() != "InvalidAttachment"@.len());
    assert("EmptySubject"@.len() != "Warning"@.len());
    assert("EmptySubject"@.len() != "InvalidAttachment"@.len());
    assert("EmptySubject"@.len() != "MessageTooLarge"@.len());
    assert("EmptyToAddress"@.len() != "Warning"@.len());
    assert("EmptyToAddress"@.len() != "InvalidAttachment"@.len());
    assert("EmptyToAddress"@.len() != "MessageTooLarge"@.len());
    assert("EmptyToAddress"@.len() != "EmptySubject"@.len());
    assert("InvalidFromAddress"@.len() != "Warning"@.len());
    assert("InvalidFromAddress"@.len() != "InvalidAttachment"@.len());
    assert("InvalidFromAddress"@.len() != "MessageTooLarge"@.len());
    assert("InvalidFromAddress"@.len() != "EmptySubject"@.len());
    assert("InvalidFromAddress"@.len() != "EmptyToAddress"@.len());
    assert("NoValidBodyParts"@.len() != "Warning"@.len());
    assert("NoValidBodyParts"@.len() != "InvalidAttachment"@.len());
    assert("NoValidBodyParts"@.len() != "MessageTooLarge"@.len());
    assert("NoValidBodyParts"@.len() != "EmptySubject"@.len());
    assert("NoValidBodyParts"@.len() != "EmptyToAddress"@.len());
    assert("NoValidBodyParts"@.len() != "InvalidFromAddress"@.len());
    assert("NoValidRecipients"@.len() != "Warning"@.len());
    assert("NoValidRecipients"@[0] != "InvalidAttachment"@[0]);
    assert("NoValidRecipients"@.len() != "MessageTooLarge"@.len());
    assert("NoValidRecipients"@.len() != "EmptySubject"@.len());
    assert("NoValidRecipients"@.len() != "EmptyToAddress"@.len());
    assert("NoValidRecipients"@.len() != "InvalidFromAddress"@.len());
    assert("NoValidRecipients"@.len() != "NoValidBodyParts"@.len());
    assert("InvalidMergeData"@.len() != "Warning"@.len());
    assert("InvalidMergeData"@.len() != "InvalidAttachment"@.len());
    assert("InvalidMergeData"@.len() != "MessageTooLarge"@.len());
    assert("InvalidMergeData"@.len() != "EmptySubject"@.len());
    assert("InvalidMergeData"@.len() != "EmptyToAddress"@.len());
    assert("InvalidMergeData"@.len() != "InvalidFromAddress"@.len());
    assert("InvalidMergeData"@[0] != "NoValidBodyParts"@[0]);
    assert("InvalidMergeData"@.len() != "NoValidRecipients"@.len());
    assert("InvalidTemplateId"@.len() != "Warning"@.len());
    assert("InvalidTemplateId"@[7] != "InvalidAttachment"@[7]);
    assert("InvalidTemplateId"@.len() != "MessageTooLarge"@.len());
    assert("InvalidTemplateId"@.len() != "EmptySubject"@.len());
    assert("InvalidTemplateId"@.len() != "EmptyToAddress"@.len());
    assert("InvalidTemplateId"@.len() != "InvalidFromAddress"@.len());
    assert("InvalidTemplateId"@.len() != "NoValidBodyParts"@.len());
    assert("InvalidTemplateId"@[0] != "NoValidRecipients"@[0]);
    assert("InvalidTemplateId"@.len() != "InvalidMergeData"@.len());
    assert("MessageBodyConflict"@.len() != "Warning"@.len());
    assert("MessageBodyConflict"@.len() != "InvalidAttachment"@.len());
    assert("MessageBodyConflict"@.len() != "MessageTooLarge"@.len());
    assert("MessageBodyConflict"@.len() != "EmptySubject"@.len());
    assert("MessageBodyConflict"@.len() != "EmptyToAddress"@.len());
    assert("MessageBodyConflict"@.len() != "InvalidFromAddress"@.len());
    assert("MessageBodyConflict"@.len() != "NoValidBodyParts"@.len());
    assert("MessageBodyConflict"@.len() != "NoValidRecipients"@.len());
    assert("MessageBodyConflict"@.len() != "InvalidMergeData"@.len());
    assert("MessageBodyConflict"@.len() != "InvalidTemplateId"@.len());
}

/// Every known code decodes from its own tag.
pub proof fn lemma_address_tag_round_trip(c: AddressResultErrorCode)
    requires
        c.spec_tag() is Some,
    ensures
        AddressResultErrorCode::spec_from_tag(c.spec_tag()->0) == c,
{
    reveal_strlit("InvalidAddress");
}

} // verus!

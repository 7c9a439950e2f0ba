//! The protocol's data model: the closed set of interaction variants a
//! request decodes to, the closed set of response variants, and the message
//! flag bitmask. Each executable type has a mathematical model (`View`) that
//! the decoding and encoding contracts speak of.

use vstd::prelude::*;

verus! {

/// One inbound request: a liveness probe, or an invocation of a named
/// command. The wire discriminant `type` (1 or 2) selects the variant; any
/// other discriminant is a decode failure, never a default.
#[derive(Debug)]
pub enum Interaction {
    Ping,
    ApplicationCommand { data: ApplicationCommandData, interaction: InteractionCommon },
}

/// Context common to command invocations, carried through unchanged.
#[derive(Debug)]
pub struct InteractionCommon {
    pub guild_id: Option<String>,
    pub channel_id: Option<String>,
    pub token: String,
    pub id: String,
    pub application_id: String,
}

/// The invoked command: its identifier, dispatch name (matched
/// case-sensitively), kind, and optional ordered argument list.
#[derive(Debug)]
pub struct ApplicationCommandData {
    pub id: String,
    pub name: String,
    pub t: u8,
    pub options: Option<Vec<ApplicationCommandOption>>,
}

/// One named argument to a command.
#[derive(Debug)]
pub struct ApplicationCommandOption {
    pub name: String,
    pub value: ApplicationCommandOptionType,
}

/// A command argument's payload, selected by a wire discriminant 1-11.
/// Discriminants 3, 4 and 5 carry one scalar whose JSON type must match;
/// 10 carries a number, held here as its decimal text; the rest carry no
/// scalar payload in this model.
#[derive(Debug)]
#[allow(non_camel_case_types)]
pub enum ApplicationCommandOptionType {
    SUB_COMMAND,
    SUB_COMMAND_GROUP,
    STRING(String),
    INTEGER(i64),
    BOOLEAN(bool),
    USER,
    CHANNEL,
    ROLE,
    MENTIONABLE,
    NUMBER(String),
    ATTACHMENT,
}

/// One outbound response: a probe acknowledgement, or a channel message.
/// Each variant has a fixed integer tag in the encoded envelope.
pub enum InteractionResponse {
    ChannelMessageWithSource(ChannelMessageWithSourceData),
    Pong,
}

/// Payload of a channel-message response. A field that is not set is
/// omitted entirely from the encoded JSON, never encoded as `null`.
pub struct ChannelMessageWithSourceData {
    pub tts: Option<bool>,
    pub content: Option<String>,
    pub embeds: Option<Vec<Embed>>,
    pub allowed_mentions: Option<()>,
    pub flags: Option<u32>,
    pub components: Option<()>,
    pub attachments: Option<()>,
}

impl ChannelMessageWithSourceData {
    /// A message carrying only `content`; every other field is not set.
    pub fn content(content: &str) -> (r: Self)
        ensures
            r@ == (MessageDataModel {
                tts: None,
                content: Some(content@),
                embeds: None,
                allowed_mentions: None,
                flags: None,
                components: None,
                attachments: None,
            }),
    {
        ChannelMessageWithSourceData {
            content: Some(String::from_str(content)),
            tts: None,
            embeds: None,
            allowed_mentions: None,
            flags: None,
            components: None,
            attachments: None,
        }
    }
}

/// A rich embed. The engine encodes one as an empty object.
pub struct Embed {}

// ----- mathematical models -----

/// Model of `InteractionCommon`.
pub struct CommonModel {
    pub guild_id: Option<Seq<char>>,
    pub channel_id: Option<Seq<char>>,
    pub token: Seq<char>,
    pub id: Seq<char>,
    pub application_id: Seq<char>,
}

/// Model of `ApplicationCommandOptionType`.
#[allow(non_camel_case_types)]
pub enum OptionValueModel {
    SUB_COMMAND,
    SUB_COMMAND_GROUP,
    STRING(Seq<char>),
    INTEGER(i64),
    BOOLEAN(bool),
    USER,
    CHANNEL,
    ROLE,
    MENTIONABLE,
    NUMBER(Seq<char>),
    ATTACHMENT,
}

/// Model of `ApplicationCommandOption`.
pub struct OptionModel {
    pub name: Seq<char>,
    pub value: OptionValueModel,
}

/// Model of `ApplicationCommandData`.
pub struct DataModel {
    pub id: Seq<char>,
    pub name: Seq<char>,
    pub t: u8,
    pub options: Option<Seq<OptionModel>>,
}

/// Model of `Interaction`.
pub enum InteractionModel {
    Ping,
    ApplicationCommand { data: DataModel, interaction: CommonModel },
}

/// Model of `ChannelMessageWithSourceData`.
pub struct MessageDataModel {
    pub tts: Option<bool>,
    pub content: Option<Seq<char>>,
    pub embeds: Option<Seq<()>>,
    pub allowed_mentions: Option<()>,
    pub flags: Option<u32>,
    pub components: Option<()>,
    pub attachments: Option<()>,
}

/// Model of `InteractionResponse`.
pub enum ResponseModel {
    ChannelMessageWithSource(MessageDataModel),
    Pong,
}

impl View for InteractionCommon {
    type V = CommonModel;

    open spec fn view(&self) -> CommonModel {
        CommonModel {
            guild_id: self.guild_id.deep_view(),
            channel_id: self.channel_id.deep_view(),
            token: self.token@,
            id: self.id@,
            application_id: self.application_id@,
        }
    }
}

impl View for ApplicationCommandOptionType {
    type V = OptionValueModel;

    open spec fn view(&self) -> OptionValueModel {
        match self {
            ApplicationCommandOptionType::SUB_COMMAND => OptionValueModel::SUB_COMMAND,
            ApplicationCommandOptionType::SUB_COMMAND_GROUP => OptionValueModel::SUB_COMMAND_GROUP,
            ApplicationCommandOptionType::STRING(s) => OptionValueModel::STRING(s@),
            ApplicationCommandOptionType::INTEGER(i) => OptionValueModel::INTEGER(*i),
            ApplicationCommandOptionType::BOOLEAN(b) => OptionValueModel::BOOLEAN(*b),
            ApplicationCommandOptionType::USER => OptionValueModel::USER,
            ApplicationCommandOptionType::CHANNEL => OptionValueModel::CHANNEL,
            ApplicationCommandOptionType::ROLE => OptionValueModel::ROLE,
            ApplicationCommandOptionType::MENTIONABLE => OptionValueModel::MENTIONABLE,
            ApplicationCommandOptionType::NUMBER(s) => OptionValueModel::NUMBER(s@),
            ApplicationCommandOptionType::ATTACHMENT => OptionValueModel::ATTACHMENT,
        }
    }
}

impl View for ApplicationCommandOption {
    type V = OptionModel;

    open spec fn view(&self) -> OptionModel {
        OptionModel { name: self.name@, value: self.value@ }
    }
}

impl View for ApplicationCommandData {
    type V = DataModel;

    open spec fn view(&self) -> DataModel {
        DataModel {
            id: self.id@,
            name: self.name@,
            t: self.t,
            options: match self.options {
                Some(v) => Some(v@.map_values(|o: ApplicationCommandOption| o@)),
                None => None,
            },
        }
    }
}

impl View for Interaction {
    type V = InteractionModel;

    open spec fn view(&self) -> InteractionModel {
        match self {
            Interaction::Ping => InteractionModel::Ping,
            Interaction::ApplicationCommand { data, interaction } => {
                InteractionModel::ApplicationCommand { data: data@, interaction: interaction@ }
            },
        }
    }
}

impl View for Embed {
    type V = ();

    open spec fn view(&self) -> () {
        ()
    }
}

impl View for ChannelMessageWithSourceData {
    type V = MessageDataModel;

    open spec fn view(&self) -> MessageDataModel {
        MessageDataModel {
            tts: self.tts,
            content: match self.content {
                Some(s) => Some(s@),
                None => None,
            },
            embeds: match self.embeds {
                Some(v) => Some(v@.map_values(|e: Embed| e@)),
                None => None,
            },
            allowed_mentions: self.allowed_mentions,
            flags: self.flags,
            components: self.components,
            attachments: self.attachments,
        }
    }
}

impl View for InteractionResponse {
    type V = ResponseModel;

    open spec fn view(&self) -> ResponseModel {
        match self {
            InteractionResponse::ChannelMessageWithSource(d) => {
                ResponseModel::ChannelMessageWithSource(d@)
            },
            InteractionResponse::Pong => ResponseModel::Pong,
        }
    }
}

// ----- message flags -----

/// Bit of a message crossposted to following channels.
pub const FLAG_CROSSPOSTED: u32 = 1;

/// Bit of a message that is a crosspost from another channel.
pub const FLAG_IS_CROSSPOST: u32 = 2;

/// Bit suppressing the message's embeds.
pub const FLAG_SUPPRESS_EMBEDS: u32 = 4;

/// Bit of a crosspost whose source message was deleted.
pub const FLAG_SOURCE_MESSAGE_DELETED: u32 = 8;

/// Bit of an urgent system message.
pub const FLAG_URGENT: u32 = 16;

/// Bit of a message with an associated thread.
pub const FLAG_HAS_THREAD: u32 = 32;

/// Bit of a message visible only to the invoking user.
pub const FLAG_EPHEMERAL: u32 = 64;

/// Bit of a deferred "thinking" response.
pub const FLAG_LOADING: u32 = 128;

/// Bit of a thread message that failed to mention some roles.
pub const FLAG_FAILED_TO_MENTION_SOME_ROLES_IN_THREAD: u32 = 256;

/// A bitmask over named single-bit message flags: combinable and
/// order-independent, with explicit union, intersection and containment.
#[derive(Clone, Copy, PartialEq, Eq, Structural)]
pub struct MessageFlags {
    pub bits: u32,
}

impl MessageFlags {
    /// The empty mask.
    pub fn empty() -> (r: MessageFlags)
        ensures
            r.bits == 0,
    {
        MessageFlags { bits: 0 }
    }

    /// The mask holding exactly the bits of `bits`.
    pub fn from_bits(bits: u32) -> (r: MessageFlags)
        ensures
            r.bits == bits,
    {
        MessageFlags { bits }
    }

    /// The raw bits of the mask.
    pub fn bits(&self) -> (r: u32)
        ensures
            r == self.bits,
    {
        self.bits
    }

    /// Union of two masks.
    pub fn union(&self, other: &MessageFlags) -> (r: MessageFlags)
        ensures
            r.bits == self.bits | other.bits,
    {
        MessageFlags { bits: self.bits | other.bits }
    }

    /// Intersection of two masks.
    pub fn intersect(&self, other: &MessageFlags) -> (r: MessageFlags)
        ensures
            r.bits == self.bits & other.bits,
    {
        MessageFlags { bits: self.bits & other.bits }
    }

    /// Whether every bit of `other` is set in `self`.
    pub fn contains(&self, other: &MessageFlags) -> (r: bool)
        ensures
            r == (self.bits & other.bits == other.bits),
    {
        self.bits & other.bits == other.bits
    }
}

/// Union of flag masks is order-independent: combining in either order
/// yields the same mask.
pub proof fn lemma_flags_union_commutes(a: MessageFlags, b: MessageFlags)
    ensures
        a.bits | b.bits == b.bits | a.bits,
{
    let x = a.bits;
    let y = b.bits;
    assert(x | y == y | x) by (bit_vector);
}

} // verus!

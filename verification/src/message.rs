//! Message-family components: chat messages, system notices, reactions,
//! attachments, and the reply / slash-command prefixes.

use vstd::prelude::*;

use crate::generatable::{
    attrs_view, clone_opt, flag_attr, lemma_attrs_contains_concat, lemma_flag_attr_contains,
    lemma_num_attr_contains, lemma_opt_attr_contains, lemma_opt_flag_attr_contains,
    lemma_str_attr_contains, num_attr, opt_attr, opt_flag_attr, push_flag_attr, push_lit_attr,
    push_num_attr, push_opt_attr, push_opt_flag_attr, push_opt_num_attr, push_str_attr, str_attr,
    Generatable,
};
use crate::generatable::{opt_nat, opt_num_attr};

verus! {

/// A chat message shown with author line and body.
pub struct Message {
    pub author: String,
    pub avatar: Option<String>,
    pub bot: bool,
    pub edited: bool,
    pub ephemeral: bool,
    pub highlight: bool,
    pub role_color: Option<String>,
    pub timestamp: Option<String>,
    pub verified: bool,
}

/// The abstract content of a `Message`.
#[verifier::ext_equal]
pub struct MessageV {
    pub author: Seq<char>,
    pub avatar: Option<Seq<char>>,
    pub bot: bool,
    pub edited: bool,
    pub ephemeral: bool,
    pub highlight: bool,
    pub role_color: Option<Seq<char>>,
    pub timestamp: Option<Seq<char>>,
    pub verified: bool,
}

impl View for Message {
    type V = MessageV;

    open spec fn view(&self) -> MessageV {
        MessageV {
            author: self.author@,
            avatar: self.avatar.deep_view(),
            bot: self.bot,
            edited: self.edited,
            ephemeral: self.ephemeral,
            highlight: self.highlight,
            role_color: self.role_color.deep_view(),
            timestamp: self.timestamp.deep_view(),
            verified: self.verified,
        }
    }
}

/// The attribute list of a message.
pub open spec fn message_attrs(m: MessageV) -> Seq<(Seq<char>, Seq<char>)> {
    str_attr("author"@, m.author) + opt_attr("avatar"@, m.avatar) + flag_attr("bot"@, m.bot)
        + flag_attr("edited"@, m.edited) + flag_attr("ephemeral"@, m.ephemeral) + flag_attr(
        "highlight"@,
        m.highlight,
    ) + opt_attr("role-color"@, m.role_color) + opt_attr("timestamp"@, m.timestamp) + flag_attr(
        "verified"@,
        m.verified,
    )
}

impl Generatable for Message {
    fn name(&self) -> (r: &'static str)
        ensures
            r@ == "discord-message"@,
    {
        "discord-message"
    }

    fn attributes(&self) -> (r: Vec<(String, String)>)
        ensures
            attrs_view(r@) == message_attrs(self@),
    {
        let mut attr: Vec<(String, String)> = Vec::new();
        push_str_attr(&mut attr, "author", self.author.clone());
        push_opt_attr(&mut attr, "avatar", clone_opt(&self.avatar));
        push_flag_attr(&mut attr, "bot", self.bot);
        push_flag_attr(&mut attr, "edited", self.edited);
        push_flag_attr(&mut attr, "ephemeral", self.ephemeral);
        push_flag_attr(&mut attr, "highlight", self.highlight);
        push_opt_attr(&mut attr, "role-color", clone_opt(&self.role_color));
        push_opt_attr(&mut attr, "timestamp", clone_opt(&self.timestamp));
        push_flag_attr(&mut attr, "verified", self.verified);
        proof {
            assert(attrs_view(attr@) =~= message_attrs(self@));
        }
        attr
    }
}

/// Exactly which attributes a message emits, pinned pair by pair.
pub proof fn lemma_message_attr_pairs(m: MessageV, x: (Seq<char>, Seq<char>))
    ensures
        message_attrs(m).contains(x) == (x == ("author"@, m.author) || (m.avatar is Some && x == (
            "avatar"@,
            m.avatar->0,
        )) || (m.bot && x == ("bot"@, Seq::<char>::empty())) || (m.edited && x == (
            "edited"@,
            Seq::<char>::empty(),
        )) || (m.ephemeral && x == ("ephemeral"@, Seq::<char>::empty())) || (m.highlight && x == (
            "highlight"@,
            Seq::<char>::empty(),
        )) || (m.role_color is Some && x == ("role-color"@, m.role_color->0)) || (m.timestamp
            is Some && x == ("timestamp"@, m.timestamp->0)) || (m.verified && x == (
            "verified"@,
            Seq::<char>::empty(),
        ))),
{
    let s1 = str_attr("author"@, m.author);
    let s2 = opt_attr("avatar"@, m.avatar);
    let s3 = flag_attr("bot"@, m.bot);
    let s4 = flag_attr("edited"@, m.edited);
    let s5 = flag_attr("ephemeral"@, m.ephemeral);
    let s6 = flag_attr("highlight"@, m.highlight);
    let s7 = opt_attr("role-color"@, m.role_color);
    let s8 = opt_attr("timestamp"@, m.timestamp);
    let s9 = flag_attr("verified"@, m.verified);
    lemma_str_attr_contains("author"@, m.author, x);
    lemma_opt_attr_contains("avatar"@, m.avatar, x);
    lemma_flag_attr_contains("bot"@, m.bot, x);
    lemma_flag_attr_contains("edited"@, m.edited, x);
    lemma_flag_attr_contains("ephemeral"@, m.ephemeral, x);
    lemma_flag_attr_contains("highlight"@, m.highlight, x);
    lemma_opt_attr_contains("role-color"@, m.role_color, x);
    lemma_opt_attr_contains("timestamp"@, m.timestamp, x);
    lemma_flag_attr_contains("verified"@, m.verified, x);
    lemma_attrs_contains_concat(s1, s2, x);
    lemma_attrs_contains_concat(s1 + s2, s3, x);
    lemma_attrs_contains_concat(s1 + s2 + s3, s4, x);
    lemma_attrs_contains_concat(s1 + s2 + s3 + s4, s5, x);
    lemma_attrs_contains_concat(s1 + s2 + s3 + s4 + s5, s6, x);
    lemma_attrs_contains_concat(s1 + s2 + s3 + s4 + s5 + s6, s7, x);
    lemma_attrs_contains_concat(s1 + s2 + s3 + s4 + s5 + s6 + s7, s8, x);
    lemma_attrs_contains_concat(s1 + s2 + s3 + s4 + s5 + s6 + s7 + s8, s9, x);
}

/// A message's boolean fields surface as flag attributes: a false field
/// never emits its attribute name, and a true field emits the bare name
/// with an empty value.
pub proof fn lemma_message_flag_attrs(m: MessageV)
    ensures
        m.bot ==> message_attrs(m).contains(("bot"@, Seq::<char>::empty())),
        !m.bot ==> (forall|v: Seq<char>| !message_attrs(m).contains((("bot"@, v)))),
        m.edited ==> message_attrs(m).contains(("edited"@, Seq::<char>::empty())),
        !m.edited ==> (forall|v: Seq<char>| !message_attrs(m).contains((("edited"@, v)))),
        m.ephemeral ==> message_attrs(m).contains(("ephemeral"@, Seq::<char>::empty())),
        !m.ephemeral ==> (forall|v: Seq<char>| !message_attrs(m).contains((("ephemeral"@, v)))),
        m.highlight ==> message_attrs(m).contains(("highlight"@, Seq::<char>::empty())),
        !m.highlight ==> (forall|v: Seq<char>| !message_attrs(m).contains((("highlight"@, v)))),
        m.verified ==> message_attrs(m).contains(("verified"@, Seq::<char>::empty())),
        !m.verified ==> (forall|v: Seq<char>| !message_attrs(m).contains((("verified"@, v)))),
{
    proof_strlit_facts();
    lemma_message_attr_pairs(m, ("bot"@, Seq::<char>::empty()));
    lemma_message_attr_pairs(m, ("edited"@, Seq::<char>::empty()));
    lemma_message_attr_pairs(m, ("ephemeral"@, Seq::<char>::empty()));
    lemma_message_attr_pairs(m, ("highlight"@, Seq::<char>::empty()));
    lemma_message_attr_pairs(m, ("verified"@, Seq::<char>::empty()));
    assert forall|v: Seq<char>| !m.bot implies !message_attrs(m).contains((("bot"@, v))) by {
        lemma_message_attr_pairs(m, ("bot"@, v));
    }
    assert forall|v: Seq<char>| !m.edited implies !message_attrs(m).contains(
        (("edited"@, v)),
    ) by {
        lemma_message_attr_pairs(m, ("edited"@, v));
    }
    assert forall|v: Seq<char>| !m.ephemeral implies !message_attrs(m).contains(
        (("ephemeral"@, v)),
    ) by {
        lemma_message_attr_pairs(m, ("ephemeral"@, v));
    }
    assert forall|v: Seq<char>| !m.highlight implies !message_attrs(m).contains(
        (("highlight"@, v)),
    ) by {
        lemma_message_attr_pairs(m, ("highlight"@, v));
    }
    assert forall|v: Seq<char>| !m.verified implies !message_attrs(m).contains(
        (("verified"@, v)),
    ) by {
        lemma_message_attr_pairs(m, ("verified"@, v));
    }
}

/// The message attribute names are pairwise distinct; revealing them lets
/// the flag lemmas tell them apart.
proof fn proof_strlit_facts()
    ensures
        "author"@ != "bot"@,
        "avatar"@ != "bot"@,
        "edited"@ != "bot"@,
        "ephemeral"@ != "bot"@,
        "highlight"@ != "bot"@,
        "role-color"@ != "bot"@,
        "timestamp"@ != "bot"@,
        "verified"@ != "bot"@,
        "author"@ != "edited"@,
        "avatar"@ != "edited"@,
        "ephemeral"@ != "edited"@,
        "highlight"@ != "edited"@,
        "role-color"@ != "edited"@,
        "timestamp"@ != "edited"@,
        "verified"@ != "edited"@,
        "author"@ != "ephemeral"@,
        "avatar"@ != "ephemeral"@,
        "highlight"@ != "ephemeral"@,
        "role-color"@ != "ephemeral"@,
        "timestamp"@ != "ephemeral"@,
        "verified"@ != "ephemeral"@,
        "author"@ != "highlight"@,
        "avatar"@ != "highlight"@,
        "role-color"@ != "highlight"@,
        "timestamp"@ != "highlight"@,
        "verified"@ != "highlight"@,
        "author"@ != "verified"@,
        "avatar"@ != "verified"@,
        "role-color"@ != "verified"@,
        "timestamp"@ != "verified"@,
{
    reveal_strlit("author");
    reveal_strlit("avatar");
    reveal_strlit("bot");
    reveal_strlit("edited");
    reveal_strlit("ephemeral");
    reveal_strlit("highlight");
    reveal_strlit("role-color");
    reveal_strlit("timestamp");
    reveal_strlit("verified");
    assert("author"@.len() == 6);
    assert("avatar"@.len() == 6);
    assert("bot"@.len() == 3);
    assert("edited"@.len() == 6);
    assert("ephemeral"@.len() == 9);
    assert("highlight"@.len() == 9);
    assert("role-color"@.len() == 10);
    assert("timestamp"@.len() == 9);
    assert("verified"@.len() == 8);
    assert("edited"@[0] != "author"@[0]);
    assert("edited"@[0] != "avatar"@[0]);
    assert("ephemeral"@[0] != "highlight"@[0]);
    assert("ephemeral"@[0] != "timestamp"@[0]);
    assert("highlight"@[0] != "timestamp"@[0]);
}

/// The fixed kinds of system notice.
#[derive(Clone, Copy, Debug, PartialEq, Eq, Structural)]
pub enum SystemMessageType {
    Alert,
    Boost,
    Call,
    Edit,
    Error,
    Join,
    Leave,
    MissedCall,
    Pin,
    Thread,
}

/// The text a system-notice kind shows in its `type` attribute.
pub open spec fn system_type_text(t: SystemMessageType) -> Seq<char> {
    match t {
        SystemMessageType::Alert => "alert"@,
        SystemMessageType::Boost => "boost"@,
        SystemMessageType::Call => "call"@,
        SystemMessageType::Edit => "edit"@,
        SystemMessageType::Error => "error"@,
        SystemMessageType::Join => "join"@,
        SystemMessageType::Leave => "leave"@,
        SystemMessageType::MissedCall => "missed-call"@,
        SystemMessageType::Pin => "pin"@,
        SystemMessageType::Thread => "thread"@,
    }
}

/// The kebab-cased name of a system-notice kind.
pub fn system_type_name(t: SystemMessageType) -> (r: &'static str)
    ensures
        r@ == system_type_text(t),
{
    match t {
        SystemMessageType::Alert => "alert",
        SystemMessageType::Boost => "boost",
        SystemMessageType::Call => "call",
        SystemMessageType::Edit => "edit",
        SystemMessageType::Error => "error",
        SystemMessageType::Join => "join",
        SystemMessageType::Leave => "leave",
        SystemMessageType::MissedCall => "missed-call",
        SystemMessageType::Pin => "pin",
        SystemMessageType::Thread => "thread",
    }
}

/// A system notice (join, leave, pin, ...) with minimal fields.
pub struct SystemMessage {
    pub kind: SystemMessageType,
    pub timestamp: Option<String>,
    pub channel_name: bool,
}

/// The abstract content of a `SystemMessage`.
#[verifier::ext_equal]
pub struct SystemMessageV {
    pub kind: SystemMessageType,
    pub timestamp: Option<Seq<char>>,
    pub channel_name: bool,
}

impl View for SystemMessage {
    type V = SystemMessageV;

    open spec fn view(&self) -> SystemMessageV {
        SystemMessageV {
            kind: self.kind,
            timestamp: self.timestamp.deep_view(),
            channel_name: self.channel_name,
        }
    }
}

/// The attribute list of a system notice.
pub open spec fn system_message_attrs(m: SystemMessageV) -> Seq<(Seq<char>, Seq<char>)> {
    str_attr("type"@, system_type_text(m.kind)) + opt_attr("timestamp"@, m.timestamp) + flag_attr(
        "channel-name"@,
        m.channel_name,
    )
}

impl Generatable for SystemMessage {
    fn name(&self) -> (r: &'static str)
        ensures
            r@ == "discord-system-message"@,
    {
        "discord-system-message"
    }

    fn attributes(&self) -> (r: Vec<(String, String)>)
        ensures
            attrs_view(r@) == system_message_attrs(self@),
    {
        let mut attr: Vec<(String, String)> = Vec::new();
        push_lit_attr(&mut attr, "type", system_type_name(self.kind));
        push_opt_attr(&mut attr, "timestamp", clone_opt(&self.timestamp));
        push_flag_attr(&mut attr, "channel-name", self.channel_name);
        proof {
            assert(attrs_view(attr@) =~= system_message_attrs(self@));
        }
        attr
    }
}

/// Exactly which attributes a system notice emits, pinned pair by pair.
pub proof fn lemma_system_message_attr_pairs(m: SystemMessageV, x: (Seq<char>, Seq<char>))
    ensures
        system_message_attrs(m).contains(x) == (x == ("type"@, system_type_text(m.kind)) || (
        m.timestamp is Some && x == ("timestamp"@, m.timestamp->0)) || (m.channel_name && x == (
            "channel-name"@,
            Seq::<char>::empty(),
        ))),
{
    let s1 = str_attr("type"@, system_type_text(m.kind));
    let s2 = opt_attr("timestamp"@, m.timestamp);
    let s3 = flag_attr("channel-name"@, m.channel_name);
    lemma_str_attr_contains("type"@, system_type_text(m.kind), x);
    lemma_opt_attr_contains("timestamp"@, m.timestamp, x);
    lemma_flag_attr_contains("channel-name"@, m.channel_name, x);
    lemma_attrs_contains_concat(s1, s2, x);
    lemma_attrs_contains_concat(s1 + s2, s3, x);
}

/// A system notice's boolean field surfaces as a flag attribute: false
/// never emits the attribute name, true emits the bare name with an
/// empty value.
pub proof fn lemma_system_message_flag_attrs(m: SystemMessageV)
    ensures
        m.channel_name ==> system_message_attrs(m).contains(
            ("channel-name"@, Seq::<char>::empty()),
        ),
        !m.channel_name ==> (forall|v: Seq<char>|
            !system_message_attrs(m).contains((("channel-name"@, v)))),
{
    reveal_strlit("type");
    reveal_strlit("timestamp");
    reveal_strlit("channel-name");
    assert("type"@.len() == 4);
    assert("timestamp"@.len() == 9);
    assert("channel-name"@.len() == 12);
    lemma_system_message_attr_pairs(m, ("channel-name"@, Seq::<char>::empty()));
    assert forall|v: Seq<char>| !m.channel_name implies !system_message_attrs(m).contains(
        (("channel-name"@, v)),
    ) by {
        lemma_system_message_attr_pairs(m, ("channel-name"@, v));
    }
}

/// The wrapper holding a message's reactions.
pub struct Reactions;

impl Generatable for Reactions {
    fn name(&self) -> (r: &'static str)
        ensures
            r@ == "discord-reactions"@,
    {
        "discord-reactions"
    }

    fn attributes(&self) -> (r: Vec<(String, String)>)
        ensures
            attrs_view(r@) == reactions_attrs(),
    {
        let mut attr: Vec<(String, String)> = Vec::new();
        push_lit_attr(&mut attr, "slot", "reactions");
        proof {
            assert(attrs_view(attr@) =~= reactions_attrs());
        }
        attr
    }
}

/// The attribute list of the reactions wrapper: its slot designation only.
pub open spec fn reactions_attrs() -> Seq<(Seq<char>, Seq<char>)> {
    str_attr("slot"@, "reactions"@)
}

/// One reaction under a message.
pub struct Reaction {
    pub name: String,
    pub emoji: Option<String>,
    pub count: usize,
    pub interactive: bool,
    pub reacted: bool,
}

/// The abstract content of a `Reaction`.
#[verifier::ext_equal]
pub struct ReactionV {
    pub name: Seq<char>,
    pub emoji: Option<Seq<char>>,
    pub count: nat,
    pub interactive: bool,
    pub reacted: bool,
}

impl View for Reaction {
    type V = ReactionV;

    open spec fn view(&self) -> ReactionV {
        ReactionV {
            name: self.name@,
            emoji: self.emoji.deep_view(),
            count: self.count as nat,
            interactive: self.interactive,
            reacted: self.reacted,
        }
    }
}

/// The attribute list of a reaction.
pub open spec fn reaction_attrs(m: ReactionV) -> Seq<(Seq<char>, Seq<char>)> {
    str_attr("name"@, m.name) + opt_attr("emoji"@, m.emoji) + num_attr("count"@, m.count)
        + flag_attr("interactive"@, m.interactive) + flag_attr("reacted"@, m.reacted)
}

impl Generatable for Reaction {
    fn name(&self) -> (r: &'static str)
        ensures
            r@ == "discord-reaction"@,
    {
        "discord-reaction"
    }

    fn attributes(&self) -> (r: Vec<(String, String)>)
        ensures
            attrs_view(r@) == reaction_attrs(self@),
    {
        let mut attr: Vec<(String, String)> = Vec::new();
        push_str_attr(&mut attr, "name", self.name.clone());
        push_opt_attr(&mut attr, "emoji", clone_opt(&self.emoji));
        push_num_attr(&mut attr, "count", self.count as u64);
        push_flag_attr(&mut attr, "interactive", self.interactive);
        push_flag_attr(&mut attr, "reacted", self.reacted);
        proof {
            assert(attrs_view(attr@) =~= reaction_attrs(self@));
        }
        attr
    }
}

/// Exactly which attributes a reaction emits, pinned pair by pair.
pub proof fn lemma_reaction_attr_pairs(m: ReactionV, x: (Seq<char>, Seq<char>))
    ensures
        reaction_attrs(m).contains(x) == (x == ("name"@, m.name) || (m.emoji is Some && x == (
            "emoji"@,
            m.emoji->0,
        )) || x == ("count"@, crate::text::dec_seq(m.count)) || (m.interactive && x == (
            "interactive"@,
            Seq::<char>::empty(),
        )) || (m.reacted && x == ("reacted"@, Seq::<char>::empty()))),
{
    let s1 = str_attr("name"@, m.name);
    let s2 = opt_attr("emoji"@, m.emoji);
    let s3 = num_attr("count"@, m.count);
    let s4 = flag_attr("interactive"@, m.interactive);
    let s5 = flag_attr("reacted"@, m.reacted);
    lemma_str_attr_contains("name"@, m.name, x);
    lemma_opt_attr_contains("emoji"@, m.emoji, x);
    lemma_num_attr_contains("count"@, m.count, x);
    lemma_flag_attr_contains("interactive"@, m.interactive, x);
    lemma_flag_attr_contains("reacted"@, m.reacted, x);
    lemma_attrs_contains_concat(s1, s2, x);
    lemma_attrs_contains_concat(s1 + s2, s3, x);
    lemma_attrs_contains_concat(s1 + s2 + s3, s4, x);
    lemma_attrs_contains_concat(s1 + s2 + s3 + s4, s5, x);
}

/// A reaction's boolean fields surface as flag attributes: a false field
/// never emits its attribute name, and a true field emits the bare name
/// with an empty value.
pub proof fn lemma_reaction_flag_attrs(m: ReactionV)
    ensures
        m.interactive ==> reaction_attrs(m).contains(("interactive"@, Seq::<char>::empty())),
        !m.interactive ==> (forall|v: Seq<char>| !reaction_attrs(m).contains((("interactive"@, v)))),
        m.reacted ==> reaction_attrs(m).contains(("reacted"@, Seq::<char>::empty())),
        !m.reacted ==> (forall|v: Seq<char>| !reaction_attrs(m).contains((("reacted"@, v)))),
{
    reveal_strlit("name");
    reveal_strlit("emoji");
    reveal_strlit("count");
    reveal_strlit("interactive");
    reveal_strlit("reacted");
    assert("name"@.len() == 4);
    assert("emoji"@.len() == 5);
    assert("count"@.len() == 5);
    assert("interactive"@.len() == 11);
    assert("reacted"@.len() == 7);
    lemma_reaction_attr_pairs(m, ("interactive"@, Seq::<char>::empty()));
    lemma_reaction_attr_pairs(m, ("reacted"@, Seq::<char>::empty()));
    assert forall|v: Seq<char>| !m.interactive implies !reaction_attrs(m).contains(
        (("interactive"@, v)),
    ) by {
        lemma_reaction_attr_pairs(m, ("interactive"@, v));
    }
    assert forall|v: Seq<char>| !m.reacted implies !reaction_attrs(m).contains(
        (("reacted"@, v)),
    ) by {
        lemma_reaction_attr_pairs(m, ("reacted"@, v));
    }
}

/// A media attachment under a message.
pub struct Attachment {
    pub url: String,
    pub height: Option<u64>,
    pub width: Option<u64>,
    pub alt: Option<String>,
}

/// The abstract content of an `Attachment`.
#[verifier::ext_equal]
pub struct AttachmentV {
    pub url: Seq<char>,
    pub height: Option<nat>,
    pub width: Option<nat>,
    pub alt: Option<Seq<char>>,
}

impl View for Attachment {
    type V = AttachmentV;

    open spec fn view(&self) -> AttachmentV {
        AttachmentV {
            url: self.url@,
            height: opt_nat(self.height),
            width: opt_nat(self.width),
            alt: self.alt.deep_view(),
        }
    }
}

/// The attribute list of an attachment: its slot designation, then its
/// fields.
pub open spec fn attachment_attrs(m: AttachmentV) -> Seq<(Seq<char>, Seq<char>)> {
    str_attr("slot"@, "attachments"@) + str_attr("url"@, m.url) + opt_num_attr("height"@, m.height)
        + opt_num_attr("width"@, m.width) + opt_attr("alt"@, m.alt)
}

impl Generatable for Attachment {
    fn name(&self) -> (r: &'static str)
        ensures
            r@ == "discord-attachment"@,
    {
        "discord-attachment"
    }

    fn attributes(&self) -> (r: Vec<(String, String)>)
        ensures
            attrs_view(r@) == attachment_attrs(self@),
    {
        let mut attr: Vec<(String, String)> = Vec::new();
        push_lit_attr(&mut attr, "slot", "attachments");
        push_str_attr(&mut attr, "url", self.url.clone());
        push_opt_num_attr(&mut attr, "height", self.height);
        push_opt_num_attr(&mut attr, "width", self.width);
        push_opt_attr(&mut attr, "alt", clone_opt(&self.alt));
        proof {
            assert(attrs_view(attr@) =~= attachment_attrs(self@));
        }
        attr
    }
}

/// The quoted-message prefix a reply shows above a message.
pub struct Reply {
    pub author: String,
    pub avatar: Option<String>,
    pub role_color: Option<String>,
    pub attachment: Option<bool>,
    pub edited: Option<bool>,
    pub bot: Option<bool>,
    pub verified: Option<bool>,
    pub mentions: Option<bool>,
    pub op: Option<bool>,
    pub command: Option<bool>,
}

/// The abstract content of a `Reply`.
#[verifier::ext_equal]
pub struct ReplyV {
    pub author: Seq<char>,
    pub avatar: Option<Seq<char>>,
    pub role_color: Option<Seq<char>>,
    pub attachment: Option<bool>,
    pub edited: Option<bool>,
    pub bot: Option<bool>,
    pub verified: Option<bool>,
    pub mentions: Option<bool>,
    pub op: Option<bool>,
    pub command: Option<bool>,
}

impl View for Reply {
    type V = ReplyV;

    open spec fn view(&self) -> ReplyV {
        ReplyV {
            author: self.author@,
            avatar: self.avatar.deep_view(),
            role_color: self.role_color.deep_view(),
            attachment: self.attachment,
            edited: self.edited,
            bot: self.bot,
            verified: self.verified,
            mentions: self.mentions,
            op: self.op,
            command: self.command,
        }
    }
}

/// The attribute list of a reply prefix.
pub open spec fn reply_attrs(m: ReplyV) -> Seq<(Seq<char>, Seq<char>)> {
    str_attr("slot"@, "reply"@) + str_attr("author"@, m.author) + opt_attr("avatar"@, m.avatar)
        + opt_attr("role-color"@, m.role_color) + opt_flag_attr("attachment"@, m.attachment)
        + opt_flag_attr("edited"@, m.edited) + opt_flag_attr("bot"@, m.bot) + opt_flag_attr(
        "verified"@,
        m.verified,
    ) + opt_flag_attr("mentions"@, m.mentions) + opt_flag_attr("op"@, m.op) + opt_flag_attr(
        "command"@,
        m.command,
    )
}

impl Generatable for Reply {
    fn name(&self) -> (r: &'static str)
        ensures
            r@ == "discord-reply"@,
    {
        "discord-reply"
    }

    fn attributes(&self) -> (r: Vec<(String, String)>)
        ensures
            attrs_view(r@) == reply_attrs(self@),
    {
        let mut attr: Vec<(String, String)> = Vec::new();
        push_lit_attr(&mut attr, "slot", "reply");
        push_str_attr(&mut attr, "author", self.author.clone());
        push_opt_attr(&mut attr, "avatar", clone_opt(&self.avatar));
        push_opt_attr(&mut attr, "role-color", clone_opt(&self.role_color));
        push_opt_flag_attr(&mut attr, "attachment", self.attachment);
        push_opt_flag_attr(&mut attr, "edited", self.edited);
        push_opt_flag_attr(&mut attr, "bot", self.bot);
        push_opt_flag_attr(&mut attr, "verified", self.verified);
        push_opt_flag_attr(&mut attr, "mentions", self.mentions);
        push_opt_flag_attr(&mut attr, "op", self.op);
        push_opt_flag_attr(&mut attr, "command", self.command);
        proof {
            assert(attrs_view(attr@) =~= reply_attrs(self@));
        }
        attr
    }
}

/// Exactly which attributes a reply prefix emits, pinned pair by pair.
pub proof fn lemma_reply_attr_pairs(m: ReplyV, x: (Seq<char>, Seq<char>))
    ensures
        reply_attrs(m).contains(x) == (x == ("slot"@, "reply"@) || x == ("author"@, m.author) || (
        m.avatar is Some && x == ("avatar"@, m.avatar->0)) || (m.role_color is Some && x == (
            "role-color"@,
            m.role_color->0,
        )) || (m.attachment == Option::Some(true) && x == ("attachment"@, Seq::<char>::empty()))
            || (m.edited == Option::Some(true) && x == ("edited"@, Seq::<char>::empty())) || (m.bot
            == Option::Some(true) && x == ("bot"@, Seq::<char>::empty())) || (m.verified
            == Option::Some(true) && x == ("verified"@, Seq::<char>::empty())) || (m.mentions
            == Option::Some(true) && x == ("mentions"@, Seq::<char>::empty())) || (m.op
            == Option::Some(true) && x == ("op"@, Seq::<char>::empty())) || (m.command
            == Option::Some(true) && x == ("command"@, Seq::<char>::empty()))),
{
    let s1 = str_attr("slot"@, "reply"@);
    let s2 = str_attr("author"@, m.author);
    let s3 = opt_attr("avatar"@, m.avatar);
    let s4 = opt_attr("role-color"@, m.role_color);
    let s5 = opt_flag_attr("attachment"@, m.attachment);
    let s6 = opt_flag_attr("edited"@, m.edited);
    let s7 = opt_flag_attr("bot"@, m.bot);
    let s8 = opt_flag_attr("verified"@, m.verified);
    let s9 = opt_flag_attr("mentions"@, m.mentions);
    let s10 = opt_flag_attr("op"@, m.op);
    let s11 = opt_flag_attr("command"@, m.command);
    lemma_str_attr_contains("slot"@, "reply"@, x);
    lemma_str_attr_contains("author"@, m.author, x);
    lemma_opt_attr_contains("avatar"@, m.avatar, x);
    lemma_opt_attr_contains("role-color"@, m.role_color, x);
    lemma_opt_flag_attr_contains("attachment"@, m.attachment, x);
    lemma_opt_flag_attr_contains("edited"@, m.edited, x);
    lemma_opt_flag_attr_contains("bot"@, m.bot, x);
    lemma_opt_flag_attr_contains("verified"@, m.verified, x);
    lemma_opt_flag_attr_contains("mentions"@, m.mentions, x);
    lemma_opt_flag_attr_contains("op"@, m.op, x);
    lemma_opt_flag_attr_contains("command"@, m.command, x);
    lemma_attrs_contains_concat(s1, s2, x);
    lemma_attrs_contains_concat(s1 + s2, s3, x);
    lemma_attrs_contains_concat(s1 + s2 + s3, s4, x);
    lemma_attrs_contains_concat(s1 + s2 + s3 + s4, s5, x);
    lemma_attrs_contains_concat(s1 + s2 + s3 + s4 + s5, s6, x);
    lemma_attrs_contains_concat(s1 + s2 + s3 + s4 + s5 + s6, s7, x);
    lemma_attrs_contains_concat(s1 + s2 + s3 + s4 + s5 + s6 + s7, s8, x);
    lemma_attrs_contains_concat(s1 + s2 + s3 + s4 + s5 + s6 + s7 + s8, s9, x);
    lemma_attrs_contains_concat(s1 + s2 + s3 + s4 + s5 + s6 + s7 + s8 + s9, s10, x);
    lemma_attrs_contains_concat(s1 + s2 + s3 + s4 + s5 + s6 + s7 + s8 + s9 + s10, s11, x);
}

/// A reply's optional boolean fields surface as flag attributes: an
/// unset field and an explicit false both leave the attribute out, and a
/// true value emits the bare name with an empty value.
pub proof fn lemma_reply_flag_attrs(m: ReplyV)
    ensures
        m.attachment == Option::Some(true) <==> reply_attrs(m).contains(
            ("attachment"@, Seq::<char>::empty()),
        ),
        m.attachment != Option::Some(true) ==> (forall|v: Seq<char>|
            !reply_attrs(m).contains((("attachment"@, v)))),
        m.bot == Option::Some(true) <==> reply_attrs(m).contains(
            ("bot"@, Seq::<char>::empty()),
        ),
        m.bot != Option::Some(true) ==> (forall|v: Seq<char>|
            !reply_attrs(m).contains((("bot"@, v)))),
        m.op == Option::Some(true) <==> reply_attrs(m).contains(("op"@, Seq::<char>::empty())),
        m.op != Option::Some(true) ==> (forall|v: Seq<char>|
            !reply_attrs(m).contains((("op"@, v)))),
{
    reveal_strlit("slot");
    reveal_strlit("reply");
    reveal_strlit("author");
    reveal_strlit("avatar");
    reveal_strlit("role-color");
    reveal_strlit("attachment");
    reveal_strlit("edited");
    reveal_strlit("bot");
    reveal_strlit("verified");
    reveal_strlit("mentions");
    reveal_strlit("op");
    reveal_strlit("command");
    assert("slot"@.len() == 4);
    assert("author"@.len() == 6);
    assert("avatar"@.len() == 6);
    assert("role-color"@.len() == 10);
    assert("attachment"@.len() == 10);
    assert("edited"@.len() == 6);
    assert("bot"@.len() == 3);
    assert("verified"@.len() == 8);
    assert("mentions"@.len() == 8);
    assert("op"@.len() == 2);
    assert("command"@.len() == 7);
    assert("attachment"@[0] != "role-color"@[0]);
    lemma_reply_attr_pairs(m, ("attachment"@, Seq::<char>::empty()));
    lemma_reply_attr_pairs(m, ("bot"@, Seq::<char>::empty()));
    lemma_reply_attr_pairs(m, ("op"@, Seq::<char>::empty()));
    assert forall|v: Seq<char>| m.attachment != Option::Some(true) implies !reply_attrs(
        m,
    ).contains((("attachment"@, v))) by {
        lemma_reply_attr_pairs(m, ("attachment"@, v));
    }
    assert forall|v: Seq<char>| m.bot != Option::Some(true) implies !reply_attrs(m).contains(
        (("bot"@, v)),
    ) by {
        lemma_reply_attr_pairs(m, ("bot"@, v));
    }
    assert forall|v: Seq<char>| m.op != Option::Some(true) implies !reply_attrs(m).contains(
        (("op"@, v)),
    ) by {
        lemma_reply_attr_pairs(m, ("op"@, v));
    }
}

/// The slash-command prefix a message can show instead of a reply.
pub struct Command {
    pub command: String,
    pub author: String,
    pub avatar: Option<String>,
    pub role_color: Option<String>,
}

/// The abstract content of a `Command`.
#[verifier::ext_equal]
pub struct CommandV {
    pub command: Seq<char>,
    pub author: Seq<char>,
    pub avatar: Option<Seq<char>>,
    pub role_color: Option<Seq<char>>,
}

impl View for Command {
    type V = CommandV;

    open spec fn view(&self) -> CommandV {
        CommandV {
            command: self.command@,
            author: self.author@,
            avatar: self.avatar.deep_view(),
            role_color: self.role_color.deep_view(),
        }
    }
}

/// The attribute list of a slash-command prefix.
pub open spec fn command_attrs(m: CommandV) -> Seq<(Seq<char>, Seq<char>)> {
    str_attr("slot"@, "reply"@) + str_attr("command"@, m.command) + str_attr("author"@, m.author)
        + opt_attr("avatar"@, m.avatar) + opt_attr("role-color"@, m.role_color)
}

impl Generatable for Command {
    fn name(&self) -> (r: &'static str)
        ensures
            r@ == "discord-command"@,
    {
        "discord-command"
    }

    fn attributes(&self) -> (r: Vec<(String, String)>)
        ensures
            attrs_view(r@) == command_attrs(self@),
    {
        let mut attr: Vec<(String, String)> = Vec::new();
        push_lit_attr(&mut attr, "slot", "reply");
        push_str_attr(&mut attr, "command", self.command.clone());
        push_str_attr(&mut attr, "author", self.author.clone());
        push_opt_attr(&mut attr, "avatar", clone_opt(&self.avatar));
        push_opt_attr(&mut attr, "role-color", clone_opt(&self.role_color));
        proof {
            assert(attrs_view(attr@) =~= command_attrs(self@));
        }
        attr
    }
}

} // verus!

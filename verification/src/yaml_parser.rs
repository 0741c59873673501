//! The assembler: decoded message descriptions are validated and turned
//! into a document tree, applying the merge, ordering and exclusion rules
//! of the pipeline.
//!
//! Validation, per message and in this order (the first failing rule
//! wins): a basic message needs body text or an embed; it must identify
//! an author; its action-row list may hold at most five rows; it may not
//! be both a reply and a slash command; a system message needs content.

use vstd::prelude::*;

use crate::components::{ActionRow, Attachments, Button, ButtonType, ButtonV};
use crate::discord::{ResolvedUser, ResolvedUserV, UserTable};
use crate::embed::{Embed, EmbedDescription, EmbedField, EmbedFieldV, EmbedFields, EmbedFooter, EmbedFooterV, EmbedV};
use crate::generatable::{opt_nat, or_false, unwrap_or_false};
use crate::invite::{Invite, InviteV};
use crate::message::{
    Attachment, AttachmentV, Command, CommandV, Message, MessageV, Reaction, ReactionV, Reactions,
    Reply, ReplyV, SystemMessage, SystemMessageType, SystemMessageV,
};
use crate::roles::RoleMap;
use crate::text::{dec_seq, u64_to_dec};
use crate::tree::{
    lemma_trees_depth_bound, lemma_trees_depth_concat, lemma_trees_depth_singleton,
    lemma_trees_view_concat, lemma_trees_view_empty, lemma_trees_view_push,
    lemma_trees_view_singleton, tree_depth, tree_view, trees_depth, trees_view, CompV, Component,
    ComponentTree, Components, TreeV,
};
use vstd::string::StringExecFns;

verus! {

/// One decoded message description: a system notice or a basic message.
pub enum YamlMessage {
    System(YamlSystemMessage),
    Basic(YamlBasicMessage),
}

/// A decoded basic message, with every field optional that the textual
/// format leaves optional.
pub struct YamlBasicMessage {
    pub user_id: Option<u64>,
    pub username: Option<String>,
    pub avatar: Option<String>,
    pub color: Option<String>,
    pub timestamp: Option<String>,
    pub bot: Option<bool>,
    pub edited: Option<bool>,
    pub ephemeral: Option<bool>,
    pub highlight: Option<bool>,
    pub verified: Option<bool>,
    pub reply: Option<YamlReply>,
    pub command: Option<YamlCommand>,
    pub roles: Option<RoleMap>,
    pub embed: Option<YamlEmbed>,
    pub embeds: Option<Vec<YamlEmbed>>,
    pub reactions: Option<Vec<YamlReaction>>,
    pub attachments: Option<Vec<YamlAttachment>>,
    pub components: Option<Vec<YamlActionRow>>,
    pub invites: Option<Vec<YamlInvite>>,
    pub content: String,
}

/// A decoded system notice.
pub struct YamlSystemMessage {
    pub kind: SystemMessageType,
    pub channel_name: Option<bool>,
    pub timestamp: Option<String>,
    pub content: String,
}

/// A decoded embed.
pub struct YamlEmbed {
    pub title: Option<String>,
    pub url: Option<String>,
    pub color: Option<String>,
    pub description: Option<String>,
    pub image: Option<String>,
    pub thumbnail: Option<String>,
    pub timestamp: Option<String>,
    pub author: Option<Author>,
    pub fields: Option<Vec<Field>>,
    pub footer: Option<Footer>,
}

/// A decoded embed author line.
pub struct Author {
    pub text: String,
    pub image: Option<String>,
    pub url: Option<String>,
}

/// A decoded embed field.
pub struct Field {
    pub name: String,
    pub value: String,
    pub inline: bool,
    pub inline_index: usize,
}

/// A decoded embed footer.
pub struct Footer {
    pub text: Option<String>,
    pub image: Option<String>,
    pub timestamp: Option<String>,
}

/// A decoded reaction.
pub struct YamlReaction {
    pub emoji: String,
    pub name: Option<String>,
    pub count: Option<usize>,
    pub interactive: Option<bool>,
    pub reacted: Option<bool>,
}

/// A decoded attachment.
pub struct YamlAttachment {
    pub url: String,
    pub height: Option<u64>,
    pub width: Option<u64>,
    pub alt: Option<String>,
}

/// A decoded action row: its buttons.
pub struct YamlActionRow(pub Vec<YamlButton>);

/// A decoded button.
pub struct YamlButton {
    pub kind: ButtonType,
    pub label: String,
    pub disabled: Option<bool>,
    pub emoji: Option<String>,
    pub emoji_name: Option<String>,
    pub url: Option<String>,
}

/// A decoded invite.
pub struct YamlInvite {
    pub online: u64,
    pub members: u64,
    pub name: String,
    pub icon: Option<String>,
    pub partnered: Option<bool>,
    pub verified: Option<bool>,
}

/// A decoded reply prefix.
pub struct YamlReply {
    pub author: String,
    pub content: String,
    pub avatar: Option<String>,
    pub color: Option<String>,
    pub attachment: Option<bool>,
    pub edited: Option<bool>,
    pub bot: Option<bool>,
    pub verified: Option<bool>,
    pub mentions: Option<bool>,
    pub op: Option<bool>,
    pub command: Option<bool>,
    pub user_id: Option<u64>,
}

/// A decoded slash-command prefix.
pub struct YamlCommand {
    pub command: String,
    pub author: String,
    pub avatar: Option<String>,
    pub color: Option<String>,
    pub user_id: Option<u64>,
}

/// The user a message part resolves to, if lookup is enabled, the part
/// names a user id, and the table has it.
pub open spec fn lookup_user(users: Map<u64, ResolvedUserV>, lookup: bool, id: Option<u64>) -> Option<ResolvedUserV> {
    if lookup {
        match id {
            Option::Some(i) => if users.contains_key(i) {
                Option::Some(users[i])
            } else {
                Option::None
            },
            Option::None => Option::None,
        }
    } else {
        Option::None
    }
}

/// The node a reaction assembles to. An absent name, count or flag takes
/// the default: the generic emoji name, a count of one, false.
pub open spec fn reaction_node(y: YamlReaction) -> TreeV {
    TreeV::Node {
        data: CompV::Reaction(
            ReactionV {
                name: match y.name {
                    Option::Some(n) => n@,
                    Option::None => ":emoji:"@,
                },
                emoji: Option::Some(y.emoji@),
                count: match y.count {
                    Option::Some(c) => c as nat,
                    Option::None => 1,
                },
                interactive: unwrap_or_false(y.interactive),
                reacted: unwrap_or_false(y.reacted),
            },
        ),
        nodes: Seq::empty(),
    }
}

/// The node an attachment assembles to.
pub open spec fn attachment_node(y: YamlAttachment) -> TreeV {
    TreeV::Node {
        data: CompV::Attachment(
            AttachmentV {
                url: y.url@,
                height: opt_nat(y.height),
                width: opt_nat(y.width),
                alt: y.alt.deep_view(),
            },
        ),
        nodes: Seq::empty(),
    }
}

/// The node a button assembles to: the button with its label as text
/// child.
pub open spec fn button_node(y: YamlButton) -> TreeV {
    TreeV::Node {
        data: CompV::Button(
            ButtonV {
                kind: y.kind,
                disabled: unwrap_or_false(y.disabled),
                emoji: y.emoji.deep_view(),
                emoji_name: y.emoji_name.deep_view(),
                url: y.url.deep_view(),
            },
        ),
        nodes: seq![TreeV::Text(y.label@)],
    }
}

/// The nodes of a button list, in order.
pub open spec fn buttons_nodes(s: Seq<YamlButton>) -> Seq<TreeV> {
    s.map_values(|b: YamlButton| button_node(b))
}

/// The node an action row assembles to: its buttons in order.
pub open spec fn action_row_node(y: YamlActionRow) -> TreeV {
    TreeV::Node { data: CompV::ActionRow, nodes: buttons_nodes(y.0@) }
}

/// The node an invite assembles to.
pub open spec fn invite_node(y: YamlInvite) -> TreeV {
    TreeV::Node {
        data: CompV::Invite(
            InviteV {
                online: y.online as nat,
                members: y.members as nat,
                name: y.name@,
                icon: y.icon.deep_view(),
                partnered: unwrap_or_false(y.partnered),
                verified: unwrap_or_false(y.verified),
            },
        ),
        nodes: Seq::empty(),
    }
}

/// The node an embed field assembles to: the field with its value as text
/// child. Only an inline field carries an inline index.
pub open spec fn field_node(y: Field) -> TreeV {
    TreeV::Node {
        data: CompV::EmbedField(
            EmbedFieldV {
                field_title: y.name@,
                inline: y.inline,
                inline_index: if y.inline {
                    Option::Some(y.inline_index as nat)
                } else {
                    Option::None
                },
            },
        ),
        nodes: seq![TreeV::Text(y.value@)],
    }
}

impl YamlReaction {
    /// Assembles this reaction into its node.
    pub fn into_component(self) -> (r: ComponentTree)
        ensures
            tree_view(r) == reaction_node(self),
    {
        let YamlReaction { emoji, name, count, interactive, reacted } = self;
        let data = Reaction {
            name: match name {
                Option::Some(n) => n,
                Option::None => String::from_str(":emoji:"),
            },
            emoji: Option::Some(emoji),
            count: match count {
                Option::Some(c) => c,
                Option::None => 1,
            },
            interactive: or_false(interactive),
            reacted: or_false(reacted),
        };
        let r = ComponentTree::Node { data: Component::Reaction(data), nodes: Vec::new() };
        proof {
            lemma_trees_view_empty();
            assert(tree_view(r) =~~= reaction_node(self));
        }
        r
    }
}

impl YamlAttachment {
    /// Assembles this attachment into its node.
    pub fn into_component(self) -> (r: ComponentTree)
        ensures
            tree_view(r) == attachment_node(self),
    {
        let YamlAttachment { url, height, width, alt } = self;
        let data = Attachment { url, height, width, alt };
        let r = ComponentTree::Node { data: Component::Attachment(data), nodes: Vec::new() };
        proof {
            lemma_trees_view_empty();
            assert(tree_view(r) =~~= attachment_node(self));
        }
        r
    }
}

impl YamlButton {
    /// Assembles this button into its node.
    pub fn into_component(self) -> (r: ComponentTree)
        ensures
            tree_view(r) == button_node(self),
    {
        let YamlButton { kind, label, disabled, emoji, emoji_name, url } = self;
        let data = Button { kind, disabled: or_false(disabled), emoji, emoji_name, url };
        let mut nodes: Vec<ComponentTree> = Vec::new();
        nodes.push(ComponentTree::Text(label));
        let r = ComponentTree::Node { data: Component::Button(data), nodes };
        proof {
            lemma_trees_view_singleton(ComponentTree::Text(label));
            assert(seq![ComponentTree::Text(label)] =~= Seq::<ComponentTree>::empty().push(
                ComponentTree::Text(label),
            ));
            assert(tree_view(r) =~~= button_node(self));
        }
        r
    }
}

fn buttons_into_nodes(buttons: Vec<YamlButton>) -> (r: Vec<ComponentTree>)
    ensures
        trees_view(r@) == buttons_nodes(buttons@),
{
    let ghost orig = buttons@;
    let mut items = buttons;
    let mut out: Vec<ComponentTree> = Vec::new();
    proof {
        assert(orig.take(0) =~= Seq::<YamlButton>::empty());
        assert(trees_view(out@) =~= buttons_nodes(orig.take(0)));
        assert(orig.skip(0) =~= orig);
    }
    while items.len() > 0
        invariant
            out@.len() + items@.len() == orig.len(),
            items@ == orig.skip(out@.len() as int),
            trees_view(out@) == buttons_nodes(orig.take(out@.len() as int)),
        decreases items@.len(),
    {
        let ghost k = out@.len() as int;
        let ghost pre = out@;
        let b = items.remove(0);
        proof {
            assert(orig.skip(k)[0] == orig[k]);
            assert(orig.skip(k).remove(0) =~= orig.skip(k + 1));
        }
        let node = b.into_component();
        out.push(node);
        proof {
            lemma_trees_view_push(pre, node);
            assert(buttons_nodes(orig.take(k + 1)) =~= buttons_nodes(orig.take(k)).push(
                button_node(orig[k]),
            ));
        }
    }
    proof {
        assert(orig.take(out@.len() as int) =~= orig);
    }
    out
}

impl YamlActionRow {
    /// Assembles this action row into its node.
    pub fn into_component(self) -> (r: ComponentTree)
        ensures
            tree_view(r) == action_row_node(self),
    {
        let YamlActionRow(buttons) = self;
        let nodes = buttons_into_nodes(buttons);
        let r = ComponentTree::Node { data: Component::ActionRow(ActionRow), nodes };
        proof {
            assert(tree_view(r) =~~= action_row_node(self));
        }
        r
    }
}

impl YamlInvite {
    /// Assembles this invite into its node.
    pub fn into_component(self) -> (r: ComponentTree)
        ensures
            tree_view(r) == invite_node(self),
    {
        let YamlInvite { online, members, name, icon, partnered, verified } = self;
        let data = Invite {
            online,
            members,
            name,
            icon,
            partnered: or_false(partnered),
            verified: or_false(verified),
        };
        let r = ComponentTree::Node { data: Component::Invite(data), nodes: Vec::new() };
        proof {
            lemma_trees_view_empty();
            assert(tree_view(r) =~~= invite_node(self));
        }
        r
    }
}

impl Field {
    /// Assembles this embed field into its node.
    pub fn into_component(self) -> (r: ComponentTree)
        ensures
            tree_view(r) == field_node(self),
    {
        let Field { name, value, inline, inline_index } = self;
        let data = EmbedField {
            field_title: name,
            inline,
            inline_index: if inline {
                Option::Some(inline_index)
            } else {
                Option::None
            },
        };
        let mut nodes: Vec<ComponentTree> = Vec::new();
        nodes.push(ComponentTree::Text(value));
        let r = ComponentTree::Node { data: Component::EmbedField(data), nodes };
        proof {
            lemma_trees_view_singleton(ComponentTree::Text(value));
            assert(seq![ComponentTree::Text(value)] =~= Seq::<ComponentTree>::empty().push(
                ComponentTree::Text(value),
            ));
            assert(tree_view(r) =~~= field_node(self));
        }
        r
    }
}

/// The nodes of a reaction list, in order.
pub open spec fn reactions_nodes(s: Seq<YamlReaction>) -> Seq<TreeV> {
    s.map_values(|r: YamlReaction| reaction_node(r))
}

/// The nodes of an attachment list, in order.
pub open spec fn attachments_nodes(s: Seq<YamlAttachment>) -> Seq<TreeV> {
    s.map_values(|a: YamlAttachment| attachment_node(a))
}

/// The nodes of an action-row list, in order.
pub open spec fn action_rows_nodes(s: Seq<YamlActionRow>) -> Seq<TreeV> {
    s.map_values(|a: YamlActionRow| action_row_node(a))
}

/// The nodes of an invite list, in order.
pub open spec fn invites_nodes(s: Seq<YamlInvite>) -> Seq<TreeV> {
    s.map_values(|i: YamlInvite| invite_node(i))
}

/// The nodes of an embed-field list, in order.
pub open spec fn fields_nodes(s: Seq<Field>) -> Seq<TreeV> {
    s.map_values(|f: Field| field_node(f))
}

fn reactions_into_nodes(reactions: Vec<YamlReaction>) -> (r: Vec<ComponentTree>)
    ensures
        trees_view(r@) == reactions_nodes(reactions@),
{
    let ghost orig = reactions@;
    let mut items = reactions;
    let mut out: Vec<ComponentTree> = Vec::new();
    proof {
        assert(orig.take(0) =~= Seq::<YamlReaction>::empty());
        assert(trees_view(out@) =~= reactions_nodes(orig.take(0)));
        assert(orig.skip(0) =~= orig);
    }
    while items.len() > 0
        invariant
            out@.len() + items@.len() == orig.len(),
            items@ == orig.skip(out@.len() as int),
            trees_view(out@) == reactions_nodes(orig.take(out@.len() as int)),
        decreases items@.len(),
    {
        let ghost k = out@.len() as int;
        let ghost pre = out@;
        let b = items.remove(0);
        proof {
            assert(orig.skip(k)[0] == orig[k]);
            assert(orig.skip(k).remove(0) =~= orig.skip(k + 1));
        }
        let node = b.into_component();
        out.push(node);
        proof {
            lemma_trees_view_push(pre, node);
            assert(reactions_nodes(orig.take(k + 1)) =~= reactions_nodes(orig.take(k)).push(
                reaction_node(orig[k]),
            ));
        }
    }
    proof {
        assert(orig.take(out@.len() as int) =~= orig);
    }
    out
}

fn attachments_into_nodes(attachments: Vec<YamlAttachment>) -> (r: Vec<ComponentTree>)
    ensures
        trees_view(r@) == attachments_nodes(attachments@),
{
    let ghost orig = attachments@;
    let mut items = attachments;
    let mut out: Vec<ComponentTree> = Vec::new();
    proof {
        assert(orig.take(0) =~= Seq::<YamlAttachment>::empty());
        assert(trees_view(out@) =~= attachments_nodes(orig.take(0)));
        assert(orig.skip(0) =~= orig);
    }
    while items.len() > 0
        invariant
            out@.len() + items@.len() == orig.len(),
            items@ == orig.skip(out@.len() as int),
            trees_view(out@) == attachments_nodes(orig.take(out@.len() as int)),
        decreases items@.len(),
    {
        let ghost k = out@.len() as int;
        let ghost pre = out@;
        let b = items.remove(0);
        proof {
            assert(orig.skip(k)[0] == orig[k]);
            assert(orig.skip(k).remove(0) =~= orig.skip(k + 1));
        }
        let node = b.into_component();
        out.push(node);
        proof {
            lemma_trees_view_push(pre, node);
            assert(attachments_nodes(orig.take(k + 1)) =~= attachments_nodes(orig.take(k)).push(
                attachment_node(orig[k]),
            ));
        }
    }
    proof {
        assert(orig.take(out@.len() as int) =~= orig);
    }
    out
}

fn action_rows_into_nodes(rows: Vec<YamlActionRow>) -> (r: Vec<ComponentTree>)
    ensures
        trees_view(r@) == action_rows_nodes(rows@),
{
    let ghost orig = rows@;
    let mut items = rows;
    let mut out: Vec<ComponentTree> = Vec::new();
    proof {
        assert(orig.take(0) =~= Seq::<YamlActionRow>::empty());
        assert(trees_view(out@) =~= action_rows_nodes(orig.take(0)));
        assert(orig.skip(0) =~= orig);
    }
    while items.len() > 0
        invariant
            out@.len() + items@.len() == orig.len(),
            items@ == orig.skip(out@.len() as int),
            trees_view(out@) == action_rows_nodes(orig.take(out@.len() as int)),
        decreases items@.len(),
    {
        let ghost k = out@.len() as int;
        let ghost pre = out@;
        let b = items.remove(0);
        proof {
            assert(orig.skip(k)[0] == orig[k]);
            assert(orig.skip(k).remove(0) =~= orig.skip(k + 1));
        }
        let node = b.into_component();
        out.push(node);
        proof {
            lemma_trees_view_push(pre, node);
            assert(action_rows_nodes(orig.take(k + 1)) =~= action_rows_nodes(orig.take(k)).push(
                action_row_node(orig[k]),
            ));
        }
    }
    proof {
        assert(orig.take(out@.len() as int) =~= orig);
    }
    out
}

fn invites_into_nodes(invites: Vec<YamlInvite>) -> (r: Vec<ComponentTree>)
    ensures
        trees_view(r@) == invites_nodes(invites@),
{
    let ghost orig = invites@;
    let mut items = invites;
    let mut out: Vec<ComponentTree> = Vec::new();
    proof {
        assert(orig.take(0) =~= Seq::<YamlInvite>::empty());
        assert(trees_view(out@) =~= invites_nodes(orig.take(0)));
        assert(orig.skip(0) =~= orig);
    }
    while items.len() > 0
        invariant
            out@.len() + items@.len() == orig.len(),
            items@ == orig.skip(out@.len() as int),
            trees_view(out@) == invites_nodes(orig.take(out@.len() as int)),
        decreases items@.len(),
    {
        let ghost k = out@.len() as int;
        let ghost pre = out@;
        let b = items.remove(0);
        proof {
            assert(orig.skip(k)[0] == orig[k]);
            assert(orig.skip(k).remove(0) =~= orig.skip(k + 1));
        }
        let node = b.into_component();
        out.push(node);
        proof {
            lemma_trees_view_push(pre, node);
            assert(invites_nodes(orig.take(k + 1)) =~= invites_nodes(orig.take(k)).push(
                invite_node(orig[k]),
            ));
        }
    }
    proof {
        assert(orig.take(out@.len() as int) =~= orig);
    }
    out
}

fn fields_into_nodes(fields: Vec<Field>) -> (r: Vec<ComponentTree>)
    ensures
        trees_view(r@) == fields_nodes(fields@),
{
    let ghost orig = fields@;
    let mut items = fields;
    let mut out: Vec<ComponentTree> = Vec::new();
    proof {
        assert(orig.take(0) =~= Seq::<Field>::empty());
        assert(trees_view(out@) =~= fields_nodes(orig.take(0)));
        assert(orig.skip(0) =~= orig);
    }
    while items.len() > 0
        invariant
            out@.len() + items@.len() == orig.len(),
            items@ == orig.skip(out@.len() as int),
            trees_view(out@) == fields_nodes(orig.take(out@.len() as int)),
        decreases items@.len(),
    {
        let ghost k = out@.len() as int;
        let ghost pre = out@;
        let b = items.remove(0);
        proof {
            assert(orig.skip(k)[0] == orig[k]);
            assert(orig.skip(k).remove(0) =~= orig.skip(k + 1));
        }
        let node = b.into_component();
        out.push(node);
        proof {
            lemma_trees_view_push(pre, node);
            assert(fields_nodes(orig.take(k + 1)) =~= fields_nodes(orig.take(k)).push(
                field_node(orig[k]),
            ));
        }
    }
    proof {
        assert(orig.take(out@.len() as int) =~= orig);
    }
    out
}

/// An embed with its top-level timestamp folded into the footer: an
/// existing footer keeps its text and image and takes the timestamp; with
/// no footer, one is synthesized holding only the timestamp.
pub open spec fn spec_fold_timestamp(e: YamlEmbed) -> YamlEmbed {
    match e.timestamp {
        Option::None => e,
        Option::Some(ts) => YamlEmbed {
            title: e.title,
            url: e.url,
            color: e.color,
            description: e.description,
            image: e.image,
            thumbnail: e.thumbnail,
            timestamp: Option::None,
            author: e.author,
            fields: e.fields,
            footer: Option::Some(
                match e.footer {
                    Option::Some(f) => Footer {
                        text: f.text,
                        image: f.image,
                        timestamp: Option::Some(ts),
                    },
                    Option::None => Footer {
                        text: Option::None,
                        image: Option::None,
                        timestamp: Option::Some(ts),
                    },
                },
            ),
        },
    }
}

/// The node an embed assembles to: the card, then — each only if present
/// — a description wrapper, a fields wrapper, and a footer holding its
/// text. The top-level timestamp is not read here: folding it into the
/// footer comes first.
pub open spec fn embed_node(y: YamlEmbed) -> TreeV {
    TreeV::Node {
        data: CompV::Embed(
            EmbedV {
                embed_title: y.title.deep_view(),
                url: y.url.deep_view(),
                color: y.color.deep_view(),
                image: y.image.deep_view(),
                thumbnail: y.thumbnail.deep_view(),
                author_name: match y.author {
                    Option::Some(a) => Option::Some(a.text@),
                    Option::None => Option::None,
                },
                author_url: match y.author {
                    Option::Some(a) => a.url.deep_view(),
                    Option::None => Option::None,
                },
                author_image: match y.author {
                    Option::Some(a) => a.image.deep_view(),
                    Option::None => Option::None,
                },
            },
        ),
        nodes: (match y.description {
            Option::Some(d) => seq![
                TreeV::Node { data: CompV::EmbedDescription, nodes: seq![TreeV::Text(d@)] },
            ],
            Option::None => seq![],
        }) + (match y.fields {
            Option::Some(fs) => seq![
                TreeV::Node { data: CompV::EmbedFields, nodes: fields_nodes(fs@) },
            ],
            Option::None => seq![],
        }) + (match y.footer {
            Option::Some(f) => seq![
                TreeV::Node {
                    data: CompV::EmbedFooter(
                        EmbedFooterV {
                            footer_image: f.image.deep_view(),
                            timestamp: f.timestamp.deep_view(),
                        },
                    ),
                    nodes: match f.text {
                        Option::Some(t) => seq![TreeV::Text(t@)],
                        Option::None => seq![],
                    },
                },
            ],
            Option::None => seq![],
        }),
    }
}

impl YamlEmbed {
    /// Folds the top-level timestamp, if any, into the footer: an
    /// existing footer's timestamp is overwritten and its text and image
    /// kept; with no footer, one is synthesized carrying only the
    /// timestamp.
    pub fn prepare(&mut self)
        ensures
            *final(self) == spec_fold_timestamp(*old(self)),
    {
        match self.timestamp.take() {
            Option::Some(ts) => {
                match self.footer.take() {
                    Option::Some(f) => {
                        self.footer = Option::Some(
                            Footer { text: f.text, image: f.image, timestamp: Option::Some(ts) },
                        );
                    },
                    Option::None => {
                        self.footer = Option::Some(
                            Footer {
                                text: Option::None,
                                image: Option::None,
                                timestamp: Option::Some(ts),
                            },
                        );
                    },
                }
            },
            Option::None => {},
        }
    }

    /// Assembles this embed into its node. The top-level timestamp is
    /// expected to have been folded already.
    pub fn into_component(self) -> (r: ComponentTree)
        ensures
            tree_view(r) == embed_node(self),
    {
        let ghost orig = self;
        let YamlEmbed {
            title,
            url,
            color,
            description,
            image,
            thumbnail,
            timestamp: _,
            author,
            fields,
            footer,
        } = self;
        let (author_name, author_url, author_image): (
            Option<String>,
            Option<String>,
            Option<String>,
        ) = match author {
            Option::Some(a) => (Option::Some(a.text), a.url, a.image),
            Option::None => (Option::None, Option::None, Option::None),
        };
        let data = Embed {
            embed_title: title,
            url,
            color,
            image,
            thumbnail,
            author_name,
            author_url,
            author_image,
        };
        let ghost seg_desc = (match orig.description {
            Option::Some(d) => seq![
                TreeV::Node { data: CompV::EmbedDescription, nodes: seq![TreeV::Text(d@)] },
            ],
            Option::None => Seq::<TreeV>::empty(),
        });
        let ghost seg_fields = (match orig.fields {
            Option::Some(fs) => seq![
                TreeV::Node { data: CompV::EmbedFields, nodes: fields_nodes(fs@) },
            ],
            Option::None => Seq::<TreeV>::empty(),
        });
        let mut tree: Vec<ComponentTree> = Vec::new();
        match description {
            Option::Some(d) => {
                let mut inner: Vec<ComponentTree> = Vec::new();
                let text_node = ComponentTree::Text(d);
                inner.push(text_node);
                proof {
                    lemma_trees_view_push(Seq::<ComponentTree>::empty(), text_node);
                }
                tree.push(
                    ComponentTree::Node {
                        data: Component::EmbedDescription(EmbedDescription),
                        nodes: inner,
                    },
                );
            },
            Option::None => {},
        }
        proof {
            lemma_trees_view_empty();
            if tree@.len() > 0 {
                lemma_trees_view_push(Seq::<ComponentTree>::empty(), tree@[0]);
            }
            assert(trees_view(tree@) =~~= seg_desc);
        }
        let ghost after_desc = tree@;
        match fields {
            Option::Some(fs) => {
                let nodes = fields_into_nodes(fs);
                let node = ComponentTree::Node {
                    data: Component::EmbedFields(EmbedFields),
                    nodes,
                };
                let ghost pre = tree@;
                tree.push(node);
                proof {
                    lemma_trees_view_push(pre, node);
                }
            },
            Option::None => {},
        }
        proof {
            assert(trees_view(tree@) =~~= seg_desc + seg_fields);
        }
        match footer {
            Option::Some(f) => {
                let Footer { text, image, timestamp } = f;
                let mut inner: Vec<ComponentTree> = Vec::new();
                match text {
                    Option::Some(t) => {
                        let text_node = ComponentTree::Text(t);
                        inner.push(text_node);
                        proof {
                            lemma_trees_view_push(Seq::<ComponentTree>::empty(), text_node);
                        }
                    },
                    Option::None => {},
                }
                let node = ComponentTree::Node {
                    data: Component::EmbedFooter(
                        EmbedFooter { footer_image: image, timestamp },
                    ),
                    nodes: inner,
                };
                let ghost pre = tree@;
                tree.push(node);
                proof {
                    lemma_trees_view_push(pre, node);
                }
            },
            Option::None => {},
        }
        let ghost seg_footer = (match orig.footer {
            Option::Some(f) => seq![
                TreeV::Node {
                    data: CompV::EmbedFooter(
                        EmbedFooterV {
                            footer_image: f.image.deep_view(),
                            timestamp: f.timestamp.deep_view(),
                        },
                    ),
                    nodes: match f.text {
                        Option::Some(t) => seq![TreeV::Text(t@)],
                        Option::None => Seq::<TreeV>::empty(),
                    },
                },
            ],
            Option::None => Seq::<TreeV>::empty(),
        });
        proof {
            assert(trees_view(tree@) =~~= seg_desc + seg_fields + seg_footer);
        }
        let r = ComponentTree::Node { data: Component::Embed(data), nodes: tree };
        proof {
            assert(embed_node(orig)->Node_nodes =~~= seg_desc + seg_fields + seg_footer);
            assert(tree_view(r)->Node_data =~~= embed_node(orig)->Node_data);
            assert(tree_view(r) =~~= embed_node(orig));
        }
        r
    }
}

/// The user a message part resolves to, as the executable lookup finds
/// it.
fn resolve_for(users: &UserTable, lookup: bool, id: Option<u64>) -> (r: Option<ResolvedUser>)
    ensures
        match r {
            Option::Some(u) => lookup_user(users@, lookup, id) == Option::Some(u@),
            Option::None => lookup_user(users@, lookup, id) is None,
        },
{
    if lookup {
        match id {
            Option::Some(i) => match users.get(i) {
                Option::Some(u) => Option::Some(u.duplicate()),
                Option::None => Option::None,
            },
            Option::None => Option::None,
        }
    } else {
        Option::None
    }
}

/// The node a reply prefix assembles to. A resolved user supplies the
/// author, avatar and bot flag; otherwise the decoded values stand.
pub open spec fn reply_node(y: YamlReply, users: Map<u64, ResolvedUserV>, lookup: bool) -> TreeV {
    let resolved = lookup_user(users, lookup, y.user_id);
    TreeV::Node {
        data: CompV::Reply(
            ReplyV {
                author: match resolved {
                    Option::Some(u) => u.display_name,
                    Option::None => y.author@,
                },
                avatar: match resolved {
                    Option::Some(u) => Option::Some(u.avatar_url),
                    Option::None => y.avatar.deep_view(),
                },
                role_color: y.color.deep_view(),
                attachment: y.attachment,
                edited: y.edited,
                bot: match resolved {
                    Option::Some(u) => Option::Some(u.bot),
                    Option::None => y.bot,
                },
                verified: y.verified,
                mentions: y.mentions,
                op: y.op,
                command: y.command,
            },
        ),
        nodes: seq![TreeV::Text(y.content@)],
    }
}

/// The node a slash-command prefix assembles to. A resolved user supplies
/// the author and avatar; otherwise the decoded values stand.
pub open spec fn command_node(y: YamlCommand, users: Map<u64, ResolvedUserV>, lookup: bool) -> TreeV {
    let resolved = lookup_user(users, lookup, y.user_id);
    TreeV::Node {
        data: CompV::Command(
            CommandV {
                command: y.command@,
                author: match resolved {
                    Option::Some(u) => u.display_name,
                    Option::None => y.author@,
                },
                avatar: match resolved {
                    Option::Some(u) => Option::Some(u.avatar_url),
                    Option::None => y.avatar.deep_view(),
                },
                role_color: y.color.deep_view(),
            },
        ),
        nodes: Seq::empty(),
    }
}

impl YamlReply {
    /// Assembles this reply prefix into its node.
    pub fn into_component(self, users: &UserTable, lookup: bool) -> (r: ComponentTree)
        ensures
            tree_view(r) == reply_node(self, users@, lookup),
    {
        let resolved = resolve_for(users, lookup, self.user_id);
        let YamlReply {
            author,
            content,
            avatar,
            color,
            attachment,
            edited,
            bot,
            verified,
            mentions,
            op,
            command,
            user_id: _,
        } = self;
        let (author2, avatar2, bot2): (String, Option<String>, Option<bool>) = match resolved {
            Option::Some(u) => (u.display_name, Option::Some(u.avatar_url), Option::Some(u.bot)),
            Option::None => (author, avatar, bot),
        };
        let data = Reply {
            author: author2,
            avatar: avatar2,
            role_color: color,
            attachment,
            edited,
            bot: bot2,
            verified,
            mentions,
            op,
            command,
        };
        let mut nodes: Vec<ComponentTree> = Vec::new();
        let text_node = ComponentTree::Text(content);
        nodes.push(text_node);
        let r = ComponentTree::Node { data: Component::Reply(data), nodes };
        proof {
            lemma_trees_view_push(Seq::<ComponentTree>::empty(), text_node);
            assert(tree_view(r) =~~= reply_node(self, users@, lookup));
        }
        r
    }
}

impl YamlCommand {
    /// Assembles this slash-command prefix into its node.
    pub fn into_component(self, users: &UserTable, lookup: bool) -> (r: ComponentTree)
        ensures
            tree_view(r) == command_node(self, users@, lookup),
    {
        let resolved = resolve_for(users, lookup, self.user_id);
        let YamlCommand { command, author, avatar, color, user_id: _ } = self;
        let (author2, avatar2): (String, Option<String>) = match resolved {
            Option::Some(u) => (u.display_name, Option::Some(u.avatar_url)),
            Option::None => (author, avatar),
        };
        let data = Command { command, author: author2, avatar: avatar2, role_color: color };
        let r = ComponentTree::Node { data: Component::Command(data), nodes: Vec::new() };
        proof {
            lemma_trees_view_empty();
            assert(tree_view(r) =~~= command_node(self, users@, lookup));
        }
        r
    }
}

/// An embed list with the singular embed, if any, logically prepended.
pub open spec fn merged_embeds_parts(
    embed: Option<YamlEmbed>,
    embeds: Option<Vec<YamlEmbed>>,
) -> Seq<YamlEmbed> {
    (match embed {
        Option::Some(e) => seq![e],
        Option::None => Seq::empty(),
    }) + (match embeds {
        Option::Some(es) => es@,
        Option::None => Seq::empty(),
    })
}

/// The embed list of a basic message with the singular embed, if any,
/// logically prepended.
pub open spec fn merged_embeds(m: YamlBasicMessage) -> Seq<YamlEmbed> {
    merged_embeds_parts(m.embed, m.embeds)
}

/// Whether a basic message identifies an author: a username, or — when
/// the lookup collaborator is configured — a user id as well.
pub open spec fn author_ok(m: YamlBasicMessage, lookup: bool) -> bool {
    if lookup {
        m.user_id is Some || m.username is Some
    } else {
        m.username is Some
    }
}

/// How many action rows a basic message carries.
pub open spec fn components_count(m: YamlBasicMessage) -> nat {
    match m.components {
        Option::Some(c) => c@.len(),
        Option::None => 0,
    }
}

/// The validation rules a message can break.
#[derive(Clone, Copy, Debug, PartialEq, Eq)]
pub enum ValidationRule {
    NoContentOrEmbeds,
    NoUserIdOrUsername,
    NoUsername,
    TooManyComponents,
    ReplyAndCommand,
    NoSystemContent,
}

/// The human-readable description of a broken rule.
pub open spec fn rule_text(r: ValidationRule) -> Seq<char> {
    match r {
        ValidationRule::NoContentOrEmbeds => "no message content or embeds"@,
        ValidationRule::NoUserIdOrUsername => "no user_id or username"@,
        ValidationRule::NoUsername => "no username"@,
        ValidationRule::TooManyComponents => "too many components"@,
        ValidationRule::ReplyAndCommand => "message can't be a reply and a slash command at the same time"@,
        ValidationRule::NoSystemContent => "no system message content"@,
    }
}

/// The description of a broken rule.
pub fn rule_name(r: ValidationRule) -> (s: &'static str)
    ensures
        s@ == rule_text(r),
{
    match r {
        ValidationRule::NoContentOrEmbeds => "no message content or embeds",
        ValidationRule::NoUserIdOrUsername => "no user_id or username",
        ValidationRule::NoUsername => "no username",
        ValidationRule::TooManyComponents => "too many components",
        ValidationRule::ReplyAndCommand => "message can't be a reply and a slash command at the same time",
        ValidationRule::NoSystemContent => "no system message content",
    }
}

/// The first rule a message breaks, if any, in the fixed evaluation
/// order: content or embeds, author, action-row count, reply-and-command
/// exclusion; for a system notice, its content.
pub open spec fn first_violation(m: YamlMessage, lookup: bool) -> Option<ValidationRule> {
    match m {
        YamlMessage::Basic(b) => if b.content@.len() == 0 && merged_embeds(b).len() == 0 {
            Option::Some(ValidationRule::NoContentOrEmbeds)
        } else if !author_ok(b, lookup) {
            Option::Some(
                if lookup {
                    ValidationRule::NoUserIdOrUsername
                } else {
                    ValidationRule::NoUsername
                },
            )
        } else if components_count(b) > 5 {
            Option::Some(ValidationRule::TooManyComponents)
        } else if b.reply is Some && b.command is Some {
            Option::Some(ValidationRule::ReplyAndCommand)
        } else {
            Option::None
        },
        YamlMessage::System(s) => if s.content@.len() == 0 {
            Option::Some(ValidationRule::NoSystemContent)
        } else {
            Option::None
        },
    }
}

impl YamlMessage {
    /// The first validation rule this message breaks, if any.
    pub fn is_valid(&self, lookup: bool) -> (r: Option<ValidationRule>)
        ensures
            r == first_violation(*self, lookup),
    {
        match self {
            YamlMessage::Basic(b) => {
                let no_embeds: bool = match &b.embed {
                    Option::Some(_) => false,
                    Option::None => match &b.embeds {
                        Option::Some(es) => es.len() == 0,
                        Option::None => true,
                    },
                };
                proof {
                    assert(no_embeds == (merged_embeds(*b).len() == 0));
                }
                if b.content.as_str().is_empty() && no_embeds {
                    return Option::Some(ValidationRule::NoContentOrEmbeds);
                }
                let author_missing: bool = if lookup {
                    b.user_id.is_none() && b.username.is_none()
                } else {
                    b.username.is_none()
                };
                if author_missing {
                    return Option::Some(
                        if lookup {
                            ValidationRule::NoUserIdOrUsername
                        } else {
                            ValidationRule::NoUsername
                        },
                    );
                }
                let too_many: bool = match &b.components {
                    Option::Some(c) => c.len() > 5,
                    Option::None => false,
                };
                if too_many {
                    return Option::Some(ValidationRule::TooManyComponents);
                }
                if b.reply.is_some() && b.command.is_some() {
                    return Option::Some(ValidationRule::ReplyAndCommand);
                }
                Option::None
            },
            YamlMessage::System(s) => {
                if s.content.as_str().is_empty() {
                    Option::Some(ValidationRule::NoSystemContent)
                } else {
                    Option::None
                }
            },
        }
    }
}

/// The nodes of an embed list, each with its timestamp folded first.
pub open spec fn embeds_nodes(s: Seq<YamlEmbed>) -> Seq<TreeV> {
    s.map_values(|e: YamlEmbed| embed_node(spec_fold_timestamp(e)))
}

fn embeds_into_nodes(embeds: Vec<YamlEmbed>) -> (r: Vec<ComponentTree>)
    ensures
        trees_view(r@) == embeds_nodes(embeds@),
{
    let ghost orig = embeds@;
    let mut items = embeds;
    let mut out: Vec<ComponentTree> = Vec::new();
    proof {
        assert(orig.take(0) =~= Seq::<YamlEmbed>::empty());
        assert(trees_view(out@) =~= embeds_nodes(orig.take(0)));
        assert(orig.skip(0) =~= orig);
    }
    while items.len() > 0
        invariant
            out@.len() + items@.len() == orig.len(),
            items@ == orig.skip(out@.len() as int),
            trees_view(out@) == embeds_nodes(orig.take(out@.len() as int)),
        decreases items@.len(),
    {
        let ghost k = out@.len() as int;
        let ghost pre = out@;
        let mut e = items.remove(0);
        proof {
            assert(orig.skip(k)[0] == orig[k]);
            assert(orig.skip(k).remove(0) =~= orig.skip(k + 1));
        }
        e.prepare();
        let node = e.into_component();
        out.push(node);
        proof {
            lemma_trees_view_push(pre, node);
            assert(embeds_nodes(orig.take(k + 1)) =~= embeds_nodes(orig.take(k)).push(
                embed_node(spec_fold_timestamp(orig[k])),
            ));
        }
    }
    proof {
        assert(orig.take(out@.len() as int) =~= orig);
    }
    out
}

/// The component data of a basic message. A resolved user seeds the
/// author, avatar and bot flag; an explicitly supplied value overrides
/// the resolved one field by field.
pub open spec fn basic_message_data_parts(
    user_id: Option<u64>,
    username: Option<String>,
    avatar: Option<String>,
    color: Option<String>,
    timestamp: Option<String>,
    bot: Option<bool>,
    edited: Option<bool>,
    ephemeral: Option<bool>,
    highlight: Option<bool>,
    verified: Option<bool>,
    users: Map<u64, ResolvedUserV>,
    lookup: bool,
) -> MessageV {
    let resolved = lookup_user(users, lookup, user_id);
    MessageV {
        author: match username {
            Option::Some(u) => u@,
            Option::None => match resolved {
                Option::Some(r) => r.display_name,
                Option::None => Seq::empty(),
            },
        },
        avatar: match avatar {
            Option::Some(a) => Option::Some(a@),
            Option::None => match resolved {
                Option::Some(r) => Option::Some(r.avatar_url),
                Option::None => Option::None,
            },
        },
        bot: match bot {
            Option::Some(b) => b,
            Option::None => match resolved {
                Option::Some(r) => r.bot,
                Option::None => false,
            },
        },
        edited: unwrap_or_false(edited),
        ephemeral: unwrap_or_false(ephemeral),
        highlight: unwrap_or_false(highlight),
        role_color: color.deep_view(),
        timestamp: timestamp.deep_view(),
        verified: unwrap_or_false(verified),
    }
}

/// The component data of a basic message.
pub open spec fn basic_message_data(
    m: YamlBasicMessage,
    users: Map<u64, ResolvedUserV>,
    lookup: bool,
) -> MessageV {
    basic_message_data_parts(
        m.user_id,
        m.username,
        m.avatar,
        m.color,
        m.timestamp,
        m.bot,
        m.edited,
        m.ephemeral,
        m.highlight,
        m.verified,
        users,
        lookup,
    )
}

/// The reply-or-command prefix of a message: at most one node, a reply
/// winning over a command.
pub open spec fn prefix_nodes_parts(
    reply: Option<YamlReply>,
    command: Option<YamlCommand>,
    users: Map<u64, ResolvedUserV>,
    lookup: bool,
) -> Seq<TreeV> {
    match reply {
        Option::Some(r) => seq![reply_node(r, users, lookup)],
        Option::None => match command {
            Option::Some(c) => seq![command_node(c, users, lookup)],
            Option::None => Seq::empty(),
        },
    }
}

/// The reply-or-command prefix of a message.
pub open spec fn prefix_nodes(
    m: YamlBasicMessage,
    users: Map<u64, ResolvedUserV>,
    lookup: bool,
) -> Seq<TreeV> {
    prefix_nodes_parts(m.reply, m.command, users, lookup)
}

/// The body text of a message: one text node, or none when the body is
/// empty.
pub open spec fn body_text_nodes(content: Seq<char>) -> Seq<TreeV> {
    if content.len() == 0 {
        Seq::empty()
    } else {
        seq![TreeV::Text(content)]
    }
}

/// The body text of a message: one text node, or none when it is empty.
pub open spec fn body_nodes(m: YamlBasicMessage) -> Seq<TreeV> {
    body_text_nodes(m.content@)
}

/// The reactions wrapper: present exactly when the message carries a
/// reaction list, holding the per-reaction nodes in input order.
pub open spec fn reactions_wrapper_parts(reactions: Option<Vec<YamlReaction>>) -> Seq<TreeV> {
    match reactions {
        Option::Some(rs) => seq![
            TreeV::Node { data: CompV::Reactions, nodes: reactions_nodes(rs@) },
        ],
        Option::None => Seq::empty(),
    }
}

/// The reactions wrapper of a message.
pub open spec fn reactions_wrapper(m: YamlBasicMessage) -> Seq<TreeV> {
    reactions_wrapper_parts(m.reactions)
}

/// What goes into the shared wrapper: attachments first, then action
/// rows, then invites.
pub open spec fn wrapper_items_parts(
    attachments: Option<Vec<YamlAttachment>>,
    components: Option<Vec<YamlActionRow>>,
    invites: Option<Vec<YamlInvite>>,
) -> Seq<TreeV> {
    (match attachments {
        Option::Some(a) => attachments_nodes(a@),
        Option::None => Seq::empty(),
    }) + (match components {
        Option::Some(c) => action_rows_nodes(c@),
        Option::None => Seq::empty(),
    }) + (match invites {
        Option::Some(i) => invites_nodes(i@),
        Option::None => Seq::empty(),
    })
}

/// What goes into the shared wrapper of a message.
pub open spec fn wrapper_items(m: YamlBasicMessage) -> Seq<TreeV> {
    wrapper_items_parts(m.attachments, m.components, m.invites)
}

/// The shared wrapper node, omitted entirely when it would be empty.
pub open spec fn wrapper_nodes_parts(
    attachments: Option<Vec<YamlAttachment>>,
    components: Option<Vec<YamlActionRow>>,
    invites: Option<Vec<YamlInvite>>,
) -> Seq<TreeV> {
    if wrapper_items_parts(attachments, components, invites).len() == 0 {
        Seq::empty()
    } else {
        seq![
            TreeV::Node {
                data: CompV::Attachments,
                nodes: wrapper_items_parts(attachments, components, invites),
            },
        ]
    }
}

/// The shared wrapper node of a message, omitted when empty.
pub open spec fn wrapper_nodes(m: YamlBasicMessage) -> Seq<TreeV> {
    wrapper_nodes_parts(m.attachments, m.components, m.invites)
}

/// The children of a basic message, in their fixed order: the
/// reply-or-command prefix, the body text, the embeds in input order, the
/// reactions wrapper, and the shared wrapper.
pub open spec fn basic_children(
    m: YamlBasicMessage,
    users: Map<u64, ResolvedUserV>,
    lookup: bool,
) -> Seq<TreeV> {
    prefix_nodes(m, users, lookup) + body_nodes(m) + embeds_nodes(merged_embeds(m))
        + reactions_wrapper(m) + wrapper_nodes(m)
}

/// The node a basic message assembles to.
pub open spec fn basic_node(
    m: YamlBasicMessage,
    users: Map<u64, ResolvedUserV>,
    lookup: bool,
) -> TreeV {
    TreeV::Node {
        data: CompV::Message(basic_message_data(m, users, lookup)),
        nodes: basic_children(m, users, lookup),
    }
}

/// The node a system notice assembles to.
pub open spec fn system_node(m: YamlSystemMessage) -> TreeV {
    TreeV::Node {
        data: CompV::SystemMessage(
            SystemMessageV {
                kind: m.kind,
                timestamp: m.timestamp.deep_view(),
                channel_name: unwrap_or_false(m.channel_name),
            },
        ),
        nodes: seq![TreeV::Text(m.content@)],
    }
}

/// The node any message assembles to.
pub open spec fn message_node(
    m: YamlMessage,
    users: Map<u64, ResolvedUserV>,
    lookup: bool,
) -> TreeV {
    match m {
        YamlMessage::Basic(b) => basic_node(b, users, lookup),
        YamlMessage::System(s) => system_node(s),
    }
}

/// The role table a message contributes, if any.
pub open spec fn message_roles_opt(m: YamlMessage) -> Option<RoleMap> {
    match m {
        YamlMessage::Basic(b) => b.roles,
        YamlMessage::System(_) => Option::None,
    }
}

/// The role mapping a message contributes.
pub open spec fn message_roles(m: YamlMessage) -> Map<Seq<char>, Seq<char>> {
    match message_roles_opt(m) {
        Option::Some(r) => r@,
        Option::None => Map::empty(),
    }
}

fn build_basic_data(
    user_id: Option<u64>,
    username: Option<String>,
    avatar: Option<String>,
    color: Option<String>,
    timestamp: Option<String>,
    bot: Option<bool>,
    edited: Option<bool>,
    ephemeral: Option<bool>,
    highlight: Option<bool>,
    verified: Option<bool>,
    users: &UserTable,
    lookup: bool,
) -> (r: Message)
    ensures
        r@ == basic_message_data_parts(
            user_id,
            username,
            avatar,
            color,
            timestamp,
            bot,
            edited,
            ephemeral,
            highlight,
            verified,
            users@,
            lookup,
        ),
{
    let resolved = resolve_for(users, lookup, user_id);
    let (res_name, res_avatar, res_bot): (Option<String>, Option<String>, Option<bool>) =
        match resolved {
        Option::Some(u) => (
            Option::Some(u.display_name),
            Option::Some(u.avatar_url),
            Option::Some(u.bot),
        ),
        Option::None => (Option::None, Option::None, Option::None),
    };
    let author2: String = match username {
        Option::Some(u) => u,
        Option::None => match res_name {
            Option::Some(n) => n,
            Option::None => String::new(),
        },
    };
    let avatar2: Option<String> = match avatar {
        Option::Some(a) => Option::Some(a),
        Option::None => res_avatar,
    };
    let bot2: bool = match bot {
        Option::Some(b) => b,
        Option::None => or_false(res_bot),
    };
    let data = Message {
        author: author2,
        avatar: avatar2,
        bot: bot2,
        edited: or_false(edited),
        ephemeral: or_false(ephemeral),
        highlight: or_false(highlight),
        role_color: color,
        timestamp,
        verified: or_false(verified),
    };
    proof {
        assert(data@ =~~= basic_message_data_parts(
            user_id,
            username,
            avatar,
            color,
            timestamp,
            bot,
            edited,
            ephemeral,
            highlight,
            verified,
            users@,
            lookup,
        ));
    }
    data
}

fn build_wrapper_items(
    attachments: Option<Vec<YamlAttachment>>,
    components: Option<Vec<YamlActionRow>>,
    invites: Option<Vec<YamlInvite>>,
) -> (r: Vec<ComponentTree>)
    ensures
        trees_view(r@) == wrapper_items_parts(attachments, components, invites),
{
    let ghost ga = attachments;
    let ghost gc = components;
    let ghost gi = invites;
    let mut wrap: Vec<ComponentTree> = Vec::new();
    match attachments {
        Option::Some(a) => {
            let mut v = attachments_into_nodes(a);
            let ghost pre = wrap@;
            let ghost add = v@;
            wrap.append(&mut v);
            proof {
                lemma_trees_view_concat(pre, add);
            }
        },
        Option::None => {},
    }
    match components {
        Option::Some(c) => {
            let mut v = action_rows_into_nodes(c);
            let ghost pre = wrap@;
            let ghost add = v@;
            wrap.append(&mut v);
            proof {
                lemma_trees_view_concat(pre, add);
            }
        },
        Option::None => {},
    }
    match invites {
        Option::Some(iv) => {
            let mut v = invites_into_nodes(iv);
            let ghost pre = wrap@;
            let ghost add = v@;
            wrap.append(&mut v);
            proof {
                lemma_trees_view_concat(pre, add);
            }
        },
        Option::None => {},
    }
    proof {
        lemma_trees_view_empty();
        assert(trees_view(wrap@) =~= wrapper_items_parts(ga, gc, gi));
    }
    wrap
}

#[verifier::rlimit(100)]
fn build_basic_children(
    reply: Option<YamlReply>,
    command: Option<YamlCommand>,
    content: String,
    embed: Option<YamlEmbed>,
    embeds: Option<Vec<YamlEmbed>>,
    reactions: Option<Vec<YamlReaction>>,
    attachments: Option<Vec<YamlAttachment>>,
    components: Option<Vec<YamlActionRow>>,
    invites: Option<Vec<YamlInvite>>,
    users: &UserTable,
    lookup: bool,
) -> (r: Vec<ComponentTree>)
    ensures
        trees_view(r@) == prefix_nodes_parts(reply, command, users@, lookup) + body_text_nodes(
            content@,
        ) + embeds_nodes(merged_embeds_parts(embed, embeds)) + reactions_wrapper_parts(reactions)
            + wrapper_nodes_parts(attachments, components, invites),
{
    let ghost seg_p = prefix_nodes_parts(reply, command, users@, lookup);
    let ghost seg_b = body_text_nodes(content@);
    let ghost seg_e = embeds_nodes(merged_embeds_parts(embed, embeds));
    let ghost seg_r = reactions_wrapper_parts(reactions);
    let ghost seg_w = wrapper_nodes_parts(attachments, components, invites);
    let mut tree: Vec<ComponentTree> = Vec::new();
    match reply {
        Option::Some(rp) => {
            let node = rp.into_component(users, lookup);
            let ghost pre = tree@;
            tree.push(node);
            proof {
                lemma_trees_view_push(pre, node);
            }
        },
        Option::None => {
            match command {
                Option::Some(c) => {
                    let node = c.into_component(users, lookup);
                    let ghost pre = tree@;
                    tree.push(node);
                    proof {
                        lemma_trees_view_push(pre, node);
                    }
                },
                Option::None => {},
            }
        },
    }
    proof {
        lemma_trees_view_empty();
        assert(trees_view(tree@) =~= seg_p);
    }
    if !content.as_str().is_empty() {
        let node = ComponentTree::Text(content);
        let ghost pre = tree@;
        tree.push(node);
        proof {
            lemma_trees_view_push(pre, node);
        }
    }
    proof {
        assert(trees_view(tree@) =~= seg_p + seg_b);
    }
    let ghost gembed = embed;
    let ghost gembeds = embeds;
    let mut es: Vec<YamlEmbed> = Vec::new();
    match embed {
        Option::Some(e) => es.push(e),
        Option::None => {},
    }
    match embeds {
        Option::Some(mut rest) => es.append(&mut rest),
        Option::None => {},
    }
    proof {
        assert(es@ =~= merged_embeds_parts(gembed, gembeds));
    }
    let mut embed_nodes_v = embeds_into_nodes(es);
    let ghost pre_e = tree@;
    let ghost embeds_built = embed_nodes_v@;
    tree.append(&mut embed_nodes_v);
    proof {
        lemma_trees_view_concat(pre_e, embeds_built);
        assert(trees_view(tree@) =~= seg_p + seg_b + seg_e);
    }
    match reactions {
        Option::Some(rs) => {
            let node = ComponentTree::Node {
                data: Component::Reactions(Reactions),
                nodes: reactions_into_nodes(rs),
            };
            let ghost pre = tree@;
            tree.push(node);
            proof {
                lemma_trees_view_push(pre, node);
            }
        },
        Option::None => {},
    }
    proof {
        assert(trees_view(tree@) =~= seg_p + seg_b + seg_e + seg_r);
    }
    let wrap = build_wrapper_items(attachments, components, invites);
    proof {
        crate::tree::lemma_trees_view_index(wrap@);
    }
    if wrap.len() > 0 {
        let node = ComponentTree::Node { data: Component::Attachments(Attachments), nodes: wrap };
        let ghost pre = tree@;
        tree.push(node);
        proof {
            lemma_trees_view_push(pre, node);
        }
    }
    proof {
        assert(trees_view(tree@) =~= seg_p + seg_b + seg_e + seg_r + seg_w);
    }
    tree
}

impl YamlBasicMessage {
    /// Assembles this basic message into its role contribution and its
    /// node.
    pub fn into_component(self, users: &UserTable, lookup: bool) -> (r: (
        Option<RoleMap>,
        ComponentTree,
    ))
        ensures
            tree_view(r.1) == basic_node(self, users@, lookup),
            r.0 == self.roles,
    {
        let ghost orig = self;
        let YamlBasicMessage {
            user_id,
            username,
            avatar,
            color,
            timestamp,
            bot,
            edited,
            ephemeral,
            highlight,
            verified,
            reply,
            command,
            roles,
            embed,
            embeds,
            reactions,
            attachments,
            components,
            invites,
            content,
        } = self;
        let data = build_basic_data(
            user_id,
            username,
            avatar,
            color,
            timestamp,
            bot,
            edited,
            ephemeral,
            highlight,
            verified,
            users,
            lookup,
        );
        let tree = build_basic_children(
            reply,
            command,
            content,
            embed,
            embeds,
            reactions,
            attachments,
            components,
            invites,
            users,
            lookup,
        );
        let node = ComponentTree::Node { data: Component::Message(data), nodes: tree };
        proof {
            assert(data@ == basic_message_data(orig, users@, lookup));
            assert(trees_view(tree@) == basic_children(orig, users@, lookup));
            assert(tree_view(node) =~= basic_node(orig, users@, lookup));
        }
        (roles, node)
    }
}


impl YamlSystemMessage {
    /// Assembles this system notice into its node.
    pub fn into_component(self) -> (r: ComponentTree)
        ensures
            tree_view(r) == system_node(self),
    {
        let YamlSystemMessage { kind, channel_name, timestamp, content } = self;
        let data = SystemMessage { kind, timestamp, channel_name: or_false(channel_name) };
        let mut nodes: Vec<ComponentTree> = Vec::new();
        let text_node = ComponentTree::Text(content);
        nodes.push(text_node);
        let r = ComponentTree::Node { data: Component::SystemMessage(data), nodes };
        proof {
            lemma_trees_view_push(Seq::<ComponentTree>::empty(), text_node);
            assert(tree_view(r) =~~= system_node(self));
        }
        r
    }
}

impl YamlMessage {
    /// Assembles this message into its role contribution and its node.
    pub fn into_component(self, users: &UserTable, lookup: bool) -> (r: (
        Option<RoleMap>,
        ComponentTree,
    ))
        ensures
            tree_view(r.1) == message_node(self, users@, lookup),
            r.0 == message_roles_opt(self),
    {
        match self {
            YamlMessage::Basic(b) => b.into_component(users, lookup),
            YamlMessage::System(s) => (Option::None, s.into_component()),
        }
    }

    /// Assembles this message onto a document: its node is appended to
    /// the tree and its role contributions override the document's.
    pub fn push_to_tree(self, tree: &mut Components, users: &UserTable, lookup: bool)
        ensures
            final(tree)@.tree == old(tree)@.tree.push(message_node(self, users@, lookup)),
            final(tree)@.roles == old(tree)@.roles.union_prefer_right(message_roles(self)),
    {
        let (roles_o, node) = self.into_component(users, lookup);
        match roles_o {
            Option::Some(r) => tree.roles.extend(r),
            Option::None => {
                proof {
                    assert(tree.roles@.union_prefer_right(Map::<Seq<char>, Seq<char>>::empty())
                        =~= tree.roles@);
                }
            },
        }
        let ghost pre = tree.tree@;
        tree.tree.push(node);
        proof {
            lemma_trees_view_push(pre, node);
        }
    }
}

/// The position and rule of the first invalid message in a batch, if
/// any.
pub open spec fn first_invalid(msgs: Seq<YamlMessage>, lookup: bool) -> Option<
    (int, ValidationRule),
>
    decreases msgs.len(),
{
    if msgs.len() == 0 {
        Option::None
    } else {
        match first_violation(msgs[0], lookup) {
            Option::Some(r) => Option::Some((0, r)),
            Option::None => match first_invalid(msgs.drop_first(), lookup) {
                Option::Some(p) => Option::Some((p.0 + 1, p.1)),
                Option::None => Option::None,
            },
        }
    }
}

proof fn lemma_first_invalid_at(msgs: Seq<YamlMessage>, lookup: bool, i: int, rule: ValidationRule)
    requires
        0 <= i < msgs.len(),
        first_violation(msgs[i], lookup) == Option::Some(rule),
        forall|j: int| 0 <= j < i ==> first_violation(#[trigger] msgs[j], lookup) is None,
    ensures
        first_invalid(msgs, lookup) == Option::Some((i, rule)),
    decreases msgs.len(),
{
    if i > 0 {
        assert(first_violation(msgs[0], lookup) is None);
        assert(msgs.drop_first()[i - 1] == msgs[i]);
        assert(forall|j: int|
            0 <= j < i - 1 ==> #[trigger] msgs.drop_first()[j] == msgs[j + 1]);
        lemma_first_invalid_at(msgs.drop_first(), lookup, i - 1, rule);
    }
}

proof fn lemma_first_invalid_none(msgs: Seq<YamlMessage>, lookup: bool)
    requires
        forall|j: int| 0 <= j < msgs.len() ==> first_violation(#[trigger] msgs[j], lookup) is None,
    ensures
        first_invalid(msgs, lookup) is None,
    decreases msgs.len(),
{
    if msgs.len() > 0 {
        assert(forall|j: int|
            0 <= j < msgs.len() - 1 ==> #[trigger] msgs.drop_first()[j] == msgs[j + 1]);
        lemma_first_invalid_none(msgs.drop_first(), lookup);
    }
}

/// A batch with an invalid message somewhere is rejected as a whole.
pub proof fn lemma_invalid_somewhere(msgs: Seq<YamlMessage>, lookup: bool, i: int)
    requires
        0 <= i < msgs.len(),
        first_violation(msgs[i], lookup) is Some,
    ensures
        first_invalid(msgs, lookup) is Some,
    decreases msgs.len(),
{
    if first_violation(msgs[0], lookup) is None {
        assert(i > 0);
        assert(msgs.drop_first()[i - 1] == msgs[i]);
        lemma_invalid_somewhere(msgs.drop_first(), lookup, i - 1);
    }
}

/// A basic message with neither body text nor embeds breaks validation,
/// so a batch holding one is rejected.
pub proof fn lemma_empty_message_rejected(
    msgs: Seq<YamlMessage>,
    lookup: bool,
    i: int,
    b: YamlBasicMessage,
)
    requires
        0 <= i < msgs.len(),
        msgs[i] == YamlMessage::Basic(b),
        b.content@.len() == 0,
        merged_embeds(b).len() == 0,
    ensures
        first_invalid(msgs, lookup) is Some,
{
    assert(first_violation(msgs[i], lookup) is Some);
    lemma_invalid_somewhere(msgs, lookup, i);
}

/// A message that is both a reply and a slash command breaks validation,
/// so a batch holding one is rejected.
pub proof fn lemma_reply_and_command_rejected(
    msgs: Seq<YamlMessage>,
    lookup: bool,
    i: int,
    b: YamlBasicMessage,
)
    requires
        0 <= i < msgs.len(),
        msgs[i] == YamlMessage::Basic(b),
        b.reply is Some,
        b.command is Some,
    ensures
        first_invalid(msgs, lookup) is Some,
{
    assert(first_violation(msgs[i], lookup) is Some);
    lemma_invalid_somewhere(msgs, lookup, i);
}

/// A message with more than five action rows breaks validation, so a
/// batch holding one is rejected.
pub proof fn lemma_too_many_rows_rejected(
    msgs: Seq<YamlMessage>,
    lookup: bool,
    i: int,
    b: YamlBasicMessage,
)
    requires
        0 <= i < msgs.len(),
        msgs[i] == YamlMessage::Basic(b),
        components_count(b) > 5,
    ensures
        first_invalid(msgs, lookup) is Some,
{
    assert(first_violation(msgs[i], lookup) is Some);
    lemma_invalid_somewhere(msgs, lookup, i);
}

/// An error naming the first invalid message: its 1-based position in
/// the batch — absent for a single-message block — and the rule it
/// broke.
#[derive(Clone, Copy, Debug, PartialEq, Eq)]
pub struct YamlParserError {
    pub position: Option<usize>,
    pub rule: ValidationRule,
}

/// The text of a validation error.
pub open spec fn error_text(e: YamlParserError) -> Seq<char> {
    match e.position {
        Option::Some(p) => "Invalid message #"@ + dec_seq(p as nat) + ": "@ + rule_text(e.rule),
        Option::None => "Invalid message: "@ + rule_text(e.rule),
    }
}

impl YamlParserError {
    /// An error for the given position and rule.
    pub fn new(position: Option<usize>, rule: ValidationRule) -> (r: YamlParserError)
        ensures
            r.position == position,
            r.rule == rule,
    {
        YamlParserError { position, rule }
    }

    /// The error rendered as text.
    pub fn message(&self) -> (r: String)
        ensures
            r@ == error_text(*self),
    {
        let mut out: String = String::new();
        match self.position {
            Option::Some(p) => {
                out.append("Invalid message #");
                let p_text = u64_to_dec(p as u64);
                out.append(p_text.as_str());
                out.append(": ");
            },
            Option::None => {
                out.append("Invalid message: ");
            },
        }
        out.append(rule_name(self.rule));
        proof {
            assert(out@ =~= error_text(*self));
        }
        out
    }
}

/// What the structured-input collaborator hands the assembler: one
/// decoded message description, or a sequence of them.
pub enum DecodedMessages {
    One(YamlMessage),
    Many(Vec<YamlMessage>),
}

/// The messages of a decoded block, as a sequence either way.
pub open spec fn msgs_of(d: DecodedMessages) -> Seq<YamlMessage> {
    match d {
        DecodedMessages::One(m) => seq![m],
        DecodedMessages::Many(v) => v@,
    }
}

/// The trees of a valid batch, in input order.
pub open spec fn assembled_trees(
    msgs: Seq<YamlMessage>,
    users: Map<u64, ResolvedUserV>,
    lookup: bool,
) -> Seq<TreeV> {
    msgs.map_values(|m: YamlMessage| message_node(m, users, lookup))
}

/// The role table of a batch: every message's contributions merged in
/// order, later messages overriding earlier ones.
pub open spec fn merged_roles(msgs: Seq<YamlMessage>) -> Map<Seq<char>, Seq<char>>
    decreases msgs.len(),
{
    if msgs.len() == 0 {
        Map::empty()
    } else {
        merged_roles(msgs.drop_last()).union_prefer_right(message_roles(msgs.last()))
    }
}

/// The assembler. Whether a user id alone can identify an author is a
/// configuration choice: it depends on whether a lookup collaborator is
/// wired in.
pub struct YamlParser {
    pub lookup_enabled: bool,
}

impl YamlParser {
    /// An assembler; `lookup_enabled` says whether a user-lookup
    /// collaborator is configured.
    pub fn new(lookup_enabled: bool) -> (r: YamlParser)
        ensures
            r.lookup_enabled == lookup_enabled,
    {
        YamlParser { lookup_enabled }
    }

    /// Assembles one decoded block into a document. Assembly is
    /// all-or-nothing: it fails exactly when some message breaks a
    /// validation rule, and the error names the first such message and
    /// the first rule it breaks.
    pub fn parse(&self, block: DecodedMessages, users: &UserTable) -> (r: Result<
        Components,
        YamlParserError,
    >)
        ensures
            (r is Err) == (first_invalid(msgs_of(block), self.lookup_enabled) is Some),
            match r {
                Result::Ok(c) => {
                    &&& c@.tree == assembled_trees(msgs_of(block), users@, self.lookup_enabled)
                    &&& c@.roles == merged_roles(msgs_of(block))
                },
                Result::Err(e) => match first_invalid(msgs_of(block), self.lookup_enabled) {
                    Option::Some(fi) => {
                        &&& e.rule == fi.1
                        &&& (match block {
                            DecodedMessages::One(_) => e.position is None,
                            DecodedMessages::Many(_) => e.position == Option::Some(
                                (fi.0 + 1) as usize,
                            ),
                        })
                    },
                    Option::None => false,
                },
            },
    {
        let lookup = self.lookup_enabled;
        let ghost bmsgs = msgs_of(block);
        match block {
            DecodedMessages::One(m) => {
                let ghost ms = seq![m];
                match m.is_valid(lookup) {
                    Option::Some(rule) => {
                        proof {
                            assert(ms[0] == m);
                            lemma_first_invalid_at(ms, lookup, 0, rule);
                        }
                        Result::Err(YamlParserError { position: Option::None, rule })
                    },
                    Option::None => {
                        proof {
                            assert(forall|j: int|
                                0 <= j < ms.len() ==> first_violation(#[trigger] ms[j], lookup)
                                    is None);
                            lemma_first_invalid_none(ms, lookup);
                        }
                        let mut components = Components::new();
                        m.push_to_tree(&mut components, users, lookup);
                        proof {
                            assert(components@.tree =~= assembled_trees(ms, users@, lookup));
                            assert(ms.drop_last() =~= Seq::<YamlMessage>::empty());
                            assert(ms.last() == m);
                            assert(merged_roles(Seq::<YamlMessage>::empty())
                                == Map::<Seq<char>, Seq<char>>::empty());
                            assert(components@.roles =~= merged_roles(ms));
                        }
                        Result::Ok(components)
                    },
                }
            },
            DecodedMessages::Many(msgs) => {
                proof {
                    assert(bmsgs == msgs@);
                }
                let n: usize = msgs.len();
                let mut i: usize = 0;
                while i < n
                    invariant
                        i <= n,
                        n == msgs@.len(),
                        bmsgs == msgs@,
                        bmsgs == msgs_of(block),
                        block is Many,
                        lookup == self.lookup_enabled,
                        forall|j: int|
                            0 <= j < i ==> first_violation(#[trigger] msgs@[j], lookup) is None,
                    decreases n - i,
                {
                    match msgs[i].is_valid(lookup) {
                        Option::Some(rule) => {
                            proof {
                                lemma_first_invalid_at(msgs@, lookup, i as int, rule);
                            }
                            return Result::Err(
                                YamlParserError { position: Option::Some(i + 1), rule },
                            );
                        },
                        Option::None => {},
                    }
                    i = i + 1;
                }
                proof {
                    lemma_first_invalid_none(msgs@, lookup);
                }
                let ghost orig = msgs@;
                let mut items = msgs;
                let mut components = Components::new();
                proof {
                    assert(orig.skip(0) =~= orig);
                    assert(orig.take(0) =~= Seq::<YamlMessage>::empty());
                    assert(components@.tree =~= assembled_trees(orig.take(0), users@, lookup));
                    assert(components@.roles =~= merged_roles(orig.take(0)));
                }
                while items.len() > 0
                    invariant
                        items@.len() <= orig.len(),
                        items@ == orig.skip(orig.len() - items@.len()),
                        bmsgs == orig,
                        bmsgs == msgs_of(block),
                        block is Many,
                        lookup == self.lookup_enabled,
                        components@.tree == assembled_trees(
                            orig.take(orig.len() - items@.len()),
                            users@,
                            lookup,
                        ),
                        components@.roles == merged_roles(orig.take(orig.len() - items@.len())),
                    decreases items@.len(),
                {
                    let ghost k = orig.len() - items@.len();
                    let m = items.remove(0);
                    proof {
                        assert(orig.skip(k)[0] == orig[k]);
                        assert(orig.skip(k).remove(0) =~= orig.skip(k + 1));
                    }
                    m.push_to_tree(&mut components, users, lookup);
                    proof {
                        assert(assembled_trees(orig.take(k + 1), users@, lookup)
                            =~= assembled_trees(orig.take(k), users@, lookup).push(
                            message_node(orig[k], users@, lookup),
                        ));
                        assert(orig.take(k + 1).drop_last() =~= orig.take(k));
                        assert(orig.take(k + 1).last() == orig[k]);
                        assert(merged_roles(orig.take(k + 1)) == merged_roles(
                            orig.take(k),
                        ).union_prefer_right(message_roles(orig[k])));
                    }
                }
                proof {
                    assert(orig.take(orig.len() as int) =~= orig);
                }
                Result::Ok(components)
            },
        }
    }
}

proof fn lemma_reactions_nodes_depth(s: Seq<YamlReaction>)
    ensures
        trees_depth(reactions_nodes(s)) <= 1,
{
    assert forall|i: int| 0 <= i < reactions_nodes(s).len() implies tree_depth(
        #[trigger] reactions_nodes(s)[i],
    ) <= 1 by {
        assert(reactions_nodes(s)[i] == reaction_node(s[i]));
    }
    lemma_trees_depth_bound(reactions_nodes(s), 1);
}

proof fn lemma_attachments_nodes_depth(s: Seq<YamlAttachment>)
    ensures
        trees_depth(attachments_nodes(s)) <= 1,
{
    assert forall|i: int| 0 <= i < attachments_nodes(s).len() implies tree_depth(
        #[trigger] attachments_nodes(s)[i],
    ) <= 1 by {
        assert(attachments_nodes(s)[i] == attachment_node(s[i]));
    }
    lemma_trees_depth_bound(attachments_nodes(s), 1);
}

proof fn lemma_invites_nodes_depth(s: Seq<YamlInvite>)
    ensures
        trees_depth(invites_nodes(s)) <= 1,
{
    assert forall|i: int| 0 <= i < invites_nodes(s).len() implies tree_depth(
        #[trigger] invites_nodes(s)[i],
    ) <= 1 by {
        assert(invites_nodes(s)[i] == invite_node(s[i]));
    }
    lemma_trees_depth_bound(invites_nodes(s), 1);
}

proof fn lemma_buttons_nodes_depth(s: Seq<YamlButton>)
    ensures
        trees_depth(buttons_nodes(s)) <= 2,
{
    assert forall|i: int| 0 <= i < buttons_nodes(s).len() implies tree_depth(
        #[trigger] buttons_nodes(s)[i],
    ) <= 2 by {
        assert(buttons_nodes(s)[i] == button_node(s[i]));
        lemma_trees_depth_singleton(TreeV::Text(s[i].label@));
    }
    lemma_trees_depth_bound(buttons_nodes(s), 2);
}

proof fn lemma_fields_nodes_depth(s: Seq<Field>)
    ensures
        trees_depth(fields_nodes(s)) <= 2,
{
    assert forall|i: int| 0 <= i < fields_nodes(s).len() implies tree_depth(
        #[trigger] fields_nodes(s)[i],
    ) <= 2 by {
        assert(fields_nodes(s)[i] == field_node(s[i]));
        lemma_trees_depth_singleton(TreeV::Text(s[i].value@));
    }
    lemma_trees_depth_bound(fields_nodes(s), 2);
}

proof fn lemma_action_rows_nodes_depth(s: Seq<YamlActionRow>)
    ensures
        trees_depth(action_rows_nodes(s)) <= 3,
{
    assert forall|i: int| 0 <= i < action_rows_nodes(s).len() implies tree_depth(
        #[trigger] action_rows_nodes(s)[i],
    ) <= 3 by {
        assert(action_rows_nodes(s)[i] == action_row_node(s[i]));
        lemma_buttons_nodes_depth(s[i].0@);
    }
    lemma_trees_depth_bound(action_rows_nodes(s), 3);
}

proof fn lemma_embed_node_depth(e: YamlEmbed)
    ensures
        tree_depth(embed_node(e)) <= 4,
{
    let nodes = embed_node(e)->Node_nodes;
    let seg1 = (match e.description {
        Option::Some(d) => seq![
            TreeV::Node { data: CompV::EmbedDescription, nodes: seq![TreeV::Text(d@)] },
        ],
        Option::None => Seq::<TreeV>::empty(),
    });
    let seg2 = (match e.fields {
        Option::Some(fs) => seq![
            TreeV::Node { data: CompV::EmbedFields, nodes: fields_nodes(fs@) },
        ],
        Option::None => Seq::<TreeV>::empty(),
    });
    let seg3 = nodes.skip(seg1.len() + seg2.len() as int);
    match e.description {
        Option::Some(d) => {
            lemma_trees_depth_singleton(TreeV::Text(d@));
            lemma_trees_depth_singleton(seg1[0]);
        },
        Option::None => {},
    }
    match e.fields {
        Option::Some(fs) => {
            lemma_fields_nodes_depth(fs@);
            lemma_trees_depth_singleton(seg2[0]);
        },
        Option::None => {},
    }
    assert(trees_depth(seg1) <= 3);
    assert(trees_depth(seg2) <= 3);
    let segf = (match e.footer {
        Option::Some(f) => seq![
            TreeV::Node {
                data: CompV::EmbedFooter(
                    EmbedFooterV {
                        footer_image: f.image.deep_view(),
                        timestamp: f.timestamp.deep_view(),
                    },
                ),
                nodes: match f.text {
                    Option::Some(t) => seq![TreeV::Text(t@)],
                    Option::None => Seq::<TreeV>::empty(),
                },
            },
        ],
        Option::None => Seq::<TreeV>::empty(),
    });
    match e.footer {
        Option::Some(f) => {
            match f.text {
                Option::Some(t) => {
                    lemma_trees_depth_singleton(TreeV::Text(t@));
                },
                Option::None => {},
            }
            lemma_trees_depth_singleton(segf[0]);
        },
        Option::None => {},
    }
    assert(trees_depth(segf) <= 3);
    lemma_trees_depth_concat(seg1, seg2);
    lemma_trees_depth_concat(seg1 + seg2, segf);
    assert(nodes == seg1 + seg2 + segf);
    assert(trees_depth(nodes) <= 3);
}

proof fn lemma_embeds_nodes_depth(s: Seq<YamlEmbed>)
    ensures
        trees_depth(embeds_nodes(s)) <= 4,
{
    assert forall|i: int| 0 <= i < embeds_nodes(s).len() implies tree_depth(
        #[trigger] embeds_nodes(s)[i],
    ) <= 4 by {
        assert(embeds_nodes(s)[i] == embed_node(spec_fold_timestamp(s[i])));
        lemma_embed_node_depth(spec_fold_timestamp(s[i]));
    }
    lemma_trees_depth_bound(embeds_nodes(s), 4);
}

/// No assembled message nests deeper than five levels: the message, a
/// wrapper, its items, their children, and their text.
pub proof fn lemma_message_node_depth(
    m: YamlMessage,
    users: Map<u64, ResolvedUserV>,
    lookup: bool,
)
    ensures
        tree_depth(message_node(m, users, lookup)) <= 5,
{
    match m {
        YamlMessage::System(s) => {
            lemma_trees_depth_singleton(TreeV::Text(s.content@));
        },
        YamlMessage::Basic(b) => {
            let seg_p = prefix_nodes(b, users, lookup);
            let seg_b = body_nodes(b);
            let seg_e = embeds_nodes(merged_embeds(b));
            let seg_r = reactions_wrapper(b);
            let seg_w = wrapper_nodes(b);
            match b.reply {
                Option::Some(r) => {
                    lemma_trees_depth_singleton(TreeV::Text(r.content@));
                    lemma_trees_depth_singleton(seg_p[0]);
                },
                Option::None => {
                    match b.command {
                        Option::Some(c) => {
                            lemma_trees_depth_singleton(seg_p[0]);
                        },
                        Option::None => {},
                    }
                },
            }
            assert(trees_depth(seg_p) <= 4);
            if b.content@.len() > 0 {
                lemma_trees_depth_singleton(TreeV::Text(b.content@));
            }
            assert(trees_depth(seg_b) <= 4);
            lemma_embeds_nodes_depth(merged_embeds(b));
            assert(trees_depth(seg_e) <= 4);
            match b.reactions {
                Option::Some(rs) => {
                    lemma_reactions_nodes_depth(rs@);
                    lemma_trees_depth_singleton(seg_r[0]);
                },
                Option::None => {},
            }
            assert(trees_depth(seg_r) <= 4);
            match b.attachments {
                Option::Some(a) => lemma_attachments_nodes_depth(a@),
                Option::None => {},
            }
            match b.components {
                Option::Some(c) => lemma_action_rows_nodes_depth(c@),
                Option::None => {},
            }
            match b.invites {
                Option::Some(i) => lemma_invites_nodes_depth(i@),
                Option::None => {},
            }
            let wa = (match b.attachments {
                Option::Some(a) => attachments_nodes(a@),
                Option::None => Seq::<TreeV>::empty(),
            });
            let wc = (match b.components {
                Option::Some(c) => action_rows_nodes(c@),
                Option::None => Seq::<TreeV>::empty(),
            });
            let wi = (match b.invites {
                Option::Some(i) => invites_nodes(i@),
                Option::None => Seq::<TreeV>::empty(),
            });
            lemma_trees_depth_concat(wa, wc);
            lemma_trees_depth_concat(wa + wc, wi);
            assert(wrapper_items(b) == wa + wc + wi);
            assert(trees_depth(wrapper_items(b)) <= 3);
            if wrapper_items(b).len() > 0 {
                lemma_trees_depth_singleton(seg_w[0]);
            }
            assert(trees_depth(seg_w) <= 4);
            lemma_trees_depth_concat(seg_p, seg_b);
            lemma_trees_depth_concat(seg_p + seg_b, seg_e);
            lemma_trees_depth_concat(seg_p + seg_b + seg_e, seg_r);
            lemma_trees_depth_concat(seg_p + seg_b + seg_e + seg_r, seg_w);
            assert(basic_children(b, users, lookup) == seg_p + seg_b + seg_e + seg_r + seg_w);
            assert(trees_depth(basic_children(b, users, lookup)) <= 4);
        },
    }
}

/// No tree of an assembled batch nests deeper than five levels.
pub proof fn lemma_assembled_depth(
    msgs: Seq<YamlMessage>,
    users: Map<u64, ResolvedUserV>,
    lookup: bool,
)
    ensures
        trees_depth(assembled_trees(msgs, users, lookup)) <= 5,
{
    assert forall|i: int| 0 <= i < assembled_trees(msgs, users, lookup).len() implies tree_depth(
        #[trigger] assembled_trees(msgs, users, lookup)[i],
    ) <= 5 by {
        assert(assembled_trees(msgs, users, lookup)[i] == message_node(msgs[i], users, lookup));
        lemma_message_node_depth(msgs[i], users, lookup);
    }
    lemma_trees_depth_bound(assembled_trees(msgs, users, lookup), 5);
}

} // verus!

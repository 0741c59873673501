//! The document tree: a closed union of the component variants, recursive
//! nodes pairing a component with its ordered children, and the document
//! that couples a tree with its role-color table.

use vstd::prelude::*;

use crate::components::{
    action_row_attrs, attachments_attrs, button_attrs, ActionRow, Attachments, Button, ButtonV,
};
use crate::embed::{
    embed_attrs, embed_description_attrs, embed_field_attrs, embed_fields_attrs,
    embed_footer_attrs, Embed, EmbedDescription, EmbedField, EmbedFieldV, EmbedFields, EmbedFooter,
    EmbedFooterV, EmbedV,
};
use crate::generatable::{attrs_view, Generatable};
use crate::invite::{invite_attrs, Invite, InviteV};
use crate::message::{
    attachment_attrs, command_attrs, message_attrs, reaction_attrs, reactions_attrs, reply_attrs,
    system_message_attrs, Attachment, AttachmentV, Command, CommandV, Message, MessageV, Reaction,
    ReactionV, Reactions, Reply, ReplyV, SystemMessage, SystemMessageV,
};
use crate::roles::RoleMap;

verus! {

/// One component instance: a tagged variant carrying only the fields
/// relevant to that variant.
pub enum Component {
    Message(Message),
    SystemMessage(SystemMessage),
    Reactions(Reactions),
    Reaction(Reaction),
    Attachment(Attachment),
    Reply(Reply),
    Command(Command),
    Embed(Embed),
    EmbedDescription(EmbedDescription),
    EmbedFields(EmbedFields),
    EmbedField(EmbedField),
    EmbedFooter(EmbedFooter),
    Attachments(Attachments),
    ActionRow(ActionRow),
    Button(Button),
    Invite(Invite),
}

/// The abstract content of a component instance.
#[verifier::ext_equal]
pub enum CompV {
    Message(MessageV),
    SystemMessage(SystemMessageV),
    Reactions,
    Reaction(ReactionV),
    Attachment(AttachmentV),
    Reply(ReplyV),
    Command(CommandV),
    Embed(EmbedV),
    EmbedDescription,
    EmbedFields,
    EmbedField(EmbedFieldV),
    EmbedFooter(EmbedFooterV),
    Attachments,
    ActionRow,
    Button(ButtonV),
    Invite(InviteV),
}

impl View for Component {
    type V = CompV;

    open spec fn view(&self) -> CompV {
        match self {
            Component::Message(c) => CompV::Message(c@),
            Component::SystemMessage(c) => CompV::SystemMessage(c@),
            Component::Reactions(c) => CompV::Reactions,
            Component::Reaction(c) => CompV::Reaction(c@),
            Component::Attachment(c) => CompV::Attachment(c@),
            Component::Reply(c) => CompV::Reply(c@),
            Component::Command(c) => CompV::Command(c@),
            Component::Embed(c) => CompV::Embed(c@),
            Component::EmbedDescription(c) => CompV::EmbedDescription,
            Component::EmbedFields(c) => CompV::EmbedFields,
            Component::EmbedField(c) => CompV::EmbedField(c@),
            Component::EmbedFooter(c) => CompV::EmbedFooter(c@),
            Component::Attachments(c) => CompV::Attachments,
            Component::ActionRow(c) => CompV::ActionRow,
            Component::Button(c) => CompV::Button(c@),
            Component::Invite(c) => CompV::Invite(c@),
        }
    }
}

/// The stable tag name of a component variant.
pub open spec fn comp_tag(c: CompV) -> Seq<char> {
    match c {
        CompV::Message(_) => "discord-message"@,
        CompV::SystemMessage(_) => "discord-system-message"@,
        CompV::Reactions => "discord-reactions"@,
        CompV::Reaction(_) => "discord-reaction"@,
        CompV::Attachment(_) => "discord-attachment"@,
        CompV::Reply(_) => "discord-reply"@,
        CompV::Command(_) => "discord-command"@,
        CompV::Embed(_) => "discord-embed"@,
        CompV::EmbedDescription => "discord-embed-description"@,
        CompV::EmbedFields => "discord-embed-fields"@,
        CompV::EmbedField(_) => "discord-embed-field"@,
        CompV::EmbedFooter(_) => "discord-embed-footer"@,
        CompV::Attachments => "discord-attachments"@,
        CompV::ActionRow => "discord-action-row"@,
        CompV::Button(_) => "discord-button"@,
        CompV::Invite(_) => "discord-invite"@,
    }
}

/// The attribute list of a component variant, derived from its fields.
pub open spec fn comp_attrs(c: CompV) -> Seq<(Seq<char>, Seq<char>)> {
    match c {
        CompV::Message(v) => message_attrs(v),
        CompV::SystemMessage(v) => system_message_attrs(v),
        CompV::Reactions => reactions_attrs(),
        CompV::Reaction(v) => reaction_attrs(v),
        CompV::Attachment(v) => attachment_attrs(v),
        CompV::Reply(v) => reply_attrs(v),
        CompV::Command(v) => command_attrs(v),
        CompV::Embed(v) => embed_attrs(v),
        CompV::EmbedDescription => embed_description_attrs(),
        CompV::EmbedFields => embed_fields_attrs(),
        CompV::EmbedField(v) => embed_field_attrs(v),
        CompV::EmbedFooter(v) => embed_footer_attrs(v),
        CompV::Attachments => attachments_attrs(),
        CompV::ActionRow => action_row_attrs(),
        CompV::Button(v) => button_attrs(v),
        CompV::Invite(v) => invite_attrs(v),
    }
}

impl Component {
    /// The component's stable tag name.
    pub fn tag_name(&self) -> (r: &'static str)
        ensures
            r@ == comp_tag(self@),
    {
        match self {
            Component::Message(c) => c.name(),
            Component::SystemMessage(c) => c.name(),
            Component::Reactions(c) => c.name(),
            Component::Reaction(c) => c.name(),
            Component::Attachment(c) => c.name(),
            Component::Reply(c) => c.name(),
            Component::Command(c) => c.name(),
            Component::Embed(c) => c.name(),
            Component::EmbedDescription(c) => c.name(),
            Component::EmbedFields(c) => c.name(),
            Component::EmbedField(c) => c.name(),
            Component::EmbedFooter(c) => c.name(),
            Component::Attachments(c) => c.name(),
            Component::ActionRow(c) => c.name(),
            Component::Button(c) => c.name(),
            Component::Invite(c) => c.name(),
        }
    }

    /// The component's attribute list, derived from its fields.
    pub fn attributes(&self) -> (r: Vec<(String, String)>)
        ensures
            attrs_view(r@) == comp_attrs(self@),
    {
        match self {
            Component::Message(c) => c.attributes(),
            Component::SystemMessage(c) => c.attributes(),
            Component::Reactions(c) => c.attributes(),
            Component::Reaction(c) => c.attributes(),
            Component::Attachment(c) => c.attributes(),
            Component::Reply(c) => c.attributes(),
            Component::Command(c) => c.attributes(),
            Component::Embed(c) => c.attributes(),
            Component::EmbedDescription(c) => c.attributes(),
            Component::EmbedFields(c) => c.attributes(),
            Component::EmbedField(c) => c.attributes(),
            Component::EmbedFooter(c) => c.attributes(),
            Component::Attachments(c) => c.attributes(),
            Component::ActionRow(c) => c.attributes(),
            Component::Button(c) => c.attributes(),
            Component::Invite(c) => c.attributes(),
        }
    }
}

/// One node of the document tree: literal text, or a component with its
/// ordered children.
pub enum ComponentTree {
    Text(String),
    Node { data: Component, nodes: Vec<ComponentTree> },
}

/// The abstract content of a document-tree node.
#[verifier::ext_equal]
pub enum TreeV {
    Text(Seq<char>),
    Node { data: CompV, nodes: Seq<TreeV> },
}

/// The abstract content of one tree node.
pub open spec fn tree_view(t: ComponentTree) -> TreeV
    decreases t,
{
    match t {
        ComponentTree::Text(s) => TreeV::Text(s@),
        ComponentTree::Node { data, nodes } => TreeV::Node {
            data: data@,
            nodes: trees_view(nodes@),
        },
    }
}

/// The abstract content of a list of tree nodes, in order.
pub open spec fn trees_view(ts: Seq<ComponentTree>) -> Seq<TreeV>
    decreases ts,
{
    if ts.len() == 0 {
        Seq::empty()
    } else {
        seq![tree_view(ts[0])] + trees_view(ts.drop_first())
    }
}

/// `trees_view` maps the list elementwise.
pub proof fn lemma_trees_view_index(ts: Seq<ComponentTree>)
    ensures
        trees_view(ts).len() == ts.len(),
        forall|i: int| 0 <= i < ts.len() ==> trees_view(ts)[i] == tree_view(ts[i]),
    decreases ts.len(),
{
    if ts.len() > 0 {
        lemma_trees_view_index(ts.drop_first());
    }
}

/// Appending a node to a list appends its view.
pub proof fn lemma_trees_view_push(ts: Seq<ComponentTree>, t: ComponentTree)
    ensures
        trees_view(ts.push(t)) == trees_view(ts).push(tree_view(t)),
{
    lemma_trees_view_index(ts.push(t));
    lemma_trees_view_index(ts);
    assert(trees_view(ts.push(t)) =~= trees_view(ts).push(tree_view(t)));
}

/// Concatenating two lists concatenates their views.
pub proof fn lemma_trees_view_concat(a: Seq<ComponentTree>, b: Seq<ComponentTree>)
    ensures
        trees_view(a + b) == trees_view(a) + trees_view(b),
{
    lemma_trees_view_index(a + b);
    lemma_trees_view_index(a);
    lemma_trees_view_index(b);
    assert(trees_view(a + b) =~= trees_view(a) + trees_view(b));
}

/// The view of an empty node list is empty.
pub proof fn lemma_trees_view_empty()
    ensures
        trees_view(Seq::<ComponentTree>::empty()) == Seq::<TreeV>::empty(),
{
}

/// The view of a one-node list is the one view.
pub proof fn lemma_trees_view_singleton(t: ComponentTree)
    ensures
        trees_view(seq![t]) == seq![tree_view(t)],
{
    assert(seq![t][0] == t);
    assert(seq![t].len() == 1);
    assert(seq![t].drop_first() =~= Seq::<ComponentTree>::empty());
    assert(trees_view(seq![t]) == seq![tree_view(seq![t][0])] + trees_view(seq![t].drop_first()));
    assert(trees_view(Seq::<ComponentTree>::empty()) == Seq::<TreeV>::empty());
    assert(trees_view(seq![t]) =~= seq![tree_view(t)]);
}

/// The nesting depth of a tree node: how many levels of nodes it holds,
/// itself included.
pub open spec fn tree_depth(t: TreeV) -> nat
    decreases t,
{
    match t {
        TreeV::Text(_) => 1,
        TreeV::Node { data, nodes } => 1 + trees_depth(nodes),
    }
}

/// The greatest nesting depth among a list of tree nodes.
pub open spec fn trees_depth(ts: Seq<TreeV>) -> nat
    decreases ts,
{
    if ts.len() == 0 {
        0
    } else if tree_depth(ts[0]) >= trees_depth(ts.drop_first()) {
        tree_depth(ts[0])
    } else {
        trees_depth(ts.drop_first())
    }
}

/// Every node in a list stays within the list's depth bound.
pub proof fn lemma_trees_depth_index(ts: Seq<TreeV>)
    ensures
        forall|i: int| 0 <= i < ts.len() ==> tree_depth(#[trigger] ts[i]) <= trees_depth(ts),
    decreases ts.len(),
{
    if ts.len() > 0 {
        lemma_trees_depth_index(ts.drop_first());
        assert forall|i: int| 0 <= i < ts.len() implies tree_depth(#[trigger] ts[i])
            <= trees_depth(ts) by {
            if i > 0 {
                assert(ts.drop_first()[i - 1] == ts[i]);
                assert(tree_depth(ts.drop_first()[i - 1]) <= trees_depth(ts.drop_first()));
            }
        }
    }
}

/// A list is as deep as its deepest node.
pub proof fn lemma_trees_depth_concat(a: Seq<TreeV>, b: Seq<TreeV>)
    ensures
        trees_depth(a + b) == if trees_depth(a) >= trees_depth(b) {
            trees_depth(a)
        } else {
            trees_depth(b)
        },
    decreases a.len(),
{
    if a.len() == 0 {
        assert(a + b =~= b);
    } else {
        assert((a + b)[0] == a[0]);
        assert((a + b).len() > 0);
        assert((a + b).drop_first() =~= a.drop_first() + b);
        lemma_trees_depth_concat(a.drop_first(), b);
    }
}

/// A bound on every node bounds the list.
pub proof fn lemma_trees_depth_bound(ts: Seq<TreeV>, k: nat)
    requires
        forall|i: int| 0 <= i < ts.len() ==> tree_depth(#[trigger] ts[i]) <= k,
    ensures
        trees_depth(ts) <= k,
    decreases ts.len(),
{
    if ts.len() > 0 {
        assert(forall|j: int|
            0 <= j < ts.len() - 1 ==> #[trigger] ts.drop_first()[j] == ts[j + 1]);
        lemma_trees_depth_bound(ts.drop_first(), k);
    }
}

/// A one-node list is as deep as its node.
pub proof fn lemma_trees_depth_singleton(t: TreeV)
    ensures
        trees_depth(seq![t]) == tree_depth(t),
{
    assert(seq![t][0] == t);
    assert(seq![t].len() == 1);
    assert(seq![t].drop_first() =~= Seq::<TreeV>::empty());
    assert(trees_depth(Seq::<TreeV>::empty()) == 0);
    assert(tree_depth(seq![t][0]) >= trees_depth(seq![t].drop_first()));
}

/// The document: a role-color table shared by the whole batch, and the
/// ordered top-level tree nodes.
pub struct Components {
    pub roles: RoleMap,
    pub tree: Vec<ComponentTree>,
}

/// The abstract content of a document.
#[verifier::ext_equal]
pub struct DocV {
    pub roles: Map<Seq<char>, Seq<char>>,
    pub tree: Seq<TreeV>,
}

impl View for Components {
    type V = DocV;

    open spec fn view(&self) -> DocV {
        DocV { roles: self.roles@, tree: trees_view(self.tree@) }
    }
}

impl Components {
    /// An empty document.
    pub fn new() -> (r: Components)
        ensures
            r@.roles == Map::<Seq<char>, Seq<char>>::empty(),
            r@.tree == Seq::<TreeV>::empty(),
    {
        Components { roles: RoleMap::new(), tree: Vec::new() }
    }
}

} // verus!

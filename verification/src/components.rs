//! Interactive components under a message: the shared wrapper for
//! attachments, action rows and invites, the action row itself, and its
//! buttons.

use vstd::prelude::*;

use crate::generatable::{
    attrs_view, clone_opt, flag_attr, lemma_attrs_contains_concat, lemma_flag_attr_contains,
    lemma_opt_attr_contains, lemma_str_attr_contains, opt_attr, push_flag_attr, push_lit_attr,
    push_opt_attr, push_str_attr, str_attr, Generatable,
};

verus! {

/// The wrapper holding a message's attachments, action rows and invites.
pub struct Attachments;

/// The attribute list of the components wrapper: its slot designation
/// only.
pub open spec fn attachments_attrs() -> Seq<(Seq<char>, Seq<char>)> {
    str_attr("slot"@, "components"@)
}

impl Generatable for Attachments {
    fn name(&self) -> (r: &'static str)
        ensures
            r@ == "discord-attachments"@,
    {
        "discord-attachments"
    }

    fn attributes(&self) -> (r: Vec<(String, String)>)
        ensures
            attrs_view(r@) == attachments_attrs(),
    {
        let mut attr: Vec<(String, String)> = Vec::new();
        push_lit_attr(&mut attr, "slot", "components");
        proof {
            assert(attrs_view(attr@) =~= attachments_attrs());
        }
        attr
    }
}

/// A horizontal grouping of interactive buttons.
pub struct ActionRow;

/// The attribute list of an action row: empty.
pub open spec fn action_row_attrs() -> Seq<(Seq<char>, Seq<char>)> {
    Seq::empty()
}

impl Generatable for ActionRow {
    fn name(&self) -> (r: &'static str)
        ensures
            r@ == "discord-action-row"@,
    {
        "discord-action-row"
    }

    fn attributes(&self) -> (r: Vec<(String, String)>)
        ensures
            attrs_view(r@) == action_row_attrs(),
    {
        let attr: Vec<(String, String)> = Vec::new();
        proof {
            assert(attrs_view(attr@) =~= action_row_attrs());
        }
        attr
    }
}

/// The visual styles a button can have.
#[derive(Clone, Copy, Debug, PartialEq, Eq, Structural)]
pub enum ButtonType {
    Primary,
    Secondary,
    Success,
    Destructive,
}

/// The text a button style shows in its `type` attribute.
pub open spec fn button_type_text(t: ButtonType) -> Seq<char> {
    match t {
        ButtonType::Primary => "primary"@,
        ButtonType::Secondary => "secondary"@,
        ButtonType::Success => "success"@,
        ButtonType::Destructive => "destructive"@,
    }
}

/// The kebab-cased name of a button style.
pub fn button_type_name(t: ButtonType) -> (r: &'static str)
    ensures
        r@ == button_type_text(t),
{
    match t {
        ButtonType::Primary => "primary",
        ButtonType::Secondary => "secondary",
        ButtonType::Success => "success",
        ButtonType::Destructive => "destructive",
    }
}

/// One interactive button inside an action row.
pub struct Button {
    pub kind: ButtonType,
    pub disabled: bool,
    pub emoji: Option<String>,
    pub emoji_name: Option<String>,
    pub url: Option<String>,
}

/// The abstract content of a `Button`.
#[verifier::ext_equal]
pub struct ButtonV {
    pub kind: ButtonType,
    pub disabled: bool,
    pub emoji: Option<Seq<char>>,
    pub emoji_name: Option<Seq<char>>,
    pub url: Option<Seq<char>>,
}

impl View for Button {
    type V = ButtonV;

    open spec fn view(&self) -> ButtonV {
        ButtonV {
            kind: self.kind,
            disabled: self.disabled,
            emoji: self.emoji.deep_view(),
            emoji_name: self.emoji_name.deep_view(),
            url: self.url.deep_view(),
        }
    }
}

/// The attribute list of a button.
pub open spec fn button_attrs(m: ButtonV) -> Seq<(Seq<char>, Seq<char>)> {
    str_attr("type"@, button_type_text(m.kind)) + flag_attr("disabled"@, m.disabled) + opt_attr(
        "emoji"@,
        m.emoji,
    ) + opt_attr("emoji-name"@, m.emoji_name) + opt_attr("url"@, m.url)
}

impl Generatable for Button {
    fn name(&self) -> (r: &'static str)
        ensures
            r@ == "discord-button"@,
    {
        "discord-button"
    }

    fn attributes(&self) -> (r: Vec<(String, String)>)
        ensures
            attrs_view(r@) == button_attrs(self@),
    {
        let mut attr: Vec<(String, String)> = Vec::new();
        push_lit_attr(&mut attr, "type", button_type_name(self.kind));
        push_flag_attr(&mut attr, "disabled", self.disabled);
        push_opt_attr(&mut attr, "emoji", clone_opt(&self.emoji));
        push_opt_attr(&mut attr, "emoji-name", clone_opt(&self.emoji_name));
        push_opt_attr(&mut attr, "url", clone_opt(&self.url));
        proof {
            assert(attrs_view(attr@) =~= button_attrs(self@));
        }
        attr
    }
}

/// Exactly which attributes a button emits, pinned pair by pair.
pub proof fn lemma_button_attr_pairs(m: ButtonV, x: (Seq<char>, Seq<char>))
    ensures
        button_attrs(m).contains(x) == (x == ("type"@, button_type_text(m.kind)) || (m.disabled
            && x == ("disabled"@, Seq::<char>::empty())) || (m.emoji is Some && x == (
            "emoji"@,
            m.emoji->0,
        )) || (m.emoji_name is Some && x == ("emoji-name"@, m.emoji_name->0)) || (m.url is Some
            && x == ("url"@, m.url->0))),
{
    let s1 = str_attr("type"@, button_type_text(m.kind));
    let s2 = flag_attr("disabled"@, m.disabled);
    let s3 = opt_attr("emoji"@, m.emoji);
    let s4 = opt_attr("emoji-name"@, m.emoji_name);
    let s5 = opt_attr("url"@, m.url);
    lemma_str_attr_contains("type"@, button_type_text(m.kind), x);
    lemma_flag_attr_contains("disabled"@, m.disabled, x);
    lemma_opt_attr_contains("emoji"@, m.emoji, x);
    lemma_opt_attr_contains("emoji-name"@, m.emoji_name, x);
    lemma_opt_attr_contains("url"@, m.url, x);
    lemma_attrs_contains_concat(s1, s2, x);
    lemma_attrs_contains_concat(s1 + s2, s3, x);
    lemma_attrs_contains_concat(s1 + s2 + s3, s4, x);
    lemma_attrs_contains_concat(s1 + s2 + s3 + s4, s5, x);
}

/// A button's boolean field surfaces as a flag attribute: false never
/// emits the attribute name, true emits the bare name with an empty
/// value.
pub proof fn lemma_button_flag_attrs(m: ButtonV)
    ensures
        m.disabled ==> button_attrs(m).contains(("disabled"@, Seq::<char>::empty())),
        !m.disabled ==> (forall|v: Seq<char>| !button_attrs(m).contains((("disabled"@, v)))),
{
    reveal_strlit("type");
    reveal_strlit("disabled");
    reveal_strlit("emoji");
    reveal_strlit("emoji-name");
    reveal_strlit("url");
    assert("type"@.len() == 4);
    assert("disabled"@.len() == 8);
    assert("emoji"@.len() == 5);
    assert("emoji-name"@.len() == 10);
    assert("url"@.len() == 3);
    lemma_button_attr_pairs(m, ("disabled"@, Seq::<char>::empty()));
    assert forall|v: Seq<char>| !m.disabled implies !button_attrs(m).contains(
        (("disabled"@, v)),
    ) by {
        lemma_button_attr_pairs(m, ("disabled"@, v));
    }
}

} // verus!

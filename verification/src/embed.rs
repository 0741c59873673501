//! Embed components: the embed card itself and its description, field and
//! footer sub-structures.

use vstd::prelude::*;

use crate::generatable::{
    attrs_view, clone_opt, flag_attr, lemma_attrs_contains_concat, lemma_flag_attr_contains,
    lemma_opt_num_attr_contains, lemma_str_attr_contains, opt_attr, opt_nat_usize, opt_num_attr,
    push_flag_attr, push_lit_attr, push_opt_attr, push_opt_usize_attr, push_str_attr, str_attr,
    Generatable,
};

verus! {

/// An embed card under a message.
pub struct Embed {
    pub embed_title: Option<String>,
    pub url: Option<String>,
    pub color: Option<String>,
    pub image: Option<String>,
    pub thumbnail: Option<String>,
    pub author_name: Option<String>,
    pub author_url: Option<String>,
    pub author_image: Option<String>,
}

/// The abstract content of an `Embed`.
#[verifier::ext_equal]
pub struct EmbedV {
    pub embed_title: Option<Seq<char>>,
    pub url: Option<Seq<char>>,
    pub color: Option<Seq<char>>,
    pub image: Option<Seq<char>>,
    pub thumbnail: Option<Seq<char>>,
    pub author_name: Option<Seq<char>>,
    pub author_url: Option<Seq<char>>,
    pub author_image: Option<Seq<char>>,
}

impl View for Embed {
    type V = EmbedV;

    open spec fn view(&self) -> EmbedV {
        EmbedV {
            embed_title: self.embed_title.deep_view(),
            url: self.url.deep_view(),
            color: self.color.deep_view(),
            image: self.image.deep_view(),
            thumbnail: self.thumbnail.deep_view(),
            author_name: self.author_name.deep_view(),
            author_url: self.author_url.deep_view(),
            author_image: self.author_image.deep_view(),
        }
    }
}

/// The attribute list of an embed card.
pub open spec fn embed_attrs(m: EmbedV) -> Seq<(Seq<char>, Seq<char>)> {
    str_attr("slot"@, "embeds"@) + opt_attr("embed-title"@, m.embed_title) + opt_attr("url"@, m.url)
        + opt_attr("color"@, m.color) + opt_attr("image"@, m.image) + opt_attr(
        "thumbnail"@,
        m.thumbnail,
    ) + opt_attr("author-name"@, m.author_name) + opt_attr("author-url"@, m.author_url) + opt_attr(
        "author-image"@,
        m.author_image,
    )
}

impl Generatable for Embed {
    fn name(&self) -> (r: &'static str)
        ensures
            r@ == "discord-embed"@,
    {
        "discord-embed"
    }

    fn attributes(&self) -> (r: Vec<(String, String)>)
        ensures
            attrs_view(r@) == embed_attrs(self@),
    {
        let mut attr: Vec<(String, String)> = Vec::new();
        push_lit_attr(&mut attr, "slot", "embeds");
        push_opt_attr(&mut attr, "embed-title", clone_opt(&self.embed_title));
        push_opt_attr(&mut attr, "url", clone_opt(&self.url));
        push_opt_attr(&mut attr, "color", clone_opt(&self.color));
        push_opt_attr(&mut attr, "image", clone_opt(&self.image));
        push_opt_attr(&mut attr, "thumbnail", clone_opt(&self.thumbnail));
        push_opt_attr(&mut attr, "author-name", clone_opt(&self.author_name));
        push_opt_attr(&mut attr, "author-url", clone_opt(&self.author_url));
        push_opt_attr(&mut attr, "author-image", clone_opt(&self.author_image));
        proof {
            assert(attrs_view(attr@) =~= embed_attrs(self@));
        }
        attr
    }
}

/// The wrapper holding an embed's free-text description.
pub struct EmbedDescription;

/// The attribute list of the description wrapper: its slot designation
/// only.
pub open spec fn embed_description_attrs() -> Seq<(Seq<char>, Seq<char>)> {
    str_attr("slot"@, "description"@)
}

impl Generatable for EmbedDescription {
    fn name(&self) -> (r: &'static str)
        ensures
            r@ == "discord-embed-description"@,
    {
        "discord-embed-description"
    }

    fn attributes(&self) -> (r: Vec<(String, String)>)
        ensures
            attrs_view(r@) == embed_description_attrs(),
    {
        let mut attr: Vec<(String, String)> = Vec::new();
        push_lit_attr(&mut attr, "slot", "description");
        proof {
            assert(attrs_view(attr@) =~= embed_description_attrs());
        }
        attr
    }
}

/// The wrapper holding an embed's fields.
pub struct EmbedFields;

/// The attribute list of the fields wrapper: its slot designation only.
pub open spec fn embed_fields_attrs() -> Seq<(Seq<char>, Seq<char>)> {
    str_attr("slot"@, "fields"@)
}

impl Generatable for EmbedFields {
    fn name(&self) -> (r: &'static str)
        ensures
            r@ == "discord-embed-fields"@,
    {
        "discord-embed-fields"
    }

    fn attributes(&self) -> (r: Vec<(String, String)>)
        ensures
            attrs_view(r@) == embed_fields_attrs(),
    {
        let mut attr: Vec<(String, String)> = Vec::new();
        push_lit_attr(&mut attr, "slot", "fields");
        proof {
            assert(attrs_view(attr@) =~= embed_fields_attrs());
        }
        attr
    }
}

/// One titled field of an embed.
pub struct EmbedField {
    pub field_title: String,
    pub inline: bool,
    pub inline_index: Option<usize>,
}

/// The abstract content of an `EmbedField`.
#[verifier::ext_equal]
pub struct EmbedFieldV {
    pub field_title: Seq<char>,
    pub inline: bool,
    pub inline_index: Option<nat>,
}

impl View for EmbedField {
    type V = EmbedFieldV;

    open spec fn view(&self) -> EmbedFieldV {
        EmbedFieldV {
            field_title: self.field_title@,
            inline: self.inline,
            inline_index: opt_nat_usize(self.inline_index),
        }
    }
}

/// The attribute list of an embed field.
pub open spec fn embed_field_attrs(m: EmbedFieldV) -> Seq<(Seq<char>, Seq<char>)> {
    str_attr("field-title"@, m.field_title) + flag_attr("inline"@, m.inline) + opt_num_attr(
        "inline-index"@,
        m.inline_index,
    )
}

impl Generatable for EmbedField {
    fn name(&self) -> (r: &'static str)
        ensures
            r@ == "discord-embed-field"@,
    {
        "discord-embed-field"
    }

    fn attributes(&self) -> (r: Vec<(String, String)>)
        ensures
            attrs_view(r@) == embed_field_attrs(self@),
    {
        let mut attr: Vec<(String, String)> = Vec::new();
        push_str_attr(&mut attr, "field-title", self.field_title.clone());
        push_flag_attr(&mut attr, "inline", self.inline);
        push_opt_usize_attr(&mut attr, "inline-index", self.inline_index);
        proof {
            assert(attrs_view(attr@) =~= embed_field_attrs(self@));
        }
        attr
    }
}

/// The footer of an embed.
pub struct EmbedFooter {
    pub footer_image: Option<String>,
    pub timestamp: Option<String>,
}

/// The abstract content of an `EmbedFooter`.
#[verifier::ext_equal]
pub struct EmbedFooterV {
    pub footer_image: Option<Seq<char>>,
    pub timestamp: Option<Seq<char>>,
}

impl View for EmbedFooter {
    type V = EmbedFooterV;

    open spec fn view(&self) -> EmbedFooterV {
        EmbedFooterV {
            footer_image: self.footer_image.deep_view(),
            timestamp: self.timestamp.deep_view(),
        }
    }
}

/// The attribute list of an embed footer.
pub open spec fn embed_footer_attrs(m: EmbedFooterV) -> Seq<(Seq<char>, Seq<char>)> {
    str_attr("slot"@, "footer"@) + opt_attr("footer-image"@, m.footer_image) + opt_attr(
        "timestamp"@,
        m.timestamp,
    )
}

impl Generatable for EmbedFooter {
    fn name(&self) -> (r: &'static str)
        ensures
            r@ == "discord-embed-footer"@,
    {
        "discord-embed-footer"
    }

    fn attributes(&self) -> (r: Vec<(String, String)>)
        ensures
            attrs_view(r@) == embed_footer_attrs(self@),
    {
        let mut attr: Vec<(String, String)> = Vec::new();
        push_lit_attr(&mut attr, "slot", "footer");
        push_opt_attr(&mut attr, "footer-image", clone_opt(&self.footer_image));
        push_opt_attr(&mut attr, "timestamp", clone_opt(&self.timestamp));
        proof {
            assert(attrs_view(attr@) =~= embed_footer_attrs(self@));
        }
        attr
    }
}

/// Exactly which attributes an embed field emits, pinned pair by pair.
pub proof fn lemma_embed_field_attr_pairs(m: EmbedFieldV, x: (Seq<char>, Seq<char>))
    ensures
        embed_field_attrs(m).contains(x) == (x == ("field-title"@, m.field_title) || (m.inline
            && x == ("inline"@, Seq::<char>::empty())) || (m.inline_index is Some && x == (
            "inline-index"@,
            crate::text::dec_seq(m.inline_index->0),
        ))),
{
    let s1 = str_attr("field-title"@, m.field_title);
    let s2 = flag_attr("inline"@, m.inline);
    let s3 = opt_num_attr("inline-index"@, m.inline_index);
    lemma_str_attr_contains("field-title"@, m.field_title, x);
    lemma_flag_attr_contains("inline"@, m.inline, x);
    lemma_opt_num_attr_contains("inline-index"@, m.inline_index, x);
    lemma_attrs_contains_concat(s1, s2, x);
    lemma_attrs_contains_concat(s1 + s2, s3, x);
}

/// An embed field's boolean surfaces as a flag attribute: false never
/// emits the attribute name, true emits the bare name with an empty
/// value.
pub proof fn lemma_embed_field_flag_attrs(m: EmbedFieldV)
    ensures
        m.inline ==> embed_field_attrs(m).contains(("inline"@, Seq::<char>::empty())),
        !m.inline ==> (forall|v: Seq<char>| !embed_field_attrs(m).contains((("inline"@, v)))),
{
    reveal_strlit("field-title");
    reveal_strlit("inline");
    reveal_strlit("inline-index");
    assert("field-title"@.len() == 11);
    assert("inline"@.len() == 6);
    assert("inline-index"@.len() == 12);
    lemma_embed_field_attr_pairs(m, ("inline"@, Seq::<char>::empty()));
    assert forall|v: Seq<char>| !m.inline implies !embed_field_attrs(m).contains(
        (("inline"@, v)),
    ) by {
        lemma_embed_field_attr_pairs(m, ("inline"@, v));
    }
}

} // verus!

//! The server-invite card a message can carry.

use vstd::prelude::*;

use crate::generatable::{
    attrs_view, clone_opt, flag_attr, lemma_attrs_contains_concat, lemma_flag_attr_contains,
    lemma_num_attr_contains, lemma_opt_attr_contains, lemma_str_attr_contains, num_attr, opt_attr,
    push_flag_attr, push_num_attr, push_opt_attr, push_str_attr, str_attr, Generatable,
};

verus! {

/// A server invite. The model is intentionally minimal: only the data a
/// user can actually change on a real invite.
pub struct Invite {
    pub online: u64,
    pub members: u64,
    pub name: String,
    pub icon: Option<String>,
    pub partnered: bool,
    pub verified: bool,
}

/// The abstract content of an `Invite`.
#[verifier::ext_equal]
pub struct InviteV {
    pub online: nat,
    pub members: nat,
    pub name: Seq<char>,
    pub icon: Option<Seq<char>>,
    pub partnered: bool,
    pub verified: bool,
}

impl View for Invite {
    type V = InviteV;

    open spec fn view(&self) -> InviteV {
        InviteV {
            online: self.online as nat,
            members: self.members as nat,
            name: self.name@,
            icon: self.icon.deep_view(),
            partnered: self.partnered,
            verified: self.verified,
        }
    }
}

/// The attribute list of an invite.
pub open spec fn invite_attrs(m: InviteV) -> Seq<(Seq<char>, Seq<char>)> {
    num_attr("online"@, m.online) + num_attr("members"@, m.members) + str_attr("name"@, m.name)
        + opt_attr("icon"@, m.icon) + flag_attr("partnered"@, m.partnered) + flag_attr(
        "verified"@,
        m.verified,
    )
}

impl Generatable for Invite {
    fn name(&self) -> (r: &'static str)
        ensures
            r@ == "discord-invite"@,
    {
        "discord-invite"
    }

    fn attributes(&self) -> (r: Vec<(String, String)>)
        ensures
            attrs_view(r@) == invite_attrs(self@),
    {
        let mut attr: Vec<(String, String)> = Vec::new();
        push_num_attr(&mut attr, "online", self.online);
        push_num_attr(&mut attr, "members", self.members);
        push_str_attr(&mut attr, "name", self.name.clone());
        push_opt_attr(&mut attr, "icon", clone_opt(&self.icon));
        push_flag_attr(&mut attr, "partnered", self.partnered);
        push_flag_attr(&mut attr, "verified", self.verified);
        proof {
            assert(attrs_view(attr@) =~= invite_attrs(self@));
        }
        attr
    }
}

/// Exactly which attributes an invite emits, pinned pair by pair.
pub proof fn lemma_invite_attr_pairs(m: InviteV, x: (Seq<char>, Seq<char>))
    ensures
        invite_attrs(m).contains(x) == (x == ("online"@, crate::text::dec_seq(m.online)) || x == (
            "members"@,
            crate::text::dec_seq(m.members),
        ) || x == ("name"@, m.name) || (m.icon is Some && x == ("icon"@, m.icon->0)) || (
        m.partnered && x == ("partnered"@, Seq::<char>::empty())) || (m.verified && x == (
            "verified"@,
            Seq::<char>::empty(),
        ))),
{
    let s1 = num_attr("online"@, m.online);
    let s2 = num_attr("members"@, m.members);
    let s3 = str_attr("name"@, m.name);
    let s4 = opt_attr("icon"@, m.icon);
    let s5 = flag_attr("partnered"@, m.partnered);
    let s6 = flag_attr("verified"@, m.verified);
    lemma_num_attr_contains("online"@, m.online, x);
    lemma_num_attr_contains("members"@, m.members, x);
    lemma_str_attr_contains("name"@, m.name, x);
    lemma_opt_attr_contains("icon"@, m.icon, x);
    lemma_flag_attr_contains("partnered"@, m.partnered, x);
    lemma_flag_attr_contains("verified"@, m.verified, x);
    lemma_attrs_contains_concat(s1, s2, x);
    lemma_attrs_contains_concat(s1 + s2, s3, x);
    lemma_attrs_contains_concat(s1 + s2 + s3, s4, x);
    lemma_attrs_contains_concat(s1 + s2 + s3 + s4, s5, x);
    lemma_attrs_contains_concat(s1 + s2 + s3 + s4 + s5, s6, x);
}

/// An invite's boolean fields surface as flag attributes: a false field
/// never emits its attribute name, and a true field emits the bare name
/// with an empty value.
pub proof fn lemma_invite_flag_attrs(m: InviteV)
    ensures
        m.partnered ==> invite_attrs(m).contains(("partnered"@, Seq::<char>::empty())),
        !m.partnered ==> (forall|v: Seq<char>| !invite_attrs(m).contains((("partnered"@, v)))),
        m.verified ==> invite_attrs(m).contains(("verified"@, Seq::<char>::empty())),
        !m.verified ==> (forall|v: Seq<char>| !invite_attrs(m).contains((("verified"@, v)))),
{
    reveal_strlit("online");
    reveal_strlit("members");
    reveal_strlit("name");
    reveal_strlit("icon");
    reveal_strlit("partnered");
    reveal_strlit("verified");
    assert("online"@.len() == 6);
    assert("members"@.len() == 7);
    assert("name"@.len() == 4);
    assert("icon"@.len() == 4);
    assert("partnered"@.len() == 9);
    assert("verified"@.len() == 8);
    lemma_invite_attr_pairs(m, ("partnered"@, Seq::<char>::empty()));
    lemma_invite_attr_pairs(m, ("verified"@, Seq::<char>::empty()));
    assert forall|v: Seq<char>| !m.partnered implies !invite_attrs(m).contains(
        (("partnered"@, v)),
    ) by {
        lemma_invite_attr_pairs(m, ("partnered"@, v));
    }
    assert forall|v: Seq<char>| !m.verified implies !invite_attrs(m).contains(
        (("verified"@, v)),
    ) by {
        lemma_invite_attr_pairs(m, ("verified"@, v));
    }
}

} // verus!

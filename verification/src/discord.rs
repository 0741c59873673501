//! The user-lookup side of the pipeline: the user record the lookup
//! service returns, the plain resolved values the assembler consumes, and
//! the table of resolved users a caller hands to one assembly pass.

use vstd::prelude::*;

use crate::generatable::unwrap_or_false;
use crate::text::{dec_seq, digits_val, dec_literal_digits, is_dec_literal, parse_u16, str_eq, u64_to_dec};
use vstd::string::StringExecFns;

verus! {

/// A user record as the lookup service returns it.
pub struct User {
    pub id: u64,
    pub discriminator: String,
    pub username: String,
    pub global_name: Option<String>,
    pub avatar: Option<String>,
    pub bot: Option<bool>,
}

/// The abstract content of a `User`.
#[verifier::ext_equal]
pub struct UserV {
    pub id: u64,
    pub discriminator: Seq<char>,
    pub username: Seq<char>,
    pub global_name: Option<Seq<char>>,
    pub avatar: Option<Seq<char>>,
    pub bot: Option<bool>,
}

impl View for User {
    type V = UserV;

    open spec fn view(&self) -> UserV {
        UserV {
            id: self.id,
            discriminator: self.discriminator@,
            username: self.username@,
            global_name: self.global_name.deep_view(),
            avatar: self.avatar.deep_view(),
            bot: self.bot,
        }
    }
}

/// The display name of a user: the global name if set, else the username.
pub open spec fn spec_display_name(u: UserV) -> Seq<char> {
    match u.global_name {
        Option::Some(g) => g,
        Option::None => u.username,
    }
}

/// The numeric value of a user's discriminator, with zero for anything
/// that is not an unsigned decimal literal in range.
pub open spec fn spec_discriminator_value(u: UserV) -> nat {
    if is_dec_literal(u.discriminator) && digits_val(dec_literal_digits(u.discriminator))
        <= u16::MAX as nat {
        digits_val(dec_literal_digits(u.discriminator))
    } else {
        0
    }
}

/// The avatar URL of a user: the custom avatar when one is set, else one
/// of the default avatars, chosen from the id for users on the new
/// username system (discriminator "0") and from the discriminator for the
/// rest.
pub open spec fn spec_avatar_url(u: UserV) -> Seq<char> {
    match u.avatar {
        Option::Some(hash) => "https://cdn.discordapp.com/avatars/"@ + dec_seq(u.id as nat) + "/"@
            + hash + ".png"@,
        Option::None => if u.discriminator == "0"@ {
            "https://cdn.discordapp.com/embed/avatars/"@ + dec_seq((((u.id as u64) >> 22) % 6)
                as nat) + ".png"@
        } else {
            "https://cdn.discordapp.com/embed/avatars/"@ + dec_seq(
                spec_discriminator_value(u) % 5,
            ) + ".png"@
        },
    }
}

impl User {
    /// The name to show for this user.
    pub fn display_name(&self) -> (r: String)
        ensures
            r@ == spec_display_name(self@),
    {
        match &self.global_name {
            Option::Some(g) => g.clone(),
            Option::None => self.username.clone(),
        }
    }

    /// The URL of this user's avatar image.
    pub fn avatar_url(&self) -> (r: String)
        ensures
            r@ == spec_avatar_url(self@),
    {
        let mut out: String = String::new();
        match &self.avatar {
            Option::Some(hash) => {
                out.append("https://cdn.discordapp.com/avatars/");
                let id_text = u64_to_dec(self.id);
                out.append(id_text.as_str());
                out.append("/");
                out.append(hash.as_str());
                out.append(".png");
            },
            Option::None => {
                out.append("https://cdn.discordapp.com/embed/avatars/");
                if str_eq(self.discriminator.as_str(), "0") {
                    let idx = (self.id >> 22u64) % 6;
                    let idx_text = u64_to_dec(idx);
                    out.append(idx_text.as_str());
                } else {
                    let discriminator: u16 = match parse_u16(self.discriminator.as_str()) {
                        Option::Some(d) => d,
                        Option::None => 0,
                    };
                    proof {
                        assert(discriminator as nat == spec_discriminator_value(self@));
                    }
                    let idx_text = u64_to_dec((discriminator % 5) as u64);
                    out.append(idx_text.as_str());
                }
                out.append(".png");
            },
        }
        proof {
            assert(out@ =~= spec_avatar_url(self@));
        }
        out
    }

    /// Whether this user is a bot; an absent flag means it is not.
    pub fn is_bot(&self) -> (r: bool)
        ensures
            r == unwrap_or_false(self@.bot),
    {
        match self.bot {
            Option::Some(b) => b,
            Option::None => false,
        }
    }

    /// The plain resolved values the assembler consumes for this user.
    pub fn resolve(&self) -> (r: ResolvedUser)
        ensures
            r@ == (ResolvedUserV {
                display_name: spec_display_name(self@),
                avatar_url: spec_avatar_url(self@),
                bot: unwrap_or_false(self@.bot),
            }),
    {
        ResolvedUser {
            display_name: self.display_name(),
            avatar_url: self.avatar_url(),
            bot: self.is_bot(),
        }
    }
}

/// What a user lookup yields: a display name, an avatar URL, and whether
/// the user is a bot.
pub struct ResolvedUser {
    pub display_name: String,
    pub avatar_url: String,
    pub bot: bool,
}

/// The abstract content of a `ResolvedUser`.
#[verifier::ext_equal]
pub struct ResolvedUserV {
    pub display_name: Seq<char>,
    pub avatar_url: Seq<char>,
    pub bot: bool,
}

impl View for ResolvedUser {
    type V = ResolvedUserV;

    open spec fn view(&self) -> ResolvedUserV {
        ResolvedUserV {
            display_name: self.display_name@,
            avatar_url: self.avatar_url@,
            bot: self.bot,
        }
    }
}

impl ResolvedUser {
    /// A copy of this record.
    pub fn duplicate(&self) -> (r: ResolvedUser)
        ensures
            r == *self,
    {
        ResolvedUser {
            display_name: self.display_name.clone(),
            avatar_url: self.avatar_url.clone(),
            bot: self.bot,
        }
    }
}

/// The resolved users available to one assembly pass, keyed by user id.
/// A missing key means the lookup failed or was never attempted; assembly
/// then degrades to no enrichment.
pub struct UserTable {
    entries: Vec<(u64, ResolvedUser)>,
}

/// The mapping described by an entry list, reading entries first to last.
pub open spec fn user_entries_map(s: Seq<(u64, ResolvedUser)>) -> Map<u64, ResolvedUserV>
    decreases s.len(),
{
    if s.len() == 0 {
        Map::empty()
    } else {
        user_entries_map(s.drop_last()).insert(s.last().0, s.last().1@)
    }
}

impl View for UserTable {
    type V = Map<u64, ResolvedUserV>;

    closed spec fn view(&self) -> Map<u64, ResolvedUserV> {
        user_entries_map(self.entries@)
    }
}

proof fn lemma_user_entries_unmatched(s: Seq<(u64, ResolvedUser)>, k: u64, i: int)
    requires
        0 <= i <= s.len(),
        forall|j: int| i <= j < s.len() ==> (#[trigger] s[j]).0 != k,
    ensures
        user_entries_map(s).contains_key(k) <==> user_entries_map(s.take(i)).contains_key(k),
        user_entries_map(s).contains_key(k) ==> user_entries_map(s)[k] == user_entries_map(
            s.take(i),
        )[k],
    decreases s.len() - i,
{
    if i < s.len() {
        assert(s.last().0 != k);
        assert(s.take(s.len() as int) =~= s);
        lemma_user_entries_unmatched(s.drop_last(), k, i);
        assert(s.drop_last().take(i) =~= s.take(i));
    } else {
        assert(s.take(i) =~= s);
    }
}

impl UserTable {
    /// An empty table.
    pub fn new() -> (r: UserTable)
        ensures
            r@ == Map::<u64, ResolvedUserV>::empty(),
    {
        UserTable { entries: Vec::new() }
    }

    /// Records the resolved user for an id, overriding an earlier entry.
    pub fn insert(&mut self, id: u64, user: ResolvedUser)
        ensures
            final(self)@ == old(self)@.insert(id, user@),
    {
        let ghost pre = self.entries@;
        self.entries.push((id, user));
        proof {
            assert(self.entries@.drop_last() =~= pre);
        }
    }

    /// Looks an id up; the record returned is the latest one inserted for
    /// that id.
    pub fn get(&self, id: u64) -> (r: Option<&ResolvedUser>)
        ensures
            match r {
                Option::Some(u) => self@.contains_key(id) && u@ == self@[id],
                Option::None => !self@.contains_key(id),
            },
    {
        let n: usize = self.entries.len();
        let mut i: usize = n;
        while i > 0
            invariant
                i <= n,
                n == self.entries@.len(),
                forall|j: int| i <= j < n ==> (#[trigger] self.entries@[j]).0 != id,
            decreases i,
        {
            i = i - 1;
            let e = &self.entries[i];
            if e.0 == id {
                proof {
                    lemma_user_entries_unmatched(self.entries@, id, i + 1);
                    assert(self.entries@.take(i + 1).drop_last() =~= self.entries@.take(i as int));
                    assert(self.entries@.take(i + 1).last() == self.entries@[i as int]);
                }
                return Some(&e.1);
            }
        }
        proof {
            lemma_user_entries_unmatched(self.entries@, id, 0);
            assert(self.entries@.take(0) =~= Seq::<(u64, ResolvedUser)>::empty());
        }
        None
    }
}

} // verus!

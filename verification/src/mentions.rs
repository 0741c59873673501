//! Inline token substitution in free text. A token is `<`, an optional `!`
//! highlight marker, a kind marker (`t:` timestamp, `e:` custom emoji, `@`
//! user or role, `#` channel), a body running to the next `>` on the same
//! line, and `>`. Substitution scans left to right, is non-recursive, and
//! leaves non-matching text untouched.

use vstd::prelude::*;

use crate::roles::RoleMap;
use crate::text::{chars_range_to_string, push_char, str_to_chars};
use vstd::string::StringExecFns;

verus! {

/// The kinds of inline token.
#[derive(Clone, Copy, Debug)]
pub enum MentionKind {
    Time,
    Emoji,
    At,
    Channel,
}

/// One recognized token: its kind, whether the highlight marker was
/// present, its body, and the position just after the closing `>`.
pub struct MentionTok {
    pub kind: MentionKind,
    pub bang: bool,
    pub body: Seq<char>,
    pub end: int,
}

/// The position of the closing `>` at or after `j`, unless the line ends
/// first.
pub open spec fn scan_close(s: Seq<char>, j: int) -> Option<int>
    decreases s.len() - j,
{
    if j < 0 || j >= s.len() {
        Option::None
    } else if s[j] == '>' {
        Option::Some(j)
    } else if s[j] == '\n' {
        Option::None
    } else {
        scan_close(s, j + 1)
    }
}

/// The kind marker starting at `q`, with the position where the body
/// starts.
pub open spec fn marker_at(s: Seq<char>, q: int) -> Option<(MentionKind, int)> {
    if 0 <= q && q + 1 < s.len() && s[q] == 't' && s[q + 1] == ':' {
        Option::Some((MentionKind::Time, q + 2))
    } else if 0 <= q && q + 1 < s.len() && s[q] == 'e' && s[q + 1] == ':' {
        Option::Some((MentionKind::Emoji, q + 2))
    } else if 0 <= q < s.len() && s[q] == '@' {
        Option::Some((MentionKind::At, q + 1))
    } else if 0 <= q < s.len() && s[q] == '#' {
        Option::Some((MentionKind::Channel, q + 1))
    } else {
        Option::None
    }
}

/// The token starting exactly at position `p`, if any.
pub open spec fn mention_at(s: Seq<char>, p: int) -> Option<MentionTok> {
    if !(0 <= p < s.len() && s[p] == '<') {
        Option::None
    } else {
        let bang = p + 1 < s.len() && s[p + 1] == '!';
        let q = if bang {
            p + 2
        } else {
            p + 1
        };
        match marker_at(s, q) {
            Option::None => Option::None,
            Option::Some((kind, bs)) => match scan_close(s, bs) {
                Option::None => Option::None,
                Option::Some(j) => Option::Some(
                    MentionTok { kind, bang, body: s.subrange(bs, j), end: j + 1 },
                ),
            },
        }
    }
}

/// The extra text a highlight marker adds inside a mention tag.
pub open spec fn highlight_text(bang: bool) -> Seq<char> {
    if bang {
        " highlight"@
    } else {
        Seq::empty()
    }
}

/// What one token is replaced with. A timestamp wraps the body verbatim; a
/// custom emoji uses the body as a source URL; a channel mention is typed
/// "channel"; a user/role mention is typed "role" with a color exactly when
/// the body names a known role.
pub open spec fn mention_replacement(roles: Map<Seq<char>, Seq<char>>, tok: MentionTok) -> Seq<
    char,
> {
    match tok.kind {
        MentionKind::Time => "<discord-time>"@ + tok.body + "</discord-time>"@,
        MentionKind::Emoji => "<discord-custom-emoji url=\""@ + tok.body
            + "\"></discord-custom-emoji>"@,
        MentionKind::Channel => "<discord-mention type=\"channel\""@ + highlight_text(tok.bang)
            + ">"@ + tok.body + "</discord-mention>"@,
        MentionKind::At => if roles.contains_key(tok.body) {
            "<discord-mention type=\"role\" color=\""@ + roles[tok.body] + "\""@ + highlight_text(
                tok.bang,
            ) + ">"@ + tok.body + "</discord-mention>"@
        } else {
            "<discord-mention"@ + highlight_text(tok.bang) + ">"@ + tok.body
                + "</discord-mention>"@
        },
    }
}

proof fn lemma_scan_close_bounds(s: Seq<char>, j0: int)
    ensures
        match scan_close(s, j0) {
            Option::Some(j) => j0 <= j < s.len() && s[j] == '>',
            Option::None => true,
        },
    decreases s.len() - j0,
{
    if 0 <= j0 < s.len() && s[j0] != '>' && s[j0] != '\n' {
        lemma_scan_close_bounds(s, j0 + 1);
    }
}

proof fn lemma_mention_at_bounds(s: Seq<char>, p: int)
    ensures
        match mention_at(s, p) {
            Option::Some(tok) => p < tok.end <= s.len(),
            Option::None => true,
        },
{
    if 0 <= p < s.len() && s[p] == '<' {
        let bang = p + 1 < s.len() && s[p + 1] == '!';
        let q = if bang {
            p + 2
        } else {
            p + 1
        };
        match marker_at(s, q) {
            Option::None => {},
            Option::Some((kind, bs)) => {
                lemma_scan_close_bounds(s, bs);
            },
        }
    }
}

/// The text from position `p` on with every token replaced.
pub open spec fn format_from(roles: Map<Seq<char>, Seq<char>>, s: Seq<char>, p: int) -> Seq<char>
    decreases s.len() - p,
    via format_from_decreases
{
    if !(0 <= p < s.len()) {
        Seq::empty()
    } else {
        match mention_at(s, p) {
            Option::Some(tok) => mention_replacement(roles, tok) + format_from(roles, s, tok.end),
            Option::None => seq![s[p]] + format_from(roles, s, p + 1),
        }
    }
}

#[via_fn]
proof fn format_from_decreases(roles: Map<Seq<char>, Seq<char>>, s: Seq<char>, p: int) {
    lemma_mention_at_bounds(s, p);
}

/// The whole text with every token replaced.
pub open spec fn spec_format_mentions(roles: Map<Seq<char>, Seq<char>>, s: Seq<char>) -> Seq<
    char,
> {
    format_from(roles, s, 0)
}

fn find_close(chars: &Vec<char>, bs: usize) -> (r: Option<usize>)
    requires
        bs <= chars@.len(),
    ensures
        match r {
            Option::Some(j) => scan_close(chars@, bs as int) == Option::Some(j as int) && bs <= j
                < chars@.len(),
            Option::None => scan_close(chars@, bs as int) is None,
        },
{
    let n: usize = chars.len();
    let mut j: usize = bs;
    while j < n && chars[j] != '>' && chars[j] != '\n'
        invariant
            bs <= j <= n,
            n == chars@.len(),
            scan_close(chars@, bs as int) == scan_close(chars@, j as int),
        decreases n - j,
    {
        j = j + 1;
    }
    if j < n && chars[j] == '>' {
        Some(j)
    } else {
        None
    }
}

fn find_marker(chars: &Vec<char>, q: usize) -> (r: Option<(MentionKind, usize)>)
    requires
        q <= chars@.len(),
    ensures
        match r {
            Option::Some(p) => marker_at(chars@, q as int) == Option::Some((p.0, p.1 as int)) && q
                < p.1 <= chars@.len(),
            Option::None => marker_at(chars@, q as int) is None,
        },
{
    let n: usize = chars.len();
    if q < n && chars[q] == 't' && q + 1 < n && chars[q + 1] == ':' {
        Some((MentionKind::Time, q + 2))
    } else if q < n && chars[q] == 'e' && q + 1 < n && chars[q + 1] == ':' {
        Some((MentionKind::Emoji, q + 2))
    } else if q < n && chars[q] == '@' {
        Some((MentionKind::At, q + 1))
    } else if q < n && chars[q] == '#' {
        Some((MentionKind::Channel, q + 1))
    } else {
        None
    }
}

fn try_mention_at(chars: &Vec<char>, p: usize) -> (r: Option<(MentionKind, bool, usize, usize)>)
    requires
        p < chars@.len(),
    ensures
        match r {
            Option::Some(m) => {
                &&& mention_at(chars@, p as int) == Option::Some(
                    MentionTok {
                        kind: m.0,
                        bang: m.1,
                        body: chars@.subrange(m.2 as int, m.3 as int),
                        end: m.3 as int + 1,
                    },
                )
                &&& p < m.2 <= m.3 < chars@.len()
            },
            Option::None => mention_at(chars@, p as int) is None,
        },
{
    let n: usize = chars.len();
    if chars[p] != '<' {
        return None;
    }
    let bang: bool = p + 1 < n && chars[p + 1] == '!';
    let q: usize = if p + 1 < n && chars[p + 1] == '!' {
        p + 2
    } else {
        p + 1
    };
    match find_marker(chars, q) {
        Option::None => None,
        Option::Some((kind, bs)) => match find_close(chars, bs) {
            Option::None => None,
            Option::Some(j) => {
                proof {
                    lemma_scan_close_bounds(chars@, bs as int);
                }
                Some((kind, bang, bs, j))
            },
        },
    }
}

/// Replaces every inline token in `text`, resolving `@` bodies against the
/// role table.
#[verifier::rlimit(100)]
pub fn format_mentions(roles: &RoleMap, text: String) -> (r: String)
    ensures
        r@ == spec_format_mentions(roles@, text@),
{
    let chars = str_to_chars(text.as_str());
    let n: usize = chars.len();
    let mut out: String = String::new();
    let mut p: usize = 0;
    while p < n
        invariant
            chars@ == text@,
            n == chars@.len(),
            p <= n,
            out@ + format_from(roles@, text@, p as int) == format_from(roles@, text@, 0),
        decreases n - p,
    {
        let ghost sp = text@;
        let ghost pre_out = out@;
        match try_mention_at(&chars, p) {
            Option::Some((kind, bang, bs, j)) => {
                let ghost tok = MentionTok {
                    kind,
                    bang,
                    body: sp.subrange(bs as int, j as int),
                    end: j as int + 1,
                };
                let body = chars_range_to_string(&chars, bs, j);
                match kind {
                    MentionKind::Time => {
                        out.append("<discord-time>");
                        out.append(body.as_str());
                        out.append("</discord-time>");
                    },
                    MentionKind::Emoji => {
                        out.append("<discord-custom-emoji url=\"");
                        out.append(body.as_str());
                        out.append("\"></discord-custom-emoji>");
                    },
                    MentionKind::Channel => {
                        out.append("<discord-mention type=\"channel\"");
                        if bang {
                            out.append(" highlight");
                        }
                        out.append(">");
                        out.append(body.as_str());
                        out.append("</discord-mention>");
                    },
                    MentionKind::At => {
                        match roles.get(&body) {
                            Option::Some(color) => {
                                out.append("<discord-mention type=\"role\" color=\"");
                                out.append(color.as_str());
                                out.append("\"");
                                if bang {
                                    out.append(" highlight");
                                }
                                out.append(">");
                                out.append(body.as_str());
                                out.append("</discord-mention>");
                            },
                            Option::None => {
                                out.append("<discord-mention");
                                if bang {
                                    out.append(" highlight");
                                }
                                out.append(">");
                                out.append(body.as_str());
                                out.append("</discord-mention>");
                            },
                        }
                    },
                }
                proof {
                    assert(out@ =~= pre_out + mention_replacement(roles@, tok));
                    assert(format_from(roles@, sp, p as int) == mention_replacement(roles@, tok)
                        + format_from(roles@, sp, j as int + 1));
                    assert(out@ + format_from(roles@, sp, j as int + 1) =~= pre_out + format_from(
                        roles@,
                        sp,
                        p as int,
                    ));
                }
                p = j + 1;
            },
            Option::None => {
                push_char(&mut out, chars[p]);
                proof {
                    assert(format_from(roles@, sp, p as int) == seq![sp[p as int]] + format_from(
                        roles@,
                        sp,
                        p as int + 1,
                    ));
                    assert(out@ + format_from(roles@, sp, p as int + 1) =~= pre_out + format_from(
                        roles@,
                        sp,
                        p as int,
                    ));
                }
                p = p + 1;
            },
        }
    }
    proof {
        assert(out@ =~= out@ + format_from(roles@, text@, n as int));
    }
    out
}

} // verus!

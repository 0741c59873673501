//! The capability every component variant implements: a stable tag name and
//! an attribute list derived from the variant's own field values.
//!
//! The per-field rules are:
//! - a required string field is always present, with the field's content;
//! - an optional field is present only if set, rendered by the same rule as
//!   if it were required;
//! - a boolean field is present with an empty value when true ("flag"
//!   attribute) and absent when false;
//! - a numeric field is present with its decimal rendering;
//! - a variant may declare a fixed "slot" attribute injected before the
//!   field-derived attributes.

use vstd::prelude::*;

use crate::text::dec_seq;

verus! {

/// The abstract content of an attribute list: attribute names paired with
/// attribute values, in order.
pub open spec fn attrs_view(s: Seq<(String, String)>) -> Seq<(Seq<char>, Seq<char>)> {
    s.map_values(|p: (String, String)| (p.0@, p.1@))
}

/// One required string attribute.
pub open spec fn str_attr(name: Seq<char>, value: Seq<char>) -> Seq<(Seq<char>, Seq<char>)> {
    seq![(name, value)]
}

/// An optional string attribute: present only if the field is set.
pub open spec fn opt_attr(name: Seq<char>, value: Option<Seq<char>>) -> Seq<
    (Seq<char>, Seq<char>),
> {
    match value {
        Option::Some(v) => seq![(name, v)],
        Option::None => seq![],
    }
}

/// A boolean flag attribute: a bare name with an empty value when true,
/// absent when false.
pub open spec fn flag_attr(name: Seq<char>, value: bool) -> Seq<(Seq<char>, Seq<char>)> {
    if value {
        seq![(name, Seq::<char>::empty())]
    } else {
        seq![]
    }
}

/// An optional boolean flag attribute: an unset field and an explicit false
/// both leave the attribute out.
pub open spec fn opt_flag_attr(name: Seq<char>, value: Option<bool>) -> Seq<
    (Seq<char>, Seq<char>),
> {
    match value {
        Option::Some(v) => flag_attr(name, v),
        Option::None => seq![],
    }
}

/// A required numeric attribute, rendered in decimal.
pub open spec fn num_attr(name: Seq<char>, value: nat) -> Seq<(Seq<char>, Seq<char>)> {
    seq![(name, dec_seq(value))]
}

/// An optional numeric attribute.
pub open spec fn opt_num_attr(name: Seq<char>, value: Option<nat>) -> Seq<
    (Seq<char>, Seq<char>),
> {
    match value {
        Option::Some(v) => num_attr(name, v),
        Option::None => seq![],
    }
}

/// An optional boolean read with absence meaning false.
pub open spec fn unwrap_or_false(b: Option<bool>) -> bool {
    match b {
        Option::Some(v) => v,
        Option::None => false,
    }
}

/// Reads an optional boolean, absence meaning false.
pub fn or_false(b: Option<bool>) -> (r: bool)
    ensures
        r == unwrap_or_false(b),
{
    match b {
        Option::Some(v) => v,
        Option::None => false,
    }
}

/// The view of an optional numeric field.
pub open spec fn opt_nat(value: Option<u64>) -> Option<nat> {
    match value {
        Option::Some(v) => Option::Some(v as nat),
        Option::None => Option::None,
    }
}

/// The view of an optional machine-word field.
pub open spec fn opt_nat_usize(value: Option<usize>) -> Option<nat> {
    match value {
        Option::Some(v) => Option::Some(v as nat),
        Option::None => Option::None,
    }
}

/// Appends an attribute whose name and value are both fixed text.
pub fn push_lit_attr(attr: &mut Vec<(String, String)>, name: &str, value: &str)
    ensures
        attrs_view(final(attr)@) == attrs_view(old(attr)@) + str_attr(name@, value@),
{
    attr.push((name.to_owned(), value.to_owned()));
    proof {
        assert(attrs_view(attr@) =~= attrs_view(old(attr)@) + str_attr(name@, value@));
    }
}

/// Appends a required string attribute.
pub fn push_str_attr(attr: &mut Vec<(String, String)>, name: &str, value: String)
    ensures
        attrs_view(final(attr)@) == attrs_view(old(attr)@) + str_attr(name@, value@),
{
    attr.push((name.to_owned(), value));
    proof {
        assert(attrs_view(attr@) =~= attrs_view(old(attr)@) + str_attr(name@, value@));
    }
}

/// Appends an optional string attribute.
pub fn push_opt_attr(attr: &mut Vec<(String, String)>, name: &str, value: Option<String>)
    ensures
        attrs_view(final(attr)@) == attrs_view(old(attr)@) + opt_attr(name@, value.deep_view()),
{
    match value {
        Option::Some(v) => {
            attr.push((name.to_owned(), v));
        },
        Option::None => {},
    }
    proof {
        assert(attrs_view(attr@) =~= attrs_view(old(attr)@) + opt_attr(name@, value.deep_view()));
    }
}

/// Appends a boolean flag attribute.
pub fn push_flag_attr(attr: &mut Vec<(String, String)>, name: &str, value: bool)
    ensures
        attrs_view(final(attr)@) == attrs_view(old(attr)@) + flag_attr(name@, value),
{
    if value {
        attr.push((name.to_owned(), String::new()));
    }
    proof {
        assert(attrs_view(attr@) =~= attrs_view(old(attr)@) + flag_attr(name@, value));
    }
}

/// Appends an optional boolean flag attribute.
pub fn push_opt_flag_attr(attr: &mut Vec<(String, String)>, name: &str, value: Option<bool>)
    ensures
        attrs_view(final(attr)@) == attrs_view(old(attr)@) + opt_flag_attr(name@, value),
{
    match value {
        Option::Some(v) => push_flag_attr(attr, name, v),
        Option::None => {},
    }
    proof {
        assert(attrs_view(attr@) =~= attrs_view(old(attr)@) + opt_flag_attr(name@, value));
    }
}

/// Appends a required numeric attribute.
pub fn push_num_attr(attr: &mut Vec<(String, String)>, name: &str, value: u64)
    ensures
        attrs_view(final(attr)@) == attrs_view(old(attr)@) + num_attr(name@, value as nat),
{
    attr.push((name.to_owned(), crate::text::u64_to_dec(value)));
    proof {
        assert(attrs_view(attr@) =~= attrs_view(old(attr)@) + num_attr(name@, value as nat));
    }
}

/// Appends an optional numeric attribute.
pub fn push_opt_num_attr(attr: &mut Vec<(String, String)>, name: &str, value: Option<u64>)
    ensures
        attrs_view(final(attr)@) == attrs_view(old(attr)@) + opt_num_attr(name@, opt_nat(value)),
{
    match value {
        Option::Some(v) => push_num_attr(attr, name, v),
        Option::None => {},
    }
    proof {
        assert(attrs_view(attr@) =~= attrs_view(old(attr)@) + opt_num_attr(name@, opt_nat(value)));
    }
}

/// Appends an optional machine-word numeric attribute.
pub fn push_opt_usize_attr(attr: &mut Vec<(String, String)>, name: &str, value: Option<usize>)
    ensures
        attrs_view(final(attr)@) == attrs_view(old(attr)@) + opt_num_attr(
            name@,
            opt_nat_usize(value),
        ),
{
    match value {
        Option::Some(v) => push_num_attr(attr, name, v as u64),
        Option::None => {},
    }
    proof {
        assert(attrs_view(attr@) =~= attrs_view(old(attr)@) + opt_num_attr(
            name@,
            opt_nat_usize(value),
        ));
    }
}

/// Whether an attribute list holds an attribute of the given name.
pub open spec fn has_attr(attrs: Seq<(Seq<char>, Seq<char>)>, name: Seq<char>) -> bool {
    exists|i: int| 0 <= i < attrs.len() && attrs[i].0 == name
}

/// Membership in a concatenation is membership in either part.
pub proof fn lemma_attrs_contains_concat(
    a: Seq<(Seq<char>, Seq<char>)>,
    b: Seq<(Seq<char>, Seq<char>)>,
    x: (Seq<char>, Seq<char>),
)
    ensures
        (a + b).contains(x) == (a.contains(x) || b.contains(x)),
{
    if a.contains(x) {
        let i = choose|i: int| 0 <= i < a.len() && a[i] == x;
        assert((a + b)[i] == x);
    }
    if b.contains(x) {
        let i = choose|i: int| 0 <= i < b.len() && b[i] == x;
        assert((a + b)[a.len() + i] == x);
    }
    if (a + b).contains(x) {
        let i = choose|i: int| 0 <= i < (a + b).len() && (a + b)[i] == x;
        if i < a.len() {
            assert(a[i] == x);
        } else {
            assert(b[i - a.len()] == x);
        }
    }
}

/// What a required string attribute holds.
pub proof fn lemma_str_attr_contains(name: Seq<char>, value: Seq<char>, x: (Seq<char>, Seq<char>))
    ensures
        str_attr(name, value).contains(x) == (x == (name, value)),
{
    if x == (name, value) {
        assert(str_attr(name, value)[0] == x);
    }
}

/// What an optional string attribute holds.
pub proof fn lemma_opt_attr_contains(
    name: Seq<char>,
    value: Option<Seq<char>>,
    x: (Seq<char>, Seq<char>),
)
    ensures
        opt_attr(name, value).contains(x) == (value is Some && x == (name, value->0)),
{
    match value {
        Option::Some(v) => {
            if x == (name, v) {
                assert(opt_attr(name, value)[0] == x);
            }
        },
        Option::None => {},
    }
}

/// What a boolean flag attribute holds.
pub proof fn lemma_flag_attr_contains(name: Seq<char>, value: bool, x: (Seq<char>, Seq<char>))
    ensures
        flag_attr(name, value).contains(x) == (value && x == (name, Seq::<char>::empty())),
{
    if value && x == (name, Seq::<char>::empty()) {
        assert(flag_attr(name, value)[0] == x);
    }
}

/// What an optional boolean flag attribute holds.
pub proof fn lemma_opt_flag_attr_contains(
    name: Seq<char>,
    value: Option<bool>,
    x: (Seq<char>, Seq<char>),
)
    ensures
        opt_flag_attr(name, value).contains(x) == (value == Option::Some(true) && x == (
            name,
            Seq::<char>::empty(),
        )),
{
    match value {
        Option::Some(v) => lemma_flag_attr_contains(name, v, x),
        Option::None => {},
    }
}

/// What a required numeric attribute holds.
pub proof fn lemma_num_attr_contains(name: Seq<char>, value: nat, x: (Seq<char>, Seq<char>))
    ensures
        num_attr(name, value).contains(x) == (x == (name, dec_seq(value))),
{
    if x == (name, dec_seq(value)) {
        assert(num_attr(name, value)[0] == x);
    }
}

/// What an optional numeric attribute holds.
pub proof fn lemma_opt_num_attr_contains(
    name: Seq<char>,
    value: Option<nat>,
    x: (Seq<char>, Seq<char>),
)
    ensures
        opt_num_attr(name, value).contains(x) == (value is Some && x == (
            name,
            dec_seq(value->0),
        )),
{
    match value {
        Option::Some(v) => lemma_num_attr_contains(name, v, x),
        Option::None => {},
    }
}

/// Copies an optional string field.
pub fn clone_opt(v: &Option<String>) -> (r: Option<String>)
    ensures
        r == *v,
{
    match v {
        Option::Some(s) => Option::Some(s.clone()),
        Option::None => Option::None,
    }
}

/// The capability of producing a tag name and an attribute list from a
/// component's own fields.
pub trait Generatable {
    /// The component's stable tag name.
    fn name(&self) -> &'static str;

    /// The attribute list derived from the component's fields.
    fn attributes(&self) -> Vec<(String, String)>;
}

} // verus!

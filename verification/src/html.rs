//! The markup renderer: walks a document tree and produces an indented
//! markup string, serializing each component's attributes and substituting
//! inline tokens in text nodes.

use vstd::prelude::*;

use crate::generatable::attrs_view;
use crate::mentions::{format_mentions, spec_format_mentions};
use crate::roles::RoleMap;
use crate::text::{push_char, str_to_chars};
use crate::tree::{
    comp_attrs, comp_tag, lemma_trees_depth_index, lemma_trees_view_index, tree_depth, tree_view,
    trees_depth, trees_view, ComponentTree, Components, DocV, TreeV,
};
use vstd::string::StringExecFns;

verus! {

/// The serialization of an attribute list: each attribute is a space and
/// its name, and — only if its value is non-empty — `="value"`.
pub open spec fn render_attrs(attrs: Seq<(Seq<char>, Seq<char>)>) -> Seq<char>
    decreases attrs.len(),
{
    if attrs.len() == 0 {
        Seq::empty()
    } else {
        " "@ + attrs[0].0 + (if attrs[0].1.len() == 0 {
            Seq::<char>::empty()
        } else {
            "=\""@ + attrs[0].1 + "\""@
        }) + render_attrs(attrs.drop_first())
    }
}

/// Serializes an attribute list.
pub fn attrs_string(attrs: &Vec<(String, String)>) -> (r: String)
    ensures
        r@ == render_attrs(attrs_view(attrs@)),
{
    let ghost av = attrs_view(attrs@);
    let n: usize = attrs.len();
    let mut out: String = String::new();
    proof {
        assert(av.skip(0) =~= av);
        assert(out@ + render_attrs(av) =~= render_attrs(av));
    }
    let mut i: usize = 0;
    while i < n
        invariant
            i <= n,
            n == attrs@.len(),
            av == attrs_view(attrs@),
            av.len() == n,
            out@ + render_attrs(av.skip(i as int)) == render_attrs(av),
        decreases n - i,
    {
        let ghost pre = out@;
        let e = &attrs[i];
        out.append(" ");
        out.append(e.0.as_str());
        if !e.1.as_str().is_empty() {
            out.append("=\"");
            out.append(e.1.as_str());
            out.append("\"");
        }
        i = i + 1;
        proof {
            assert(av.skip(i - 1)[0] == av[i - 1]);
            assert(av.skip(i - 1).drop_first() =~= av.skip(i as int));
            assert(out@ + render_attrs(av.skip(i as int)) =~= pre + render_attrs(
                av.skip(i - 1),
            ));
        }
    }
    proof {
        assert(av.skip(n as int) =~= Seq::<(Seq<char>, Seq<char>)>::empty());
        assert(out@ =~= out@ + render_attrs(av.skip(n as int)));
    }
    out
}

/// Four spaces per indentation level.
pub open spec fn indent_seq(k: nat) -> Seq<char>
    decreases k,
{
    if k == 0 {
        Seq::empty()
    } else {
        indent_seq((k - 1) as nat) + "    "@
    }
}

fn push_indent(out: &mut String, k: usize)
    ensures
        final(out)@ == old(out)@ + indent_seq(k as nat),
{
    let mut i: usize = 0;
    while i < k
        invariant
            i <= k,
            out@ == old(out)@ + indent_seq(i as nat),
        decreases k - i,
    {
        out.append("    ");
        i = i + 1;
    }
}

/// A text node's body with one trailing newline removed, if present.
pub open spec fn trim_one_newline(s: Seq<char>) -> Seq<char> {
    if s.len() > 0 && s.last() == '\n' {
        s.drop_last()
    } else {
        s
    }
}

/// Each interior newline turned into an explicit line-break marker.
pub open spec fn replace_newlines(s: Seq<char>) -> Seq<char>
    decreases s.len(),
{
    if s.len() == 0 {
        Seq::empty()
    } else {
        (if s[0] == '\n' {
            "<br />"@
        } else {
            seq![s[0]]
        }) + replace_newlines(s.drop_first())
    }
}

fn text_content(text: &String) -> (r: String)
    ensures
        r@ == replace_newlines(trim_one_newline(text@)),
{
    let chars = str_to_chars(text.as_str());
    let n0: usize = chars.len();
    let n: usize = if n0 > 0 && chars[n0 - 1] == '\n' {
        n0 - 1
    } else {
        n0
    };
    let ghost t = trim_one_newline(text@);
    proof {
        assert(chars@.take(n as int) =~= t);
    }
    let mut out: String = String::new();
    proof {
        assert(t.skip(0) =~= t);
        assert(out@ + replace_newlines(t) =~= replace_newlines(t));
    }
    let mut i: usize = 0;
    while i < n
        invariant
            i <= n,
            n <= chars@.len(),
            t == trim_one_newline(text@),
            chars@.take(n as int) == t,
            t.len() == n,
            out@ + replace_newlines(t.skip(i as int)) == replace_newlines(t),
        decreases n - i,
    {
        let ghost pre = out@;
        let c = chars[i];
        proof {
            assert(t.skip(i as int)[0] == t[i as int]);
            assert(t[i as int] == chars@[i as int]);
        }
        if c == '\n' {
            out.append("<br />");
        } else {
            push_char(&mut out, c);
        }
        i = i + 1;
        proof {
            assert(t.skip(i - 1).drop_first() =~= t.skip(i as int));
            assert(out@ + replace_newlines(t.skip(i as int)) =~= pre + replace_newlines(
                t.skip(i - 1),
            ));
        }
    }
    proof {
        assert(t.skip(n as int) =~= Seq::<char>::empty());
        assert(out@ =~= out@ + replace_newlines(t.skip(n as int)));
    }
    out
}

/// The rendering of one tree node at an indentation level: the indent,
/// then either the processed text, or an opening tag with serialized
/// attributes, the children one level deeper, the indent again and the
/// closing tag; and a newline.
pub open spec fn render_tree(roles: Map<Seq<char>, Seq<char>>, t: TreeV, ind: nat) -> Seq<char>
    decreases t,
{
    match t {
        TreeV::Text(s) => indent_seq(ind) + spec_format_mentions(
            roles,
            replace_newlines(trim_one_newline(s)),
        ) + "\n"@,
        TreeV::Node { data, nodes } => indent_seq(ind) + "<"@ + comp_tag(data) + render_attrs(
            comp_attrs(data),
        ) + ">\n"@ + render_trees(roles, nodes, ind + 1) + indent_seq(ind) + "</"@ + comp_tag(data)
            + ">"@ + "\n"@,
    }
}

/// The rendering of a list of tree nodes, concatenated in order.
pub open spec fn render_trees(roles: Map<Seq<char>, Seq<char>>, ts: Seq<TreeV>, ind: nat) -> Seq<
    char,
>
    decreases ts,
{
    if ts.len() == 0 {
        Seq::empty()
    } else {
        render_tree(roles, ts[0], ind) + render_trees(roles, ts.drop_first(), ind)
    }
}

/// Rendering a concatenation renders the parts in order.
pub proof fn lemma_render_trees_concat(
    roles: Map<Seq<char>, Seq<char>>,
    a: Seq<TreeV>,
    b: Seq<TreeV>,
    ind: nat,
)
    ensures
        render_trees(roles, a + b, ind) == render_trees(roles, a, ind) + render_trees(
            roles,
            b,
            ind,
        ),
    decreases a.len(),
{
    if a.len() == 0 {
        assert(a + b =~= b);
        assert(Seq::<char>::empty() + render_trees(roles, b, ind) =~= render_trees(
            roles,
            b,
            ind,
        ));
    } else {
        assert((a + b)[0] == a[0]);
        assert((a + b).len() > 0);
        assert((a + b).drop_first() =~= a.drop_first() + b);
        lemma_render_trees_concat(roles, a.drop_first(), b, ind);
        assert(render_tree(roles, a[0], ind) + (render_trees(roles, a.drop_first(), ind)
            + render_trees(roles, b, ind)) =~= (render_tree(roles, a[0], ind) + render_trees(
            roles,
            a.drop_first(),
            ind,
        )) + render_trees(roles, b, ind));
    }
}

/// Extending a rendered prefix by one node appends that node's rendering.
pub proof fn lemma_render_trees_snoc(
    roles: Map<Seq<char>, Seq<char>>,
    ts: Seq<TreeV>,
    ind: nat,
    i: int,
)
    requires
        0 <= i < ts.len(),
    ensures
        render_trees(roles, ts.take(i + 1), ind) == render_trees(roles, ts.take(i), ind)
            + render_tree(roles, ts[i], ind),
{
    assert(ts.take(i + 1) =~= ts.take(i) + seq![ts[i]]);
    lemma_render_trees_concat(roles, ts.take(i), seq![ts[i]], ind);
    assert(seq![ts[i]].drop_first() =~= Seq::<TreeV>::empty());
    assert(seq![ts[i]][0] == ts[i]);
    assert(render_trees(roles, Seq::<TreeV>::empty(), ind) == Seq::<char>::empty());
    assert(render_trees(roles, seq![ts[i]], ind) == render_tree(roles, ts[i], ind) + render_trees(
        roles,
        seq![ts[i]].drop_first(),
        ind,
    ));
    assert(render_trees(roles, seq![ts[i]], ind) =~= render_tree(roles, ts[i], ind));
}

/// Renders one tree node with the given indentation.
pub fn generate_components(roles: &RoleMap, component: &ComponentTree, indent_size: usize) -> (r:
    String)
    requires
        tree_depth(tree_view(*component)) + indent_size <= usize::MAX,
    ensures
        r@ == render_tree(roles@, tree_view(*component), indent_size as nat),
    decreases tree_depth(tree_view(*component)),
{
    let mut out: String = String::new();
    push_indent(&mut out, indent_size);
    match component {
        ComponentTree::Text(text) => {
            let content = text_content(text);
            let formatted = format_mentions(roles, content);
            out.append(formatted.as_str());
            out.append("\n");
            proof {
                assert(out@ =~= render_tree(roles@, tree_view(*component), indent_size as nat));
            }
        },
        ComponentTree::Node { data, nodes } => {
            let ghost tv = trees_view(nodes@);
            out.append("<");
            out.append(data.tag_name());
            let attrs = data.attributes();
            let attr_str = attrs_string(&attrs);
            out.append(attr_str.as_str());
            out.append(">\n");
            let ghost header = out@;
            let n: usize = nodes.len();
            proof {
                lemma_trees_view_index(nodes@);
                lemma_trees_depth_index(tv);
                assert(tree_view(*component) == TreeV::Node { data: data@, nodes: tv });
                assert(tree_depth(tree_view(*component)) == 1 + trees_depth(tv));
            }
            let mut i: usize = 0;
            while i < n
                invariant
                    i <= n,
                    n == nodes@.len(),
                    tv == trees_view(nodes@),
                    tv.len() == n,
                    forall|k: int| 0 <= k < n ==> tv[k] == tree_view(nodes@[k]),
                    forall|k: int| 0 <= k < n ==> tree_depth(#[trigger] tv[k]) <= trees_depth(tv),
                    tree_depth(tree_view(*component)) == 1 + trees_depth(tv),
                    trees_depth(tv) + 1 + indent_size <= usize::MAX,
                    out@ == header + render_trees(roles@, tv.take(i as int), indent_size as nat
                        + 1),
                decreases n - i,
            {
                let ghost pre = out@;
                proof {
                    assert(tv[i as int] == tree_view(nodes@[i as int]));
                    assert(tree_depth(tree_view(nodes@[i as int])) <= trees_depth(tv));
                }
                let child = generate_components(roles, &nodes[i], indent_size + 1);
                out.append(child.as_str());
                i = i + 1;
                proof {
                    lemma_render_trees_snoc(roles@, tv, indent_size as nat + 1, i - 1);
                    assert(out@ =~= header + render_trees(
                        roles@,
                        tv.take(i as int),
                        indent_size as nat + 1,
                    ));
                }
            }
            proof {
                assert(tv.take(n as int) =~= tv);
            }
            push_indent(&mut out, indent_size);
            out.append("</");
            out.append(data.tag_name());
            out.append(">");
            out.append("\n");
            proof {
                assert(out@ =~= render_tree(roles@, tree_view(*component), indent_size as nat));
            }
        },
    }
    out
}

/// The rendering of a whole document: the top-level container tag, the
/// top-level nodes at one indentation level, and the matching closing tag.
pub open spec fn spec_generate(doc: DocV) -> Seq<char> {
    "<discord-messages>\n"@ + render_trees(doc.roles, doc.tree, 1) + "</discord-messages>"@
}

/// The markup generator.
pub struct HTMLGenerator;

impl HTMLGenerator {
    /// A new generator.
    pub fn new() -> (r: HTMLGenerator) {
        HTMLGenerator
    }

    /// Renders a document. Deterministic: the output is a function of the
    /// document's abstract content alone.
    pub fn generate(&self, components: &Components) -> (r: String)
        requires
            trees_depth(components@.tree) + 1 <= usize::MAX,
        ensures
            r@ == spec_generate(components@),
    {
        let ghost tv = components@.tree;
        let mut out = String::new();
        out.append("<discord-messages>\n");
        let ghost header = out@;
        let n: usize = components.tree.len();
        proof {
            lemma_trees_view_index(components.tree@);
            lemma_trees_depth_index(tv);
        }
        let mut i: usize = 0;
        while i < n
            invariant
                i <= n,
                n == components.tree@.len(),
                tv == components@.tree,
                tv == trees_view(components.tree@),
                tv.len() == n,
                forall|k: int| 0 <= k < n ==> tv[k] == tree_view(components.tree@[k]),
                forall|k: int| 0 <= k < n ==> tree_depth(#[trigger] tv[k]) <= trees_depth(tv),
                trees_depth(tv) + 1 <= usize::MAX,
                out@ == header + render_trees(roles_of(components), tv.take(i as int), 1),
            decreases n - i,
        {
            proof {
                assert(tv[i as int] == tree_view(components.tree@[i as int]));
                assert(tree_depth(tree_view(components.tree@[i as int])) <= trees_depth(tv));
            }
            let child = generate_components(&components.roles, &components.tree[i], 1);
            out.append(child.as_str());
            i = i + 1;
            proof {
                lemma_render_trees_snoc(roles_of(components), tv, 1, i - 1);
                assert(out@ =~= header + render_trees(roles_of(components), tv.take(i as int), 1));
            }
        }
        proof {
            assert(tv.take(n as int) =~= tv);
        }
        out.append("</discord-messages>");
        proof {
            assert(out@ =~= spec_generate(components@));
        }
        out
    }
}

/// Rendering is deterministic: any two renderings of documents with the
/// same abstract content are byte-identical. With `generate`'s contract —
/// the result is `spec_generate` of the document's content — rendering
/// the same document twice cannot differ.
pub proof fn lemma_render_deterministic(doc: DocV, first: Seq<char>, second: Seq<char>)
    requires
        first == spec_generate(doc),
        second == spec_generate(doc),
    ensures
        first == second,
{
}

/// The abstract role table of a document.
pub open spec fn roles_of(components: &Components) -> Map<Seq<char>, Seq<char>> {
    components.roles@
}

} // verus!

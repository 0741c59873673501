//! The host-facing side of the pipeline: a fenced block's accumulated
//! text, and the step that turns one decode outcome into renderable
//! units — the rendered markup, optionally preceded by the fixed
//! script-inclusion snippet — or into an error carrying the chapter the
//! block came from.

use vstd::prelude::*;

use crate::discord::UserTable;
use crate::html::{spec_generate, HTMLGenerator};
use crate::tree::DocV;
use crate::yaml_parser::{
    assembled_trees, error_text, first_invalid, lemma_assembled_depth, merged_roles, msgs_of,
    DecodedMessages, YamlParser, YamlParserError,
};
use vstd::string::StringExecFns;

verus! {

/// The fixed script-inclusion snippet a caller can ask to have prepended
/// before the rendered markup.
pub fn discord_components_script() -> (r: &'static str)
    ensures
        r@ == "<script type=\"module\" src=\"https://unpkg.com/@skyra/discord-components-core\"></script>\n"@,
{
    "<script type=\"module\" src=\"https://unpkg.com/@skyra/discord-components-core\"></script>\n"
}

/// Why a block failed: the structured-input decoder rejected the text,
/// or a message broke a validation rule.
#[derive(Debug)]
pub enum BlockFailure {
    Decode(String),
    Validation(YamlParserError),
}

/// The text of a block failure: the decoder's own message, or the
/// validation error rendered.
pub open spec fn block_failure_text(f: BlockFailure) -> Seq<char> {
    match f {
        BlockFailure::Decode(m) => m@,
        BlockFailure::Validation(e) => error_text(e),
    }
}

/// A block failure wrapped with the chapter it came from.
#[derive(Debug)]
pub struct ParseError {
    pub chapter: String,
    pub failure: BlockFailure,
}

/// The text of a wrapped block failure.
pub open spec fn parse_error_text(e: ParseError) -> Seq<char> {
    "Failed to parse a discord code block in chapter '"@ + e.chapter@ + "'! Error: "@
        + block_failure_text(e.failure)
}

impl ParseError {
    /// The error rendered as text.
    pub fn message(&self) -> (r: String)
        ensures
            r@ == parse_error_text(*self),
    {
        let mut out: String = String::new();
        out.append("Failed to parse a discord code block in chapter '");
        out.append(self.chapter.as_str());
        out.append("'! Error: ");
        match &self.failure {
            BlockFailure::Decode(m) => out.append(m.as_str()),
            BlockFailure::Validation(e) => {
                let inner = e.message();
                out.append(inner.as_str());
            },
        }
        proof {
            assert(out@ =~= parse_error_text(*self));
        }
        out
    }
}

/// The markup one valid batch renders to.
pub open spec fn rendered_markup(
    msgs: Seq<crate::yaml_parser::YamlMessage>,
    users: Map<u64, crate::discord::ResolvedUserV>,
    lookup: bool,
) -> Seq<char> {
    spec_generate(
        DocV { roles: merged_roles(msgs), tree: assembled_trees(msgs, users, lookup) },
    )
}

/// One fenced block being gathered from the surrounding document: its
/// info-string name, the chapter it stands in, whether the script snippet
/// should be prepended, and the accumulated text.
pub struct DiscordCodeBlock {
    pub block_name: String,
    chapter_name: String,
    embed_script: bool,
    code: String,
}

impl DiscordCodeBlock {
    /// The block's info-string name.
    pub closed spec fn spec_block_name(&self) -> Seq<char> {
        self.block_name@
    }

    /// The accumulated block text.
    pub closed spec fn spec_code(&self) -> Seq<char> {
        self.code@
    }

    /// The chapter the block stands in.
    pub closed spec fn spec_chapter(&self) -> Seq<char> {
        self.chapter_name@
    }

    /// Whether the script snippet is prepended to the output.
    pub closed spec fn spec_embed_script(&self) -> bool {
        self.embed_script
    }

    /// An empty block.
    pub fn new(block_name: String, chapter_name: String, embed_script: bool) -> (r:
        DiscordCodeBlock)
        ensures
            r.spec_block_name() == block_name@,
            r.spec_chapter() == chapter_name@,
            r.spec_embed_script() == embed_script,
            r.spec_code() == Seq::<char>::empty(),
    {
        DiscordCodeBlock { block_name, chapter_name, embed_script, code: String::new() }
    }

    /// Appends one piece of the block's text.
    pub fn push_code(&mut self, code: &str)
        ensures
            final(self).spec_code() == old(self).spec_code() + code@,
            final(self).spec_block_name() == old(self).spec_block_name(),
            final(self).spec_chapter() == old(self).spec_chapter(),
            final(self).spec_embed_script() == old(self).spec_embed_script(),
    {
        self.code.append(code);
    }

    /// The accumulated block text, for the caller to decode.
    pub fn code(&self) -> (r: &str)
        ensures
            r@ == self.spec_code(),
    {
        self.code.as_str()
    }

    /// Turns one decode outcome into renderable units: the rendered
    /// markup — preceded by the script snippet when asked for — or an
    /// error wrapped with this block's chapter. A decode failure and a
    /// validation failure both abort the block; nothing partial is
    /// returned.
    pub fn build(&self, decoded: Result<DecodedMessages, String>, parser: &YamlParser, users:
        &UserTable) -> (r: Result<Vec<String>, ParseError>)
        ensures
            (r is Err) == (decoded is Err || first_invalid(
                msgs_of(decoded->Ok_0),
                parser.lookup_enabled,
            ) is Some),
            match r {
                Result::Ok(outputs) => {
                    &&& decoded is Ok
                    &&& first_invalid(msgs_of(decoded->Ok_0), parser.lookup_enabled) is None
                    &&& outputs@.len() == (if self.spec_embed_script() {
                        2int
                    } else {
                        1int
                    })
                    &&& (self.spec_embed_script() ==> outputs@[0]@
                        == "<script type=\"module\" src=\"https://unpkg.com/@skyra/discord-components-core\"></script>\n"@
                        && outputs@[1]@ == rendered_markup(
                        msgs_of(decoded->Ok_0),
                        users@,
                        parser.lookup_enabled,
                    ))
                    &&& (!self.spec_embed_script() ==> outputs@[0]@ == rendered_markup(
                        msgs_of(decoded->Ok_0),
                        users@,
                        parser.lookup_enabled,
                    ))
                },
                Result::Err(e) => {
                    &&& e.chapter@ == self.spec_chapter()
                    &&& (match decoded {
                        Result::Err(msg) => e.failure matches BlockFailure::Decode(m) && m@
                            == msg@,
                        Result::Ok(d) => match first_invalid(msgs_of(d), parser.lookup_enabled) {
                            Option::Some(fi) => e.failure matches BlockFailure::Validation(ve)
                                && ve.rule == fi.1 && (match d {
                                DecodedMessages::One(_) => ve.position is None,
                                DecodedMessages::Many(_) => ve.position == Option::Some(
                                    (fi.0 + 1) as usize,
                                ),
                            }),
                            Option::None => false,
                        },
                    })
                },
            },
    {
        match decoded {
            Result::Err(msg) => Result::Err(
                ParseError {
                    chapter: self.chapter_name.clone(),
                    failure: BlockFailure::Decode(msg),
                },
            ),
            Result::Ok(d) => {
                let ghost gmsgs = msgs_of(d);
                match parser.parse(d, users) {
                    Result::Err(ve) => Result::Err(
                        ParseError {
                            chapter: self.chapter_name.clone(),
                            failure: BlockFailure::Validation(ve),
                        },
                    ),
                    Result::Ok(components) => {
                        proof {
                            lemma_assembled_depth(gmsgs, users@, parser.lookup_enabled);
                        }
                        let generator = HTMLGenerator::new();
                        let html = generator.generate(&components);
                        let mut outputs: Vec<String> = Vec::new();
                        if self.embed_script {
                            outputs.push(discord_components_script().to_owned());
                        }
                        outputs.push(html);
                        Result::Ok(outputs)
                    },
                }
            },
        }
    }
}

} // verus!

use discord_components::codeblock::{discord_components_script, BlockFailure, DiscordCodeBlock};
use discord_components::discord::{ResolvedUser, User, UserTable};
use discord_components::preprocessor::{BlockName, DiscordComponentsPreprocessor};
use discord_components::tree::{Component, ComponentTree};
use discord_components::yaml_parser::{
    DecodedMessages, YamlBasicMessage, YamlEmbed, YamlMessage, YamlParser, YamlReaction,
};

fn empty_basic() -> YamlBasicMessage {
    YamlBasicMessage {
        user_id: None,
        username: None,
        avatar: None,
        color: None,
        timestamp: None,
        bot: None,
        edited: None,
        ephemeral: None,
        highlight: None,
        verified: None,
        reply: None,
        command: None,
        roles: None,
        embed: None,
        embeds: None,
        reactions: None,
        attachments: None,
        components: None,
        invites: None,
        content: String::new(),
    }
}

fn empty_embed() -> YamlEmbed {
    YamlEmbed {
        title: None,
        url: None,
        color: None,
        description: None,
        image: None,
        thumbnail: None,
        timestamp: None,
        author: None,
        fields: None,
        footer: None,
    }
}

fn reaction(emoji: &str) -> YamlReaction {
    YamlReaction {
        emoji: emoji.to_owned(),
        name: None,
        count: None,
        interactive: None,
        reacted: None,
    }
}

#[test]
fn pipeline_two_messages_end_to_end() {
    let mut first = empty_basic();
    first.content = "hi".to_owned();
    first.username = Some("A".to_owned());
    let mut second = empty_basic();
    second.content = "bye".to_owned();
    second.username = Some("B".to_owned());
    second.reactions = Some(vec![reaction("a"), reaction("b"), reaction("c")]);

    let parser = YamlParser::new(false);
    let users = UserTable::new();
    let doc = parser
        .parse(
            DecodedMessages::Many(vec![YamlMessage::Basic(first), YamlMessage::Basic(second)]),
            &users,
        )
        .expect("valid batch");

    assert_eq!(doc.tree.len(), 2);
    let second_node = &doc.tree[1];
    let children = match second_node {
        ComponentTree::Node { data: Component::Message(m), nodes } => {
            assert_eq!(m.author, "B");
            nodes
        },
        _ => panic!("second top-level node must be a message"),
    };
    let mut reaction_wrappers = 0;
    for child in children {
        if let ComponentTree::Node { data: Component::Reactions(_), nodes } = child {
            reaction_wrappers += 1;
            assert_eq!(nodes.len(), 3);
            let emojis: Vec<&str> = nodes
                .iter()
                .map(|n| match n {
                    ComponentTree::Node { data: Component::Reaction(r), .. } => {
                        r.emoji.as_deref().expect("emoji set")
                    },
                    _ => panic!("reaction wrapper must hold reactions"),
                })
                .collect();
            assert_eq!(emojis, vec!["a", "b", "c"]);
        }
    }
    assert_eq!(reaction_wrappers, 1);
}

#[test]
fn pipeline_embed_timestamp_folds_into_new_footer() {
    let mut e = empty_embed();
    e.timestamp = Some("2023-01-01".to_owned());
    e.prepare();
    assert!(e.timestamp.is_none());
    let f = e.footer.expect("footer synthesized");
    assert_eq!(f.timestamp.as_deref(), Some("2023-01-01"));
    assert!(f.text.is_none());
    assert!(f.image.is_none());
}

#[test]
fn pipeline_embed_timestamp_overwrites_existing_footer_timestamp() {
    let mut e = empty_embed();
    e.timestamp = Some("new".to_owned());
    e.footer = Some(discord_components::yaml_parser::Footer {
        text: Some("credits".to_owned()),
        image: Some("img.png".to_owned()),
        timestamp: Some("old".to_owned()),
    });
    e.prepare();
    let f = e.footer.expect("footer kept");
    assert_eq!(f.timestamp.as_deref(), Some("new"));
    assert_eq!(f.text.as_deref(), Some("credits"));
    assert_eq!(f.image.as_deref(), Some("img.png"));
}

#[test]
fn pipeline_embed_without_timestamp_is_unchanged() {
    let mut e = empty_embed();
    e.description = Some("d".to_owned());
    e.prepare();
    assert!(e.footer.is_none());
    assert_eq!(e.description.as_deref(), Some("d"));
}

#[test]
fn pipeline_singular_embed_comes_before_list() {
    let mut m = empty_basic();
    m.username = Some("A".to_owned());
    let mut single = empty_embed();
    single.title = Some("first".to_owned());
    let mut listed = empty_embed();
    listed.title = Some("second".to_owned());
    m.embed = Some(single);
    m.embeds = Some(vec![listed]);

    let parser = YamlParser::new(false);
    let users = UserTable::new();
    let doc = parser
        .parse(DecodedMessages::Many(vec![YamlMessage::Basic(m)]), &users)
        .expect("valid");
    let children = match &doc.tree[0] {
        ComponentTree::Node { nodes, .. } => nodes,
        _ => panic!("message node"),
    };
    let titles: Vec<&str> = children
        .iter()
        .filter_map(|c| match c {
            ComponentTree::Node { data: Component::Embed(e), .. } => e.embed_title.as_deref(),
            _ => None,
        })
        .collect();
    assert_eq!(titles, vec!["first", "second"]);
}

#[test]
fn pipeline_lookup_seeds_author_and_explicit_fields_override() {
    let mut m = empty_basic();
    m.user_id = Some(42);
    let mut users = UserTable::new();
    users.insert(
        42,
        ResolvedUser {
            display_name: "Resolved".to_owned(),
            avatar_url: "http://a/img.png".to_owned(),
            bot: true,
        },
    );
    m.content = "hi".to_owned();
    let parser = YamlParser::new(true);
    let doc = parser
        .parse(DecodedMessages::Many(vec![YamlMessage::Basic(m)]), &users)
        .expect("valid");
    match &doc.tree[0] {
        ComponentTree::Node { data: Component::Message(msg), .. } => {
            assert_eq!(msg.author, "Resolved");
            assert_eq!(msg.avatar.as_deref(), Some("http://a/img.png"));
            assert!(msg.bot);
        },
        _ => panic!("message node"),
    }

    let mut m2 = empty_basic();
    m2.user_id = Some(42);
    m2.username = Some("Explicit".to_owned());
    m2.avatar = Some("http://b/img.png".to_owned());
    m2.bot = Some(false);
    m2.content = "hi".to_owned();
    let doc2 = parser
        .parse(DecodedMessages::Many(vec![YamlMessage::Basic(m2)]), &users)
        .expect("valid");
    match &doc2.tree[0] {
        ComponentTree::Node { data: Component::Message(msg), .. } => {
            assert_eq!(msg.author, "Explicit");
            assert_eq!(msg.avatar.as_deref(), Some("http://b/img.png"));
            assert!(!msg.bot);
        },
        _ => panic!("message node"),
    }
}

#[test]
fn pipeline_roles_merge_across_messages_later_wins() {
    let mut m1 = empty_basic();
    m1.username = Some("A".to_owned());
    m1.content = "x".to_owned();
    let mut r1 = discord_components::roles::RoleMap::new();
    r1.insert("mods".to_owned(), "#111111".to_owned());
    m1.roles = Some(r1);
    let mut m2 = empty_basic();
    m2.username = Some("B".to_owned());
    m2.content = "y".to_owned();
    let mut r2 = discord_components::roles::RoleMap::new();
    r2.insert("mods".to_owned(), "#222222".to_owned());
    m2.roles = Some(r2);

    let parser = YamlParser::new(false);
    let users = UserTable::new();
    let doc = parser
        .parse(
            DecodedMessages::Many(vec![YamlMessage::Basic(m1), YamlMessage::Basic(m2)]),
            &users,
        )
        .expect("valid");
    let color = doc.roles.get(&"mods".to_owned()).expect("role present");
    assert_eq!(color.as_str(), "#222222");
}

#[test]
fn pipeline_codeblock_build_with_script() {
    let mut block = DiscordCodeBlock::new("discord yaml".to_owned(), "Intro".to_owned(), true);
    block.push_code("ignored here");
    let mut m = empty_basic();
    m.username = Some("A".to_owned());
    m.content = "hi".to_owned();
    let parser = YamlParser::new(false);
    let users = UserTable::new();
    let outputs = block
        .build(Ok(DecodedMessages::One(YamlMessage::Basic(m))), &parser, &users)
        .expect("valid");
    assert_eq!(outputs.len(), 2);
    assert_eq!(outputs[0], discord_components_script());
    assert!(outputs[1].starts_with("<discord-messages>\n"));
    assert!(outputs[1].ends_with("</discord-messages>"));
}

#[test]
fn pipeline_codeblock_wraps_decode_error_with_chapter() {
    let block = DiscordCodeBlock::new("discord yaml".to_owned(), "Intro".to_owned(), false);
    let parser = YamlParser::new(false);
    let users = UserTable::new();
    let e = block
        .build(Err("mapping values are not allowed".to_owned()), &parser, &users)
        .err()
        .expect("decode failure");
    assert_eq!(
        e.message(),
        "Failed to parse a discord code block in chapter 'Intro'! Error: mapping values are not allowed"
    );
    assert!(matches!(e.failure, BlockFailure::Decode(_)));
}

#[test]
fn pipeline_codeblock_wraps_validation_error_with_chapter() {
    let block = DiscordCodeBlock::new("discord yaml".to_owned(), "Guide".to_owned(), false);
    let parser = YamlParser::new(false);
    let users = UserTable::new();
    let e = block
        .build(
            Ok(DecodedMessages::Many(vec![YamlMessage::Basic(empty_basic())])),
            &parser,
            &users,
        )
        .err()
        .expect("validation failure");
    assert_eq!(
        e.message(),
        "Failed to parse a discord code block in chapter 'Guide'! Error: Invalid message #1: no message content or embeds"
    );
}

#[test]
fn pipeline_preprocessor_identity() {
    let pre = DiscordComponentsPreprocessor;
    assert_eq!(pre.name(), "mdbook-discord-components");
    assert!(pre.supports_renderer("html"));
    assert!(!pre.supports_renderer("markdown"));
}

#[test]
fn pipeline_block_name_formatting() {
    let mut name = BlockName::new();
    assert_eq!(name.string(), "discord ");
    assert_eq!(name.set("yaml"), "discord yaml");
    assert_eq!(name.string(), "discord yaml");
}

#[test]
fn pipeline_user_display_name_and_avatar() {
    let custom = User {
        id: 5,
        discriminator: "0001".to_owned(),
        username: "u".to_owned(),
        global_name: Some("G".to_owned()),
        avatar: Some("abc".to_owned()),
        bot: None,
    };
    assert_eq!(custom.display_name(), "G");
    assert_eq!(custom.avatar_url(), "https://cdn.discordapp.com/avatars/5/abc.png");
    assert!(!custom.is_bot());

    let new_system = User {
        id: 123456789,
        discriminator: "0".to_owned(),
        username: "u".to_owned(),
        global_name: None,
        avatar: None,
        bot: Some(true),
    };
    assert_eq!(new_system.display_name(), "u");
    assert_eq!(
        new_system.avatar_url(),
        "https://cdn.discordapp.com/embed/avatars/5.png"
    );
    assert!(new_system.is_bot());

    let old_system = User {
        id: 1,
        discriminator: "0007".to_owned(),
        username: "u".to_owned(),
        global_name: None,
        avatar: None,
        bot: None,
    };
    assert_eq!(
        old_system.avatar_url(),
        "https://cdn.discordapp.com/embed/avatars/2.png"
    );

    let resolved = custom.resolve();
    assert_eq!(resolved.display_name, "G");
    assert!(!resolved.bot);
}

#[test]
fn pipeline_wrapper_groups_attachments_rows_and_invites() {
    let mut m = empty_basic();
    m.username = Some("A".to_owned());
    m.content = "hi".to_owned();
    m.attachments = Some(vec![discord_components::yaml_parser::YamlAttachment {
        url: "a.png".to_owned(),
        height: Some(10),
        width: None,
        alt: None,
    }]);
    m.invites = Some(vec![discord_components::yaml_parser::YamlInvite {
        online: 1,
        members: 2,
        name: "srv".to_owned(),
        icon: None,
        partnered: None,
        verified: None,
    }]);
    let parser = YamlParser::new(false);
    let users = UserTable::new();
    let doc = parser
        .parse(DecodedMessages::Many(vec![YamlMessage::Basic(m)]), &users)
        .expect("valid");
    let children = match &doc.tree[0] {
        ComponentTree::Node { nodes, .. } => nodes,
        _ => panic!("message node"),
    };
    let mut wrappers = 0;
    for child in children {
        match child {
            ComponentTree::Node { data: Component::Attachments(_), nodes } => {
                wrappers += 1;
                assert_eq!(nodes.len(), 2);
                assert!(matches!(
                    nodes[0],
                    ComponentTree::Node { data: Component::Attachment(_), .. }
                ));
                assert!(matches!(
                    nodes[1],
                    ComponentTree::Node { data: Component::Invite(_), .. }
                ));
            },
            ComponentTree::Node { data: Component::Attachment(_), .. } => {
                panic!("attachments must not be direct children");
            },
            _ => {},
        }
    }
    assert_eq!(wrappers, 1);
}

#[test]
fn pipeline_reply_prefix_comes_before_body() {
    let mut m = empty_basic();
    m.username = Some("A".to_owned());
    m.content = "hi".to_owned();
    m.reply = Some(discord_components::yaml_parser::YamlReply {
        author: "B".to_owned(),
        content: "quoted".to_owned(),
        avatar: None,
        color: None,
        attachment: None,
        edited: None,
        bot: None,
        verified: None,
        mentions: None,
        op: None,
        command: None,
        user_id: None,
    });
    let parser = YamlParser::new(false);
    let users = UserTable::new();
    let doc = parser
        .parse(DecodedMessages::Many(vec![YamlMessage::Basic(m)]), &users)
        .expect("valid");
    let children = match &doc.tree[0] {
        ComponentTree::Node { nodes, .. } => nodes,
        _ => panic!("message node"),
    };
    assert!(matches!(
        children[0],
        ComponentTree::Node { data: Component::Reply(_), .. }
    ));
    assert!(matches!(children[1], ComponentTree::Text(_)));
}

#[test]
fn pipeline_empty_batch_renders_empty_container() {
    let parser = YamlParser::new(false);
    let users = UserTable::new();
    let block = DiscordCodeBlock::new("discord yaml".to_owned(), "Ch".to_owned(), false);
    let outputs = block
        .build(Ok(DecodedMessages::Many(Vec::new())), &parser, &users)
        .expect("empty batch is valid");
    assert_eq!(outputs.len(), 1);
    assert_eq!(outputs[0], "<discord-messages>\n</discord-messages>");
}

#[test]
fn pipeline_system_message_renders_typed_node() {
    let m = discord_components::yaml_parser::YamlSystemMessage {
        kind: discord_components::message::SystemMessageType::Pin,
        channel_name: None,
        timestamp: None,
        content: "pinned a message".to_owned(),
    };
    let parser = YamlParser::new(false);
    let users = UserTable::new();
    let block = DiscordCodeBlock::new("discord yaml".to_owned(), "Ch".to_owned(), false);
    let outputs = block
        .build(
            Ok(DecodedMessages::One(YamlMessage::System(m))),
            &parser,
            &users,
        )
        .expect("valid");
    assert_eq!(
        outputs[0],
        "<discord-messages>\n    <discord-system-message type=\"pin\">\n        pinned a message\n    </discord-system-message>\n</discord-messages>"
    );
}

#[test]
fn pipeline_code_accumulates_across_pushes() {
    let mut block = DiscordCodeBlock::new("discord yaml".to_owned(), "Ch".to_owned(), false);
    block.push_code("- content: hi\n");
    block.push_code("  username: A\n");
    assert_eq!(block.code(), "- content: hi\n  username: A\n");
}

#[test]
fn pipeline_role_map_misses_return_nothing() {
    let mut roles = discord_components::roles::RoleMap::new();
    roles.insert("mods".to_owned(), "#111111".to_owned());
    assert!(roles.get(&"admins".to_owned()).is_none());
}

#[test]
fn pipeline_user_table_misses_return_nothing() {
    let mut users = UserTable::new();
    users.insert(
        1,
        ResolvedUser {
            display_name: "A".to_owned(),
            avatar_url: "u".to_owned(),
            bot: false,
        },
    );
    assert!(users.get(2).is_none());
    assert_eq!(users.get(1).expect("present").display_name, "A");
}

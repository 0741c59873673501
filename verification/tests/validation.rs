use discord_components::discord::UserTable;
use discord_components::yaml_parser::{
    DecodedMessages, ValidationRule, YamlBasicMessage, YamlMessage, YamlParser, YamlParserError,
    YamlSystemMessage,
};
use discord_components::message::SystemMessageType;

fn empty_basic() -> YamlBasicMessage {
    YamlBasicMessage {
        user_id: None,
        username: None,
        avatar: None,
        color: None,
        timestamp: None,
        bot: None,
        edited: None,
        ephemeral: None,
        highlight: None,
        verified: None,
        reply: None,
        command: None,
        roles: None,
        embed: None,
        embeds: None,
        reactions: None,
        attachments: None,
        components: None,
        invites: None,
        content: String::new(),
    }
}

fn reply_stub() -> discord_components::yaml_parser::YamlReply {
    discord_components::yaml_parser::YamlReply {
        author: "r".to_owned(),
        content: "quoted".to_owned(),
        avatar: None,
        color: None,
        attachment: None,
        edited: None,
        bot: None,
        verified: None,
        mentions: None,
        op: None,
        command: None,
        user_id: None,
    }
}

fn command_stub() -> discord_components::yaml_parser::YamlCommand {
    discord_components::yaml_parser::YamlCommand {
        command: "/ping".to_owned(),
        author: "c".to_owned(),
        avatar: None,
        color: None,
        user_id: None,
    }
}

fn action_row() -> discord_components::yaml_parser::YamlActionRow {
    discord_components::yaml_parser::YamlActionRow(Vec::new())
}

#[test]
fn validation_rejects_message_without_content_or_embeds() {
    let mut m = empty_basic();
    m.username = Some("A".to_owned());
    let parser = YamlParser::new(false);
    let users = UserTable::new();
    let r = parser.parse(DecodedMessages::Many(vec![YamlMessage::Basic(m)]), &users);
    let e = r.err().expect("must be rejected");
    assert_eq!(e.rule, ValidationRule::NoContentOrEmbeds);
    assert_eq!(e.position, Some(1));
}

#[test]
fn validation_rejects_reply_and_command_together() {
    let mut m = empty_basic();
    m.username = Some("A".to_owned());
    m.content = "hi".to_owned();
    m.reply = Some(reply_stub());
    m.command = Some(command_stub());
    let parser = YamlParser::new(false);
    let users = UserTable::new();
    let r = parser.parse(DecodedMessages::Many(vec![YamlMessage::Basic(m)]), &users);
    let e = r.err().expect("must be rejected");
    assert_eq!(e.rule, ValidationRule::ReplyAndCommand);
}

#[test]
fn validation_rejects_more_than_five_action_rows() {
    let mut m = empty_basic();
    m.username = Some("A".to_owned());
    m.content = "hi".to_owned();
    m.components = Some(vec![
        action_row(),
        action_row(),
        action_row(),
        action_row(),
        action_row(),
        action_row(),
    ]);
    let parser = YamlParser::new(false);
    let users = UserTable::new();
    let r = parser.parse(DecodedMessages::Many(vec![YamlMessage::Basic(m)]), &users);
    let e = r.err().expect("must be rejected");
    assert_eq!(e.rule, ValidationRule::TooManyComponents);
}

#[test]
fn validation_accepts_exactly_five_action_rows() {
    let mut m = empty_basic();
    m.username = Some("A".to_owned());
    m.content = "hi".to_owned();
    m.components = Some(vec![
        action_row(),
        action_row(),
        action_row(),
        action_row(),
        action_row(),
    ]);
    let parser = YamlParser::new(false);
    let users = UserTable::new();
    let r = parser.parse(DecodedMessages::Many(vec![YamlMessage::Basic(m)]), &users);
    assert!(r.is_ok());
}

#[test]
fn validation_rejects_missing_username_without_lookup() {
    let mut m = empty_basic();
    m.user_id = Some(7);
    m.content = "hi".to_owned();
    let parser = YamlParser::new(false);
    let users = UserTable::new();
    let r = parser.parse(DecodedMessages::Many(vec![YamlMessage::Basic(m)]), &users);
    let e = r.err().expect("must be rejected");
    assert_eq!(e.rule, ValidationRule::NoUsername);
}

#[test]
fn validation_accepts_user_id_with_lookup_enabled() {
    let mut m = empty_basic();
    m.user_id = Some(7);
    m.content = "hi".to_owned();
    let parser = YamlParser::new(true);
    let users = UserTable::new();
    let r = parser.parse(DecodedMessages::Many(vec![YamlMessage::Basic(m)]), &users);
    assert!(r.is_ok());
}

#[test]
fn validation_rejects_missing_author_with_lookup_enabled() {
    let mut m = empty_basic();
    m.content = "hi".to_owned();
    let parser = YamlParser::new(true);
    let users = UserTable::new();
    let r = parser.parse(DecodedMessages::Many(vec![YamlMessage::Basic(m)]), &users);
    let e = r.err().expect("must be rejected");
    assert_eq!(e.rule, ValidationRule::NoUserIdOrUsername);
}

#[test]
fn validation_rejects_system_message_without_content() {
    let m = YamlSystemMessage {
        kind: SystemMessageType::Join,
        channel_name: None,
        timestamp: None,
        content: String::new(),
    };
    let parser = YamlParser::new(false);
    let users = UserTable::new();
    let r = parser.parse(DecodedMessages::Many(vec![YamlMessage::System(m)]), &users);
    let e = r.err().expect("must be rejected");
    assert_eq!(e.rule, ValidationRule::NoSystemContent);
}

#[test]
fn validation_reports_first_invalid_position() {
    let mut ok = empty_basic();
    ok.username = Some("A".to_owned());
    ok.content = "hi".to_owned();
    let bad = empty_basic();
    let parser = YamlParser::new(false);
    let users = UserTable::new();
    let r = parser.parse(
        DecodedMessages::Many(vec![YamlMessage::Basic(ok), YamlMessage::Basic(bad)]),
        &users,
    );
    let e = r.err().expect("must be rejected");
    assert_eq!(e.position, Some(2));
    assert_eq!(e.rule, ValidationRule::NoContentOrEmbeds);
}

#[test]
fn validation_single_block_error_has_no_position() {
    let bad = empty_basic();
    let parser = YamlParser::new(false);
    let users = UserTable::new();
    let r = parser.parse(DecodedMessages::One(YamlMessage::Basic(bad)), &users);
    let e = r.err().expect("must be rejected");
    assert_eq!(e.position, None);
}

#[test]
fn validation_error_messages_match_the_rules() {
    let e = YamlParserError::new(Some(3), ValidationRule::TooManyComponents);
    assert_eq!(e.message(), "Invalid message #3: too many components");
    let e = YamlParserError::new(None, ValidationRule::NoContentOrEmbeds);
    assert_eq!(e.message(), "Invalid message: no message content or embeds");
    let e = YamlParserError::new(Some(1), ValidationRule::ReplyAndCommand);
    assert_eq!(
        e.message(),
        "Invalid message #1: message can't be a reply and a slash command at the same time"
    );
    let e = YamlParserError::new(None, ValidationRule::NoUsername);
    assert_eq!(e.message(), "Invalid message: no username");
    let e = YamlParserError::new(None, ValidationRule::NoUserIdOrUsername);
    assert_eq!(e.message(), "Invalid message: no user_id or username");
    let e = YamlParserError::new(Some(2), ValidationRule::NoSystemContent);
    assert_eq!(e.message(), "Invalid message #2: no system message content");
}

#[test]
fn validation_embed_alone_satisfies_content_rule() {
    let mut m = empty_basic();
    m.username = Some("A".to_owned());
    m.embed = Some(discord_components::yaml_parser::YamlEmbed {
        title: Some("t".to_owned()),
        url: None,
        color: None,
        description: None,
        image: None,
        thumbnail: None,
        timestamp: None,
        author: None,
        fields: None,
        footer: None,
    });
    let parser = YamlParser::new(false);
    let users = UserTable::new();
    let r = parser.parse(DecodedMessages::Many(vec![YamlMessage::Basic(m)]), &users);
    assert!(r.is_ok());
}

#[test]
fn validation_empty_embed_list_does_not_satisfy_content_rule() {
    let mut m = empty_basic();
    m.username = Some("A".to_owned());
    m.embeds = Some(Vec::new());
    let parser = YamlParser::new(false);
    let users = UserTable::new();
    let r = parser.parse(DecodedMessages::Many(vec![YamlMessage::Basic(m)]), &users);
    let e = r.err().expect("must be rejected");
    assert_eq!(e.rule, ValidationRule::NoContentOrEmbeds);
}

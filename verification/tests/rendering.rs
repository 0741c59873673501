use discord_components::components::{ActionRow, Attachments, Button, ButtonType};
use discord_components::embed::{EmbedField, EmbedFooter};
use discord_components::generatable::Generatable;
use discord_components::html::{generate_components, HTMLGenerator};
use discord_components::invite::Invite;
use discord_components::message::{Message, Reaction, SystemMessage, SystemMessageType};
use discord_components::roles::RoleMap;
use discord_components::text::{parse_u16, str_eq, u64_to_dec};
use discord_components::tree::{Component, ComponentTree, Components};

fn plain_message(author: &str) -> Message {
    Message {
        author: author.to_owned(),
        avatar: None,
        bot: false,
        edited: false,
        ephemeral: false,
        highlight: false,
        role_color: None,
        timestamp: None,
        verified: false,
    }
}

#[test]
fn render_false_flag_is_absent_true_flag_is_bare() {
    let mut m = plain_message("A");
    m.bot = true;
    let attrs = m.attributes();
    assert!(attrs.iter().any(|(k, v)| k.as_str() == "bot" && v.is_empty()));
    assert!(!attrs.iter().any(|(k, _)| k.as_str() == "edited"));
    assert!(!attrs.iter().any(|(k, _)| k.as_str() == "verified"));
    let m2 = plain_message("A");
    let attrs2 = m2.attributes();
    assert!(!attrs2.iter().any(|(k, _)| k.as_str() == "bot"));
}

#[test]
fn render_reaction_attributes_in_declaration_order() {
    let r = Reaction {
        name: ":emoji:".to_owned(),
        emoji: Some("smile.png".to_owned()),
        count: 4,
        interactive: true,
        reacted: false,
    };
    let attrs = r.attributes();
    let flat: Vec<(String, String)> = attrs;
    assert_eq!(
        flat,
        vec![
            ("name".to_owned(), ":emoji:".to_owned()),
            ("emoji".to_owned(), "smile.png".to_owned()),
            ("count".to_owned(), "4".to_owned()),
            ("interactive".to_owned(), String::new()),
        ]
    );
}

#[test]
fn render_slot_attribute_comes_first() {
    let a = Attachments;
    assert_eq!(a.attributes(), vec![("slot".to_owned(), "components".to_owned())]);
    assert_eq!(a.name(), "discord-attachments");
    let row = ActionRow;
    assert_eq!(row.attributes(), Vec::<(String, String)>::new());
}

#[test]
fn render_button_type_texts() {
    let b = Button {
        kind: ButtonType::Destructive,
        disabled: false,
        emoji: None,
        emoji_name: None,
        url: None,
    };
    let attrs = b.attributes();
    assert_eq!(attrs, vec![("type".to_owned(), "destructive".to_owned())]);
}

#[test]
fn render_system_message_kind_is_kebab_cased() {
    let s = SystemMessage {
        kind: SystemMessageType::MissedCall,
        timestamp: None,
        channel_name: true,
    };
    assert_eq!(s.name(), "discord-system-message");
    assert_eq!(
        s.attributes(),
        vec![
            ("type".to_owned(), "missed-call".to_owned()),
            ("channel-name".to_owned(), String::new()),
        ]
    );
}

#[test]
fn render_embed_field_index_only_when_inline() {
    let f = EmbedField { field_title: "t".to_owned(), inline: true, inline_index: Some(2) };
    assert_eq!(
        f.attributes(),
        vec![
            ("field-title".to_owned(), "t".to_owned()),
            ("inline".to_owned(), String::new()),
            ("inline-index".to_owned(), "2".to_owned()),
        ]
    );
    let g = EmbedField { field_title: "t".to_owned(), inline: false, inline_index: None };
    assert_eq!(g.attributes(), vec![("field-title".to_owned(), "t".to_owned())]);
}

#[test]
fn render_invite_numbers_in_decimal() {
    let i = Invite {
        online: 12,
        members: 3456,
        name: "srv".to_owned(),
        icon: None,
        partnered: true,
        verified: false,
    };
    assert_eq!(
        i.attributes(),
        vec![
            ("online".to_owned(), "12".to_owned()),
            ("members".to_owned(), "3456".to_owned()),
            ("name".to_owned(), "srv".to_owned()),
            ("partnered".to_owned(), String::new()),
        ]
    );
}

#[test]
fn render_single_message_document() {
    let mut doc = Components::new();
    doc.tree.push(ComponentTree::Node {
        data: Component::Message(plain_message("A")),
        nodes: vec![ComponentTree::Text("hi".to_owned())],
    });
    let generator = HTMLGenerator::new();
    let html = generator.generate(&doc);
    assert_eq!(
        html,
        "<discord-messages>\n    <discord-message author=\"A\">\n        hi\n    </discord-message>\n</discord-messages>"
    );
}

#[test]
fn render_twice_is_byte_identical() {
    let mut doc = Components::new();
    doc.roles.insert("mods".to_owned(), "#00ff00".to_owned());
    doc.tree.push(ComponentTree::Node {
        data: Component::Message(plain_message("A")),
        nodes: vec![ComponentTree::Text("hello <@mods>\nbye".to_owned())],
    });
    let generator = HTMLGenerator::new();
    let first = generator.generate(&doc);
    let second = generator.generate(&doc);
    assert_eq!(first, second);
}

#[test]
fn render_text_trims_one_trailing_newline_and_marks_breaks() {
    let roles = RoleMap::new();
    let node = ComponentTree::Text("line1\nline2\n".to_owned());
    let out = generate_components(&roles, &node, 0);
    assert_eq!(out, "line1<br />line2\n");
}

#[test]
fn render_empty_attribute_value_is_bare_name() {
    let roles = RoleMap::new();
    let footer = ComponentTree::Node {
        data: Component::EmbedFooter(EmbedFooter { footer_image: None, timestamp: None }),
        nodes: vec![],
    };
    let out = generate_components(&roles, &footer, 0);
    assert_eq!(out, "<discord-embed-footer slot=\"footer\">\n</discord-embed-footer>\n");
}

#[test]
fn render_decimal_formatting() {
    assert_eq!(u64_to_dec(0), "0");
    assert_eq!(u64_to_dec(7), "7");
    assert_eq!(u64_to_dec(1690000000), "1690000000");
    assert_eq!(u64_to_dec(u64::MAX), "18446744073709551615");
}

#[test]
fn render_parse_u16_cases() {
    assert_eq!(parse_u16("0"), Some(0));
    assert_eq!(parse_u16("0001"), Some(1));
    assert_eq!(parse_u16("+42"), Some(42));
    assert_eq!(parse_u16("65535"), Some(65535));
    assert_eq!(parse_u16("65536"), None);
    assert_eq!(parse_u16(""), None);
    assert_eq!(parse_u16("+"), None);
    assert_eq!(parse_u16("12a"), None);
}

#[test]
fn render_str_eq_compares_contents() {
    assert!(str_eq("html", "html"));
    assert!(!str_eq("html", "markdown"));
    assert!(!str_eq("html", "htm"));
}

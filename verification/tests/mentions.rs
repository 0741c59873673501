use discord_components::mentions::format_mentions;
use discord_components::roles::RoleMap;

#[test]
fn mention_role_with_color() {
    let mut roles = RoleMap::new();
    roles.insert("123".to_owned(), "#ff0000".to_owned());
    let out = format_mentions(&roles, "Hello <@123>".to_owned());
    assert_eq!(
        out,
        "Hello <discord-mention type=\"role\" color=\"#ff0000\">123</discord-mention>"
    );
}

#[test]
fn mention_unknown_user_with_highlight() {
    let roles = RoleMap::new();
    let out = format_mentions(&roles, "<!@456>".to_owned());
    assert_eq!(out, "<discord-mention highlight>456</discord-mention>");
}

#[test]
fn mention_timestamp_verbatim() {
    let roles = RoleMap::new();
    let out = format_mentions(&roles, "<t:1690000000>".to_owned());
    assert_eq!(out, "<discord-time>1690000000</discord-time>");
}

#[test]
fn mention_custom_emoji_as_url() {
    let roles = RoleMap::new();
    let out = format_mentions(&roles, "see <e:https://x/y.png>!".to_owned());
    assert_eq!(
        out,
        "see <discord-custom-emoji url=\"https://x/y.png\"></discord-custom-emoji>!"
    );
}

#[test]
fn mention_channel_is_typed() {
    let roles = RoleMap::new();
    let out = format_mentions(&roles, "<#general>".to_owned());
    assert_eq!(out, "<discord-mention type=\"channel\">general</discord-mention>");
}

#[test]
fn mention_channel_with_highlight() {
    let roles = RoleMap::new();
    let out = format_mentions(&roles, "<!#general>".to_owned());
    assert_eq!(
        out,
        "<discord-mention type=\"channel\" highlight>general</discord-mention>"
    );
}

#[test]
fn mention_role_lookup_uses_latest_color() {
    let mut roles = RoleMap::new();
    roles.insert("mods".to_owned(), "#111111".to_owned());
    roles.insert("mods".to_owned(), "#222222".to_owned());
    let out = format_mentions(&roles, "<@mods>".to_owned());
    assert_eq!(
        out,
        "<discord-mention type=\"role\" color=\"#222222\">mods</discord-mention>"
    );
}

#[test]
fn mention_non_matching_text_is_untouched() {
    let roles = RoleMap::new();
    let out = format_mentions(&roles, "a < b > c <x> <@".to_owned());
    assert_eq!(out, "a < b > c <x> <@");
}

#[test]
fn mention_unclosed_token_before_newline_does_not_match() {
    let roles = RoleMap::new();
    let out = format_mentions(&roles, "<@abc\ndef>".to_owned());
    assert_eq!(out, "<@abc\ndef>");
}

#[test]
fn mention_result_is_not_rescanned() {
    let mut roles = RoleMap::new();
    roles.insert("a".to_owned(), "<@b>".to_owned());
    let out = format_mentions(&roles, "<@a>".to_owned());
    assert_eq!(out, "<discord-mention type=\"role\" color=\"<@b>\">a</discord-mention>");
}

#[test]
fn mention_two_tokens_in_one_text() {
    let roles = RoleMap::new();
    let out = format_mentions(&roles, "<t:1> and <t:2>".to_owned());
    assert_eq!(out, "<discord-time>1</discord-time> and <discord-time>2</discord-time>");
}

#[test]
fn mention_empty_body_matches() {
    let roles = RoleMap::new();
    let out = format_mentions(&roles, "<@>".to_owned());
    assert_eq!(out, "<discord-mention></discord-mention>");
}

#[test]
fn mention_highlight_marker_is_ignored_for_timestamps() {
    let roles = RoleMap::new();
    let out = format_mentions(&roles, "<!t:1>".to_owned());
    assert_eq!(out, "<discord-time>1</discord-time>");
}

#[test]
fn mention_body_stops_at_first_closing_bracket() {
    let roles = RoleMap::new();
    let out = format_mentions(&roles, "<t:a>b>".to_owned());
    assert_eq!(out, "<discord-time>a</discord-time>b>");
}

#[test]
fn mention_body_may_contain_an_opening_bracket() {
    let roles = RoleMap::new();
    let out = format_mentions(&roles, "<@a<br />b>".to_owned());
    assert_eq!(out, "<discord-mention>a<br /</discord-mention>b>");
}

use mc_oauth::config::load_server_icon;
use mc_oauth::format::{format_motd, MotdColor, MotdComponent};
use mc_oauth::mojang::{auth_url, session_accepted, success_message};
use mc_oauth::text::{chars_of, replace_text};

fn plain(c: &MotdComponent) -> bool {
    let s = c.style;
    s.color.is_none() && !s.obfuscated && !s.bold && !s.strikethrough && !s.underlined && !s.italic && !s.reset
}

#[test]
fn motd_single_colour() {
    let parts = format_motd("§6mc-oauth.andcool.ru");
    assert_eq!(parts.len(), 1);
    assert_eq!(parts[0].text, "mc-oauth.andcool.ru");
    assert_eq!(parts[0].style.color, Some(MotdColor::Gold));
    assert!(!parts[0].style.bold);
}

#[test]
fn motd_plain_text() {
    let parts = format_motd("hello");
    assert_eq!(parts.len(), 1);
    assert_eq!(parts[0].text, "hello");
    assert!(plain(&parts[0]));
    assert!(format_motd("").is_empty());
}

#[test]
fn motd_codes_accumulate_until_text() {
    let parts = format_motd("a§l§cb§rc");
    assert_eq!(parts.len(), 3);
    assert_eq!(parts[0].text, "a");
    assert!(plain(&parts[0]));
    assert_eq!(parts[1].text, "b");
    assert!(parts[1].style.bold);
    assert_eq!(parts[1].style.color, Some(MotdColor::Red));
    assert_eq!(parts[2].text, "c");
    assert!(parts[2].style.reset);
    assert!(!parts[2].style.bold);
    assert_eq!(parts[2].style.color, None);
}

#[test]
fn motd_unknown_code_and_trailing_sign() {
    let parts = format_motd("§zx§");
    assert_eq!(parts.len(), 1);
    assert_eq!(parts[0].text, "x§");
    assert!(plain(&parts[0]));
    let parts = format_motd("x§k");
    assert_eq!(parts.len(), 1);
    assert_eq!(parts[0].text, "x");
    assert!(plain(&parts[0]));
}

#[test]
fn motd_keeps_text_without_codes() {
    let motd = "§6Gold §lbold§r and §9blue";
    let joined: String = format_motd(motd).iter().map(|c| c.text.clone()).collect();
    assert_eq!(joined, "Gold bold and blue");
}

#[test]
fn colour_names() {
    assert_eq!(MotdColor::Gold.name(), "gold");
    assert_eq!(MotdColor::LightPurple.name(), "light_purple");
    assert_eq!(MotdColor::Black.name(), "black");
}

#[test]
fn chars_in_order() {
    assert_eq!(chars_of("a§b"), vec!['a', '§', 'b']);
}

#[test]
fn replace_every_match() {
    assert_eq!(replace_text("{{X}}-{{X}}", "{{X}}", "ab"), "ab-ab");
    assert_eq!(replace_text("aaa", "aa", "b"), "ba");
    assert_eq!(replace_text("nothing", "{{X}}", "y"), "nothing");
    assert_eq!(replace_text("", "x", "y"), "");
}

#[test]
fn session_url_from_template() {
    let url = auth_url(
        "https://sessionserver.mojang.com/session/minecraft/hasJoined?username={{NAME}}&serverId={{HASH}}",
        "Steve",
        "-7c9d",
    );
    assert_eq!(
        url,
        "https://sessionserver.mojang.com/session/minecraft/hasJoined?username=Steve&serverId=-7c9d"
    );
}

#[test]
fn success_message_fills_placeholders() {
    let m = success_message(
        "Hello, §6{{NAME}}§r! Your code is: §a{{CODE}} ({{UUID}})",
        "Steve",
        "abcd",
        "123456",
    );
    assert_eq!(m, "Hello, §6Steve§r! Your code is: §a123456 (abcd)");
}

#[test]
fn only_status_200_is_accepted() {
    assert!(session_accepted(200));
    assert!(!session_accepted(204));
    assert!(!session_accepted(403));
}

#[test]
fn icon_as_data_url() {
    assert_eq!(load_server_icon(b"abc"), "data:image/png;base64,YWJj");
    assert_eq!(load_server_icon(b"ab"), "data:image/png;base64,YWI=");
    assert_eq!(load_server_icon(b""), "data:image/png;base64,");
    assert_eq!(load_server_icon(&[0xfb, 0xff]), "data:image/png;base64,+/8=");
    assert_eq!(load_server_icon(b"hello!"), "data:image/png;base64,aGVsbG8h");
}

use keymaker::command_parser::{help_notice, route, Command};
use keymaker::messages::MessageKind;

#[test]
fn plain_text_is_not_a_command() {
    assert_eq!(route("hello world"), Command::NotACommand);
    assert_eq!(route("what does !help do?"), Command::NotACommand);
}

#[test]
fn empty_body_is_not_a_command() {
    assert_eq!(route(""), Command::NotACommand);
}

#[test]
fn leading_whitespace_is_not_a_command() {
    assert_eq!(route(" !help"), Command::NotACommand);
}

#[test]
fn help_aliases_route_to_help() {
    assert_eq!(route("!help"), Command::Help);
    assert_eq!(route("!h"), Command::Help);
}

#[test]
fn help_ignores_trailing_args() {
    assert_eq!(route("!help   "), Command::Help);
    assert_eq!(route("!help me please"), Command::Help);
    assert_eq!(route("!h now"), Command::Help);
}

#[test]
fn any_whitespace_delimits_the_command_token() {
    assert_eq!(route("!help\tnow"), Command::Help);
    assert_eq!(route("!h\nthere"), Command::Help);
    assert_eq!(route("!register\u{00A0}example.org"), Command::Register);
}

#[test]
fn register_routes_to_register() {
    assert_eq!(route("!register"), Command::Register);
    assert_eq!(route("!register example.org"), Command::Register);
}

#[test]
fn unknown_commands_are_distinguished() {
    assert_eq!(route("!"), Command::Unknown);
    assert_eq!(route("!reg"), Command::Unknown);
    assert_eq!(route("!Help"), Command::Unknown);
    assert_eq!(route("!helpme"), Command::Unknown);
}

#[test]
fn help_notice_carries_plain_and_html_renderings() {
    let m = help_notice();
    assert_eq!(m.kind, MessageKind::HtmlNotice);
    assert!(m.text.contains("`!help` - This output"));
    assert!(m.text.contains("!register"));
    let html = m.html.expect("help notice must carry an HTML rendering");
    assert!(html.contains("<code>!help</code>"));
    assert!(html.contains("!register"));
    assert!(m.reply_to.is_none());
}

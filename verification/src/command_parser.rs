//! The command router: resolves free chat text to a typed command.
//!
//! Text is a command when its first character is the trigger character `!`;
//! the first whitespace-delimited token then picks the command.  Everything
//! else is ordinary conversation and is ignored silently.

use vstd::prelude::*;
use vstd::string::*;
use crate::messages::{notice_html, MessageKind, OutboundMessage, OutboundMessageView};
use crate::text::str_eq;

verus! {

/// The typed form of one line of chat input.
#[derive(Debug, Clone, Copy, PartialEq, Eq, Structural)]
pub enum Command {
    /// `!help` or `!h`: answer with the static help notice.
    Help,
    /// `!register`: run the registration verification pipeline.
    Register,
    /// Text that starts with the trigger character but names no known
    /// command.
    Unknown,
    /// Text that does not start with the trigger character.
    NotACommand,
}

/// Whitespace, the token delimiter of the command grammar: the Unicode
/// White_Space set, the same delimiter `str::split_whitespace` uses.
pub open spec fn is_space(c: char) -> bool {
    ||| c == '\u{0009}'
    ||| c == '\u{000A}'
    ||| c == '\u{000B}'
    ||| c == '\u{000C}'
    ||| c == '\u{000D}'
    ||| c == ' '
    ||| c == '\u{0085}'
    ||| c == '\u{00A0}'
    ||| c == '\u{1680}'
    ||| ('\u{2000}' <= c && c <= '\u{200A}')
    ||| c == '\u{2028}'
    ||| c == '\u{2029}'
    ||| c == '\u{202F}'
    ||| c == '\u{205F}'
    ||| c == '\u{3000}'
}

/// The length of the leading run of non-whitespace characters.
pub open spec fn token_len(s: Seq<char>) -> int
    decreases s.len(),
{
    if s.len() == 0 || is_space(s[0]) {
        0
    } else {
        1 + token_len(s.drop_first())
    }
}

/// The first whitespace-delimited token of `s` (empty if `s` starts with
/// whitespace or is empty).
pub open spec fn first_token(s: Seq<char>) -> Seq<char> {
    s.take(token_len(s))
}

/// What `route` returns on every input.
pub open spec fn spec_route(s: Seq<char>) -> Command {
    if s.len() == 0 || s[0] != '!' {
        Command::NotACommand
    } else if first_token(s) == "!help"@ || first_token(s) == "!h"@ {
        Command::Help
    } else if first_token(s) == "!register"@ {
        Command::Register
    } else {
        Command::Unknown
    }
}

proof fn lemma_token_len(s: Seq<char>, i: int)
    requires
        0 <= i <= s.len(),
        forall|j: int| 0 <= j < i ==> !is_space(s[j]),
        i == s.len() || is_space(s[i]),
    ensures
        token_len(s) == i,
    decreases i,
{
    if i == 0 {
    } else {
        assert(!is_space(s[0]));
        assert forall|j: int| 0 <= j < i - 1 implies !is_space(s.drop_first()[j]) by {
            assert(s.drop_first()[j] == s[j + 1]);
        }
        if i < s.len() {
            assert(s.drop_first()[i - 1] == s[i]);
        }
        lemma_token_len(s.drop_first(), i - 1);
    }
}

fn is_space_char(c: char) -> (r: bool)
    ensures
        r == is_space(c),
{
    c == '\u{0009}' || c == '\u{000A}' || c == '\u{000B}' || c == '\u{000C}' || c == '\u{000D}'
        || c == ' ' || c == '\u{0085}' || c == '\u{00A0}' || c == '\u{1680}' || ('\u{2000}' <= c
        && c <= '\u{200A}') || c == '\u{2028}' || c == '\u{2029}' || c == '\u{202F}' || c
        == '\u{205F}' || c == '\u{3000}'
}

/// Resolves one line of chat text to a [`Command`].  Side-effect free.
pub fn route(text: &str) -> (c: Command)
    ensures
        c == spec_route(text@),
{
    let n = text.unicode_len();
    if n == 0 {
        return Command::NotACommand;
    }
    if text.get_char(0) != '!' {
        return Command::NotACommand;
    }
    let mut i: usize = 0;
    while i < n && !is_space_char(text.get_char(i))
        invariant
            0 <= i <= n,
            n == text@.len(),
            forall|j: int| 0 <= j < i ==> !is_space(text@[j]),
        decreases n - i,
    {
        i = i + 1;
    }
    proof {
        lemma_token_len(text@, i as int);
        assert(first_token(text@) =~= text@.subrange(0, i as int));
    }
    let tok = text.substring_char(0, i);
    if str_eq(tok, "!help") || str_eq(tok, "!h") {
        Command::Help
    } else if str_eq(tok, "!register") {
        Command::Register
    } else {
        Command::Unknown
    }
}

/// The plain-text rendering of the help notice.
pub open spec fn help_text() -> Seq<char> {
    "Help for the Keymaker bot\n\nCommands:\n* `!help` - This output\n* `!register` - Register your server to the keymaker project\n"@
}

/// The HTML rendering of the help notice.
pub open spec fn help_html() -> Seq<char> {
    "<h1>Help for the Keymaker bot</h1>\n<h2>Commands</h2>\n<ul>\n<li><code>!help</code> - This output</li>\n<li><code>!register</code> - Register your server to the keymaker project</li>\n</ul>\n"@
}

/// The one message that the help command produces: the same help content in
/// a plain-text and an HTML rendering.
pub open spec fn help_message() -> OutboundMessageView {
    (OutboundMessageView {
        kind: MessageKind::HtmlNotice,
        text: help_text(),
        html: Some(help_html()),
        reply_to: None,
    })
}

/// Ordinary conversation is silent: any text that does not start with the
/// trigger character routes to `NotACommand`, the outcome on which
/// `handle_incoming` delivers nothing at all.
pub proof fn lemma_non_trigger_is_not_a_command(body: Seq<char>)
    requires
        body.len() == 0 || body[0] != '!',
    ensures
        spec_route(body) is NotACommand,
{
}

/// `!help` and `!h` route to `Help` whatever follows the first token, and
/// the one reply the help command produces carries the same help content
/// in a plain-text and an HTML rendering.
pub proof fn lemma_help_routes(body: Seq<char>)
    requires
        body.len() > 0,
        body[0] == '!',
        first_token(body) == "!help"@ || first_token(body) == "!h"@,
    ensures
        spec_route(body) is Help,
        help_message().text == help_text(),
        help_message().html == Some(help_html()),
        help_message().kind == MessageKind::HtmlNotice,
{
}

/// Builds the help notice.
pub fn help_notice() -> (m: OutboundMessage)
    ensures
        m@ == help_message(),
{
    notice_html(
        "Help for the Keymaker bot\n\nCommands:\n* `!help` - This output\n* `!register` - Register your server to the keymaker project\n",
        "<h1>Help for the Keymaker bot</h1>\n<h2>Commands</h2>\n<ul>\n<li><code>!help</code> - This output</li>\n<li><code>!register</code> - Register your server to the keymaker project</li>\n</ul>\n",
    )
}

} // verus!

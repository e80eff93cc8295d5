use vstd::prelude::*;

use crate::messages::digit_char;
use crate::messages::push_char;
use vstd::string::StringExecFns;

verus! {

/// Telegram channel configuration: bot token and chat id.
#[derive(Debug)]
pub struct Telegram {
    pub bot: String,
    pub chat: String,
}

/// Notification configuration. Each field is one channel variant; today
/// Telegram is the only one, and it may itself be absent.
#[derive(Debug)]
pub struct Notification {
    pub telegram: Option<Telegram>,
}

/// One outbound notification call, ready for dispatch: the URL to POST
/// to and the JSON body to send as `application/json`.
#[derive(Debug)]
pub struct TelegramRequest {
    pub url: String,
    pub body: String,
}

/// The character for one hexadecimal digit, lowercase.
pub open spec fn hex_char(d: int) -> char {
    if d < 10 {
        digit_char(d)
    } else if d == 10 {
        'a'
    } else if d == 11 {
        'b'
    } else if d == 12 {
        'c'
    } else if d == 13 {
        'd'
    } else if d == 14 {
        'e'
    } else {
        'f'
    }
}

/// How one character is written inside a JSON string literal: quote and
/// backslash get a backslash escape, the common control characters get
/// their short escapes, the remaining control characters a `\u00XX`
/// escape, and every other character stands for itself.
pub open spec fn json_escape_char(c: char) -> Seq<char> {
    if c == '"' {
        seq!['\\', '"']
    } else if c == '\\' {
        seq!['\\', '\\']
    } else if c == '\u{8}' {
        seq!['\\', 'b']
    } else if c == '\u{c}' {
        seq!['\\', 'f']
    } else if c == '\n' {
        seq!['\\', 'n']
    } else if c == '\r' {
        seq!['\\', 'r']
    } else if c == '\t' {
        seq!['\\', 't']
    } else if (c as u32) < 32 {
        seq!['\\', 'u', '0', '0', hex_char((c as int) / 16), hex_char((c as int) % 16)]
    } else {
        seq![c]
    }
}

/// A whole character sequence escaped for use inside a JSON string
/// literal.
pub open spec fn json_escaped(s: Seq<char>) -> Seq<char>
    decreases s.len(),
{
    if s.len() == 0 {
        Seq::empty()
    } else {
        json_escaped(s.drop_last()) + json_escape_char(s.last())
    }
}

fn hex_to_char(d: u8) -> (c: char)
    requires
        d < 16,
    ensures
        c == hex_char(d as int),
{
    match d {
        0 => '0',
        1 => '1',
        2 => '2',
        3 => '3',
        4 => '4',
        5 => '5',
        6 => '6',
        7 => '7',
        8 => '8',
        9 => '9',
        10 => 'a',
        11 => 'b',
        12 => 'c',
        13 => 'd',
        14 => 'e',
        _ => 'f',
    }
}

fn push_escaped_char(out: &mut String, c: char)
    ensures
        final(out)@ == old(out)@ + json_escape_char(c),
{
    if c == '"' {
        push_char(out, '\\');
        push_char(out, '"');
    } else if c == '\\' {
        push_char(out, '\\');
        push_char(out, '\\');
    } else if c == '\u{8}' {
        push_char(out, '\\');
        push_char(out, 'b');
    } else if c == '\u{c}' {
        push_char(out, '\\');
        push_char(out, 'f');
    } else if c == '\n' {
        push_char(out, '\\');
        push_char(out, 'n');
    } else if c == '\r' {
        push_char(out, '\\');
        push_char(out, 'r');
    } else if c == '\t' {
        push_char(out, '\\');
        push_char(out, 't');
    } else if (c as u32) < 32 {
        let v: u32 = c as u32;
        push_char(out, '\\');
        push_char(out, 'u');
        push_char(out, '0');
        push_char(out, '0');
        push_char(out, hex_to_char((v / 16) as u8));
        push_char(out, hex_to_char((v % 16) as u8));
    } else {
        push_char(out, c);
    }
}

/// Appends `s`, escaped for a JSON string literal, to `out`.
fn push_json_escaped(out: &mut String, s: &str)
    ensures
        final(out)@ == old(out)@ + json_escaped(s@),
{
    let len = s.unicode_len();
    let mut i: usize = 0;
    while i < len
        invariant
            i <= len,
            len == s@.len(),
            out@ == old(out)@ + json_escaped(s@.subrange(0, i as int)),
        decreases len - i,
    {
        let c = s.get_char(i);
        push_escaped_char(out, c);
        proof {
            assert(s@.subrange(0, i + 1).drop_last() =~= s@.subrange(0, i as int));
        }
        i = i + 1;
    }
    proof {
        assert(s@.subrange(0, s@.len() as int) =~= s@);
    }
}

/// The JSON body POSTed for one notification: the chat id, the message
/// text, and `disable_notification` fixed to `true` (alerts are always
/// delivered silently at the transport level).
pub open spec fn telegram_payload_of(chat: Seq<char>, text: Seq<char>) -> Seq<char> {
    "{\"chat_id\":\""@ + json_escaped(chat) + "\",\"text\":\""@ + json_escaped(text)
        + "\",\"disable_notification\":true}"@
}

pub fn telegram_payload(chat: &str, text: &str) -> (body: String)
    ensures
        body@ == telegram_payload_of(chat@, text@),
{
    let mut body = "{\"chat_id\":\"".to_owned();
    push_json_escaped(&mut body, chat);
    body.append("\",\"text\":\"");
    push_json_escaped(&mut body, text);
    body.append("\",\"disable_notification\":true}");
    body
}

/// The Telegram endpoint for a bot token.
pub open spec fn telegram_url_of(bot: Seq<char>) -> Seq<char> {
    "https://api.telegram.org/bot"@ + bot + "/sendMessage"@
}

pub fn telegram_url(bot: &str) -> (url: String)
    ensures
        url@ == telegram_url_of(bot@),
{
    let mut url = "https://api.telegram.org/bot".to_owned();
    url.append(bot);
    url.append("/sendMessage");
    url
}

/// Whether any notification channel is configured at all.
pub open spec fn channel_configured(notification: Option<Notification>) -> bool {
    notification matches Some(n) && n.telegram is Some
}

/// Decides the outbound call for one notification message. Returns the
/// request to dispatch, or `None` — not an error — where no channel is
/// configured. Dispatch itself is fire-and-forget and happens outside
/// this crate; its failure can reach neither the store nor the caller,
/// because this function neither takes nor returns any dispatch result.
pub fn notification_request(message: &str, notification: &Option<Notification>) -> (req: Option<
    TelegramRequest,
>)
    ensures
        req is Some <==> channel_configured(*notification),
        (match *notification {
            Some(n) => match n.telegram {
                Some(t) => req matches Some(r) && r.url@ == telegram_url_of(t.bot@) && r.body@
                    == telegram_payload_of(t.chat@, message@),
                None => req is None,
            },
            None => req is None,
        }),
{
    match notification {
        Some(n) => match &n.telegram {
            Some(t) => Some(
                TelegramRequest {
                    url: telegram_url(t.bot.as_str()),
                    body: telegram_payload(t.chat.as_str(), message),
                },
            ),
            None => None,
        },
        None => None,
    }
}

} // verus!

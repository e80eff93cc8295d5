use vstd::prelude::*;

use vstd::string::StringExecFns;

verus! {

/// Relies on String::push: appends the given character to the end of
/// this string.
#[verifier::external_body]
pub(crate) fn push_char(s: &mut String, c: char)
    ensures
        final(s)@ == old(s)@.push(c),
{
    s.push(c);
}

/// The character for one decimal digit.
pub open spec fn digit_char(d: int) -> char {
    if d == 0 {
        '0'
    } else if d == 1 {
        '1'
    } else if d == 2 {
        '2'
    } else if d == 3 {
        '3'
    } else if d == 4 {
        '4'
    } else if d == 5 {
        '5'
    } else if d == 6 {
        '6'
    } else if d == 7 {
        '7'
    } else if d == 8 {
        '8'
    } else {
        '9'
    }
}

/// The decimal digits of `n`, most significant first, with no leading
/// zeros (a single `'0'` for zero itself).
pub open spec fn dec_digits(n: int) -> Seq<char>
    decreases n,
{
    if n < 10 {
        seq![digit_char(n)]
    } else {
        dec_digits(n / 10).push(digit_char(n % 10))
    }
}

fn digit_to_char(d: u16) -> (c: char)
    requires
        d < 10,
    ensures
        c == digit_char(d as int),
{
    match d {
        0 => '0',
        1 => '1',
        2 => '2',
        3 => '3',
        4 => '4',
        5 => '5',
        6 => '6',
        7 => '7',
        8 => '8',
        _ => '9',
    }
}

fn push_dec_u16(out: &mut String, n: u16)
    ensures
        final(out)@ == old(out)@ + dec_digits(n as int),
    decreases n,
{
    if n < 10 {
        push_char(out, digit_to_char(n));
    } else {
        push_dec_u16(out, n / 10);
        push_char(out, digit_to_char(n % 10));
    }
}

/// The decimal rendering of a status code.
pub fn u16_to_string(n: u16) -> (s: String)
    ensures
        s@ == dec_digits(n as int),
{
    let mut s = String::new();
    push_dec_u16(&mut s, n);
    s
}

/// The store key under which a target's health state is recorded: the
/// target's name followed by `_status`.
pub open spec fn status_key_of(name: Seq<char>) -> Seq<char> {
    name + "_status"@
}

pub fn status_key(name: &str) -> (key: String)
    ensures
        key@ == status_key_of(name@),
{
    let mut key = name.to_owned();
    key.append("_status");
    key
}

/// Message announcing that a previously-down service answered with a
/// success status again.
pub open spec fn back_up_message_of(name: Seq<char>) -> Seq<char> {
    "The service "@ + name + " is back up"@
}

pub fn back_up_message(name: &str) -> (msg: String)
    ensures
        msg@ == back_up_message_of(name@),
{
    let mut msg = "The service ".to_owned();
    msg.append(name);
    msg.append(" is back up");
    msg
}

/// Message reporting a non-success HTTP status.
pub open spec fn status_message_of(name: Seq<char>, status: u16) -> Seq<char> {
    "The service "@ + name + " check got status: "@ + dec_digits(status as int)
}

pub fn status_message(name: &str, status: u16) -> (msg: String)
    ensures
        msg@ == status_message_of(name@, status),
{
    let mut msg = "The service ".to_owned();
    msg.append(name);
    msg.append(" check got status: ");
    push_dec_u16(&mut msg, status);
    msg
}

/// Message reporting that the probe itself failed before any HTTP
/// status was received.
pub open spec fn transport_error_message_of(name: Seq<char>, error: Seq<char>) -> Seq<char> {
    "Failed to make the request to "@ + name + ": "@ + error
}

pub fn transport_error_message(name: &str, error: &str) -> (msg: String)
    ensures
        msg@ == transport_error_message_of(name@, error@),
{
    let mut msg = "Failed to make the request to ".to_owned();
    msg.append(name);
    msg.append(": ");
    msg.append(error);
    msg
}

} // verus!

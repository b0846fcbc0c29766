//! The multi-wallet trade watcher's configuration and subscribe frame.
//!
//! One supervised connection runs per configured wallet; on connect it sends
//! one subscribe frame naming its wallet. The frame is built here, with the
//! wallet id escaped as a JSON string literal; the transport and task
//! plumbing around it stay outside the library.

use vstd::prelude::*;
use crate::text::{chars_to_string, hex_digit, hex_digit_exec};

verus! {

/// The escaping of one character inside a JSON string literal: quote and
/// backslash get a backslash, a control character the six-character
/// `\u00..` form, every other character stands as itself.
pub open spec fn spec_escape_char(c: char) -> Seq<char> {
    if c == '"' {
        seq!['\\', '"']
    } else if c == '\\' {
        seq!['\\', '\\']
    } else if (c as u32) < 32 {
        seq![
            '\\',
            'u',
            '0',
            '0',
            hex_digit((c as u32 / 16) as u8),
            hex_digit((c as u32 % 16) as u8),
        ]
    } else {
        seq![c]
    }
}

/// The body of a JSON string literal holding a text.
pub open spec fn spec_escape(s: Seq<char>) -> Seq<char>
    decreases s.len(),
{
    if s.len() == 0 {
        Seq::empty()
    } else {
        spec_escape(s.drop_last()) + spec_escape_char(s.last())
    }
}

fn push_escaped_char(out: &mut Vec<char>, c: char)
    ensures
        final(out)@ == old(out)@ + spec_escape_char(c),
{
    if c == '"' {
        out.push('\\');
        out.push('"');
        proof {
            assert(out@ =~= old(out)@ + spec_escape_char(c));
        }
    } else if c == '\\' {
        out.push('\\');
        out.push('\\');
        proof {
            assert(out@ =~= old(out)@ + spec_escape_char(c));
        }
    } else if (c as u32) < 32 {
        let n = c as u32;
        out.push('\\');
        out.push('u');
        out.push('0');
        out.push('0');
        out.push(hex_digit_exec((n / 16) as u8));
        out.push(hex_digit_exec((n % 16) as u8));
        proof {
            assert(out@ =~= old(out)@ + spec_escape_char(c));
        }
    } else {
        out.push(c);
        proof {
            assert(out@ =~= old(out)@ + spec_escape_char(c));
        }
    }
}

fn push_escaped(out: &mut Vec<char>, s: &str)
    ensures
        final(out)@ == old(out)@ + spec_escape(s@),
{
    let len = s.unicode_len();
    let mut i: usize = 0;
    proof {
        assert(s@.take(0) =~= Seq::<char>::empty());
        assert(out@ =~= out@ + spec_escape(s@.take(0)));
    }
    while i < len
        invariant
            len == s@.len(),
            i <= len,
            out@ == old(out)@ + spec_escape(s@.take(i as int)),
        decreases len - i,
    {
        let c = s.get_char(i);
        push_escaped_char(out, c);
        proof {
            assert(s@.take(i as int + 1).drop_last() =~= s@.take(i as int));
            assert(s@.take(i as int + 1).last() == s@[i as int]);
            assert(spec_escape(s@.take(i as int + 1)) == spec_escape(s@.take(i as int))
                + spec_escape_char(s@[i as int]));
        }
        i += 1;
    }
    proof {
        assert(s@.take(len as int) =~= s@);
    }
}

fn push_chars(out: &mut Vec<char>, s: &str)
    ensures
        final(out)@ == old(out)@ + s@,
{
    let len = s.unicode_len();
    let mut i: usize = 0;
    proof {
        assert(out@ =~= out@ + s@.take(0));
    }
    while i < len
        invariant
            len == s@.len(),
            i <= len,
            out@ == old(out)@ + s@.take(i as int),
        decreases len - i,
    {
        out.push(s.get_char(i));
        proof {
            assert(s@.take(i as int + 1) =~= s@.take(i as int).push(s@[i as int]));
        }
        i += 1;
    }
    proof {
        assert(s@.take(len as int) =~= s@);
    }
}

/// The subscribe frame for a wallet: one JSON text naming the trades channel
/// and the wallet, with the wallet id escaped as a JSON string literal.
pub open spec fn spec_subscribe_message(wallet: Seq<char>) -> Seq<char> {
    "{\"type\":\"subscribe\",\"channel\":\"trades\",\"wallet\":\""@ + spec_escape(wallet)
        + "\"}"@
}

/// Builds the subscribe frame a connection sends for its wallet.
pub fn subscribe_message(wallet: &str) -> (r: String)
    ensures
        r@ == spec_subscribe_message(wallet@),
{
    let mut out: Vec<char> = Vec::new();
    push_chars(&mut out, "{\"type\":\"subscribe\",\"channel\":\"trades\",\"wallet\":\"");
    push_escaped(&mut out, wallet);
    push_chars(&mut out, "\"}");
    chars_to_string(&out)
}

/// The capacity of the shared fan-in trade queue: when it is full, only the
/// producing wallet's dispatch blocks.
pub const TRADE_QUEUE_CAPACITY: usize = 1000;

/// The trade watcher's configuration: one endpoint, and the wallets to
/// watch, each on its own supervised connection.
#[derive(Clone, Debug, PartialEq, Eq)]
pub struct WalletWatcher {
    pub ws_url: String,
    pub wallets: Vec<String>,
}

impl WalletWatcher {
    /// Builds the watcher's configuration.
    pub fn new(ws_url: String, wallets: Vec<String>) -> (r: WalletWatcher)
        ensures
            r.ws_url == ws_url,
            r.wallets == wallets,
    {
        WalletWatcher { ws_url, wallets }
    }
}

} // verus!

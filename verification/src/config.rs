//! The service's configuration: the port, the partner webhook, and the
//! tokens and tenants it admits.

use vstd::prelude::*;

use crate::text::owned;

verus! {

/// The port on which the service listens where none is configured.
pub const DEFAULT_PORT: u16 = 8080u16;

/// The configuration of the service.
#[derive(Debug)]
pub struct AppConfig {
    pub port: u16,
    pub partner_webhook_url: Option<String>,
    pub valid_auth_tokens: Vec<String>,
    pub valid_tenants: Vec<String>,
}

/// Whether a character is an ASCII decimal digit.
pub open spec fn is_digit(c: char) -> bool {
    '0' <= c <= '9'
}

/// The number that a string of decimal digits denotes.
pub open spec fn digits_value(s: Seq<char>) -> nat
    decreases s.len(),
{
    if s.len() == 0 {
        0
    } else {
        digits_value(s.drop_last()) * 10 + ((s.last() as int - 48) as nat)
    }
}

/// The digits of a number as Rust reads an unsigned integer: an optional
/// leading `+` followed by the digits.
pub open spec fn unsigned_digits(s: Seq<char>) -> Seq<char> {
    if s.len() > 0 && s[0] == '+' {
        s.drop_first()
    } else {
        s
    }
}

/// A string read as a `u16` the way Rust's `str::parse::<u16>` reads it: an
/// optional `+` and at least one decimal digit, denoting at most 65535.
pub open spec fn parse_u16(s: Seq<char>) -> Option<u16> {
    let digits = unsigned_digits(s);
    if digits.len() > 0 && (forall|i: int| 0 <= i < digits.len() ==> is_digit(#[trigger] digits[i]))
        && digits_value(digits) <= 65535 {
        Some(digits_value(digits) as u16)
    } else {
        None
    }
}

/// The port configured by a `PORT` setting, if any: the setting read as a
/// `u16`, or the default port where it is absent or unreadable.
pub open spec fn port_from(setting: Option<Seq<char>>) -> u16 {
    match setting {
        Some(s) => match parse_u16(s) {
            Some(p) => p,
            None => DEFAULT_PORT,
        },
        None => DEFAULT_PORT,
    }
}

/// The items of a comma-separated list, in order: the pieces of the text
/// between its commas, as `str::split(',')` yields them (so a text without
/// a comma is one item, and an empty text is one empty item).
pub open spec fn comma_items(s: Seq<char>) -> Seq<Seq<char>>
    decreases s.len(),
{
    if s.len() == 0 {
        seq![Seq::<char>::empty()]
    } else {
        let before = comma_items(s.drop_last());
        if s.last() == ',' {
            before.push(Seq::<char>::empty())
        } else {
            before.update(before.len() - 1, before.last().push(s.last()))
        }
    }
}

/// A list setting where it is given, else the list read from the auth
/// file where there is one, else the default list.
pub open spec fn configured_list(
    setting: Option<Seq<char>>,
    from_file: Option<Seq<Seq<char>>>,
    default: Seq<Seq<char>>,
) -> Seq<Seq<char>> {
    match setting {
        Some(text) => comma_items(text),
        None => match from_file {
            Some(items) => items,
            None => default,
        },
    }
}

/// The items of a comma-separated list.
pub fn split_commas(s: &str) -> (r: Vec<String>)
    ensures
        r.deep_view() == comma_items(s@),
{
    let len = s.unicode_len();
    let mut items: Vec<String> = Vec::new();
    let mut start: usize = 0;
    let mut i: usize = 0;
    assert(s@.take(0).len() == 0);
    assert(items.deep_view() =~= Seq::<Seq<char>>::empty());
    assert(s@.subrange(0, 0) =~= Seq::<char>::empty());
    assert(items.deep_view().push(s@.subrange(0, 0)) =~= seq![Seq::<char>::empty()]);
    while i < len
        invariant
            start <= i <= len,
            len == s@.len(),
            items.deep_view().push(s@.subrange(start as int, i as int)) == comma_items(
                s@.take(i as int),
            ),
        decreases len - i,
    {
        let c = s.get_char(i);
        let ghost before = comma_items(s@.take(i as int));
        assert(s@.take(i + 1).drop_last() =~= s@.take(i as int));
        assert(s@.take(i + 1).last() == c);
        if c == ',' {
            let piece = s.substring_char(start, i);
            let ghost old_items = items.deep_view();
            items.push(owned(piece));
            assert(items.deep_view() =~= old_items.push(s@.subrange(start as int, i as int)));
            start = i + 1;
            assert(s@.subrange(start as int, (i + 1) as int) =~= Seq::<char>::empty());
        } else {
            assert(before.last() == s@.subrange(start as int, i as int));
            assert(s@.subrange(start as int, (i + 1) as int) =~= s@.subrange(
                start as int,
                i as int,
            ).push(c));
            assert(items.deep_view().push(s@.subrange(start as int, (i + 1) as int)) =~= before.update(
                before.len() - 1,
                before.last().push(c),
            ));
        }
        i = i + 1;
    }
    let piece = s.substring_char(start, len);
    let ghost old_items = items.deep_view();
    items.push(owned(piece));
    assert(items.deep_view() =~= old_items.push(s@.subrange(start as int, len as int)));
    assert(s@.take(len as int) =~= s@);
    items
}

/// A string read as a `u16` the way Rust's `str::parse::<u16>` reads it.
pub fn parse_u16_text(s: &str) -> (r: Option<u16>)
    ensures
        r == parse_u16(s@),
{
    let len = s.unicode_len();
    let start: usize = if len > 0 && s.get_char(0) == '+' {
        1
    } else {
        0
    };
    let ghost digits = unsigned_digits(s@);
    assert(digits =~= s@.subrange(start as int, len as int));
    if start == len {
        assert(digits.len() == 0);
        return None;
    }
    let mut value: u32 = 0;
    let mut over = false;
    let mut i: usize = start;
    while i < len
        invariant
            start <= i <= len,
            len == s@.len(),
            digits == s@.subrange(start as int, len as int),
            digits == unsigned_digits(s@),
            forall|j: int| 0 <= j < i - start ==> is_digit(#[trigger] digits[j]),
            !over ==> value as nat == digits_value(digits.take(i - start)) && value <= 65535,
            over ==> digits_value(digits.take(i - start)) > 65535,
        decreases len - i,
    {
        let c = s.get_char(i);
        if !('0' <= c && c <= '9') {
            assert(!is_digit(digits[i - start]));
            return None;
        }
        assert(digits.take(i - start + 1).drop_last() =~= digits.take(i - start));
        assert(digits.take(i - start + 1).last() == c);
        if !over {
            let next: u32 = value * 10 + ((c as u32) - 48);
            if next > 65535 {
                over = true;
            } else {
                value = next;
            }
        }
        i = i + 1;
    }
    assert(digits.take(len - start) =~= digits);
    if over {
        None
    } else {
        Some(value as u16)
    }
}

impl AppConfig {
    /// The auth tokens and tenants admitted where no auth file is read.
    pub fn defaults() -> (r: (Vec<String>, Vec<String>))
        ensures
            r.0.deep_view() == seq!["test-token"@],
            r.1.deep_view() == seq!["BUSINESS"@, "SANDBOXTEST"@],
    {
        let mut tokens: Vec<String> = Vec::new();
        tokens.push(owned("test-token"));
        let mut tenants: Vec<String> = Vec::new();
        tenants.push(owned("BUSINESS"));
        tenants.push(owned("SANDBOXTEST"));
        assert(tokens.deep_view() =~= seq!["test-token"@]);
        assert(tenants.deep_view() =~= seq!["BUSINESS"@, "SANDBOXTEST"@]);
        (tokens, tenants)
    }

    /// The configuration from the `PORT` setting, the partner webhook URL,
    /// the `VALID_AUTH_TOKENS` and `VALID_TENANTS` settings (comma-separated
    /// lists), and the tokens and tenants read from the auth file. A list
    /// setting that is given wins; without it the auth file's list is taken,
    /// and without that the default list.
    pub fn from_settings(
        port_setting: Option<&str>,
        partner_webhook_url: Option<String>,
        tokens_setting: Option<&str>,
        tenants_setting: Option<&str>,
        auth: Option<(Vec<String>, Vec<String>)>,
    ) -> (c: AppConfig)
        ensures
            c.port == port_from(
                match port_setting {
                    Some(p) => Some(p@),
                    None => None,
                },
            ),
            c.partner_webhook_url == partner_webhook_url,
            c.valid_auth_tokens.deep_view() == configured_list(
                match tokens_setting {
                    Some(t) => Some(t@),
                    None => None,
                },
                match auth {
                    Some(lists) => Some(lists.0.deep_view()),
                    None => None,
                },
                seq!["test-token"@],
            ),
            c.valid_tenants.deep_view() == configured_list(
                match tenants_setting {
                    Some(t) => Some(t@),
                    None => None,
                },
                match auth {
                    Some(lists) => Some(lists.1.deep_view()),
                    None => None,
                },
                seq!["BUSINESS"@, "SANDBOXTEST"@],
            ),
    {
        let port = match port_setting {
            Some(p) => match parse_u16_text(p) {
                Some(n) => n,
                None => DEFAULT_PORT,
            },
            None => DEFAULT_PORT,
        };
        let (file_tokens, file_tenants) = match auth {
            Some(lists) => lists,
            None => Self::defaults(),
        };
        let valid_auth_tokens = match tokens_setting {
            Some(t) => split_commas(t),
            None => file_tokens,
        };
        let valid_tenants = match tenants_setting {
            Some(t) => split_commas(t),
            None => file_tenants,
        };
        AppConfig { port, partner_webhook_url, valid_auth_tokens, valid_tenants }
    }
}

} // verus!

//! Target parsing and address formatting: a target is written `host` or
//! `host:port`; a missing port falls back to the plugin's protocol default,
//! and the normalized address is always `host:port`.
use vstd::prelude::*;
use vstd::string::*;

use crate::session::Error;

verus! {

/// Whether `c` is an ASCII decimal digit.
pub open spec fn is_digit(c: char) -> bool {
    48 <= c as int <= 57
}

/// The numeric value of an ASCII decimal digit (0 for any other character).
pub open spec fn digit_val(c: char) -> nat {
    if is_digit(c) {
        (c as int - 48) as nat
    } else {
        0
    }
}

/// The ASCII decimal digit with value `d`, for `0 <= d < 10`.
pub open spec fn digit_char(d: int) -> char {
    seq!['0', '1', '2', '3', '4', '5', '6', '7', '8', '9'][d]
}

/// The value of a string of decimal digits, most significant first.
pub open spec fn token_val(s: Seq<char>) -> nat
    decreases s.len(),
{
    if s.len() == 0 {
        0
    } else {
        token_val(s.drop_last()) * 10 + digit_val(s.last())
    }
}

/// Whether `s` is a well-formed port token: non-empty, all decimal digits,
/// and a value that fits a 16-bit port number.
pub open spec fn is_port_token(s: Seq<char>) -> bool {
    &&& s.len() > 0
    &&& forall|k: int| 0 <= k < s.len() ==> is_digit(s[k])
    &&& token_val(s) <= 65535
}

/// Whether `i` is the index of the first colon in `t`.
pub open spec fn is_first_colon(t: Seq<char>, i: int) -> bool {
    &&& 0 <= i < t.len()
    &&& t[i] == ':'
    &&& forall|k: int| 0 <= k < i ==> t[k] != ':'
}

pub open spec fn has_colon(t: Seq<char>) -> bool {
    exists|i: int| is_first_colon(t, i)
}

pub open spec fn first_colon(t: Seq<char>) -> int {
    choose|i: int| is_first_colon(t, i)
}

/// Whether a target string is well formed: non-empty, of the form `host` or
/// `host:port` with a non-empty host and a well-formed port token.
pub open spec fn target_valid(t: Seq<char>) -> bool {
    &&& t.len() > 0
    &&& has_colon(t) ==> first_colon(t) > 0 && is_port_token(t.skip(first_colon(t) + 1))
}

/// The host part of a well-formed target: everything before the first colon,
/// or the whole string when no port is given.
pub open spec fn host_part(t: Seq<char>) -> Seq<char> {
    if has_colon(t) {
        t.take(first_colon(t))
    } else {
        t
    }
}

/// The port of a well-formed target: the value of its port token, or the
/// protocol default when no port is given.
pub open spec fn target_port(t: Seq<char>, default_port: u16) -> u16 {
    if has_colon(t) {
        token_val(t.skip(first_colon(t) + 1)) as u16
    } else {
        default_port
    }
}

/// The shortest decimal rendering of `n` (no leading zeros).
pub open spec fn dec_digits(n: nat) -> Seq<char>
    decreases n,
{
    if n < 10 {
        seq![digit_char(n as int)]
    } else {
        dec_digits(n / 10).push(digit_char((n % 10) as int))
    }
}

/// The normalized form of a parsed target: `host`, a colon, and the decimal
/// port.
pub open spec fn formatted_address(host: Seq<char>, port: u16) -> Seq<char> {
    host + seq![':'] + dec_digits(port as nat)
}

/// A first colon is unique, so it is the index `first_colon` denotes.
pub proof fn lemma_first_colon_is(t: Seq<char>, i: int)
    requires
        is_first_colon(t, i),
    ensures
        has_colon(t),
        first_colon(t) == i,
{
    assert(has_colon(t));
    let j = first_colon(t);
    assert(is_first_colon(t, j));
    if j < i {
        assert(t[j] != ':');
    }
    if i < j {
        assert(t[i] != ':');
    }
}

/// The value of a digit string is monotone in its prefixes.
pub proof fn lemma_token_val_take_le(s: Seq<char>, m: int)
    requires
        0 <= m <= s.len(),
    ensures
        token_val(s.take(m)) <= token_val(s),
    decreases s.len(),
{
    if m == s.len() {
        assert(s.take(m) =~= s);
    } else {
        assert(s.drop_last() =~= s.take(s.len() - 1));
        lemma_token_val_take_le(s.drop_last(), m);
        assert(s.drop_last().take(m) =~= s.take(m));
    }
}

/// Each decimal digit renders as the character with its value.
pub proof fn lemma_digit_char_val(d: int)
    requires
        0 <= d < 10,
    ensures
        is_digit(digit_char(d)),
        digit_val(digit_char(d)) == d,
{
    if d == 0 {
        assert(digit_char(0) == '0');
    } else if d == 1 {
        assert(digit_char(1) == '1');
    } else if d == 2 {
        assert(digit_char(2) == '2');
    } else if d == 3 {
        assert(digit_char(3) == '3');
    } else if d == 4 {
        assert(digit_char(4) == '4');
    } else if d == 5 {
        assert(digit_char(5) == '5');
    } else if d == 6 {
        assert(digit_char(6) == '6');
    } else if d == 7 {
        assert(digit_char(7) == '7');
    } else if d == 8 {
        assert(digit_char(8) == '8');
    } else {
        assert(digit_char(9) == '9');
    }
}

/// Law: rendering then parsing a number is the identity. The decimal
/// rendering of `n` is a non-empty digit string whose value is `n` again.
pub proof fn lemma_dec_digits_value(n: nat)
    ensures
        dec_digits(n).len() > 0,
        forall|k: int| 0 <= k < dec_digits(n).len() ==> is_digit(#[trigger] dec_digits(n)[k]),
        token_val(dec_digits(n)) == n,
    decreases n,
{
    if n < 10 {
        lemma_digit_char_val(n as int);
        assert(token_val(Seq::<char>::empty()) == 0);
        assert(dec_digits(n).drop_last() =~= Seq::<char>::empty());
        assert(dec_digits(n).last() == digit_char(n as int));
    } else {
        lemma_dec_digits_value(n / 10);
        lemma_digit_char_val((n % 10) as int);
        vstd::arithmetic::div_mod::lemma_fundamental_div_mod(n as int, 10);
        assert(dec_digits(n).drop_last() =~= dec_digits(n / 10));
        assert(dec_digits(n).last() == digit_char((n % 10) as int));
        assert(token_val(dec_digits(n)) == token_val(dec_digits(n / 10)) * 10 + digit_val(
            digit_char((n % 10) as int),
        ));
        assert(token_val(dec_digits(n)) == (n / 10) * 10 + (n % 10));
        assert(n == (n / 10) * 10 + (n % 10));
    }
}

/// Law: parsing a normalized address recovers exactly the host and port it
/// was formatted from, whatever the default port, for every host a valid
/// target can produce (non-empty, without a colon).
pub proof fn lemma_address_round_trip(host: Seq<char>, port: u16, default_port: u16)
    requires
        host.len() > 0,
        forall|k: int| 0 <= k < host.len() ==> host[k] != ':',
    ensures
        target_valid(formatted_address(host, port)),
        host_part(formatted_address(host, port)) == host,
        target_port(formatted_address(host, port), default_port) == port,
{
    let a = formatted_address(host, port);
    let i = host.len() as int;
    assert(a[i] == ':');
    assert(forall|k: int| 0 <= k < i ==> a[k] == host[k]);
    lemma_first_colon_is(a, i);
    lemma_dec_digits_value(port as nat);
    assert(a.skip(i + 1) =~= dec_digits(port as nat));
    assert(a.take(i) =~= host);
}

/// The decimal digit with value `d`, as a string slice.
fn digit_str(d: u16) -> (r: &'static str)
    requires
        d < 10,
    ensures
        r@ == seq![digit_char(d as int)],
{
    match d {
        0 => {
            proof {
                reveal_strlit("0");
                assert("0"@ =~= seq![digit_char(0)]);
            }
            "0"
        },
        1 => {
            proof {
                reveal_strlit("1");
                assert("1"@ =~= seq![digit_char(1)]);
            }
            "1"
        },
        2 => {
            proof {
                reveal_strlit("2");
                assert("2"@ =~= seq![digit_char(2)]);
            }
            "2"
        },
        3 => {
            proof {
                reveal_strlit("3");
                assert("3"@ =~= seq![digit_char(3)]);
            }
            "3"
        },
        4 => {
            proof {
                reveal_strlit("4");
                assert("4"@ =~= seq![digit_char(4)]);
            }
            "4"
        },
        5 => {
            proof {
                reveal_strlit("5");
                assert("5"@ =~= seq![digit_char(5)]);
            }
            "5"
        },
        6 => {
            proof {
                reveal_strlit("6");
                assert("6"@ =~= seq![digit_char(6)]);
            }
            "6"
        },
        7 => {
            proof {
                reveal_strlit("7");
                assert("7"@ =~= seq![digit_char(7)]);
            }
            "7"
        },
        8 => {
            proof {
                reveal_strlit("8");
                assert("8"@ =~= seq![digit_char(8)]);
            }
            "8"
        },
        _ => {
            proof {
                reveal_strlit("9");
                assert("9"@ =~= seq![digit_char(9)]);
            }
            "9"
        },
    }
}

/// Appends the decimal rendering of `n` to `s`.
pub fn append_decimal(s: &mut String, n: u16)
    ensures
        final(s)@ == old(s)@ + dec_digits(n as nat),
    decreases n,
{
    if n >= 10 {
        append_decimal(s, n / 10);
    }
    s.append(digit_str(n % 10));
    proof {
        if n >= 10 {
            assert(old(s)@ + dec_digits((n / 10) as nat) + seq![digit_char((n % 10) as int)]
                =~= old(s)@ + dec_digits(n as nat));
        } else {
            assert(old(s)@ + seq![digit_char((n % 10) as int)] =~= old(s)@ + dec_digits(n as nat));
        }
    }
}

/// Renders `host` and `port` as the normalized `host:port` address.
pub fn format_address(host: &String, port: u16) -> (r: String)
    ensures
        r@ == formatted_address(host@, port),
{
    let mut r = host.clone();
    r.append(":");
    append_decimal(&mut r, port);
    proof {
        reveal_strlit(":");
        assert(":"@ =~= seq![':']);
        assert(r@ =~= formatted_address(host@, port));
    }
    r
}

/// Parses a target of the form `host` or `host:port`; a missing port falls
/// back to `default_port`. Exactly the malformed targets (no target, an empty
/// string, an empty host, an invalid port token) are rejected, always with a
/// configuration error.
pub fn parse_target(target: Option<&String>, default_port: u16) -> (r: Result<
    (String, u16),
    Error,
>)
    ensures
        r is Ok <==> (target matches Some(t) && target_valid(t@)),
        r matches Ok(hp) ==> target matches Some(t) && hp.0@ == host_part(t@) && hp.1
            == target_port(t@, default_port),
        r matches Err(e) ==> e is Configuration,
{
    let t: &String = match target {
        Some(t) => t,
        None => {
            return Err(Error::Configuration(String::from_str("no target specified")));
        },
    };
    let s = t.as_str();
    let n = s.unicode_len();
    if n == 0 {
        return Err(Error::Configuration(String::from_str("empty target")));
    }
    // find the first colon, if any
    let mut i: usize = 0;
    while i < n && s.get_char(i) != ':'
        invariant
            s@ == t@,
            n == t@.len(),
            0 <= i <= n,
            forall|k: int| 0 <= k < i ==> t@[k] != ':',
        decreases n - i,
    {
        i += 1;
    }
    if i == n {
        // no colon: the whole target is the host, the port is the default
        proof {
            assert(!has_colon(t@)) by {
                if has_colon(t@) {
                    let j = first_colon(t@);
                    assert(is_first_colon(t@, j));
                    assert(t@[j] != ':');
                }
            }
        }
        return Ok((t.clone(), default_port));
    }
    proof {
        lemma_first_colon_is(t@, i as int);
    }
    if i == 0 {
        // ":port": the host may not be empty
        return Err(Error::Configuration(String::from_str("empty host in target")));
    }
    if i + 1 == n {
        // "host:": the port token may not be empty
        return Err(Error::Configuration(String::from_str("empty port in target")));
    }
    let ghost tok = t@.skip(i as int + 1);
    let mut val: u32 = 0;
    let mut j: usize = i + 1;
    proof {
        assert(tok.take(0) =~= Seq::<char>::empty());
    }
    while j < n
        invariant
            target == Some(t),
            s@ == t@,
            n == t@.len(),
            0 < i < n,
            i + 1 <= j <= n,
            is_first_colon(t@, i as int),
            tok == t@.skip(i as int + 1),
            forall|k: int| 0 <= k < j - i - 1 ==> is_digit(tok[k]),
            val == token_val(tok.take(j - i - 1)),
            val <= 65535,
        decreases n - j,
    {
        let c = s.get_char(j);
        let d: u32 = match c {
            '0' => 0,
            '1' => 1,
            '2' => 2,
            '3' => 3,
            '4' => 4,
            '5' => 5,
            '6' => 6,
            '7' => 7,
            '8' => 8,
            '9' => 9,
            _ => {
                proof {
                    lemma_first_colon_is(t@, i as int);
                    assert(tok[j - i - 1] == t@[j as int]);
                    assert(!is_digit(tok[j - i - 1]));
                    assert(!is_port_token(tok));
                }
                return Err(Error::Configuration(String::from_str("invalid port in target")));
            },
        };
        proof {
            assert(d as nat == digit_val(c));
            assert(tok.take(j - i).drop_last() =~= tok.take(j - i - 1));
            assert(tok.take(j - i).last() == c);
        }
        val = val * 10 + d;
        if val > 65535 {
            proof {
                lemma_first_colon_is(t@, i as int);
                lemma_token_val_take_le(tok, j - i);
                assert(token_val(tok) > 65535);
                assert(!is_port_token(tok));
            }
            return Err(Error::Configuration(String::from_str("port out of range in target")));
        }
        j += 1;
    }
    proof {
        assert(tok.take(n - i - 1) =~= tok);
        assert(is_port_token(tok));
    }
    let host = s.substring_char(0, i).to_owned();
    Ok((host, val as u16))
}

} // verus!

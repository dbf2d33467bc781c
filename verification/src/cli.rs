//! The listen target given on the command line: a port or a socket path.

use crate::error::Error;
use vstd::prelude::*;
use vstd::string::StrSliceExecFns;
use vstd::string::StringExecFns;

verus! {

/// Where the client listens for local connections.
#[derive(Debug, Clone)]
pub enum Local {
    /// A local socket bound to a filesystem path.
    Unix(String),
    /// A loopback network listener on this port.
    Port(u16),
}

/// A target that starts with a slash names a socket path.
pub open spec fn is_path_like(s: Seq<char>) -> bool {
    s.len() > 0 && s[0] == '/'
}

/// Whether a character is a decimal digit.
pub open spec fn is_digit(c: char) -> bool {
    '0' <= c && c <= '9'
}

/// Whether a text holds decimal digits only.
pub open spec fn all_digits(s: Seq<char>) -> bool {
    forall|i: int| 0 <= i < s.len() ==> is_digit(#[trigger] s[i])
}

/// The number that a string of decimal digits writes.
pub open spec fn decimal_value(s: Seq<char>) -> nat
    decreases s.len(),
{
    if s.len() == 0 {
        0
    } else {
        decimal_value(s.drop_last()) * 10 + (s.last() as nat - '0' as nat) as nat
    }
}

/// The digits of a port text: the text without one leading plus sign.
pub open spec fn unsigned_part(s: Seq<char>) -> Seq<char> {
    if s.len() > 0 && s[0] == '+' {
        s.subrange(1, s.len() as int)
    } else {
        s
    }
}

/// The port that a text denotes: decimal digits, at least one, after an
/// optional plus sign, with a value that fits in sixteen bits.
pub open spec fn port_of(s: Seq<char>) -> Option<u16> {
    let digits = unsigned_part(s);
    if digits.len() > 0 && all_digits(digits) && decimal_value(digits) <= u16::MAX {
        Some(decimal_value(digits) as u16)
    } else {
        None
    }
}

/// The character of one decimal digit.
pub open spec fn digit_char(d: nat) -> char {
    if d == 0 {
        '0'
    } else if d == 1 {
        '1'
    } else if d == 2 {
        '2'
    } else if d == 3 {
        '3'
    } else if d == 4 {
        '4'
    } else if d == 5 {
        '5'
    } else if d == 6 {
        '6'
    } else if d == 7 {
        '7'
    } else if d == 8 {
        '8'
    } else {
        '9'
    }
}

/// The decimal text of a number, without leading zeros.
pub open spec fn decimal_text(n: nat) -> Seq<char>
    decreases n,
{
    if n < 10 {
        seq![digit_char(n)]
    } else {
        decimal_text(n / 10).push(digit_char(n % 10))
    }
}

/// A longer run of digits never writes a smaller number than its prefix.
pub proof fn lemma_prefix_value(s: Seq<char>, k: int)
    requires
        all_digits(s),
        0 <= k <= s.len(),
    ensures
        decimal_value(s.take(k)) <= decimal_value(s),
    decreases s.len() - k,
{
    if k == s.len() {
        assert(s.take(k) =~= s);
    } else {
        let longer = s.take(k + 1);
        assert(longer.drop_last() =~= s.take(k));
        assert(longer.last() == s[k]);
        assert(is_digit(s[k]));
        lemma_prefix_value(s, k + 1);
    }
}

/// The decimal text of a number is made of digits and writes that number.
pub proof fn lemma_decimal_text(n: nat)
    ensures
        decimal_text(n).len() > 0,
        all_digits(decimal_text(n)),
        decimal_value(decimal_text(n)) == n,
    decreases n,
{
    let text = decimal_text(n);
    if n < 10 {
        assert(text.drop_last() =~= Seq::<char>::empty());
        assert(text.last() == digit_char(n));
        assert(decimal_value(text.drop_last()) == 0);
    } else {
        lemma_decimal_text(n / 10);
        assert(text.drop_last() =~= decimal_text(n / 10));
        assert(text.last() == digit_char(n % 10));
        assert forall|i: int| 0 <= i < text.len() implies is_digit(#[trigger] text[i]) by {
            if i < text.len() - 1 {
                assert(text[i] == decimal_text(n / 10)[i]);
            }
        }
    }
}

/// A port that is written out reads back as itself.
pub proof fn law_port_text_reads_back(port: u16)
    ensures
        port_of(decimal_text(port as nat)) == Some(port),
{
    lemma_decimal_text(port as nat);
    assert(is_digit(decimal_text(port as nat)[0]));
}

/// Reads a port number as the standard integer parser does.
pub fn parse_port(s: &str) -> (port: Option<u16>)
    ensures
        port == port_of(s@),
{
    let n: usize = s.unicode_len();
    let start: usize = if n > 0 && s.get_char(0) == '+' {
        1
    } else {
        0
    };
    if start == n {
        return None;
    }
    let ghost digits = unsigned_part(s@);
    assert(digits =~= s@.subrange(start as int, n as int));
    let mut acc: u32 = 0;
    let mut i: usize = start;
    while i < n
        invariant
            start <= i <= n,
            n == s@.len(),
            digits == s@.subrange(start as int, n as int),
            digits == unsigned_part(s@),
            all_digits(digits.take(i - start)),
            acc as nat == decimal_value(digits.take(i - start)),
            acc <= u16::MAX,
        decreases n - i,
    {
        let c: char = s.get_char(i);
        assert(c == digits[i - start]);
        if !('0' <= c && c <= '9') {
            return None;
        }
        let d: u32 = (c as u32) - ('0' as u32);
        let ghost longer = digits.take(i - start + 1);
        proof {
            assert(longer.drop_last() =~= digits.take(i - start));
            assert(longer.last() == c);
            assert(decimal_value(longer) == acc * 10 + d);
            assert forall|j: int| 0 <= j < longer.len() implies is_digit(#[trigger] longer[j]) by {
                if j < i - start {
                    assert(longer[j] == digits.take(i - start)[j]);
                }
            }
        }
        if acc * 10 + d > 65535 {
            proof {
                if all_digits(digits) {
                    lemma_prefix_value(digits, i - start + 1);
                }
            }
            return None;
        }
        acc = acc * 10 + d;
        i += 1;
    }
    assert(digits.take(n - start) =~= digits);
    Some(acc as u16)
}

/// The text of one decimal digit.
fn digit_str(d: u16) -> (text: &'static str)
    requires
        d < 10,
    ensures
        text@ == seq![digit_char(d as nat)],
{
    proof {
        reveal_strlit("0");
        reveal_strlit("1");
        reveal_strlit("2");
        reveal_strlit("3");
        reveal_strlit("4");
        reveal_strlit("5");
        reveal_strlit("6");
        reveal_strlit("7");
        reveal_strlit("8");
        reveal_strlit("9");
    }
    let text: &'static str = match d {
        0 => "0",
        1 => "1",
        2 => "2",
        3 => "3",
        4 => "4",
        5 => "5",
        6 => "6",
        7 => "7",
        8 => "8",
        _ => "9",
    };
    assert(text@ =~= seq![digit_char(d as nat)]);
    text
}

/// Writes a port number in decimal.
pub fn port_text(port: u16) -> (text: String)
    ensures
        text@ == decimal_text(port as nat),
    decreases port,
{
    if port < 10 {
        String::from_str(digit_str(port))
    } else {
        let mut text: String = port_text(port / 10);
        text.append(digit_str(port % 10));
        assert(text@ =~= decimal_text(port as nat));
        text
    }
}

/// Whether a text names a listen target: a socket path or a port.
pub open spec fn is_listen_target(s: Seq<char>) -> bool {
    is_path_like(s) || port_of(s) is Some
}

/// Tells whether a text names a listen target.
pub fn names_target(value: &str) -> (named: bool)
    ensures
        named == is_listen_target(value@),
{
    let n: usize = value.unicode_len();
    if n > 0 && value.get_char(0) == '/' {
        true
    } else {
        parse_port(value).is_some()
    }
}

impl Local {
    /// Reads a listen target. A text that starts with a slash is a socket
    /// path, accepted where local sockets are supported and a bind error
    /// where they are not; any other text has to be a port number, and a
    /// caller makes sure of that with `names_target`.
    pub fn parse(value: String, unix_supported: bool) -> (target: Result<Local, Error>)
        requires
            is_listen_target(value@),
        ensures
            match target {
                Ok(Local::Unix(path)) => is_path_like(value@) && unix_supported && path@ == value@,
                Ok(Local::Port(port)) => !is_path_like(value@) && port_of(value@) == Some(port),
                Err(e) => e == Error::Bind && is_path_like(value@) && !unix_supported,
            },
    {
        let n: usize = value.as_str().unicode_len();
        if n > 0 && value.as_str().get_char(0) == '/' {
            if unix_supported {
                Ok(Local::Unix(value))
            } else {
                Err(Error::Bind)
            }
        } else {
            match parse_port(value.as_str()) {
                Some(port) => Ok(Local::Port(port)),
                None => unreached(),
            }
        }
    }
}

} // verus!

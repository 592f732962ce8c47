//! Startup configuration: resolving the listen port from the environment's
//! optional `PORT` value, and formatting the bind address and banner lines.

use vstd::prelude::*;
use crate::text::{dec_str, u16_to_dec};

verus! {

/// The port used when the environment names none.
pub const DEFAULT_PORT: u16 = 3000;

/// True for an ASCII decimal digit.
pub open spec fn is_dec_digit(c: char) -> bool {
    48 <= (c as int) && (c as int) <= 57
}

/// The numeric value of a decimal digit.
pub open spec fn dec_digit_val(c: char) -> int {
    (c as int) - 48
}

/// The value of a digit sequence read in decimal, most significant first.
pub open spec fn dec_val(s: Seq<char>) -> int
    decreases s.len(),
{
    if s.len() == 0 {
        0
    } else {
        dec_val(s.drop_last()) * 10 + dec_digit_val(s.last())
    }
}

/// True when every character of `s` is a decimal digit.
pub open spec fn all_dec_digits(s: Seq<char>) -> bool {
    forall|i: int| 0 <= i < s.len() ==> is_dec_digit(#[trigger] s[i])
}

/// The digits of a port string: one leading `+` sign is allowed and skipped.
pub open spec fn digits_part(s: Seq<char>) -> Seq<char> {
    if s.len() > 0 && s[0] == '+' {
        s.subrange(1, s.len() as int)
    } else {
        s
    }
}

/// True when `s` reads as an unsigned sixteen-bit port number: at least one
/// digit after an optional `+`, digits only, and a value of at most 65535.
pub open spec fn is_valid_port_str(s: Seq<char>) -> bool {
    &&& digits_part(s).len() > 0
    &&& all_dec_digits(digits_part(s))
    &&& dec_val(digits_part(s)) <= 0xffff
}

/// The port a valid port string names.
pub open spec fn port_of_str(s: Seq<char>) -> int {
    dec_val(digits_part(s))
}

proof fn lemma_dec_val_nonneg(s: Seq<char>)
    requires
        all_dec_digits(s),
    ensures
        dec_val(s) >= 0,
    decreases s.len(),
{
    if s.len() > 0 {
        assert(all_dec_digits(s.drop_last())) by {
            assert(forall|i: int|
                0 <= i < s.drop_last().len() ==> s.drop_last()[i] == #[trigger] s[i]);
        }
        lemma_dec_val_nonneg(s.drop_last());
        assert(is_dec_digit(s.last()));
    }
}

/// Reading more digits never shrinks the value: the value of a digit string
/// is at least the value of any of its prefixes.
proof fn lemma_dec_val_prefix_le(s: Seq<char>, i: int)
    requires
        all_dec_digits(s),
        0 <= i <= s.len(),
    ensures
        dec_val(s.subrange(0, i)) <= dec_val(s),
    decreases s.len() - i,
{
    if i == s.len() {
        assert(s.subrange(0, i) =~= s);
    } else {
        lemma_dec_val_prefix_le(s, i + 1);
        assert(s.subrange(0, i + 1).drop_last() =~= s.subrange(0, i));
        assert(s.subrange(0, i + 1).last() == s[i]);
        assert(all_dec_digits(s.subrange(0, i))) by {
            assert(forall|j: int|
                0 <= j < i ==> s.subrange(0, i)[j] == #[trigger] s[j]);
        }
        lemma_dec_val_nonneg(s.subrange(0, i));
        assert(is_dec_digit(s[i]));
        assert(dec_val(s.subrange(0, i + 1)) == dec_val(s.subrange(0, i)) * 10 + dec_digit_val(
            s[i],
        ));
    }
}

/// Parses a port string as `u16::from_str` does: an optional leading `+`,
/// then decimal digits whose value fits in sixteen bits; anything else is
/// rejected.
pub fn parse_port(s: &str) -> (r: Option<u16>)
    ensures
        is_valid_port_str(s@) ==> r == Some(port_of_str(s@) as u16),
        !is_valid_port_str(s@) ==> r is None,
{
    let n = s.unicode_len();
    let has_sign = n > 0 && s.get_char(0) == '+';
    let start: usize = if has_sign {
        1
    } else {
        0
    };
    proof {
        assert(digits_part(s@) =~= s@.subrange(start as int, n as int));
    }
    if start == n {
        return None;
    }
    let mut i: usize = start;
    let mut acc: u32 = 0;
    while i < n
        invariant
            n == s@.len(),
            start <= i <= n,
            start <= 1,
            digits_part(s@) =~= s@.subrange(start as int, n as int),
            acc <= 0xffff,
            all_dec_digits(s@.subrange(start as int, i as int)),
            acc == dec_val(s@.subrange(start as int, i as int)),
        decreases n - i,
    {
        let c = s.get_char(i);
        let cu = c as u32;
        if !(48 <= cu && cu <= 57) {
            proof {
                assert(digits_part(s@)[i - start] == s@[i as int]);
                assert(!is_dec_digit(s@[i as int]));
            }
            return None;
        }
        let dv: u32 = cu - 48;
        let next: u32 = acc * 10 + dv;
        proof {
            assert(s@.subrange(start as int, i as int + 1).drop_last() =~= s@.subrange(
                start as int,
                i as int,
            ));
            assert(s@.subrange(start as int, i as int + 1).last() == s@[i as int]);
            assert(next == dec_val(s@.subrange(start as int, i as int + 1)));
        }
        if next > 0xffff {
            proof {
                if all_dec_digits(digits_part(s@)) {
                    lemma_dec_val_prefix_le(digits_part(s@), i + 1 - start);
                    assert(digits_part(s@).subrange(0, i + 1 - start) =~= s@.subrange(
                        start as int,
                        i as int + 1,
                    ));
                    assert(dec_val(digits_part(s@)) > 0xffff);
                }
            }
            return None;
        }
        acc = next;
        i += 1;
    }
    proof {
        assert(s@.subrange(start as int, n as int) =~= digits_part(s@));
        assert(is_valid_port_str(s@));
    }
    Some(acc as u16)
}

/// Why startup must abort instead of binding a listener.
#[derive(Clone, Copy, Debug, PartialEq, Eq, Structural)]
pub enum PortError {
    /// The environment's `PORT` value does not read as a sixteen-bit number.
    InvalidPort,
}

impl PortError {
    /// The diagnostic to print before aborting.
    pub fn message(&self) -> (r: &'static str)
        ensures
            r@ == "PORT must be a valid number"@,
    {
        "PORT must be a valid number"
    }
}

/// Resolves the listen port: the default when the environment names none,
/// else exactly the value the `PORT` string names; a malformed or
/// out-of-range value is an error, on which startup aborts.
pub fn resolve_port(env_port: Option<&str>) -> (r: Result<u16, PortError>)
    ensures
        env_port is None ==> r == Ok::<u16, PortError>(DEFAULT_PORT),
        env_port matches Some(s) ==> {
            &&& is_valid_port_str(s@) ==> r == Ok::<u16, PortError>(port_of_str(s@) as u16)
            &&& !is_valid_port_str(s@) ==> r == Err::<u16, PortError>(PortError::InvalidPort)
        },
{
    match env_port {
        None => Ok(DEFAULT_PORT),
        Some(s) => match parse_port(s) {
            Some(p) => Ok(p),
            None => Err(PortError::InvalidPort),
        },
    }
}

/// The address the listener binds: all interfaces, at the given port.
pub open spec fn bind_addr_spec(port: int) -> Seq<char> {
    "0.0.0.0:"@ + dec_str(port)
}

/// Formats the bind address for a port.
pub fn bind_addr(port: u16) -> (r: String)
    ensures
        r@ == bind_addr_spec(port as int),
{
    let mut a = String::from_str("0.0.0.0:");
    let p = u16_to_dec(port);
    a.append(p.as_str());
    a
}

/// The three banner lines: the server URL, the health path, the docs path.
pub open spec fn startup_lines_spec(addr: Seq<char>) -> Seq<Seq<char>> {
    seq![
        "Server running at http://"@ + addr,
        "Health: http://"@ + addr + "/health"@,
        "API docs: http://"@ + addr + "/docs"@,
    ]
}

/// The informational lines printed once at startup.
pub fn startup_lines(addr: &str) -> (r: Vec<String>)
    ensures
        r@.len() == startup_lines_spec(addr@).len(),
        forall|i: int| 0 <= i < r@.len() ==> r@[i]@ == startup_lines_spec(addr@)[i],
{
    let mut v: Vec<String> = Vec::new();
    let mut l0 = String::from_str("Server running at http://");
    l0.append(addr);
    v.push(l0);
    let mut l1 = String::from_str("Health: http://");
    l1.append(addr);
    l1.append("/health");
    v.push(l1);
    let mut l2 = String::from_str("API docs: http://");
    l2.append(addr);
    l2.append("/docs");
    v.push(l2);
    v
}

} // verus!

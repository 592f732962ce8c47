//! The health probe: its payload record and its JSON body.
//!
//! The body served for the probe is rendered by a small verified JSON string
//! serializer, and is proved to be one constant byte sequence.

use vstd::prelude::*;

verus! {

/// The payload of the health probe: one string field `status`.
pub struct HealthResponse {
    pub status: String,
}

/// The character for a hexadecimal digit (lower case).
pub open spec fn hex_digit_char(d: int) -> char {
    if d < 10 {
        crate::text::dec_digit_char(d)
    } else if d == 10 {
        'a'
    } else if d == 11 {
        'b'
    } else if d == 12 {
        'c'
    } else if d == 13 {
        'd'
    } else if d == 14 {
        'e'
    } else {
        'f'
    }
}

/// What a character contributes to a JSON string literal: itself, unless JSON
/// requires an escape (a quote, a backslash, or a control character).
pub open spec fn json_escaped_char(c: char) -> Seq<char> {
    if c == '"' {
        seq!['\\', '"']
    } else if c == '\\' {
        seq!['\\', '\\']
    } else if c == '\n' {
        seq!['\\', 'n']
    } else if c == '\r' {
        seq!['\\', 'r']
    } else if c == '\t' {
        seq!['\\', 't']
    } else if (c as int) < 32 {
        seq!['\\', 'u', '0', '0', hex_digit_char(c as int / 16), hex_digit_char(c as int % 16)]
    } else {
        seq![c]
    }
}

/// The JSON escape of a whole character sequence.
pub open spec fn json_escape(s: Seq<char>) -> Seq<char>
    decreases s.len(),
{
    if s.len() == 0 {
        Seq::empty()
    } else {
        json_escape(s.drop_last()) + json_escaped_char(s.last())
    }
}

/// The JSON object for a health payload with the given status.
pub open spec fn health_json_of(status: Seq<char>) -> Seq<char> {
    "{\"status\":\""@ + json_escape(status) + "\"}"@
}

/// The body the health endpoint always serves.
pub open spec fn health_body_spec() -> Seq<char> {
    "{\"status\":\"OK\"}"@
}

/// The one-character string for a hexadecimal digit (lower case).
fn hex_digit_str(d: u32) -> (r: &'static str)
    requires
        d < 16,
    ensures
        r@ == seq![hex_digit_char(d as int)],
{
    if d < 10 {
        crate::text::dec_digit_str(d as u16)
    } else if d == 10 {
        proof {
            reveal_strlit("a");
            assert("a"@ =~= seq![hex_digit_char(10)]);
        }
        "a"
    } else if d == 11 {
        proof {
            reveal_strlit("b");
            assert("b"@ =~= seq![hex_digit_char(11)]);
        }
        "b"
    } else if d == 12 {
        proof {
            reveal_strlit("c");
            assert("c"@ =~= seq![hex_digit_char(12)]);
        }
        "c"
    } else if d == 13 {
        proof {
            reveal_strlit("d");
            assert("d"@ =~= seq![hex_digit_char(13)]);
        }
        "d"
    } else if d == 14 {
        proof {
            reveal_strlit("e");
            assert("e"@ =~= seq![hex_digit_char(14)]);
        }
        "e"
    } else {
        proof {
            reveal_strlit("f");
            assert("f"@ =~= seq![hex_digit_char(15)]);
        }
        "f"
    }
}

/// Escapes a string for inclusion in a JSON string literal.
pub fn json_escape_str(s: &str) -> (r: String)
    ensures
        r@ == json_escape(s@),
{
    let n = s.unicode_len();
    let mut out = String::new();
    let mut i: usize = 0;
    while i < n
        invariant
            n == s@.len(),
            0 <= i <= n,
            out@ == json_escape(s@.subrange(0, i as int)),
        decreases n - i,
    {
        let c = s.get_char(i);
        if c == '"' {
            proof {
                reveal_strlit("\\\"");
                assert("\\\""@ =~= json_escaped_char('"'));
            }
            out.append("\\\"");
        } else if c == '\\' {
            proof {
                reveal_strlit("\\\\");
                assert("\\\\"@ =~= json_escaped_char('\\'));
            }
            out.append("\\\\");
        } else if c == '\n' {
            proof {
                reveal_strlit("\\n");
                assert("\\n"@ =~= json_escaped_char('\n'));
            }
            out.append("\\n");
        } else if c == '\r' {
            proof {
                reveal_strlit("\\r");
                assert("\\r"@ =~= json_escaped_char('\r'));
            }
            out.append("\\r");
        } else if c == '\t' {
            proof {
                reveal_strlit("\\t");
                assert("\\t"@ =~= json_escaped_char('\t'));
            }
            out.append("\\t");
        } else if (c as u32) < 32 {
            let code = c as u32;
            proof {
                reveal_strlit("\\u00");
            }
            out.append("\\u00");
            out.append(hex_digit_str(code / 16));
            out.append(hex_digit_str(code % 16));
            proof {
                assert(("\\u00"@ + seq![hex_digit_char(code as int / 16)]) + seq![
                    hex_digit_char(code as int % 16),
                ] =~= json_escaped_char(c));
            }
        } else {
            let one = s.substring_char(i, i + 1);
            proof {
                assert(one@ =~= seq![c]);
            }
            out.append(one);
        }
        proof {
            assert(s@.subrange(0, i as int + 1).drop_last() =~= s@.subrange(0, i as int));
            assert(s@.subrange(0, i as int + 1).last() == s@[i as int]);
        }
        i += 1;
    }
    proof {
        assert(s@.subrange(0, n as int) =~= s@);
    }
    out
}

/// Renders a health payload as its JSON object.
pub fn render_health(r: &HealthResponse) -> (body: String)
    ensures
        body@ == health_json_of(r.status@),
{
    let mut out = String::from_str("{\"status\":\"");
    let esc = json_escape_str(r.status.as_str());
    out.append(esc.as_str());
    out.append("\"}");
    out
}

/// The health payload: its status is always `OK`.
pub fn health_response() -> (r: HealthResponse)
    ensures
        r.status@ == "OK"@,
{
    HealthResponse { status: String::from_str("OK") }
}

/// Rendering a payload whose status is `OK` always gives the one constant
/// body, byte for byte: the health endpoint's response never varies.
pub proof fn lemma_health_body_constant(status: Seq<char>)
    requires
        status == "OK"@,
    ensures
        health_json_of(status) == health_body_spec(),
{
    reveal_strlit("OK");
    reveal_strlit("{\"status\":\"");
    reveal_strlit("\"}");
    reveal_strlit("{\"status\":\"OK\"}");
    let s = "OK"@;
    assert(s.drop_last() =~= seq!['O']);
    assert(seq!['O'].drop_last() =~= Seq::<char>::empty());
    assert(json_escaped_char('O') =~= seq!['O']);
    assert(json_escaped_char('K') =~= seq!['K']);
    assert(json_escape(Seq::<char>::empty()) =~= Seq::<char>::empty());
    assert(seq!['O'].len() == 1 && seq!['O'].last() == 'O');
    assert(json_escape(seq!['O']) =~= json_escape(Seq::<char>::empty()) + json_escaped_char('O'));
    assert(json_escape(seq!['O']) =~= seq!['O']);
    assert(json_escape(s) =~= s);
    assert(health_json_of(s) =~= health_body_spec());
}

/// The body of the health endpoint: the same constant, whatever the request.
pub fn health_body() -> (body: String)
    ensures
        body@ == health_body_spec(),
{
    let r = health_response();
    let body = render_health(&r);
    proof {
        lemma_health_body_constant(r.status@);
    }
    body
}

} // verus!

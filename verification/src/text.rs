use vstd::prelude::*;

use vstd::string::StrSliceExecFns;
use vstd::string::StringExecFns;
use vstd::utf8::decode_utf8;
use vstd::utf8::valid_utf8;

verus! {

/// Characters that may stand unquoted when a command line is rendered for
/// people: letters, digits, and a small set of punctuation that shells and
/// readers treat as plain. Any other character forces the argument to be
/// shown quoted.
pub open spec fn quote_safe_char(c: char) -> bool {
    ||| ('A' as u32) <= (c as u32) && (c as u32) <= ('Z' as u32)
    ||| ('a' as u32) <= (c as u32) && (c as u32) <= ('z' as u32)
    ||| ('0' as u32) <= (c as u32) && (c as u32) <= ('9' as u32)
    ||| c == '_'
    ||| c == '-'
    ||| c == '.'
    ||| c == ','
    ||| c == ':'
    ||| c == '/'
    ||| c == '@'
    ||| c == '\n'
}

fn is_quote_safe(c: char) -> (r: bool)
    ensures
        r == quote_safe_char(c),
{
    let u = c as u32;
    (u >= 'A' as u32 && u <= 'Z' as u32) || (u >= 'a' as u32 && u <= 'z' as u32) || (u >= '0'
        as u32 && u <= '9' as u32) || c == '_' || c == '-' || c == '.' || c == ',' || c == ':'
        || c == '/' || c == '@' || c == '\n'
}

/// An argument needs quoting when any one of its characters is not safe to
/// show bare.
pub open spec fn needs_quoting(s: Seq<char>) -> bool {
    exists|i: int| 0 <= i < s.len() && !quote_safe_char(s[i])
}

/// Decide whether an argument must be shown quoted.
pub fn str_needs_quoting(s: &str) -> (r: bool)
    ensures
        r == needs_quoting(s@),
{
    let n = s.unicode_len();
    let mut i: usize = 0;
    while i < n
        invariant
            i <= n,
            n == s@.len(),
            forall|j: int| 0 <= j < i ==> quote_safe_char(s@[j]),
        decreases n - i,
    {
        if !is_quote_safe(s.get_char(i)) {
            return true;
        }
        i = i + 1;
    }
    false
}

/// The Unicode white-space characters, the ones the standard library's
/// `trim` strips from either end of a string.
pub open spec fn whitespace_char(c: char) -> bool {
    ||| c as u32 == 0x20
    ||| 0x9 <= (c as u32) && (c as u32) <= 0xD
    ||| c as u32 == 0x85
    ||| c as u32 == 0xA0
    ||| c as u32 == 0x1680
    ||| 0x2000 <= (c as u32) && (c as u32) <= 0x200A
    ||| c as u32 == 0x2028
    ||| c as u32 == 0x2029
    ||| c as u32 == 0x202F
    ||| c as u32 == 0x205F
    ||| c as u32 == 0x3000
}

fn is_whitespace_char(c: char) -> (r: bool)
    ensures
        r == whitespace_char(c),
{
    let u = c as u32;
    u == 0x20 || (u >= 0x9 && u <= 0xD) || u == 0x85 || u == 0xA0 || u == 0x1680 || (u >= 0x2000
        && u <= 0x200A) || u == 0x2028 || u == 0x2029 || u == 0x202F || u == 0x205F || u == 0x3000
}

/// A string is blank when every character is white space — exactly when
/// trimming it would leave nothing.
pub open spec fn is_blank(s: Seq<char>) -> bool {
    forall|i: int| 0 <= i < s.len() ==> whitespace_char(s[i])
}

/// Decide whether a string is blank.
pub fn str_is_blank(s: &str) -> (r: bool)
    ensures
        r == is_blank(s@),
{
    let n = s.unicode_len();
    let mut i: usize = 0;
    while i < n
        invariant
            i <= n,
            n == s@.len(),
            forall|j: int| 0 <= j < i ==> whitespace_char(s@[j]),
        decreases n - i,
    {
        if !is_whitespace_char(s.get_char(i)) {
            return false;
        }
        i = i + 1;
    }
    true
}

/// The decimal digit for one value below ten.
pub open spec fn digit_char(d: int) -> char {
    if d == 0 {
        '0'
    } else if d == 1 {
        '1'
    } else if d == 2 {
        '2'
    } else if d == 3 {
        '3'
    } else if d == 4 {
        '4'
    } else if d == 5 {
        '5'
    } else if d == 6 {
        '6'
    } else if d == 7 {
        '7'
    } else if d == 8 {
        '8'
    } else {
        '9'
    }
}

/// The usual decimal rendering of a non-negative number, most significant
/// digit first, with no leading zeros except for zero itself.
pub open spec fn spec_udecimal(n: nat) -> Seq<char>
    decreases n,
{
    if n < 10 {
        seq![digit_char(n as int)]
    } else {
        spec_udecimal(n / 10) + seq![digit_char((n % 10) as int)]
    }
}

/// The decimal rendering of an integer: a leading minus sign for negative
/// values, then the digits.
pub open spec fn spec_decimal(n: int) -> Seq<char> {
    if n < 0 {
        seq!['-'] + spec_udecimal((-n) as nat)
    } else {
        spec_udecimal(n as nat)
    }
}

fn digit_str(d: u64) -> (r: &'static str)
    requires
        d < 10,
    ensures
        r@ == seq![digit_char(d as int)],
{
    match d {
        0 => {
            proof {
                reveal_strlit("0");
                assert("0"@ =~= seq!['0']);
            }
            "0"
        },
        1 => {
            proof {
                reveal_strlit("1");
                assert("1"@ =~= seq!['1']);
            }
            "1"
        },
        2 => {
            proof {
                reveal_strlit("2");
                assert("2"@ =~= seq!['2']);
            }
            "2"
        },
        3 => {
            proof {
                reveal_strlit("3");
                assert("3"@ =~= seq!['3']);
            }
            "3"
        },
        4 => {
            proof {
                reveal_strlit("4");
                assert("4"@ =~= seq!['4']);
            }
            "4"
        },
        5 => {
            proof {
                reveal_strlit("5");
                assert("5"@ =~= seq!['5']);
            }
            "5"
        },
        6 => {
            proof {
                reveal_strlit("6");
                assert("6"@ =~= seq!['6']);
            }
            "6"
        },
        7 => {
            proof {
                reveal_strlit("7");
                assert("7"@ =~= seq!['7']);
            }
            "7"
        },
        8 => {
            proof {
                reveal_strlit("8");
                assert("8"@ =~= seq!['8']);
            }
            "8"
        },
        _ => {
            proof {
                reveal_strlit("9");
                assert("9"@ =~= seq!['9']);
            }
            "9"
        },
    }
}

/// Append the decimal rendering of a non-negative number to a string.
fn append_udecimal(n: u64, out: &mut String)
    ensures
        final(out)@ == old(out)@ + spec_udecimal(n as nat),
    decreases n,
{
    if n >= 10 {
        append_udecimal(n / 10, out);
        let d = digit_str(n % 10);
        out.append(d);
        proof {
            assert((old(out)@ + spec_udecimal((n / 10) as nat)) + seq![digit_char((n % 10) as int)]
                =~= old(out)@ + spec_udecimal(n as nat));
        }
    } else {
        let d = digit_str(n);
        out.append(d);
    }
}

/// Append the decimal rendering of an integer to a string.
pub fn append_decimal(n: i32, out: &mut String)
    ensures
        final(out)@ == old(out)@ + spec_decimal(n as int),
{
    if n < 0 {
        out.append("-");
        proof {
            reveal_strlit("-");
            assert("-"@ =~= seq!['-']);
        }
        let wide: i64 = n as i64;
        let mag: u64 = (-wide) as u64;
        append_udecimal(mag, out);
        proof {
            assert((old(out)@ + "-"@) + spec_udecimal(mag as nat)
                =~= old(out)@ + spec_decimal(n as int));
        }
    } else {
        append_udecimal(n as u64, out);
    }
}

/// What `String::from_utf8_lossy` returns for a byte sequence.
pub uninterp spec fn lossy_decode(bytes: Seq<u8>) -> Seq<char>;

/// Relies on `String::from_utf8_lossy`: decodes UTF-8, replacing each
/// invalid sequence with U+FFFD. The result depends on the bytes alone, and
/// valid UTF-8 decodes to exactly its characters.
#[verifier::external_body]
pub fn lossy_string(bytes: &[u8]) -> (r: String)
    ensures
        r@ == lossy_decode(bytes@),
        valid_utf8(bytes@) ==> r@ == decode_utf8(bytes@),
{
    String::from_utf8_lossy(bytes).to_string()
}

/// What the Debug formatting (`{:?}`) of a string returns: the string
/// wrapped in double quotes with special characters escaped.
pub uninterp spec fn debug_quoted(s: Seq<char>) -> Seq<char>;

/// Relies on the Debug formatting of `str`: quotes and escapes the string;
/// the result depends on the characters alone.
#[verifier::external_body]
pub fn debug_quote(s: &str) -> (r: String)
    ensures
        r@ == debug_quoted(s@),
{
    format!("{s:?}")
}

} // verus!

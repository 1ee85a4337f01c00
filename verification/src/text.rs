use vstd::prelude::*;
use vstd::string::StrSliceExecFns;
use vstd::string::StringExecFns;

verus! {

/// An ASCII decimal digit.
pub open spec fn is_digit_char(c: char) -> bool {
    48 <= c as u32 <= 57
}

/// The value of an ASCII decimal digit.
pub open spec fn digit_val(c: char) -> int {
    c as u32 - 48
}

/// The ASCII digit with value `d`.
pub open spec fn digit_char(d: int) -> char {
    ((48 + d) as u8) as char
}

/// The decimal digits of `n`, most significant first, no sign.
pub open spec fn dec_digits_of(n: nat) -> Seq<char>
    decreases n,
{
    if n < 10 {
        seq![digit_char(n as int)]
    } else {
        dec_digits_of(n / 10) + seq![digit_char((n % 10) as int)]
    }
}

/// The canonical decimal rendering of an integer: digits, with a leading
/// minus sign when negative.
pub open spec fn int_render_of(n: int) -> Seq<char> {
    if n < 0 {
        seq!['-'] + dec_digits_of((-n) as nat)
    } else {
        dec_digits_of(n as nat)
    }
}

/// Why a textual integer parse failed, mirroring the standard library's
/// error kinds and messages.
#[derive(Debug, Clone, Copy, PartialEq, Eq, Structural)]
pub enum IntParseKind {
    Empty,
    InvalidDigit,
    PosOverflow,
    NegOverflow,
}

/// The message the standard library's integer parse error displays.
pub open spec fn int_err_msg(k: IntParseKind) -> Seq<char> {
    match k {
        IntParseKind::Empty => "cannot parse integer from empty string"@,
        IntParseKind::InvalidDigit => "invalid digit found in string"@,
        IntParseKind::PosOverflow => "number too large to fit in target type"@,
        IntParseKind::NegOverflow => "number too small to fit in target type"@,
    }
}

/// One step of the standard library's scan: starting at index `i` with the
/// value accumulated so far, consume digits and fail at the first non-digit
/// or at the first digit that pushes the value past the range.
pub open spec fn scan_digits(
    s: Seq<char>,
    i: int,
    acc: int,
    positive: bool,
    min: int,
    max: int,
) -> Result<int, IntParseKind>
    decreases s.len() - i,
{
    if i < 0 || i >= s.len() {
        Ok(acc)
    } else if !is_digit_char(s[i]) {
        Err(IntParseKind::InvalidDigit)
    } else {
        let acc2 = if positive {
            acc * 10 + digit_val(s[i])
        } else {
            acc * 10 - digit_val(s[i])
        };
        if positive && acc2 > max {
            Err(IntParseKind::PosOverflow)
        } else if !positive && acc2 < min {
            Err(IntParseKind::NegOverflow)
        } else {
            scan_digits(s, i + 1, acc2, positive, min, max)
        }
    }
}

/// The standard library's range-checked decimal parse into `[min, max]`:
/// an optional sign (a minus only for signed targets), then at least one
/// digit, nothing else.
pub open spec fn int_parse_spec(s: Seq<char>, signed: bool, min: int, max: int) -> Result<
    int,
    IntParseKind,
> {
    if s.len() == 0 {
        Err(IntParseKind::Empty)
    } else if s[0] == '+' {
        if s.len() == 1 {
            Err(IntParseKind::InvalidDigit)
        } else {
            scan_digits(s, 1, 0, true, min, max)
        }
    } else if s[0] == '-' && signed {
        if s.len() == 1 {
            Err(IntParseKind::InvalidDigit)
        } else {
            scan_digits(s, 1, 0, false, min, max)
        }
    } else {
        scan_digits(s, 0, 0, true, min, max)
    }
}

/// A signed range-checked decimal parse, as the standard library performs it.
pub fn parse_i128_in_range(s: &str, min: i128, max: i128) -> (r: Result<i128, IntParseKind>)
    requires
        min <= 0 <= max,
    ensures
        match r {
            Ok(v) => int_parse_spec(s@, true, min as int, max as int) == Ok::<int, IntParseKind>(
                v as int,
            ),
            Err(k) => int_parse_spec(s@, true, min as int, max as int) == Err::<int, _>(k),
        },
        r is Ok ==> min <= r->Ok_0 <= max,
{
    let n = s.unicode_len();
    if n == 0 {
        return Err(IntParseKind::Empty);
    }
    let first = s.get_char(0);
    let (start, positive): (usize, bool) = if first == '+' {
        (1, true)
    } else if first == '-' {
        (1, false)
    } else {
        (0, true)
    };
    if start == 1 && n == 1 {
        return Err(IntParseKind::InvalidDigit);
    }
    let mut i: usize = start;
    let mut acc: i128 = 0;
    loop
        invariant
            start <= i <= n,
            n == s@.len(),
            min <= acc <= max,
            min <= 0 <= max,
            positive ==> acc >= 0,
            !positive ==> acc <= 0,
            int_parse_spec(s@, true, min as int, max as int) == scan_digits(
                s@,
                i as int,
                acc as int,
                positive,
                min as int,
                max as int,
            ),
        decreases n - i,
    {
        if i == n {
            return Ok(acc);
        }
        let c = s.get_char(i);
        let u = c as u32;
        if !(48 <= u && u <= 57) {
            return Err(IntParseKind::InvalidDigit);
        }
        let d = (u - 48) as i128;
        match acc.checked_mul(10) {
            Some(acc10) => {
                if positive {
                    match acc10.checked_add(d) {
                        Some(acc2) => {
                            if acc2 > max {
                                return Err(IntParseKind::PosOverflow);
                            }
                            acc = acc2;
                        },
                        None => {
                            return Err(IntParseKind::PosOverflow);
                        },
                    }
                } else {
                    match acc10.checked_sub(d) {
                        Some(acc2) => {
                            if acc2 < min {
                                return Err(IntParseKind::NegOverflow);
                            }
                            acc = acc2;
                        },
                        None => {
                            return Err(IntParseKind::NegOverflow);
                        },
                    }
                }
            },
            None => {
                if positive {
                    return Err(IntParseKind::PosOverflow);
                } else {
                    return Err(IntParseKind::NegOverflow);
                }
            },
        }
        i = i + 1;
    }
}

/// An unsigned range-checked decimal parse, as the standard library
/// performs it: a minus sign is an invalid digit.
pub fn parse_u128_in_range(s: &str, max: u128) -> (r: Result<u128, IntParseKind>)
    ensures
        match r {
            Ok(v) => int_parse_spec(s@, false, 0, max as int) == Ok::<int, IntParseKind>(v as int),
            Err(k) => int_parse_spec(s@, false, 0, max as int) == Err::<int, _>(k),
        },
        r is Ok ==> r->Ok_0 <= max,
{
    let n = s.unicode_len();
    if n == 0 {
        return Err(IntParseKind::Empty);
    }
    let first = s.get_char(0);
    let start: usize = if first == '+' {
        1
    } else {
        0
    };
    if start == 1 && n == 1 {
        return Err(IntParseKind::InvalidDigit);
    }
    let mut i: usize = start;
    let mut acc: u128 = 0;
    loop
        invariant
            start <= i <= n,
            n == s@.len(),
            acc <= max,
            int_parse_spec(s@, false, 0, max as int) == scan_digits(
                s@,
                i as int,
                acc as int,
                true,
                0,
                max as int,
            ),
        decreases n - i,
    {
        if i == n {
            return Ok(acc);
        }
        let c = s.get_char(i);
        let u = c as u32;
        if !(48 <= u && u <= 57) {
            return Err(IntParseKind::InvalidDigit);
        }
        let d = (u - 48) as u128;
        match acc.checked_mul(10) {
            Some(acc10) => {
                match acc10.checked_add(d) {
                    Some(acc2) => {
                        if acc2 > max {
                            return Err(IntParseKind::PosOverflow);
                        }
                        acc = acc2;
                        i = i + 1;
                    },
                    None => {
                        return Err(IntParseKind::PosOverflow);
                    },
                }
            },
            None => {
                return Err(IntParseKind::PosOverflow);
            },
        }
    }
}

/// The message of `int_err_msg`, as a string slice.
pub fn int_err_msg_str(k: IntParseKind) -> (r: &'static str)
    ensures
        r@ == int_err_msg(k),
{
    match k {
        IntParseKind::Empty => "cannot parse integer from empty string",
        IntParseKind::InvalidDigit => "invalid digit found in string",
        IntParseKind::PosOverflow => "number too large to fit in target type",
        IntParseKind::NegOverflow => "number too small to fit in target type",
    }
}

/// Appends the digit `d` to a string.
fn push_digit(s: &mut String, d: u8)
    requires
        d < 10,
    ensures
        final(s)@ == old(s)@ + seq![digit_char(d as int)],
{
    match d {
        0 => {
            proof {
                reveal_strlit("0");
            }
            s.append("0");
        },
        1 => {
            proof {
                reveal_strlit("1");
            }
            s.append("1");
        },
        2 => {
            proof {
                reveal_strlit("2");
            }
            s.append("2");
        },
        3 => {
            proof {
                reveal_strlit("3");
            }
            s.append("3");
        },
        4 => {
            proof {
                reveal_strlit("4");
            }
            s.append("4");
        },
        5 => {
            proof {
                reveal_strlit("5");
            }
            s.append("5");
        },
        6 => {
            proof {
                reveal_strlit("6");
            }
            s.append("6");
        },
        7 => {
            proof {
                reveal_strlit("7");
            }
            s.append("7");
        },
        8 => {
            proof {
                reveal_strlit("8");
            }
            s.append("8");
        },
        _ => {
            proof {
                reveal_strlit("9");
            }
            s.append("9");
        },
    }
    proof {
        assert(s@ =~= old(s)@ + seq![digit_char(d as int)]);
    }
}

/// The decimal digits of `n`, as `dec_digits_of` spells them.
pub fn render_u128(n: u128) -> (r: String)
    ensures
        r@ == dec_digits_of(n as nat),
    decreases n,
{
    if n < 10 {
        let mut s = String::new();
        push_digit(&mut s, n as u8);
        proof {
            assert(s@ =~= dec_digits_of(n as nat));
        }
        s
    } else {
        let mut s = render_u128(n / 10);
        push_digit(&mut s, (n % 10) as u8);
        s
    }
}

/// The decimal rendering of a sign-and-magnitude integer, as
/// `int_render_of` spells it.
pub fn render_signed(negative: bool, magnitude: u128) -> (r: String)
    ensures
        r@ == int_render_of(
            if negative {
                -(magnitude as int)
            } else {
                magnitude as int
            },
        ),
{
    if negative && magnitude > 0 {
        proof {
            reveal_strlit("-");
        }
        let mut s = String::from_str("-");
        let digits = render_u128(magnitude);
        s.append(digits.as_str());
        proof {
            assert(s@ =~= seq!['-'] + dec_digits_of(magnitude as nat));
        }
        s
    } else {
        render_u128(magnitude)
    }
}

/// Character-for-character equality of two string slices.
pub fn str_eq(a: &str, b: &str) -> (r: bool)
    ensures
        r == (a@ == b@),
{
    let na = a.unicode_len();
    let nb = b.unicode_len();
    if na != nb {
        return false;
    }
    let mut i: usize = 0;
    while i < na
        invariant
            0 <= i <= na,
            na == a@.len(),
            na == b@.len(),
            forall|j: int| 0 <= j < i ==> a@[j] == b@[j],
        decreases na - i,
    {
        if a.get_char(i) != b.get_char(i) {
            return false;
        }
        i = i + 1;
    }
    proof {
        assert(a@ =~= b@);
    }
    true
}

/// Relies on char's `ToString` through `Display`: the string holding
/// exactly the one character.
#[verifier::external_body]
pub fn char_to_string(c: char) -> (r: String)
    ensures
        r@ == seq![c],
{
    c.to_string()
}

/// The bool renderings the standard library parses and prints.
pub open spec fn bool_render_of(b: bool) -> Seq<char> {
    if b {
        "true"@
    } else {
        "false"@
    }
}

/// `true` or `false`, as `bool_render_of` spells it.
pub fn render_bool(b: bool) -> (r: &'static str)
    ensures
        r@ == bool_render_of(b),
{
    if b {
        "true"
    } else {
        "false"
    }
}

/// The standard library's bool parse: exactly the two literal tokens.
pub open spec fn bool_parse_spec(s: Seq<char>) -> Option<bool> {
    if s == "true"@ {
        Some(true)
    } else if s == "false"@ {
        Some(false)
    } else {
        None
    }
}

/// Parses exactly `true` or `false`, as the standard library does.
pub fn parse_bool_token(s: &str) -> (r: Option<bool>)
    ensures
        r == bool_parse_spec(s@),
{
    if str_eq(s, "true") {
        Some(true)
    } else if str_eq(s, "false") {
        Some(false)
    } else {
        None
    }
}

} // verus!

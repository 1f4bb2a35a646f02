//! Memory-watch automation: number, range and watch-spec parsing, and
//! hex encoding of captured memory.
//!
//! Numbers accept a decimal spelling or a hexadecimal one behind a `0x`
//! or `0X` prefix.  A range argument is `START:LEN`, a watch argument is
//! `NAME:START:LEN`; each parser pins, input by input, which value comes
//! back and which error message.

use vstd::prelude::*;

verus! {

/// Why a number failed to parse.
#[derive(Clone, Copy, Debug, PartialEq, Eq, Structural)]
pub enum NumError {
    Empty,
    Invalid,
    TooLarge,
}

/// The message reported for each kind of number-parse failure.
pub open spec fn spec_num_msg(e: NumError) -> Seq<char> {
    match e {
        NumError::Empty => "cannot parse integer from empty string"@,
        NumError::Invalid => "invalid digit found in string"@,
        NumError::TooLarge => "number too large to fit in target type"@,
    }
}

pub open spec fn spec_is_dec_digit(c: char) -> bool {
    0x30 <= (c as u32) <= 0x39
}

pub open spec fn spec_is_hex_digit(c: char) -> bool {
    spec_is_dec_digit(c) || 0x61 <= (c as u32) <= 0x66 || 0x41 <= (c as u32) <= 0x46
}

/// The numeric value of one digit (0 for anything else).
pub open spec fn spec_digit_val(c: char, hex: bool) -> nat {
    if spec_is_dec_digit(c) {
        ((c as u32) - 0x30) as nat
    } else if hex && 0x61 <= (c as u32) <= 0x66 {
        ((c as u32) - 0x61 + 10) as nat
    } else if hex && 0x41 <= (c as u32) <= 0x46 {
        ((c as u32) - 0x41 + 10) as nat
    } else {
        0
    }
}

pub open spec fn spec_digit_ok(c: char, hex: bool) -> bool {
    if hex {
        spec_is_hex_digit(c)
    } else {
        spec_is_dec_digit(c)
    }
}

pub open spec fn spec_all_digits(s: Seq<char>, hex: bool) -> bool {
    forall|i: int| 0 <= i < s.len() ==> spec_digit_ok(#[trigger] s[i], hex)
}

pub open spec fn spec_base(hex: bool) -> nat {
    if hex {
        16
    } else {
        10
    }
}

/// The value of a digit string, most significant digit first.
pub open spec fn spec_digits_value(s: Seq<char>, hex: bool) -> nat
    decreases s.len(),
{
    if s.len() == 0 {
        0
    } else {
        spec_digits_value(s.subrange(0, s.len() - 1), hex) * spec_base(hex) + spec_digit_val(
            s.last(),
            hex,
        )
    }
}

/// A prefix of a digit string never exceeds the whole string's value.
pub proof fn lemma_digits_prefix_le(s: Seq<char>, k: int, hex: bool)
    requires
        0 <= k <= s.len(),
    ensures
        spec_digits_value(s.subrange(0, k), hex) <= spec_digits_value(s, hex),
    decreases s.len() - k,
{
    if k == s.len() {
        assert(s.subrange(0, k) =~= s);
    } else {
        lemma_digits_prefix_le(s, k + 1, hex);
        let p = s.subrange(0, k + 1);
        assert(p.subrange(0, p.len() - 1) =~= s.subrange(0, k));
        assert(spec_digits_value(s.subrange(0, k), hex) * spec_base(hex) >= spec_digits_value(
            s.subrange(0, k),
            hex,
        )) by (nonlinear_arith);
    }
}

/// The outcome of parsing a digit string against an upper bound.
pub open spec fn spec_parse_digits(s: Seq<char>, hex: bool, max: nat) -> Result<nat, NumError> {
    if s.len() == 0 {
        Err(NumError::Empty)
    } else if !spec_all_digits(s, hex) {
        Err(NumError::Invalid)
    } else if spec_digits_value(s, hex) > max {
        Err(NumError::TooLarge)
    } else {
        Ok(spec_digits_value(s, hex))
    }
}

/// Whether the spelling selects hexadecimal, and where its digits start.
pub open spec fn spec_has_hex_prefix(s: Seq<char>) -> bool {
    s.len() >= 2 && s[0] == '0' && (s[1] == 'x' || s[1] == 'X')
}

/// The outcome of parsing a whole number spelling against an upper
/// bound: hexadecimal behind `0x`/`0X`, decimal otherwise.
pub open spec fn spec_parse_number(s: Seq<char>, max: nat) -> Result<nat, NumError> {
    if spec_has_hex_prefix(s) {
        spec_parse_digits(s.subrange(2, s.len() as int), true, max)
    } else {
        spec_parse_digits(s, false, max)
    }
}

/// Parses the digits of `s` from char position `from` on.
fn parse_digits_from(s: &str, from: usize, hex: bool, max: u128) -> (r: Result<u128, NumError>)
    requires
        from <= s@.len(),
        max <= 0x0FFF_FFFF_FFFF_FFFF_FFFF_FFFF_FFFF_FFFFu128,
    ensures
        ({
            let digits = s@.subrange(from as int, s@.len() as int);
            match spec_parse_digits(digits, hex, max as nat) {
                Ok(v) => r matches Ok(x) && x == v,
                Err(e) => r == Err::<u128, NumError>(e),
            }
        }),
{
    let n = s.unicode_len();
    let ghost digits = s@.subrange(from as int, s@.len() as int);
    if from == n {
        return Err(NumError::Empty);
    }
    let mut i: usize = from;
    while i < n
        invariant
            from <= i <= n,
            n == s@.len(),
            digits == s@.subrange(from as int, s@.len() as int),
            forall|k: int| from <= k < i ==> spec_digit_ok(#[trigger] s@[k], hex),
        decreases n - i,
    {
        let c = s.get_char(i);
        let u = c as u32;
        let ok = if hex {
            (0x30 <= u && u <= 0x39) || (0x61 <= u && u <= 0x66) || (0x41 <= u && u <= 0x46)
        } else {
            0x30 <= u && u <= 0x39
        };
        if !ok {
            proof {
                assert(digits[i - from] == s@[i as int]);
            }
            return Err(NumError::Invalid);
        }
        i = i + 1;
    }
    proof {
        assert(spec_all_digits(digits, hex)) by {
            assert forall|k: int| 0 <= k < digits.len() implies spec_digit_ok(
                #[trigger] digits[k],
                hex,
            ) by {
                assert(digits[k] == s@[k + from]);
            }
        }
    }
    let base: u128 = if hex {
        16
    } else {
        10
    };
    let mut acc: u128 = 0;
    let mut j: usize = from;
    while j < n
        invariant
            from <= j <= n,
            n == s@.len(),
            max <= 0x0FFF_FFFF_FFFF_FFFF_FFFF_FFFF_FFFF_FFFFu128,
            digits == s@.subrange(from as int, s@.len() as int),
            spec_all_digits(digits, hex),
            base == spec_base(hex),
            acc <= max,
            acc == spec_digits_value(s@.subrange(from as int, j as int), hex),
        decreases n - j,
    {
        let c = s.get_char(j);
        let u = c as u32;
        proof {
            assert(digits[j - from] == s@[j as int]);
            assert(spec_digit_ok(s@[j as int], hex));
        }
        let d: u128 = if 0x30 <= u && u <= 0x39 {
            (u - 0x30) as u128
        } else if 0x61 <= u && u <= 0x66 {
            (u - 0x61 + 10) as u128
        } else {
            (u - 0x41 + 10) as u128
        };
        proof {
            assert(digits[j - from] == s@[j as int]);
            assert(d == spec_digit_val(s@[j as int], hex));
            assert(acc * base + d <= max * 16 + 15) by (nonlinear_arith)
                requires
                    acc <= max,
                    base <= 16,
                    d <= 15,
                    0 <= acc,
                    0 <= base,
            ;
        }
        let next = acc * base + d;
        proof {
            let p = s@.subrange(from as int, j + 1);
            assert(p.subrange(0, p.len() - 1) =~= s@.subrange(from as int, j as int));
            assert(p.last() == s@[j as int]);
        }
        if next > max {
            proof {
                let whole = s@.subrange(from as int, n as int);
                let p = s@.subrange(from as int, j + 1);
                assert(p =~= whole.subrange(0, j + 1 - from));
                lemma_digits_prefix_le(whole, j + 1 - from, hex);
            }
            return Err(NumError::TooLarge);
        }
        acc = next;
        j = j + 1;
    }
    proof {
        assert(s@.subrange(from as int, n as int) == digits);
    }
    Ok(acc)
}

/// Parses a number spelling from char position 0, bounded by `max`.
fn parse_number_bounded(input: &str, max: u128) -> (r: Result<u128, NumError>)
    requires
        max <= 0x0FFF_FFFF_FFFF_FFFF_FFFF_FFFF_FFFF_FFFFu128,
    ensures
        ({
            match spec_parse_number(input@, max as nat) {
                Ok(v) => r matches Ok(x) && x == v,
                Err(e) => r == Err::<u128, NumError>(e),
            }
        }),
{
    let n = input.unicode_len();
    let hex_prefix = if n >= 2 {
        let c0 = input.get_char(0);
        let c1 = input.get_char(1);
        c0 == '0' && (c1 == 'x' || c1 == 'X')
    } else {
        false
    };
    proof {
        assert(input@.subrange(0, input@.len() as int) =~= input@);
    }
    if hex_prefix {
        parse_digits_from(input, 2, true, max)
    } else {
        parse_digits_from(input, 0, false, max)
    }
}

/// Turns a number-parse failure into its reported message.
fn num_msg(e: NumError) -> (r: String)
    ensures
        r@ == spec_num_msg(e),
{
    match e {
        NumError::Empty => String::from_str("cannot parse integer from empty string"),
        NumError::Invalid => String::from_str("invalid digit found in string"),
        NumError::TooLarge => String::from_str("number too large to fit in target type"),
    }
}

/// Parses a 16-bit number, decimal or `0x`-prefixed hexadecimal.
/// Exactly the well-formed spellings whose value fits return `Ok`; each
/// failure returns its message.
pub fn parse_number_u16(input: &str) -> (r: Result<u16, String>)
    ensures
        ({
            match spec_parse_number(input@, 0xFFFF) {
                Ok(v) => r matches Ok(x) && x == v,
                Err(e) => r matches Err(m) && m@ == spec_num_msg(e),
            }
        }),
{
    match parse_number_bounded(input, 0xFFFF) {
        Ok(v) => Ok(v as u16),
        Err(e) => Err(num_msg(e)),
    }
}

/// Parses a pointer-sized number, decimal or `0x`-prefixed hexadecimal.
pub fn parse_number_usize(input: &str) -> (r: Result<usize, String>)
    ensures
        ({
            match spec_parse_number(input@, usize::MAX as nat) {
                Ok(v) => r matches Ok(x) && x == v,
                Err(e) => r matches Err(m) && m@ == spec_num_msg(e),
            }
        }),
{
    match parse_number_bounded(input, usize::MAX as u128) {
        Ok(v) => Ok(v as usize),
        Err(e) => Err(num_msg(e)),
    }
}

/// A block of emulated memory: a start address and a byte count.
#[derive(Clone, Debug, PartialEq, Eq, Structural)]
pub struct MemoryRange {
    pub start: u16,
    pub length: usize,
}

/// Finds the first `target` at or after char position `from`.
fn find_char_from(s: &str, from: usize, target: char) -> (r: Option<usize>)
    requires
        from <= s@.len(),
    ensures
        r matches Some(i) ==> from <= i < s@.len() && s@[i as int] == target && (forall|j: int|
            from <= j < i ==> s@[j] != target),
        r is None ==> forall|j: int| from <= j < s@.len() ==> s@[j] != target,
{
    let n = s.unicode_len();
    let mut i: usize = from;
    while i < n
        invariant
            from <= i <= n,
            n == s@.len(),
            forall|j: int| from <= j < i ==> s@[j] != target,
        decreases n - i,
    {
        if s.get_char(i) == target {
            return Some(i);
        }
        i = i + 1;
    }
    None
}

/// What `parse_range_arg` returns for a `START:LEN` split: the range, or
/// the message of the first check that fails, start before length.
pub open spec fn spec_range_outcome(head: Seq<char>, tail: Seq<char>, tail_has_colon: bool) -> Result<
    MemoryRange,
    Seq<char>,
> {
    match spec_parse_number(head, 0xFFFF) {
        Err(e) => Err(spec_num_msg(e)),
        Ok(start) => if tail_has_colon {
            Err("too many components; expected START:LEN"@)
        } else {
            match spec_parse_number(tail, usize::MAX as nat) {
                Err(e) => Err(spec_num_msg(e)),
                Ok(length) => if length == 0 {
                    Err("length must be greater than zero"@)
                } else {
                    Ok(MemoryRange { start: start as u16, length: length as usize })
                },
            }
        },
    }
}

/// Parses `START:LEN` into a memory range.  With no separator, the start
/// is still parsed first, so a malformed start reports its own message
/// before the missing-length one.
pub fn parse_range_arg(arg: &str) -> (r: Result<MemoryRange, String>)
    ensures
        (forall|i: int| 0 <= i < arg@.len() ==> arg@[i] != ':') ==> (r matches Err(m) && m@ == (
        match spec_parse_number(arg@, 0xFFFF) {
            Err(e) => spec_num_msg(e),
            Ok(_) => "expected START:LEN"@,
        })),
        forall|c: int|
            0 <= c < arg@.len() && arg@[c] == ':' && (forall|j: int| 0 <= j < c ==> arg@[j] != ':')
                ==> {
                let head = arg@.subrange(0, c);
                let tail = arg@.subrange(c + 1, arg@.len() as int);
                let tail_has_colon = exists|j: int| 0 <= j < tail.len() && tail[j] == ':';
                match spec_range_outcome(head, tail, tail_has_colon) {
                    Ok(mr) => r matches Ok(x) && x == mr,
                    Err(msg) => r matches Err(m) && m@ == msg,
                }
            },
{
    let n = arg.unicode_len();
    let colon = find_char_from(arg, 0, ':');
    match colon {
        None => {
            match parse_number_bounded(arg, 0xFFFF) {
                Err(e) => Err(num_msg(e)),
                Ok(_) => Err(String::from_str("expected START:LEN")),
            }
        },
        Some(c) => {
            let ghost head = arg@.subrange(0, c as int);
            let ghost tail = arg@.subrange(c + 1, arg@.len() as int);
            let head_str = arg.substring_char(0, c);
            let start = match parse_number_bounded(head_str, 0xFFFF) {
                Err(e) => {
                    return Err(num_msg(e));
                },
                Ok(v) => v as u16,
            };
            let second = find_char_from(arg, c + 1, ':');
            if second.is_some() {
                proof {
                    let j = second.unwrap() as int;
                    assert(tail[j - c - 1] == arg@[j]);
                }
                return Err(String::from_str("too many components; expected START:LEN"));
            }
            proof {
                assert forall|j: int| 0 <= j < tail.len() implies tail[j] != ':' by {
                    assert(tail[j] == arg@[j + c + 1]);
                }
            }
            let tail_str = arg.substring_char(c + 1, n);
            let length = match parse_number_bounded(tail_str, usize::MAX as u128) {
                Err(e) => {
                    return Err(num_msg(e));
                },
                Ok(v) => v as usize,
            };
            if length == 0 {
                return Err(String::from_str("length must be greater than zero"));
            }
            Ok(MemoryRange { start, length })
        },
    }
}

/// The Unicode white-space characters, written out: what a trimmed-empty
/// check treats as blank.
pub open spec fn spec_is_whitespace(c: char) -> bool {
    ||| 0x09 <= (c as u32) <= 0x0D
    ||| (c as u32) == 0x20
    ||| (c as u32) == 0x85
    ||| (c as u32) == 0xA0
    ||| (c as u32) == 0x1680
    ||| 0x2000 <= (c as u32) <= 0x200A
    ||| (c as u32) == 0x2028
    ||| (c as u32) == 0x2029
    ||| (c as u32) == 0x202F
    ||| (c as u32) == 0x205F
    ||| (c as u32) == 0x3000
}

pub fn is_whitespace_char(c: char) -> (r: bool)
    ensures
        r == spec_is_whitespace(c),
{
    let u = c as u32;
    (0x09 <= u && u <= 0x0D) || u == 0x20 || u == 0x85 || u == 0xA0 || u == 0x1680 || (0x2000 <= u
        && u <= 0x200A) || u == 0x2028 || u == 0x2029 || u == 0x202F || u == 0x205F || u == 0x3000
}

/// A string is blank when every character is white space.
pub open spec fn spec_is_blank(s: Seq<char>) -> bool {
    forall|i: int| 0 <= i < s.len() ==> spec_is_whitespace(#[trigger] s[i])
}

fn is_blank(s: &str, upto: usize) -> (r: bool)
    requires
        upto <= s@.len(),
    ensures
        r == spec_is_blank(s@.subrange(0, upto as int)),
{
    let mut i: usize = 0;
    while i < upto
        invariant
            i <= upto <= s@.len(),
            forall|k: int| 0 <= k < i ==> spec_is_whitespace(#[trigger] s@[k]),
        decreases upto - i,
    {
        if !is_whitespace_char(s.get_char(i)) {
            proof {
                assert(s@.subrange(0, upto as int)[i as int] == s@[i as int]);
            }
            return false;
        }
        i = i + 1;
    }
    proof {
        assert forall|k: int| 0 <= k < upto implies spec_is_whitespace(
            #[trigger] s@.subrange(0, upto as int)[k],
        ) by {
            assert(s@.subrange(0, upto as int)[k] == s@[k]);
        }
    }
    true
}

/// One named watch over emulated memory.
#[derive(Clone, Debug, PartialEq, Eq)]
pub struct WatchSpec {
    pub name: String,
    pub start: u16,
    pub length: usize,
}

/// What `parse_watch_spec` returns once the argument has split into
/// name, start and length parts: the watch, or the message of the first
/// failing check — blank name, then start, then length.  The name keeps its
/// spelling; only a blank name is refused.
pub open spec fn spec_watch_outcome(
    name: Seq<char>,
    start_part: Seq<char>,
    len_part: Seq<char>,
    len_has_colon: bool,
) -> Result<(Seq<char>, u16, usize), Seq<char>> {
    if spec_is_blank(name) {
        Err("watch name cannot be empty"@)
    } else {
        match spec_parse_number(start_part, 0xFFFF) {
            Err(e) => Err(spec_num_msg(e)),
            Ok(start) => match spec_parse_number(len_part, usize::MAX as nat) {
                Err(e) => Err(spec_num_msg(e)),
                Ok(length) => if len_has_colon {
                    Err("too many components; expected NAME:START:LEN"@)
                } else if length == 0 {
                    Err("watch length must be greater than zero"@)
                } else {
                    Ok((name, start as u16, length as usize))
                },
            },
        }
    }
}

/// Parses `NAME:START:LEN` into a watch.  The blank-name check runs
/// first; a missing part reports `expected NAME:START:LEN`; a fourth
/// component is refused only after the length part parses.
#[verifier::rlimit(60)]
pub fn parse_watch_spec(arg: &str) -> (r: Result<WatchSpec, String>)
    ensures
        (forall|i: int| 0 <= i < arg@.len() ==> arg@[i] != ':') ==> (r matches Err(m) && m@ == (
        if spec_is_blank(arg@) {
            "watch name cannot be empty"@
        } else {
            "expected NAME:START:LEN"@
        })),
        forall|c: int|
            0 <= c < arg@.len() && arg@[c] == ':' && (forall|j: int| 0 <= j < c ==> arg@[j] != ':')
                ==> {
                let name = arg@.subrange(0, c);
                let rest = arg@.subrange(c + 1, arg@.len() as int);
                if spec_is_blank(name) {
                    r matches Err(m) && m@ == "watch name cannot be empty"@
                } else if forall|j: int| 0 <= j < rest.len() ==> rest[j] != ':' {
                    // only NAME:START: the length part is missing
                    match spec_parse_number(rest, 0xFFFF) {
                        Err(e) => r matches Err(m) && m@ == spec_num_msg(e),
                        Ok(_) => r matches Err(m) && m@ == "expected NAME:START:LEN"@,
                    }
                } else {
                    forall|c2: int, c3: int|
                        0 <= c2 < rest.len() && rest[c2] == ':' && (forall|j: int|
                            0 <= j < c2 ==> rest[j] != ':') && c2 < c3 <= rest.len() && (
                        forall|j: int| c2 < j < c3 ==> rest[j] != ':') && (c3 < rest.len()
                            ==> rest[c3] == ':') ==> {
                            // `c3` is where the length part ends: the next
                            // colon, or the end of the argument.
                            let start_part = rest.subrange(0, c2);
                            let len_part = rest.subrange(c2 + 1, c3);
                            match spec_watch_outcome(name, start_part, len_part, c3 < rest.len()) {
                                Ok(w) => r matches Ok(x) && x.name@ == w.0 && x.start == w.1
                                    && x.length == w.2,
                                Err(msg) => r matches Err(m) && m@ == msg,
                            }
                        }
                }
            },
{
    let n = arg.unicode_len();
    let c1 = find_char_from(arg, 0, ':');
    let name_end = match c1 {
        None => n,
        Some(c) => c,
    };
    if is_blank(arg, name_end) {
        proof {
            if c1 is None {
                assert(arg@.subrange(0, name_end as int) =~= arg@);
            }
        }
        return Err(String::from_str("watch name cannot be empty"));
    }
    let c = match c1 {
        None => {
            proof {
                assert(arg@.subrange(0, name_end as int) =~= arg@);
            }
            return Err(String::from_str("expected NAME:START:LEN"));
        },
        Some(c) => c,
    };
    let name = arg.substring_char(0, c).to_owned();
    let ghost rest = arg@.subrange(c + 1, arg@.len() as int);
    let c2 = match find_char_from(arg, c + 1, ':') {
        None => {
            proof {
                assert forall|j: int| 0 <= j < rest.len() implies rest[j] != ':' by {
                    assert(rest[j] == arg@[j + c + 1]);
                }
                assert(arg@.subrange(c + 1, n as int) == rest);
            }
            let start_str = arg.substring_char(c + 1, n);
            match parse_number_bounded(start_str, 0xFFFF) {
                Err(e) => {
                    return Err(num_msg(e));
                },
                Ok(_) => {
                    return Err(String::from_str("expected NAME:START:LEN"));
                },
            }
        },
        Some(c2) => c2,
    };
    proof {
        assert(rest[c2 - c - 1] == arg@[c2 as int]);
        assert forall|j: int| 0 <= j < c2 - c - 1 implies rest[j] != ':' by {
            assert(rest[j] == arg@[j + c + 1]);
        }
    }
    let ghost start_part = rest.subrange(0, c2 - c - 1);
    proof {
        assert(start_part =~= arg@.subrange(c + 1, c2 as int));
    }
    let start_str = arg.substring_char(c + 1, c2);
    let start = match parse_number_bounded(start_str, 0xFFFF) {
        Err(e) => {
            return Err(num_msg(e));
        },
        Ok(v) => v as u16,
    };
    let c3 = find_char_from(arg, c2 + 1, ':');
    let len_end = match c3 {
        None => n,
        Some(p) => p,
    };
    let ghost len_part = rest.subrange(c2 - c, len_end - c - 1);
    proof {
        assert(len_part =~= arg@.subrange(c2 + 1, len_end as int));
        assert forall|j: int| c2 - c - 1 < j < len_end - c - 1 implies rest[j] != ':' by {
            assert(rest[j] == arg@[j + c + 1]);
        }
        if c3 is Some {
            assert(rest[len_end - c - 1] == arg@[len_end as int]);
        }
    }
    let len_str = arg.substring_char(c2 + 1, len_end);
    let length = match parse_number_bounded(len_str, usize::MAX as u128) {
        Err(e) => {
            return Err(num_msg(e));
        },
        Ok(v) => v as usize,
    };
    if c3.is_some() {
        return Err(String::from_str("too many components; expected NAME:START:LEN"));
    }
    if length == 0 {
        return Err(String::from_str("watch length must be greater than zero"));
    }
    Ok(WatchSpec { name, start, length })
}

/// The character for one hex digit value, upper case.
pub open spec fn spec_hex_digit_char(v: nat) -> char {
    if v == 0 {
        '0'
    } else if v == 1 {
        '1'
    } else if v == 2 {
        '2'
    } else if v == 3 {
        '3'
    } else if v == 4 {
        '4'
    } else if v == 5 {
        '5'
    } else if v == 6 {
        '6'
    } else if v == 7 {
        '7'
    } else if v == 8 {
        '8'
    } else if v == 9 {
        '9'
    } else if v == 10 {
        'A'
    } else if v == 11 {
        'B'
    } else if v == 12 {
        'C'
    } else if v == 13 {
        'D'
    } else if v == 14 {
        'E'
    } else {
        'F'
    }
}

/// The upper-case hex spelling of a byte string, two characters a byte.
pub open spec fn spec_hex_chars(s: Seq<u8>) -> Seq<char>
    decreases s.len(),
{
    if s.len() == 0 {
        Seq::<char>::empty()
    } else {
        spec_hex_chars(s.subrange(0, s.len() - 1)) + seq![
            spec_hex_digit_char((s.last() >> 4) as nat),
            spec_hex_digit_char((s.last() & 0xF) as nat),
        ]
    }
}

/// The string for one hex digit value.
fn hex_digit_str(v: u8) -> (r: &'static str)
    requires
        v < 16,
    ensures
        r@ =~= seq![spec_hex_digit_char(v as nat)],
{
    proof {
        reveal_strlit("0");
        reveal_strlit("1");
        reveal_strlit("2");
        reveal_strlit("3");
        reveal_strlit("4");
        reveal_strlit("5");
        reveal_strlit("6");
        reveal_strlit("7");
        reveal_strlit("8");
        reveal_strlit("9");
        reveal_strlit("A");
        reveal_strlit("B");
        reveal_strlit("C");
        reveal_strlit("D");
        reveal_strlit("E");
        reveal_strlit("F");
    }
    match v {
        0 => "0",
        1 => "1",
        2 => "2",
        3 => "3",
        4 => "4",
        5 => "5",
        6 => "6",
        7 => "7",
        8 => "8",
        9 => "9",
        10 => "A",
        11 => "B",
        12 => "C",
        13 => "D",
        14 => "E",
        _ => "F",
    }
}

/// Upper-case hex encoding of a byte buffer, two digits a byte.
pub fn encode_hex(data: &[u8]) -> (r: String)
    ensures
        r@ == spec_hex_chars(data@),
{
    let n = data.len();
    let mut r = String::new();
    let mut i: usize = 0;
    while i < n
        invariant
            i <= n,
            n == data@.len(),
            r@ == spec_hex_chars(data@.subrange(0, i as int)),
        decreases n - i,
    {
        let b = data[i];
        proof {
            assert(b >> 4 < 16 && b & 0xF < 16) by (bit_vector);
        }
        let hi = b >> 4;
        let lo = b & 0xF;
        r.append(hex_digit_str(hi));
        r.append(hex_digit_str(lo));
        proof {
            let p = data@.subrange(0, i + 1);
            assert(p.subrange(0, p.len() - 1) =~= data@.subrange(0, i as int));
            assert(p.last() == data@[i as int]);
            assert(r@ =~= spec_hex_chars(p));
        }
        i = i + 1;
    }
    proof {
        assert(data@.subrange(0, n as int) =~= data@);
    }
    r
}

/// The decimal spelling of a number, most significant digit first.
pub open spec fn spec_decimal_chars(n: nat) -> Seq<char>
    decreases n,
{
    if n < 10 {
        seq![spec_hex_digit_char(n)]
    } else {
        spec_decimal_chars(n / 10) + seq![spec_hex_digit_char(n % 10)]
    }
}

/// The hex spelling of a number, no leading zeros.
pub open spec fn spec_hex_chars_of(n: nat) -> Seq<char>
    decreases n,
{
    if n < 16 {
        seq![spec_hex_digit_char(n)]
    } else {
        spec_hex_chars_of(n / 16) + seq![spec_hex_digit_char(n % 16)]
    }
}

/// The hex spelling zero-padded to at least four digits.
pub open spec fn spec_hex_padded4(n: nat) -> Seq<char> {
    let h = spec_hex_chars_of(n);
    if h.len() >= 4 {
        h
    } else {
        Seq::new((4 - h.len()) as nat, |i: int| '0') + h
    }
}

/// The digit characters of a least-significant-first digit list, read
/// back most significant first.
pub open spec fn spec_digit_suffix(ds: Seq<u8>) -> Seq<char> {
    Seq::new(ds.len(), |i: int| spec_hex_digit_char(ds[ds.len() - 1 - i] as nat))
}

/// Collects a number's digits in the given base, least significant
/// first.
fn collect_digits(n: usize, base: usize) -> (r: Vec<u8>)
    requires
        base == 10 || base == 16,
    ensures
        r@.len() >= 1,
        base == 10 ==> spec_digit_suffix(r@) == spec_decimal_chars(n as nat),
        base == 16 ==> spec_digit_suffix(r@) == spec_hex_chars_of(n as nat),
        forall|i: int| 0 <= i < r@.len() ==> r@[i] < 16,
{
    let mut digits: Vec<u8> = Vec::new();
    let mut m = n;
    while m >= base
        invariant
            base == 10 || base == 16,
            forall|i: int| 0 <= i < digits@.len() ==> digits@[i] < 16,
            base == 10 ==> spec_decimal_chars(n as nat) =~= spec_decimal_chars(m as nat)
                + spec_digit_suffix(digits@),
            base == 16 ==> spec_hex_chars_of(n as nat) =~= spec_hex_chars_of(m as nat)
                + spec_digit_suffix(digits@),
        decreases m,
    {
        let d = (m % base) as u8;
        let ghost pre = digits@;
        digits.push(d);
        proof {
            assert(spec_digit_suffix(digits@) =~= seq![spec_hex_digit_char(d as nat)]
                + spec_digit_suffix(pre));
            if base == 10 {
                assert(spec_decimal_chars(m as nat) == spec_decimal_chars(m as nat / 10) + seq![
                    spec_hex_digit_char(m as nat % 10),
                ]);
                assert(spec_decimal_chars(n as nat) =~= spec_decimal_chars((m / base) as nat)
                    + spec_digit_suffix(digits@));
            } else {
                assert(spec_hex_chars_of(m as nat) == spec_hex_chars_of(m as nat / 16) + seq![
                    spec_hex_digit_char(m as nat % 16),
                ]);
                assert(spec_hex_chars_of(n as nat) =~= spec_hex_chars_of((m / base) as nat)
                    + spec_digit_suffix(digits@));
            }
        }
        m = m / base;
    }
    let ghost pre = digits@;
    digits.push(m as u8);
    proof {
        assert(spec_digit_suffix(digits@) =~= seq![spec_hex_digit_char(m as nat)]
            + spec_digit_suffix(pre));
        if base == 10 {
            assert(spec_decimal_chars(m as nat) == seq![spec_hex_digit_char(m as nat)]);
            assert(spec_digit_suffix(digits@) =~= spec_decimal_chars(n as nat));
        } else {
            assert(spec_hex_chars_of(m as nat) == seq![spec_hex_digit_char(m as nat)]);
            assert(spec_digit_suffix(digits@) =~= spec_hex_chars_of(n as nat));
        }
    }
    digits
}

/// Appends a digit list to a string, most significant digit first.
fn append_digits(out: &mut String, digits: &Vec<u8>)
    requires
        forall|i: int| 0 <= i < digits@.len() ==> digits@[i] < 16,
    ensures
        final(out)@ == old(out)@ + spec_digit_suffix(digits@),
{
    let n = digits.len();
    let mut k: usize = 0;
    while k < n
        invariant
            n == digits@.len(),
            k <= n,
            forall|i: int| 0 <= i < digits@.len() ==> digits@[i] < 16,
            out@ == old(out)@ + spec_digit_suffix(digits@).subrange(0, k as int),
        decreases n - k,
    {
        out.append(hex_digit_str(digits[n - 1 - k]));
        proof {
            assert(spec_digit_suffix(digits@)[k as int] == spec_hex_digit_char(
                digits@[n - 1 - k] as nat,
            ));
            assert(spec_digit_suffix(digits@).subrange(0, k + 1) =~= spec_digit_suffix(
                digits@,
            ).subrange(0, k as int) + seq![spec_digit_suffix(digits@)[k as int]]);
            assert(out@ =~= old(out)@ + spec_digit_suffix(digits@).subrange(0, k + 1));
        }
        k = k + 1;
    }
    proof {
        assert(spec_digit_suffix(digits@).subrange(0, n as int) =~= spec_digit_suffix(digits@));
        assert(final(out)@ =~= old(out)@ + spec_digit_suffix(digits@));
    }
}

/// Appends a number's decimal spelling.
fn append_decimal(out: &mut String, n: usize)
    ensures
        final(out)@ == old(out)@ + spec_decimal_chars(n as nat),
{
    let digits = collect_digits(n, 10);
    append_digits(out, &digits);
}

/// Appends a number's hex spelling, zero-padded to at least four
/// digits.
fn append_hex_padded4(out: &mut String, n: usize)
    ensures
        final(out)@ == old(out)@ + spec_hex_padded4(n as nat),
{
    let digits = collect_digits(n, 16);
    let ghost at_entry = out@;
    let mut pads: usize = 0;
    let needed = digits.len();
    while pads + needed < 4
        invariant
            needed == digits@.len(),
            needed >= 1,
            pads + needed <= 4 || pads == 0,
            out@ == at_entry + Seq::new(pads as nat, |i: int| '0'),
        decreases 4 - pads - needed,
    {
        proof {
            reveal_strlit("0");
        }
        out.append("0");
        proof {
            assert(out@ =~= at_entry + Seq::new((pads + 1) as nat, |i: int| '0'));
        }
        pads = pads + 1;
    }
    append_digits(out, &digits);
    proof {
        if needed >= 4 {
            assert(pads == 0);
            assert(out@ =~= at_entry + spec_hex_padded4(n as nat));
        } else {
            assert(pads + needed == 4);
            assert(out@ =~= at_entry + spec_hex_padded4(n as nat));
        }
    }
}

/// One line of a hex dump: the offset as `0x` and at least four hex
/// digits, a colon, then each byte as two digits and a space.
pub open spec fn spec_dump_line(offset: nat, chunk: Seq<u8>) -> Seq<char> {
    "0x"@ + spec_hex_padded4(offset) + ": "@ + spec_hex_with_spaces(chunk)
}

/// Bytes as space-terminated hex pairs.
pub open spec fn spec_hex_with_spaces(s: Seq<u8>) -> Seq<char>
    decreases s.len(),
{
    if s.len() == 0 {
        Seq::<char>::empty()
    } else {
        spec_hex_with_spaces(s.subrange(0, s.len() - 1)) + seq![
            spec_hex_digit_char((s.last() >> 4) as nat),
            spec_hex_digit_char((s.last() & 0xF) as nat),
            ' ',
        ]
    }
}

/// The header line of a dump of `len` bytes starting at `start`.
pub open spec fn spec_dump_header(start: u16, len: nat) -> Seq<char> {
    "Dumping "@ + spec_decimal_chars(len) + " bytes from 0x"@ + spec_hex_padded4(start as nat)
}

/// Renders a memory dump the way it is printed: a header naming the
/// byte count and start address, then one line per 16-byte chunk, each
/// line its offset and its bytes in hex.
pub fn format_dump_lines(start: u16, data: &[u8]) -> (r: Vec<String>)
    requires
        data@.len() + 0x2_0000 <= usize::MAX,
    ensures
        r@.len() == 1 + (data@.len() + 15) / 16,
        r@[0]@ == spec_dump_header(start, data@.len()),
        forall|c: int|
            0 <= c < (data@.len() + 15) / 16 ==> (#[trigger] r@[c + 1])@ == spec_dump_line(
                (start + 16 * c) as nat,
                data@.subrange(16 * c, (if 16 * c + 16 <= data@.len() {
                    16 * c + 16
                } else {
                    data@.len() as int
                })),
            ),
{
    let n = data.len();
    let mut r: Vec<String> = Vec::new();
    let mut header = String::new();
    header.append("Dumping ");
    append_decimal(&mut header, n);
    header.append(" bytes from 0x");
    append_hex_padded4(&mut header, start as usize);
    r.push(header);
    let mut pos: usize = 0;
    let ghost chunk_count = (data@.len() + 15) / 16;
    while pos < n
        invariant
            n == data@.len(),
            n + 0x2_0000 <= usize::MAX,
            pos <= n + 15,
            pos % 16 == 0,
            pos < n + 16,
            r@.len() == 1 + pos / 16,
            r@[0]@ == spec_dump_header(start, data@.len()),
            forall|c: int|
                0 <= c < pos / 16 ==> (#[trigger] r@[c + 1])@ == spec_dump_line(
                    (start + 16 * c) as nat,
                    data@.subrange(16 * c, (if 16 * c + 16 <= data@.len() {
                        16 * c + 16
                    } else {
                        data@.len() as int
                    })),
                ),
        decreases n + 16 - pos,
    {
        let chunk_end = if pos + 16 <= n {
            pos + 16
        } else {
            n
        };
        let mut line = String::new();
        line.append("0x");
        append_hex_padded4(&mut line, (start as usize) + pos);
        line.append(": ");
        let mut k = pos;
        while k < chunk_end
            invariant
                pos <= k <= chunk_end <= n,
                n == data@.len(),
                line@ == "0x"@ + spec_hex_padded4((start + pos) as nat) + ": "@
                    + spec_hex_with_spaces(data@.subrange(pos as int, k as int)),
            decreases chunk_end - k,
        {
            let b = data[k];
            proof {
                assert(b >> 4 < 16 && b & 0xF < 16) by (bit_vector);
            }
            line.append(hex_digit_str(b >> 4));
            line.append(hex_digit_str(b & 0xF));
            proof {
                reveal_strlit(" ");
            }
            line.append(" ");
            proof {
                let p = data@.subrange(pos as int, k + 1);
                assert(p.subrange(0, p.len() - 1) =~= data@.subrange(pos as int, k as int));
                assert(p.last() == data@[k as int]);
                assert(line@ =~= "0x"@ + spec_hex_padded4((start + pos) as nat) + ": "@
                    + spec_hex_with_spaces(p));
            }
            k = k + 1;
        }
        let ghost pre = r@;
        r.push(line);
        proof {
            let c = pos as int / 16;
            assert(16 * c == pos);
            assert(r@[c + 1]@ == spec_dump_line(
                (start + 16 * c) as nat,
                data@.subrange(16 * c, (if 16 * c + 16 <= data@.len() {
                    16 * c + 16
                } else {
                    data@.len() as int
                })),
            ));
            assert forall|cc: int|
                0 <= cc < c + 1 implies (#[trigger] r@[cc + 1])@ == spec_dump_line(
                (start + 16 * cc) as nat,
                data@.subrange(16 * cc, (if 16 * cc + 16 <= data@.len() {
                    16 * cc + 16
                } else {
                    data@.len() as int
                })),
            ) by {
                if cc < c {
                    assert(r@[cc + 1] == pre[cc + 1]);
                }
            }
        }
        pos = pos + 16;
    }
    proof {
        assert(pos / 16 == (n + 15) as int / 16);
    }
    r
}

/// How a one-shot memory dump is written out.
#[derive(Clone, Copy, Debug, PartialEq, Eq, Structural)]
pub enum DumpFormat {
    Hex,
    Binary,
}

/// How watch records are serialized.
#[derive(Clone, Copy, Debug, PartialEq, Eq, Structural)]
pub enum WatchFormat {
    Json,
}

/// Where watch records go.
#[derive(Clone, Debug, PartialEq, Eq)]
pub enum WatchOutput {
    Stdout,
    File(String),
}

/// The validated configuration of a watch-recording session: at least
/// one watch, and the chosen record format.  The host owns the output
/// stream and writes the records.
#[derive(Clone, Debug)]
pub struct AutomationRecorder {
    pub specs: Vec<WatchSpec>,
    pub format: WatchFormat,
}

impl AutomationRecorder {
    /// Accepts exactly the non-empty watch lists.
    pub fn new(specs: Vec<WatchSpec>, format: WatchFormat) -> (r: Result<
        AutomationRecorder,
        String,
    >)
        ensures
            specs@.len() == 0 ==> (r matches Err(m) && m@
                == "at least one watch must be specified"@),
            specs@.len() > 0 ==> (r matches Ok(a) && a.specs == specs && a.format == format),
    {
        if specs.is_empty() {
            return Err(String::from_str("at least one watch must be specified"));
        }
        Ok(AutomationRecorder { specs, format })
    }
}

} // verus!

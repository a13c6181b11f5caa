//! A generic JSON document model and a verified parser for it.
//!
//! The response of the weather API is first parsed into this untyped tree,
//! so that a payload of the wrong shape can still be inspected, and then
//! mapped onto the typed snapshot.
//!
//! Numbers are read in fixed point, as thousandths of the written value,
//! truncated toward zero below a thousandth: the literal `44.34` becomes
//! `44_340`, the literal `0.0001` becomes `0`. A number is rejected when
//! its mantissa has more than 18 digits, its exponent more than 4, or its
//! value in thousandths exceeds `i64::MAX` in magnitude. Nesting is
//! bounded at the same depth the usual JSON readers use, so arbitrarily
//! nested input cannot exhaust the stack.

use vstd::prelude::*;
use vstd::std_specs::iter::IteratorSpec;

verus! {

/// A parsed JSON document.
///
/// `Num(n)` holds the written number in thousandths: `Num(44_340)` stands
/// for the literal `44.34`.
#[derive(Debug)]
pub enum JsonValue {
    Null,
    Bool(bool),
    Num(i64),
    Str(String),
    Arr(Vec<JsonValue>),
    Obj(Vec<(String, JsonValue)>),
}

/// The mathematical model of a [`JsonValue`]: the same tree with every
/// `Vec` and `String` replaced by its view.
pub enum JsonTree {
    Null,
    Bool(bool),
    Num(i64),
    Str(Seq<char>),
    Arr(Seq<JsonTree>),
    Obj(Seq<(Seq<char>, JsonTree)>),
}

/// The trees of a sequence of JSON values, element by element.
pub open spec fn trees_of(vs: Seq<JsonValue>) -> Seq<JsonTree>
    decreases vs,
{
    Seq::new(
        vs.len(),
        |i: int|
            if 0 <= i < vs.len() {
                vs[i].tree()
            } else {
                JsonTree::Null
            },
    )
}

/// The trees of a sequence of object members, element by element.
pub open spec fn member_trees_of(ms: Seq<(String, JsonValue)>) -> Seq<(Seq<char>, JsonTree)>
    decreases ms,
{
    Seq::new(
        ms.len(),
        |i: int|
            if 0 <= i < ms.len() {
                (ms[i].0@, ms[i].1.tree())
            } else {
                (Seq::<char>::empty(), JsonTree::Null)
            },
    )
}

impl JsonValue {
    /// The tree this value stands for.
    pub open spec fn tree(self) -> JsonTree
        decreases self,
    {
        match self {
            JsonValue::Null => JsonTree::Null,
            JsonValue::Bool(b) => JsonTree::Bool(b),
            JsonValue::Num(n) => JsonTree::Num(n),
            JsonValue::Str(s) => JsonTree::Str(s@),
            JsonValue::Arr(items) => JsonTree::Arr(trees_of(items@)),
            JsonValue::Obj(members) => JsonTree::Obj(member_trees_of(members@)),
        }
    }
}

/// How deep a document may nest before the parser rejects it, the common
/// recursion limit of JSON readers.
pub open spec fn spec_depth_limit() -> nat {
    128
}

/// JSON whitespace.
pub open spec fn is_ws(c: char) -> bool {
    c == ' ' || c == '\n' || c == '\r' || c == '\t'
}

/// A decimal digit.
pub open spec fn is_digit(c: char) -> bool {
    '0' as u32 <= c as u32 <= '9' as u32
}

/// The value of a decimal digit.
pub open spec fn digit_val(c: char) -> int {
    c as u32 - '0' as u32
}

/// A hexadecimal digit.
pub open spec fn is_hex(c: char) -> bool {
    is_digit(c) || 'a' as u32 <= c as u32 <= 'f' as u32 || 'A' as u32 <= c as u32 <= 'F' as u32
}

/// The value of a hexadecimal digit.
pub open spec fn hex_val(c: char) -> int {
    if is_digit(c) {
        digit_val(c)
    } else if 'a' as u32 <= c as u32 <= 'f' as u32 {
        c as u32 - 'a' as u32 + 10
    } else {
        c as u32 - 'A' as u32 + 10
    }
}

/// The length of the whitespace run starting at `i`.
pub open spec fn ws_run(s: Seq<char>, i: int) -> nat
    decreases s.len() - i,
{
    if 0 <= i < s.len() && is_ws(s[i]) {
        (1 + ws_run(s, i + 1)) as nat
    } else {
        0
    }
}

/// The length of the digit run starting at `i`.
pub open spec fn digit_run(s: Seq<char>, i: int) -> nat
    decreases s.len() - i,
{
    if 0 <= i < s.len() && is_digit(s[i]) {
        (1 + digit_run(s, i + 1)) as nat
    } else {
        0
    }
}

/// The value of the `n` digits starting at `i`, read as a decimal numeral.
pub open spec fn digits_value(s: Seq<char>, i: int, n: nat) -> int
    decreases n,
{
    if n == 0 {
        0
    } else {
        digits_value(s, i, (n - 1) as nat) * 10 + digit_val(s[i + n - 1])
    }
}

/// Ten to the `n`.
pub open spec fn pow10(n: nat) -> int
    decreases n,
{
    if n == 0 {
        1
    } else {
        10 * pow10((n - 1) as nat)
    }
}

/// One escape sequence, read just after the backslash; yields the character
/// it denotes and how many characters it occupies after the backslash.
/// A `\u` escape must name a Unicode scalar value: surrogate halves are
/// rejected.
pub open spec fn spec_escape(s: Seq<char>, i: int) -> Option<(char, nat)> {
    if !(0 <= i < s.len()) {
        None
    } else {
        let c = s[i];
        if c == '"' {
            Some(('"', 1))
        } else if c == '\\' {
            Some(('\\', 1))
        } else if c == '/' {
            Some(('/', 1))
        } else if c == 'b' {
            Some(('\u{8}', 1))
        } else if c == 'f' {
            Some(('\u{c}', 1))
        } else if c == 'n' {
            Some(('\n', 1))
        } else if c == 'r' {
            Some(('\r', 1))
        } else if c == 't' {
            Some(('\t', 1))
        } else if c == 'u' {
            if i + 4 < s.len() && is_hex(s[i + 1]) && is_hex(s[i + 2]) && is_hex(s[i + 3])
                && is_hex(s[i + 4]) {
                let code = ((hex_val(s[i + 1]) * 16 + hex_val(s[i + 2])) * 16 + hex_val(s[i + 3]))
                    * 16 + hex_val(s[i + 4]);
                if code < 0xD800 || code > 0xDFFF {
                    Some(((code as u32) as char, 5))
                } else {
                    None
                }
            } else {
                None
            }
        } else {
            None
        }
    }
}

/// The body of a string literal, read just after the opening quote; yields
/// the decoded characters and how many input characters were consumed, the
/// closing quote included. Raw control characters are rejected.
pub open spec fn spec_string_body(s: Seq<char>, i: int) -> Option<(Seq<char>, nat)>
    decreases s.len() - i,
{
    if !(0 <= i < s.len()) {
        None
    } else if s[i] == '"' {
        Some((Seq::empty(), 1))
    } else if s[i] == '\\' {
        match spec_escape(s, i + 1) {
            None => None,
            Some((c, k)) => if i + 1 + k <= s.len() {
                match spec_string_body(s, i + 1 + k) {
                    None => None,
                    Some((rest, m)) => Some((seq![c] + rest, (1 + k + m) as nat)),
                }
            } else {
                None
            },
        }
    } else if (s[i] as u32) < 32 {
        None
    } else {
        match spec_string_body(s, i + 1) {
            None => None,
            Some((rest, m)) => Some((seq![s[i]] + rest, (1 + m) as nat)),
        }
    }
}

/// A number, read at its first character. Yields its value in thousandths
/// and the count of characters consumed, under the limits this parser
/// documents: at most 18 digits of mantissa and 4 of exponent, magnitude
/// at most `i64::MAX` thousandths, anything below a thousandth truncated
/// toward zero.
pub open spec fn spec_number(s: Seq<char>, i: int) -> Option<(i64, nat)> {
    if !(0 <= i < s.len()) {
        None
    } else {
        let neg = s[i] == '-';
        let i0 = if neg {
            i + 1
        } else {
            i
        };
        let ilen = digit_run(s, i0);
        let i1 = i0 + ilen;
        let has_frac = i1 < s.len() && s[i1] == '.';
        let flen: nat = if has_frac {
            digit_run(s, i1 + 1)
        } else {
            0
        };
        let i2 = if has_frac {
            i1 + 1 + flen
        } else {
            i1
        };
        let has_exp = i2 < s.len() && (s[i2] == 'e' || s[i2] == 'E');
        let has_esign = has_exp && i2 + 1 < s.len() && (s[i2 + 1] == '+' || s[i2 + 1] == '-');
        let eneg = has_esign && s[i2 + 1] == '-';
        let estart = if has_esign {
            i2 + 2
        } else {
            i2 + 1
        };
        let elen: nat = if has_exp {
            digit_run(s, estart)
        } else {
            0
        };
        if ilen == 0 || (ilen > 1 && s[i0] == '0') || (has_frac && flen == 0) || ilen + flen
            > 18 || (has_exp && (elen == 0 || elen > 4)) {
            None
        } else {
            let mantissa = digits_value(s, i0, ilen) * pow10(flen) + if has_frac {
                digits_value(s, i1 + 1, flen)
            } else {
                0
            };
            let expv = if has_exp {
                digits_value(s, estart, elen)
            } else {
                0
            };
            let scale = (if eneg {
                -expv
            } else {
                expv
            }) + 3 - flen;
            let mag = if scale >= 0 {
                mantissa * pow10(scale as nat)
            } else {
                mantissa / pow10((-scale) as nat)
            };
            let consumed = (i2 - i + if has_exp {
                (if has_esign {
                    2int
                } else {
                    1int
                }) + elen
            } else {
                0int
            }) as nat;
            if mag > i64::MAX {
                None
            } else {
                Some(((if neg { -mag } else { mag }) as i64, consumed))
            }
        }
    }
}

/// The literal `true` starts at `i`.
pub open spec fn has_true(s: Seq<char>, i: int) -> bool {
    i + 4 <= s.len() && s[i] == 't' && s[i + 1] == 'r' && s[i + 2] == 'u' && s[i + 3] == 'e'
}

/// The literal `false` starts at `i`.
pub open spec fn has_false(s: Seq<char>, i: int) -> bool {
    i + 5 <= s.len() && s[i] == 'f' && s[i + 1] == 'a' && s[i + 2] == 'l' && s[i + 3] == 's' && s[i
        + 4] == 'e'
}

/// The literal `null` starts at `i`.
pub open spec fn has_null(s: Seq<char>, i: int) -> bool {
    i + 4 <= s.len() && s[i] == 'n' && s[i + 1] == 'u' && s[i + 2] == 'l' && s[i + 3] == 'l'
}

/// One JSON value, read at its first token character. Yields its tree and
/// the count of characters consumed. `depth` bounds how deep arrays and
/// objects may still nest.
pub open spec fn spec_value(s: Seq<char>, i: int, depth: nat) -> Option<(JsonTree, nat)>
    decreases s.len() - i, 0int,
{
    if !(0 <= i < s.len()) {
        None
    } else {
        let c = s[i];
        if c == '"' {
            match spec_string_body(s, i + 1) {
                None => None,
                Some((cs, m)) => Some((JsonTree::Str(cs), (1 + m) as nat)),
            }
        } else if c == '-' || is_digit(c) {
            match spec_number(s, i) {
                None => None,
                Some((v, m)) => Some((JsonTree::Num(v), m)),
            }
        } else if c == 't' {
            if has_true(s, i) {
                Some((JsonTree::Bool(true), 4))
            } else {
                None
            }
        } else if c == 'f' {
            if has_false(s, i) {
                Some((JsonTree::Bool(false), 5))
            } else {
                None
            }
        } else if c == 'n' {
            if has_null(s, i) {
                Some((JsonTree::Null, 4))
            } else {
                None
            }
        } else if c == '[' {
            if depth == 0 {
                None
            } else {
                let j = i + 1 + ws_run(s, i + 1);
                if j < s.len() && s[j] == ']' {
                    Some((JsonTree::Arr(Seq::empty()), (j - i + 1) as nat))
                } else if j <= s.len() {
                    match spec_elems(s, j, (depth - 1) as nat) {
                        None => None,
                        Some((items, m)) => Some((JsonTree::Arr(items), (j - i + m) as nat)),
                    }
                } else {
                    None
                }
            }
        } else if c == '{' {
            if depth == 0 {
                None
            } else {
                let j = i + 1 + ws_run(s, i + 1);
                if j < s.len() && s[j] == '}' {
                    Some((JsonTree::Obj(Seq::empty()), (j - i + 1) as nat))
                } else if j <= s.len() {
                    match spec_members(s, j, (depth - 1) as nat) {
                        None => None,
                        Some((ms, m)) => Some((JsonTree::Obj(ms), (j - i + m) as nat)),
                    }
                } else {
                    None
                }
            }
        } else {
            None
        }
    }
}

/// One or more array elements, read at the first character of the first
/// element, up to and including the closing bracket.
pub open spec fn spec_elems(s: Seq<char>, i: int, depth: nat) -> Option<(Seq<JsonTree>, nat)>
    decreases s.len() - i, 1int,
{
    if !(0 <= i < s.len()) {
        None
    } else {
        match spec_value(s, i, depth) {
            None => None,
            Some((v, m)) => {
                let j = i + m + ws_run(s, i + m);
                if j < s.len() && s[j] == ',' {
                    let j2 = j + 1 + ws_run(s, j + 1);
                    if j2 <= s.len() {
                        match spec_elems(s, j2, depth) {
                            None => None,
                            Some((rest, m2)) => Some((seq![v] + rest, (j2 - i + m2) as nat)),
                        }
                    } else {
                        None
                    }
                } else if j < s.len() && s[j] == ']' {
                    Some((seq![v], (j - i + 1) as nat))
                } else {
                    None
                }
            },
        }
    }
}

/// One or more object members, read at the opening quote of the first key,
/// up to and including the closing brace.
pub open spec fn spec_members(s: Seq<char>, i: int, depth: nat) -> Option<
    (Seq<(Seq<char>, JsonTree)>, nat),
>
    decreases s.len() - i, 1int,
{
    if !(0 <= i < s.len()) {
        None
    } else if s[i] != '"' {
        None
    } else {
        match spec_string_body(s, i + 1) {
            None => None,
            Some((key, mk)) => {
                let j = i + 1 + mk + ws_run(s, i + 1 + mk);
                if j < s.len() && s[j] == ':' {
                    let j2 = j + 1 + ws_run(s, j + 1);
                    if j2 <= s.len() {
                        match spec_value(s, j2, depth) {
                            None => None,
                            Some((v, mv)) => {
                                let k = j2 + mv + ws_run(s, j2 + mv);
                                if k < s.len() && s[k] == ',' {
                                    let k2 = k + 1 + ws_run(s, k + 1);
                                    if k2 <= s.len() {
                                        match spec_members(s, k2, depth) {
                                            None => None,
                                            Some((rest, m2)) => Some(
                                                (seq![(key, v)] + rest, (k2 - i + m2) as nat),
                                            ),
                                        }
                                    } else {
                                        None
                                    }
                                } else if k < s.len() && s[k] == '}' {
                                    Some((seq![(key, v)], (k - i + 1) as nat))
                                } else {
                                    None
                                }
                            },
                        }
                    } else {
                        None
                    }
                } else {
                    None
                }
            },
        }
    }
}

/// A whole JSON document: one value, surrounded by nothing but whitespace.
pub open spec fn spec_document(s: Seq<char>) -> Option<JsonTree> {
    let i = ws_run(s, 0) as int;
    if i <= s.len() {
        match spec_value(s, i, spec_depth_limit()) {
            None => None,
            Some((t, m)) => {
                let j = i + m + ws_run(s, i + m);
                if j == s.len() {
                    Some(t)
                } else {
                    None
                }
            },
        }
    } else {
        None
    }
}

// ---------------------------------------------------------------------------
// Facts about digit runs, digit values and powers of ten.
// ---------------------------------------------------------------------------

proof fn lemma_pow10_pos(n: nat)
    ensures
        pow10(n) >= 1,
    decreases n,
{
    if n > 0 {
        lemma_pow10_pos((n - 1) as nat);
    }
}

proof fn lemma_pow10_mono(a: nat, b: nat)
    requires
        a <= b,
    ensures
        pow10(a) <= pow10(b),
    decreases b,
{
    if a < b {
        lemma_pow10_mono(a, (b - 1) as nat);
        lemma_pow10_pos((b - 1) as nat);
    }
}

proof fn lemma_pow10_add(a: nat, b: nat)
    ensures
        pow10((a + b) as nat) == pow10(a) * pow10(b),
    decreases a,
{
    if a == 0 {
    } else {
        lemma_pow10_add((a - 1) as nat, b);
        assert(pow10((a + b) as nat) == 10 * pow10((a - 1 + b) as nat));
        assert(10 * (pow10((a - 1) as nat) * pow10(b)) == (10 * pow10((a - 1) as nat)) * pow10(
            b,
        )) by (nonlinear_arith);
    }
}

/// Every character inside a digit run is a digit, and lies inside the text.
proof fn lemma_digit_run_digits(s: Seq<char>, i: int, k: int)
    requires
        0 <= i <= k,
        k < i + digit_run(s, i),
    ensures
        k < s.len(),
        is_digit(s[k]),
    decreases k - i,
{
    if k > i {
        lemma_digit_run_digits(s, i + 1, k);
    }
}

/// The value of `n` digits is nonnegative and below the `n`-th power of ten.
proof fn lemma_digits_value_bound(s: Seq<char>, i: int, n: nat)
    requires
        forall|k: int| i <= k < i + n ==> is_digit(#[trigger] s[k]),
    ensures
        0 <= digits_value(s, i, n) < pow10(n),
    decreases n,
{
    if n > 0 {
        lemma_digits_value_bound(s, i, (n - 1) as nat);
        assert(is_digit(s[i + n - 1]));
    }
}

// ---------------------------------------------------------------------------
// Scanning helpers.
// ---------------------------------------------------------------------------

/// Whether a character is JSON whitespace.
fn is_ws_char(c: char) -> (r: bool)
    ensures
        r == is_ws(c),
{
    c == ' ' || c == '\n' || c == '\r' || c == '\t'
}

/// Whether a character is a decimal digit.
fn is_digit_char(c: char) -> (r: bool)
    ensures
        r == is_digit(c),
{
    let u = c as u32;
    48 <= u && u <= 57
}

/// The first position at or after `i` that holds no whitespace.
fn ws_skip(s: &Vec<char>, i: usize) -> (r: usize)
    requires
        i <= s@.len(),
    ensures
        r == i + ws_run(s@, i as int),
        i <= r <= s@.len(),
{
    let mut j = i;
    loop
        invariant
            i <= j <= s@.len(),
            ws_run(s@, i as int) == j - i + ws_run(s@, j as int),
        decreases s@.len() - j,
    {
        if j < s.len() && is_ws_char(s[j]) {
            j = j + 1;
        } else {
            assert(ws_run(s@, j as int) == 0);
            return j;
        }
    }
}

/// The first position at or after `i` that holds no digit.
fn digit_skip(s: &Vec<char>, i: usize) -> (r: usize)
    requires
        i <= s@.len(),
    ensures
        r == i + digit_run(s@, i as int),
        i <= r <= s@.len(),
{
    let mut j = i;
    loop
        invariant
            i <= j <= s@.len(),
            digit_run(s@, i as int) == j - i + digit_run(s@, j as int),
        decreases s@.len() - j,
    {
        if j < s.len() && is_digit_char(s[j]) {
            j = j + 1;
        } else {
            assert(digit_run(s@, j as int) == 0);
            return j;
        }
    }
}

/// Ten to the `n`, executably.
fn pow10_u64(n: usize) -> (r: u64)
    requires
        n <= 18,
    ensures
        r == pow10(n as nat),
{
    let mut acc: u64 = 1;
    let mut k: usize = 0;
    while k < n
        invariant
            k <= n <= 18,
            acc == pow10(k as nat),
        decreases n - k,
    {
        proof {
            lemma_pow10_mono((k + 1) as nat, 18);
            reveal_with_fuel(pow10, 19);
        }
        acc = acc * 10;
        k = k + 1;
    }
    acc
}

/// The value of the `n` digits starting at `i`, as a 64-bit integer.
fn digits_val_u64(s: &Vec<char>, i: usize, n: usize) -> (r: u64)
    requires
        n <= 18,
        digit_run(s@, i as int) >= n,
        i + n <= s@.len(),
    ensures
        r == digits_value(s@, i as int, n as nat),
        r < pow10(n as nat),
{
    proof {
        assert forall|k: int| i <= k < i + n implies is_digit(#[trigger] s@[k]) by {
            lemma_digit_run_digits(s@, i as int, k);
        }
        lemma_digits_value_bound(s@, i as int, n as nat);
    }
    let slen = s.len();
    let mut acc: u64 = 0;
    let mut k: usize = 0;
    while k < n
        invariant
            k <= n <= 18,
            i + n <= slen == s@.len(),
            forall|t: int| i <= t < i + n ==> is_digit(#[trigger] s@[t]),
            acc == digits_value(s@, i as int, k as nat),
            acc < pow10(k as nat),
        decreases n - k,
    {
        proof {
            lemma_digits_value_bound(s@, i as int, (k + 1) as nat);
            lemma_pow10_mono((k + 1) as nat, 18);
            reveal_with_fuel(pow10, 19);
        }
        let c = s[i + k];
        proof {
            assert(is_digit(s@[i + k]));
        }
        let d = (c as u32) - 48;
        acc = acc * 10 + (d as u64);
        k = k + 1;
    }
    acc
}

/// Scales a mantissa by a signed power of ten, truncating toward zero, and
/// rejects a result beyond `i64::MAX`.
fn milli_magnitude(mant: u64, scale_i: i64) -> (r: Option<u64>)
    requires
        mant < 1000000000000000000,
        -30_000 <= scale_i <= 30_000,
    ensures
        ({
            let mag = if scale_i >= 0 {
                (mant as int) * pow10(scale_i as nat)
            } else {
                (mant as int) / pow10((-scale_i) as nat)
            };
            match r {
                Some(m) => mag <= i64::MAX && m == mag,
                None => mag > i64::MAX,
            }
        }),
{
    if mant == 0 {
        proof {
            if scale_i < 0 {
                lemma_pow10_pos((-scale_i) as nat);
            }
        }
        return Some(0);
    }
    if scale_i >= 19 {
        proof {
            lemma_pow10_mono(19, scale_i as nat);
            reveal_with_fuel(pow10, 20);
            assert(mant * pow10(scale_i as nat) >= pow10(scale_i as nat)) by (nonlinear_arith)
                requires
                    mant >= 1,
                    pow10(scale_i as nat) >= 1,
            ;
        }
        return None;
    }
    if scale_i >= 0 {
        let p2 = pow10_u64(scale_i as usize);
        proof {
            lemma_pow10_mono(scale_i as nat, 18);
            reveal_with_fuel(pow10, 19);
            assert(mant * p2 < 1000000000000000000000000000000000000) by (nonlinear_arith)
                requires
                    0 <= mant < 1000000000000000000,
                    0 <= p2 <= 1000000000000000000,
            ;
        }
        let wide = (mant as u128) * (p2 as u128);
        if wide > 0x7fff_ffff_ffff_ffff {
            return None;
        }
        return Some(wide as u64);
    }
    let k = -scale_i;
    if k >= 19 {
        proof {
            lemma_pow10_mono(19, k as nat);
            reveal_with_fuel(pow10, 20);
            vstd::arithmetic::div_mod::lemma_basic_div(mant as int, pow10(k as nat));
        }
        Some(0)
    } else {
        let p2 = pow10_u64(k as usize);
        proof {
            lemma_pow10_pos(k as nat);
            assert(mant / p2 <= mant) by (nonlinear_arith)
                requires
                    p2 >= 1,
                    mant >= 0,
            ;
        }
        Some(mant / p2)
    }
}

/// A number at `i`, as [`spec_number`] reads it.
#[verifier::rlimit(100)]
fn parse_number_at(s: &Vec<char>, i: usize) -> (r: Option<(i64, usize)>)
    requires
        i < s@.len(),
    ensures
        (match spec_number(s@, i as int) {
            None => r is None,
            Some((v, m)) => r matches Some((rv, rm)) && rv == v && rm == m && 1 <= m && i + m
                <= s@.len(),
        }),
{
    let slen = s.len();
    let neg = s[i] == '-';
    let i0 = if neg {
        i + 1
    } else {
        i
    };
    let i1 = digit_skip(s, i0);
    let ilen = i1 - i0;
    if ilen == 0 {
        return None;
    }
    if ilen > 1 && s[i0] == '0' {
        return None;
    }
    let has_frac = i1 < slen && s[i1] == '.';
    let (fstart, flen) = if has_frac {
        let fs = i1 + 1;
        let f1 = digit_skip(s, fs);
        (fs, f1 - fs)
    } else {
        (i1, 0)
    };
    if has_frac && flen == 0 {
        return None;
    }
    if ilen + flen > 18 {
        return None;
    }
    let i2 = if has_frac {
        i1 + 1 + flen
    } else {
        i1
    };
    let has_exp = i2 < slen && (s[i2] == 'e' || s[i2] == 'E');
    let (has_esign, eneg, estart, elen) = if has_exp {
        let hs = i2 + 1 < slen && (s[i2 + 1] == '+' || s[i2 + 1] == '-');
        let en = hs && s[i2 + 1] == '-';
        let es = if hs {
            i2 + 2
        } else {
            i2 + 1
        };
        let e1 = digit_skip(s, es);
        (hs, en, es, e1 - es)
    } else {
        (false, false, i2, 0)
    };
    if has_exp && (elen == 0 || elen > 4) {
        return None;
    }
    proof {
        lemma_pow10_add(ilen as nat, flen as nat);
        lemma_pow10_mono((ilen + flen) as nat, 18);
        lemma_pow10_mono(elen as nat, 4);
        lemma_pow10_pos(flen as nat);
        reveal_with_fuel(pow10, 19);
    }
    let iv = digits_val_u64(s, i0, ilen);
    let fv = if has_frac {
        digits_val_u64(s, fstart, flen)
    } else {
        0
    };
    let p = pow10_u64(flen);
    assert(iv * p + fv < pow10(ilen as nat) * pow10(flen as nat)) by (nonlinear_arith)
        requires
            iv < pow10(ilen as nat),
            fv < pow10(flen as nat),
            p == pow10(flen as nat),
            iv >= 0,
            fv >= 0,
            p >= 1,
    ;
    let mant = iv * p + fv;
    let ev = if has_exp {
        digits_val_u64(s, estart, elen)
    } else {
        0
    };
    let scale_i: i64 = (if eneg {
        -(ev as i64)
    } else {
        ev as i64
    }) + 3 - (flen as i64);
    let mag: u64 = match milli_magnitude(mant, scale_i) {
        Some(m) => m,
        None => {
            return None;
        },
    };
    let value: i64 = if neg {
        -(mag as i64)
    } else {
        mag as i64
    };
    let consumed = i2 - i + (if has_exp {
        (if has_esign {
            2
        } else {
            1
        }) + elen
    } else {
        0
    });
    Some((value, consumed))
}

// ---------------------------------------------------------------------------
// Characters and strings at the std boundary.
// ---------------------------------------------------------------------------

/// Relies on char::from_u32: `Some` exactly on Unicode scalar values (no
/// surrogates, nothing past the last code point), and the character converts
/// back to the same code.
pub assume_specification[ char::from_u32 ](i: u32) -> (r: Option<char>)
    ensures
        (r is Some) == (i < 0xD800 || (0xE000 <= i && i <= 0x10FFFF)),
        r matches Some(c) ==> c as u32 == i,
;

/// Relies on String::from_iter: collecting characters builds the string of
/// exactly those characters.
#[verifier::external_body]
pub(crate) fn chars_to_string(v: Vec<char>) -> (r: String)
    ensures
        r@ == v@,
{
    String::from_iter(v)
}

/// The characters of a string slice, in order.
fn str_to_chars(s: &str) -> (v: Vec<char>)
    ensures
        v@ == s@,
{
    broadcast use vstd::string::axiom_spec_iter, vstd::string::next_postcondition;

    let mut it = s.chars();
    let mut v: Vec<char> = Vec::new();
    loop
        invariant
            it.obeys_prophetic_iter_laws(),
            v@.len() + it.remaining().len() == s@.len(),
            v@ + it.remaining() == s@,
        decreases s@.len() - v@.len(),
    {
        let ghost old_rem = it.remaining();
        let ghost old_v = v@;
        match it.next() {
            Some(c) => {
                v.push(c);
                proof {
                    assert(old_v.push(c) + old_rem.drop_first() =~= old_v + old_rem);
                }
            },
            None => {
                proof {
                    assert(v@ =~= s@);
                }
                return v;
            },
        }
    }
}

// ---------------------------------------------------------------------------
// String literals.
// ---------------------------------------------------------------------------

/// Whether a character is a hexadecimal digit.
fn is_hex_char(c: char) -> (r: bool)
    ensures
        r == is_hex(c),
{
    let u = c as u32;
    (48 <= u && u <= 57) || (97 <= u && u <= 102) || (65 <= u && u <= 70)
}

/// The value of a hexadecimal digit.
fn hex_val_char(c: char) -> (r: u32)
    requires
        is_hex(c),
    ensures
        r == hex_val(c),
        r <= 15,
{
    let u = c as u32;
    if u <= 57 {
        u - 48
    } else if u >= 97 {
        u - 97 + 10
    } else {
        u - 65 + 10
    }
}

/// One escape sequence at `i`, as [`spec_escape`] reads it.
fn escape_at(s: &Vec<char>, i: usize) -> (r: Option<(char, usize)>)
    requires
        i <= s@.len(),
    ensures
        (match spec_escape(s@, i as int) {
            None => r is None,
            Some((c, k)) => r matches Some((rc, rk)) && rc == c && rk == k && 1 <= k && i + k
                <= s@.len(),
        }),
{
    let slen = s.len();
    if i >= slen {
        return None;
    }
    let c = s[i];
    match c {
        '"' => Some(('"', 1)),
        '\\' => Some(('\\', 1)),
        '/' => Some(('/', 1)),
        'b' => Some(('\u{8}', 1)),
        'f' => Some(('\u{c}', 1)),
        'n' => Some(('\n', 1)),
        'r' => Some(('\r', 1)),
        't' => Some(('\t', 1)),
        'u' => {
            if slen - i > 4 && is_hex_char(s[i + 1]) && is_hex_char(s[i + 2]) && is_hex_char(
                s[i + 3],
            ) && is_hex_char(s[i + 4]) {
                let code = ((hex_val_char(s[i + 1]) * 16 + hex_val_char(s[i + 2])) * 16
                    + hex_val_char(s[i + 3])) * 16 + hex_val_char(s[i + 4]);
                if code < 0xD800 || code > 0xDFFF {
                    match char::from_u32(code) {
                        Some(ec) => {
                            proof {
                                vstd::utf8::char_u32_cast(ec, code);
                            }
                            Some((ec, 5))
                        },
                        None => unreached(),
                    }
                } else {
                    None
                }
            } else {
                None
            }
        },
        _ => None,
    }
}

/// The body of a string literal starting at `i`, as [`spec_string_body`]
/// reads it; the decoded characters come back with the consumed count.
fn string_body_at(s: &Vec<char>, i: usize) -> (r: Option<(Vec<char>, usize)>)
    requires
        i <= s@.len(),
    ensures
        (match spec_string_body(s@, i as int) {
            None => r is None,
            Some((cs, m)) => r matches Some((v, rm)) && v@ == cs && rm == m && 1 <= m && i + m
                <= s@.len(),
        }),
{
    let slen = s.len();
    let mut acc: Vec<char> = Vec::new();
    let mut j = i;
    loop
        invariant
            i <= j <= s@.len(),
            slen == s@.len(),
            (match spec_string_body(s@, j as int) {
                None => spec_string_body(s@, i as int) is None,
                Some((cs, m)) => spec_string_body(s@, i as int) matches Some((all, tm)) && all
                    == acc@ + cs && tm == j - i + m,
            }),
        decreases s@.len() - j,
    {
        if j >= slen {
            return None;
        }
        let c = s[j];
        if c == '"' {
            proof {
                assert(acc@ + Seq::<char>::empty() =~= acc@);
            }
            return Some((acc, j + 1 - i));
        } else if c == '\\' {
            match escape_at(s, j + 1) {
                None => {
                    return None;
                },
                Some((ec, k)) => {
                    let ghost pre = acc@;
                    acc.push(ec);
                    proof {
                        if let Some((rest, m)) = spec_string_body(s@, (j + 1 + k) as int) {
                            assert((pre + seq![ec]) + rest =~= pre + (seq![ec] + rest));
                            assert(acc@ =~= pre + seq![ec]);
                        }
                    }
                    j = j + 1 + k;
                },
            }
        } else if (c as u32) < 32 {
            return None;
        } else {
            let ghost pre = acc@;
            acc.push(c);
            proof {
                if let Some((rest, m)) = spec_string_body(s@, (j + 1) as int) {
                    assert((pre + seq![c]) + rest =~= pre + (seq![c] + rest));
                    assert(acc@ =~= pre + seq![c]);
                }
            }
            j = j + 1;
        }
    }
}

// ---------------------------------------------------------------------------
// Values, arrays, objects, documents.
// ---------------------------------------------------------------------------

proof fn lemma_trees_of_push(vs: Seq<JsonValue>, v: JsonValue)
    ensures
        trees_of(vs.push(v)) == trees_of(vs) + seq![v.tree()],
{
    assert(trees_of(vs.push(v)) =~= trees_of(vs) + seq![v.tree()]);
}

proof fn lemma_member_trees_of_push(ms: Seq<(String, JsonValue)>, key: String, v: JsonValue)
    ensures
        member_trees_of(ms.push((key, v))) == member_trees_of(ms) + seq![(key@, v.tree())],
{
    assert(member_trees_of(ms.push((key, v))) =~= member_trees_of(ms) + seq![(key@, v.tree())]);
}

/// One JSON value at `i`, as [`spec_value`] reads it.
fn parse_value_at(s: &Vec<char>, i: usize, depth: u32) -> (r: Option<(JsonValue, usize)>)
    requires
        i <= s@.len(),
    ensures
        (match spec_value(s@, i as int, depth as nat) {
            None => r is None,
            Some((t, sm)) => r matches Some((v, m)) && v.tree() == t && m == sm && 1 <= m && i + m
                <= s@.len(),
        }),
    decreases s@.len() - i, 0int,
{
    let slen = s.len();
    if i >= slen {
        return None;
    }
    let c = s[i];
    if c == '"' {
        match string_body_at(s, i + 1) {
            None => None,
            Some((content, m)) => {
                let text = chars_to_string(content);
                Some((JsonValue::Str(text), 1 + m))
            },
        }
    } else if c == '-' || is_digit_char(c) {
        match parse_number_at(s, i) {
            None => None,
            Some((v, m)) => Some((JsonValue::Num(v), m)),
        }
    } else if c == 't' {
        if slen - i >= 4 && s[i + 1] == 'r' && s[i + 2] == 'u' && s[i + 3] == 'e' {
            Some((JsonValue::Bool(true), 4))
        } else {
            None
        }
    } else if c == 'f' {
        if slen - i >= 5 && s[i + 1] == 'a' && s[i + 2] == 'l' && s[i + 3] == 's' && s[i + 4]
            == 'e' {
            Some((JsonValue::Bool(false), 5))
        } else {
            None
        }
    } else if c == 'n' {
        if slen - i >= 4 && s[i + 1] == 'u' && s[i + 2] == 'l' && s[i + 3] == 'l' {
            Some((JsonValue::Null, 4))
        } else {
            None
        }
    } else if c == '[' {
        if depth == 0 {
            return None;
        }
        let j = ws_skip(s, i + 1);
        if j < slen && s[j] == ']' {
            let items: Vec<JsonValue> = Vec::new();
            proof {
                assert(trees_of(items@) =~= Seq::<JsonTree>::empty());
            }
            Some((JsonValue::Arr(items), j + 1 - i))
        } else {
            match parse_elems_at(s, j, depth - 1) {
                None => None,
                Some((items, m)) => {
                    proof {
                        if let Some((ts, sm)) = spec_elems(s@, j as int, (depth - 1) as nat) {
                            assert(trees_of(items@) =~= ts);
                        }
                    }
                    Some((JsonValue::Arr(items), j - i + m))
                },
            }
        }
    } else if c == '{' {
        if depth == 0 {
            return None;
        }
        let j = ws_skip(s, i + 1);
        if j < slen && s[j] == '}' {
            let members: Vec<(String, JsonValue)> = Vec::new();
            proof {
                assert(member_trees_of(members@) =~= Seq::<(Seq<char>, JsonTree)>::empty());
            }
            Some((JsonValue::Obj(members), j + 1 - i))
        } else {
            match parse_members_at(s, j, depth - 1) {
                None => None,
                Some((members, m)) => {
                    proof {
                        if let Some((ts, sm)) = spec_members(s@, j as int, (depth - 1) as nat) {
                            assert(member_trees_of(members@) =~= ts);
                        }
                    }
                    Some((JsonValue::Obj(members), j - i + m))
                },
            }
        }
    } else {
        None
    }
}

/// One or more array elements at `i`, as [`spec_elems`] reads them.
fn parse_elems_at(s: &Vec<char>, i: usize, depth: u32) -> (r: Option<(Vec<JsonValue>, usize)>)
    requires
        i <= s@.len(),
    ensures
        (match spec_elems(s@, i as int, depth as nat) {
            None => r is None,
            Some((ts, sm)) => r matches Some((vs, m)) && m == sm && 1 <= m && i + m <= s@.len()
                && vs@.len() == ts.len() && (forall|k: int|
                0 <= k < ts.len() ==> (#[trigger] vs@[k]).tree() == ts[k]),
        }),
    decreases s@.len() - i, 1int,
{
    let slen = s.len();
    let mut acc: Vec<JsonValue> = Vec::new();
    let mut j = i;
    loop
        invariant
            i <= j <= s@.len(),
            slen == s@.len(),
            (match spec_elems(s@, j as int, depth as nat) {
                None => spec_elems(s@, i as int, depth as nat) is None,
                Some((rest, m)) => spec_elems(s@, i as int, depth as nat) matches Some(
                    (all, tm),
                ) && all == trees_of(acc@) + rest && tm == j - i + m,
            }),
        decreases s@.len() - j,
    {
        let ghost pre = acc@;
        match parse_value_at(s, j, depth) {
            None => {
                return None;
            },
            Some((v, mv)) => {
                let k = ws_skip(s, j + mv);
                if k < slen && s[k] == ',' {
                    let k2 = ws_skip(s, k + 1);
                    acc.push(v);
                    proof {
                        lemma_trees_of_push(pre, v);
                        if let Some((rest2, m2)) = spec_elems(s@, k2 as int, depth as nat) {
                            assert((trees_of(pre) + seq![v.tree()]) + rest2 =~= trees_of(pre) + (
                            seq![v.tree()] + rest2));
                        }
                    }
                    j = k2;
                } else if k < slen && s[k] == ']' {
                    acc.push(v);
                    proof {
                        lemma_trees_of_push(pre, v);
                        assert(trees_of(pre) + seq![v.tree()] =~= trees_of(acc@));
                    }
                    return Some((acc, k + 1 - i));
                } else {
                    return None;
                }
            },
        }
    }
}

/// One or more object members at `i`, as [`spec_members`] reads them.
fn parse_members_at(s: &Vec<char>, i: usize, depth: u32) -> (r: Option<
    (Vec<(String, JsonValue)>, usize),
>)
    requires
        i <= s@.len(),
    ensures
        (match spec_members(s@, i as int, depth as nat) {
            None => r is None,
            Some((ts, sm)) => r matches Some((ms, m)) && m == sm && 1 <= m && i + m <= s@.len()
                && ms@.len() == ts.len() && (forall|k: int|
                0 <= k < ts.len() ==> (#[trigger] ms@[k]).0@ == ts[k].0 && ms@[k].1.tree()
                    == ts[k].1),
        }),
    decreases s@.len() - i, 1int,
{
    let slen = s.len();
    let mut acc: Vec<(String, JsonValue)> = Vec::new();
    let mut j = i;
    loop
        invariant
            i <= j <= s@.len(),
            slen == s@.len(),
            (match spec_members(s@, j as int, depth as nat) {
                None => spec_members(s@, i as int, depth as nat) is None,
                Some((rest, m)) => spec_members(s@, i as int, depth as nat) matches Some(
                    (all, tm),
                ) && all == member_trees_of(acc@) + rest && tm == j - i + m,
            }),
        decreases s@.len() - j,
    {
        let ghost pre = acc@;
        if j >= slen {
            return None;
        }
        if s[j] != '"' {
            return None;
        }
        match string_body_at(s, j + 1) {
            None => {
                return None;
            },
            Some((keyc, mk)) => {
                let k1 = ws_skip(s, j + 1 + mk);
                if !(k1 < slen && s[k1] == ':') {
                    return None;
                }
                let j2 = ws_skip(s, k1 + 1);
                match parse_value_at(s, j2, depth) {
                    None => {
                        return None;
                    },
                    Some((v, mv)) => {
                        let k2 = ws_skip(s, j2 + mv);
                        let key = chars_to_string(keyc);
                        if k2 < slen && s[k2] == ',' {
                            let k3 = ws_skip(s, k2 + 1);
                            acc.push((key, v));
                            proof {
                                lemma_member_trees_of_push(pre, key, v);
                                if let Some((rest2, m2)) = spec_members(
                                    s@,
                                    k3 as int,
                                    depth as nat,
                                ) {
                                    assert((member_trees_of(pre) + seq![(key@, v.tree())]) + rest2
                                        =~= member_trees_of(pre) + (seq![(key@, v.tree())]
                                        + rest2));
                                }
                            }
                            j = k3;
                        } else if k2 < slen && s[k2] == '}' {
                            acc.push((key, v));
                            proof {
                                lemma_member_trees_of_push(pre, key, v);
                                assert(member_trees_of(pre) + seq![(key@, v.tree())]
                                    =~= member_trees_of(acc@));
                            }
                            return Some((acc, k2 + 1 - i));
                        } else {
                            return None;
                        }
                    },
                }
            },
        }
    }
}

/// Parses a complete JSON document: exactly the documents
/// [`spec_document`] accepts, with the tree the document denotes.
pub fn parse_json(text: &str) -> (r: Option<JsonValue>)
    ensures
        (match spec_document(text@) {
            None => r is None,
            Some(t) => r matches Some(v) && v.tree() == t,
        }),
{
    let chars = str_to_chars(text);
    let i = ws_skip(&chars, 0);
    match parse_value_at(&chars, i, 128) {
        None => None,
        Some((v, m)) => {
            let j = ws_skip(&chars, i + m);
            if j == chars.len() {
                Some(v)
            } else {
                None
            }
        },
    }
}

} // verus!

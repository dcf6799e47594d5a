//! Decoding of the providers' JSON responses.
//!
//! Every response body this service consumes is a single JSON object whose
//! members are strings, unsigned integers, arrays of unsigned integers,
//! booleans or null.  The grammar of that fragment is defined here as spec
//! functions over character sequences, and the executable decoder is proved
//! to return exactly what the spec-level parse denotes.  String members
//! support the JSON escapes, including `\u` with surrogate pairs; numbers
//! are unsigned decimal integers without a leading zero.

use vstd::prelude::*;
use vstd::string::StrSliceExecFns;
use vstd::string::StringExecFns;

verus! {

/// A decoded JSON value, at the spec level.
pub enum JsonValueV {
    /// A string member.
    Text(Seq<char>),
    /// An unsigned integer member.
    Num(u64),
    /// An array of unsigned integers.
    Nums(Seq<u64>),
    /// A boolean member.
    Bool(bool),
    /// The null literal.
    Null,
}

/// A decoded JSON value.
#[derive(Debug, Clone, PartialEq)]
pub enum JsonValue {
    /// A string member.
    Text(String),
    /// An unsigned integer member.
    Num(u64),
    /// An array of unsigned integers.
    Nums(Vec<u64>),
    /// A boolean member.
    Bool(bool),
    /// The null literal.
    Null,
}

impl View for JsonValue {
    type V = JsonValueV;

    open spec fn view(&self) -> JsonValueV {
        match self {
            JsonValue::Text(t) => JsonValueV::Text(t@),
            JsonValue::Num(n) => JsonValueV::Num(*n),
            JsonValue::Nums(v) => JsonValueV::Nums(v@),
            JsonValue::Bool(b) => JsonValueV::Bool(*b),
            JsonValue::Null => JsonValueV::Null,
        }
    }
}

impl DeepView for JsonValue {
    type V = JsonValueV;

    open spec fn deep_view(&self) -> JsonValueV {
        self.view()
    }
}

/// The members of a decoded JSON object, in source order.
pub type JsonMembersV = Seq<(Seq<char>, JsonValueV)>;

/// JSON whitespace.
pub open spec fn is_ws(c: char) -> bool {
    c == ' ' || c == '\t' || c == '\n' || c == '\r'
}

/// A decimal digit.
pub open spec fn is_digit(c: char) -> bool {
    0x30 <= (c as u32) && (c as u32) <= 0x39
}

/// The value of a decimal digit.
pub open spec fn digit_val(c: char) -> int {
    (c as u32) - 0x30
}

/// The value of a hexadecimal digit, if the character is one.
pub open spec fn hex_digit_val(c: char) -> Option<u32> {
    let u = c as u32;
    if 0x30 <= u && u <= 0x39 {
        Some((u - 0x30) as u32)
    } else if 0x61 <= u && u <= 0x66 {
        Some((u - 0x61 + 10) as u32)
    } else if 0x41 <= u && u <= 0x46 {
        Some((u - 0x41 + 10) as u32)
    } else {
        None
    }
}

/// The index of the first non-whitespace character at or after `i`.
pub open spec fn skip_ws(s: Seq<char>, i: int) -> int
    decreases s.len() - i,
{
    if i < 0 {
        i
    } else if i < s.len() && is_ws(s[i]) {
        skip_ws(s, i + 1)
    } else {
        i
    }
}

proof fn lemma_skip_ws(s: Seq<char>, i: int)
    requires
        0 <= i <= s.len(),
    ensures
        i <= skip_ws(s, i) <= s.len(),
    decreases s.len() - i,
{
    if i < s.len() && is_ws(s[i]) {
        lemma_skip_ws(s, i + 1);
    }
}

/// The index of the first non-digit character at or after `i`.
pub open spec fn digit_run_end(s: Seq<char>, i: int) -> int
    decreases s.len() - i,
{
    if i < 0 {
        i
    } else if i < s.len() && is_digit(s[i]) {
        digit_run_end(s, i + 1)
    } else {
        i
    }
}

proof fn lemma_digit_run_end(s: Seq<char>, i: int)
    requires
        0 <= i <= s.len(),
    ensures
        i <= digit_run_end(s, i) <= s.len(),
        forall|k: int| i <= k < digit_run_end(s, i) ==> is_digit(#[trigger] s[k]),
        digit_run_end(s, i) < s.len() ==> !is_digit(s[digit_run_end(s, i)]),
        i < s.len() && is_digit(s[i]) ==> digit_run_end(s, i) >= i + 1,
    decreases s.len() - i,
{
    if i < s.len() && is_digit(s[i]) {
        lemma_digit_run_end(s, i + 1);
    }
}

/// The value of the digit run `s[i .. j]`, read as a decimal number.
pub open spec fn digits_val(s: Seq<char>, i: int, j: int) -> int
    decreases j - i,
{
    if j <= i {
        0
    } else {
        digits_val(s, i, j - 1) * 10 + digit_val(s[j - 1])
    }
}

proof fn lemma_digits_val_nonneg(s: Seq<char>, i: int, j: int)
    requires
        0 <= i <= j <= s.len(),
        forall|k: int| i <= k < j ==> is_digit(#[trigger] s[k]),
    ensures
        digits_val(s, i, j) >= 0,
    decreases j - i,
{
    if j > i {
        lemma_digits_val_nonneg(s, i, j - 1);
    }
}

proof fn lemma_digits_val_mono(s: Seq<char>, i: int, j: int, j2: int)
    requires
        0 <= i <= j <= j2 <= s.len(),
        forall|k: int| i <= k < j2 ==> is_digit(#[trigger] s[k]),
    ensures
        digits_val(s, i, j) <= digits_val(s, i, j2),
    decreases j2 - j,
{
    if j < j2 {
        lemma_digits_val_mono(s, i, j, j2 - 1);
        lemma_digits_val_nonneg(s, i, j2 - 1);
    }
}

/// Parses an unsigned decimal integer at `i`: a non-empty digit run without
/// a superfluous leading zero, whose value fits in a `u64`.
pub open spec fn parse_number(s: Seq<char>, i: int) -> Option<(u64, int)> {
    if 0 <= i && i < s.len() && is_digit(s[i]) {
        let j = digit_run_end(s, i);
        let v = digits_val(s, i, j);
        if s[i] == '0' && j > i + 1 {
            None
        } else if v <= u64::MAX {
            Some((v as u64, j))
        } else {
            None
        }
    } else {
        None
    }
}

/// The value of the four hexadecimal digits `s[i .. i + 4]`, if they are all
/// hexadecimal digits.
pub open spec fn hex4_val(s: Seq<char>, i: int) -> Option<u32> {
    if 0 <= i && i + 4 <= s.len() {
        match (hex_digit_val(s[i]), hex_digit_val(s[i + 1]), hex_digit_val(s[i + 2]), hex_digit_val(
            s[i + 3],
        )) {
            (Some(a), Some(b), Some(c), Some(d)) => Some(
                (a * 0x1000 + b * 0x100 + c * 0x10 + d) as u32,
            ),
            _ => None,
        }
    } else {
        None
    }
}

/// Parses one string escape, `i` standing just after the backslash.  `\u`
/// escapes either name a scalar directly or form a surrogate pair.
pub open spec fn parse_escape(s: Seq<char>, i: int) -> Option<(char, int)> {
    if 0 <= i && i < s.len() {
        let c = s[i];
        if c == '"' {
            Some(('"', i + 1))
        } else if c == '\\' {
            Some(('\\', i + 1))
        } else if c == '/' {
            Some(('/', i + 1))
        } else if c == 'b' {
            Some(('\u{8}', i + 1))
        } else if c == 'f' {
            Some(('\u{c}', i + 1))
        } else if c == 'n' {
            Some(('\n', i + 1))
        } else if c == 'r' {
            Some(('\r', i + 1))
        } else if c == 't' {
            Some(('\t', i + 1))
        } else if c == 'u' {
            match hex4_val(s, i + 1) {
                Some(v) => if v < 0xD800 || v > 0xDFFF {
                    Some((v as char, i + 5))
                } else if v < 0xDC00 {
                    // a high surrogate must be followed by an escaped low one
                    if i + 7 <= s.len() && s[i + 5] == '\\' && s[i + 6] == 'u' {
                        match hex4_val(s, i + 7) {
                            Some(lo) => if 0xDC00 <= lo && lo <= 0xDFFF {
                                Some(
                                    ((0x10000 + (v - 0xD800) * 0x400 + (lo - 0xDC00)) as u32 as char, i
                                        + 11),
                                )
                            } else {
                                None
                            },
                            None => None,
                        }
                    } else {
                        None
                    }
                } else {
                    None
                },
                None => None,
            }
        } else {
            None
        }
    } else {
        None
    }
}

/// Parses the rest of a string literal, `i` standing just after the opening
/// quote or after the character decoded last.  Unescaped control characters
/// are rejected.
pub open spec fn parse_str_body(s: Seq<char>, i: int) -> Option<(Seq<char>, int)>
    decreases s.len() - i,
{
    if i < 0 || i >= s.len() {
        None
    } else if s[i] == '"' {
        Some((Seq::empty(), i + 1))
    } else if s[i] == '\\' {
        match parse_escape(s, i + 1) {
            Some((c, j)) => if i + 1 < j && j <= s.len() {
                match parse_str_body(s, j) {
                    Some((tail, k)) => Some((seq![c] + tail, k)),
                    None => None,
                }
            } else {
                None
            },
            None => None,
        }
    } else if (s[i] as u32) >= 0x20 {
        match parse_str_body(s, i + 1) {
            Some((tail, k)) => Some((seq![s[i]] + tail, k)),
            None => None,
        }
    } else {
        None
    }
}

/// Parses the elements of a non-empty array of unsigned integers, `i`
/// standing at the first element.
pub open spec fn parse_num_elems(s: Seq<char>, i: int) -> Option<(Seq<u64>, int)>
    decreases s.len() - i,
{
    match parse_number(s, i) {
        Some((v, k)) => {
            let j = skip_ws(s, k);
            if 0 <= j && j < s.len() && s[j] == ',' {
                let m = skip_ws(s, j + 1);
                if i < m && m <= s.len() {
                    match parse_num_elems(s, m) {
                        Some((rest, n)) => Some((seq![v] + rest, n)),
                        None => None,
                    }
                } else {
                    None
                }
            } else if 0 <= j && j < s.len() && s[j] == ']' {
                Some((seq![v], j + 1))
            } else {
                None
            }
        },
        None => None,
    }
}

/// Parses an array of unsigned integers at `i`.
pub open spec fn parse_num_array(s: Seq<char>, i: int) -> Option<(Seq<u64>, int)> {
    if 0 <= i && i < s.len() && s[i] == '[' {
        let j = skip_ws(s, i + 1);
        if j < s.len() && s[j] == ']' {
            Some((Seq::empty(), j + 1))
        } else {
            parse_num_elems(s, j)
        }
    } else {
        None
    }
}

/// Parses one JSON value at `i`: a string, an unsigned integer, an array of
/// unsigned integers, a boolean or null.
pub open spec fn parse_value(s: Seq<char>, i: int) -> Option<(JsonValueV, int)> {
    if i < 0 || i >= s.len() {
        None
    } else if s[i] == '"' {
        match parse_str_body(s, i + 1) {
            Some((t, j)) => Some((JsonValueV::Text(t), j)),
            None => None,
        }
    } else if is_digit(s[i]) {
        match parse_number(s, i) {
            Some((v, j)) => Some((JsonValueV::Num(v), j)),
            None => None,
        }
    } else if s[i] == '[' {
        match parse_num_array(s, i) {
            Some((v, j)) => Some((JsonValueV::Nums(v), j)),
            None => None,
        }
    } else if s[i] == 't' {
        if i + 4 <= s.len() && s[i + 1] == 'r' && s[i + 2] == 'u' && s[i + 3] == 'e' {
            Some((JsonValueV::Bool(true), i + 4))
        } else {
            None
        }
    } else if s[i] == 'f' {
        if i + 5 <= s.len() && s[i + 1] == 'a' && s[i + 2] == 'l' && s[i + 3] == 's' && s[i + 4]
            == 'e' {
            Some((JsonValueV::Bool(false), i + 5))
        } else {
            None
        }
    } else if s[i] == 'n' {
        if i + 4 <= s.len() && s[i + 1] == 'u' && s[i + 2] == 'l' && s[i + 3] == 'l' {
            Some((JsonValueV::Null, i + 4))
        } else {
            None
        }
    } else {
        None
    }
}

/// Parses one `"key": value` member, `i` standing at the opening quote of
/// the key.
pub open spec fn parse_member(s: Seq<char>, i: int) -> Option<((Seq<char>, JsonValueV), int)> {
    if 0 <= i && i < s.len() && s[i] == '"' {
        match parse_str_body(s, i + 1) {
            Some((key, j)) => {
                let k = skip_ws(s, j);
                if 0 <= k && k < s.len() && s[k] == ':' {
                    let m = skip_ws(s, k + 1);
                    match parse_value(s, m) {
                        Some((v, n)) => Some(((key, v), n)),
                        None => None,
                    }
                } else {
                    None
                }
            },
            None => None,
        }
    } else {
        None
    }
}

/// Parses the members of a non-empty object, `i` standing at the key of the
/// first one, up to and including the closing brace.
pub open spec fn parse_members(s: Seq<char>, i: int) -> Option<(JsonMembersV, int)>
    decreases s.len() - i,
{
    match parse_member(s, i) {
        Some((kv, j)) => {
            let k = skip_ws(s, j);
            if 0 <= k && k < s.len() && s[k] == ',' {
                let m = skip_ws(s, k + 1);
                if i < m && m <= s.len() {
                    match parse_members(s, m) {
                        Some((rest, n)) => Some((seq![kv] + rest, n)),
                        None => None,
                    }
                } else {
                    None
                }
            } else if 0 <= k && k < s.len() && s[k] == '}' {
                Some((seq![kv], k + 1))
            } else {
                None
            }
        },
        None => None,
    }
}

/// Parses a whole body as one JSON object, with nothing but whitespace
/// around it, and returns its members in source order.
pub open spec fn parse_object(s: Seq<char>) -> Option<JsonMembersV> {
    let i = skip_ws(s, 0);
    if i < s.len() && s[i] == '{' {
        let j = skip_ws(s, i + 1);
        if j < s.len() && s[j] == '}' {
            if skip_ws(s, j + 1) == s.len() {
                Some(Seq::empty())
            } else {
                None
            }
        } else {
            match parse_members(s, j) {
                Some((ms, n)) => if 0 <= n && n <= s.len() && skip_ws(s, n) == s.len() {
                    Some(ms)
                } else {
                    None
                },
                None => None,
            }
        }
    } else {
        None
    }
}

/// The value of the first member named `name` at or after position `k`.
pub open spec fn find_field_from(ms: JsonMembersV, k: int, name: Seq<char>) -> Option<JsonValueV>
    decreases ms.len() - k,
{
    if k < 0 || k >= ms.len() {
        None
    } else if ms[k].0 == name {
        Some(ms[k].1)
    } else {
        find_field_from(ms, k + 1, name)
    }
}

/// The value of the first member named `name`.
pub open spec fn find_field(ms: JsonMembersV, name: Seq<char>) -> Option<JsonValueV> {
    find_field_from(ms, 0, name)
}

/// The value of the first member named `name`; failing that, of the first
/// member named `alias`.
pub open spec fn find_field_or_alias(ms: JsonMembersV, name: Seq<char>, alias: Seq<char>) -> Option<
    JsonValueV,
> {
    match find_field(ms, name) {
        Some(v) => Some(v),
        None => find_field(ms, alias),
    }
}

/// Relies on std's `String::push`: appends the given character.
#[verifier::external_body]
fn push_char(s: &mut String, c: char)
    ensures
        final(s)@ == old(s)@ + seq![c],
{
    s.push(c);
}

/// Relies on std's `char::from_u32`: the result is `Some` exactly when the
/// value is a Unicode scalar, and the returned character carries that
/// scalar value.
#[verifier::external_body]
fn char_from_u32(v: u32) -> (r: Option<char>)
    ensures
        r is Some <==> vstd::utf8::is_scalar(v),
        r matches Some(c) ==> c as u32 == v,
{
    char::from_u32(v)
}

fn is_ws_x(c: char) -> (b: bool)
    ensures
        b == is_ws(c),
{
    c == ' ' || c == '\t' || c == '\n' || c == '\r'
}

fn skip_ws_x(s: &Vec<char>, i: usize) -> (j: usize)
    requires
        i <= s.len(),
    ensures
        j as int == skip_ws(s@, i as int),
        i <= j <= s.len(),
    decreases s.len() - i,
{
    proof {
        lemma_skip_ws(s@, i as int);
    }
    if i < s.len() && is_ws_x(s[i]) {
        skip_ws_x(s, i + 1)
    } else {
        i
    }
}

fn hex_digit_val_x(c: char) -> (r: Option<u32>)
    ensures
        r == hex_digit_val(c),
{
    let u = c as u32;
    if 0x30 <= u && u <= 0x39 {
        Some(u - 0x30)
    } else if 0x61 <= u && u <= 0x66 {
        Some(u - 0x61 + 10)
    } else if 0x41 <= u && u <= 0x46 {
        Some(u - 0x41 + 10)
    } else {
        None
    }
}

fn hex4_val_x(s: &Vec<char>, i: usize) -> (r: Option<u32>)
    requires
        i <= s.len(),
    ensures
        r == hex4_val(s@, i as int),
        r matches Some(v) ==> v < 0x10000,
{
    if s.len() - i >= 4 {
        match (hex_digit_val_x(s[i]), hex_digit_val_x(s[i + 1]), hex_digit_val_x(s[i + 2]),
        hex_digit_val_x(s[i + 3])) {
            (Some(a), Some(b), Some(c), Some(d)) => Some(a * 0x1000 + b * 0x100 + c * 0x10 + d),
            _ => None,
        }
    } else {
        None
    }
}

fn parse_number_x(s: &Vec<char>, i: usize) -> (r: Option<(u64, usize)>)
    requires
        i <= s.len(),
    ensures
        match r {
            Some((v, j)) => parse_number(s@, i as int) == Some((v, j as int)) && i < j <= s.len(),
            None => parse_number(s@, i as int) is None,
        },
{
    if i >= s.len() || !(0x30 <= (s[i] as u32) && (s[i] as u32) <= 0x39) {
        return None;
    }
    let ghost end = digit_run_end(s@, i as int);
    proof {
        lemma_digit_run_end(s@, i as int);
    }
    let mut k: usize = i;
    let mut acc: u64 = 0;
    while k < s.len() && 0x30 <= (s[k] as u32) && (s[k] as u32) <= 0x39
        invariant
            i <= k <= s.len(),
            k <= end <= s.len(),
            end == digit_run_end(s@, i as int),
            forall|t: int| i <= t < end ==> is_digit(#[trigger] s@[t]),
            digit_run_end(s@, i as int) < s@.len() ==> !is_digit(s@[digit_run_end(s@, i as int)]),
            acc == digits_val(s@, i as int, k as int),
            i < s.len() && is_digit(s@[i as int]),
        decreases s.len() - k,
    {
        proof {
            // the character at the run's end is no digit, so the loop is
            // still inside the run
            if k == end {
                assert(!is_digit(s@[end]));
            }
        }
        let d: u64 = ((s[k] as u32) - 0x30) as u64;
        let next = match acc.checked_mul(10) {
            Some(m) => m.checked_add(d),
            None => None,
        };
        match next {
            Some(a) => {
                acc = a;
            },
            None => {
                proof {
                    assert(digits_val(s@, i as int, k as int + 1) == acc * 10 + digit_val(
                        s@[k as int],
                    ));
                    lemma_digits_val_mono(s@, i as int, k as int + 1, end);
                }
                return None;
            },
        }
        k += 1;
    }
    proof {
        // inside the run every character is a digit, so the loop leaves
        // exactly at the end of the run
        if k < end {
            assert(is_digit(s@[k as int]));
        }
        assert(k == end);
    }
    if s[i] == '0' && k > i + 1 {
        None
    } else {
        Some((acc, k))
    }
}

fn parse_escape_x(s: &Vec<char>, i: usize) -> (r: Option<(char, usize)>)
    requires
        i <= s.len(),
    ensures
        match r {
            Some((c, j)) => parse_escape(s@, i as int) == Some((c, j as int)) && i < j <= s.len(),
            None => parse_escape(s@, i as int) is None,
        },
{
    if i >= s.len() {
        return None;
    }
    let c = s[i];
    if c == '"' {
        Some(('"', i + 1))
    } else if c == '\\' {
        Some(('\\', i + 1))
    } else if c == '/' {
        Some(('/', i + 1))
    } else if c == 'b' {
        Some(('\u{8}', i + 1))
    } else if c == 'f' {
        Some(('\u{c}', i + 1))
    } else if c == 'n' {
        Some(('\n', i + 1))
    } else if c == 'r' {
        Some(('\r', i + 1))
    } else if c == 't' {
        Some(('\t', i + 1))
    } else if c == 'u' {
        match hex4_val_x(s, i + 1) {
            Some(v) => {
                if v < 0xD800 || v > 0xDFFF {
                    match char_from_u32(v) {
                        Some(e) => {
                            proof {
                                vstd::utf8::char_u32_cast(e, v);
                            }
                            Some((e, i + 5))
                        },
                        None => None,
                    }
                } else if v < 0xDC00 {
                    if s.len() - i >= 7 && s[i + 5] == '\\' && s[i + 6] == 'u' {
                        match hex4_val_x(s, i + 7) {
                            Some(lo) => {
                                if 0xDC00 <= lo && lo <= 0xDFFF {
                                    let scalar: u32 = 0x10000 + (v - 0xD800) * 0x400 + (lo
                                        - 0xDC00);
                                    match char_from_u32(scalar) {
                                        Some(e) => {
                                            proof {
                                                vstd::utf8::char_u32_cast(e, scalar);
                                            }
                                            Some((e, i + 11))
                                        },
                                        None => None,
                                    }
                                } else {
                                    None
                                }
                            },
                            None => None,
                        }
                    } else {
                        None
                    }
                } else {
                    None
                }
            },
            None => None,
        }
    } else {
        None
    }
}

fn parse_str_body_x(s: &Vec<char>, i: usize) -> (r: Option<(String, usize)>)
    requires
        i <= s.len(),
    ensures
        match r {
            Some((t, j)) => parse_str_body(s@, i as int) == Some((t@, j as int)) && i < j
                <= s.len(),
            None => parse_str_body(s@, i as int) is None,
        },
    decreases s.len() - i,
{
    if i >= s.len() {
        return None;
    }
    let c = s[i];
    if c == '"' {
        let out = String::new();
        proof {
            assert(out@ =~= Seq::<char>::empty());
        }
        Some((out, i + 1))
    } else if c == '\\' {
        match parse_escape_x(s, i + 1) {
            Some((e, j)) => {
                match parse_str_body_x(s, j) {
                    Some((tail, k)) => {
                        let mut out = String::new();
                        push_char(&mut out, e);
                        out.append(tail.as_str());
                        proof {
                            assert(out@ =~= seq![e] + tail@);
                        }
                        Some((out, k))
                    },
                    None => None,
                }
            },
            None => None,
        }
    } else if (c as u32) >= 0x20 {
        match parse_str_body_x(s, i + 1) {
            Some((tail, k)) => {
                let mut out = String::new();
                push_char(&mut out, c);
                out.append(tail.as_str());
                proof {
                    assert(out@ =~= seq![c] + tail@);
                }
                Some((out, k))
            },
            None => None,
        }
    } else {
        None
    }
}

fn parse_num_elems_x(s: &Vec<char>, i: usize) -> (r: Option<(Vec<u64>, usize)>)
    requires
        i <= s.len(),
    ensures
        match r {
            Some((v, j)) => parse_num_elems(s@, i as int) == Some((v@, j as int)) && j <= s.len(),
            None => parse_num_elems(s@, i as int) is None,
        },
    decreases s.len() - i,
{
    match parse_number_x(s, i) {
        Some((v, k)) => {
            let j = skip_ws_x(s, k);
            if j < s.len() && s[j] == ',' {
                let m = skip_ws_x(s, j + 1);
                match parse_num_elems_x(s, m) {
                    Some((rest, n)) => {
                        let mut out: Vec<u64> = Vec::new();
                        out.push(v);
                        let mut rest = rest;
                        let ghost restv = rest@;
                        out.append(&mut rest);
                        proof {
                            assert(out@ =~= seq![v] + restv);
                        }
                        Some((out, n))
                    },
                    None => None,
                }
            } else if j < s.len() && s[j] == ']' {
                let mut out: Vec<u64> = Vec::new();
                out.push(v);
                proof {
                    assert(out@ =~= seq![v]);
                }
                Some((out, j + 1))
            } else {
                None
            }
        },
        None => None,
    }
}

fn parse_num_array_x(s: &Vec<char>, i: usize) -> (r: Option<(Vec<u64>, usize)>)
    requires
        i <= s.len(),
    ensures
        match r {
            Some((v, j)) => parse_num_array(s@, i as int) == Some((v@, j as int)) && j <= s.len(),
            None => parse_num_array(s@, i as int) is None,
        },
{
    if i < s.len() && s[i] == '[' {
        let j = skip_ws_x(s, i + 1);
        if j < s.len() && s[j] == ']' {
            let out: Vec<u64> = Vec::new();
            proof {
                assert(out@ =~= Seq::<u64>::empty());
            }
            Some((out, j + 1))
        } else {
            parse_num_elems_x(s, j)
        }
    } else {
        None
    }
}

fn parse_value_x(s: &Vec<char>, i: usize) -> (r: Option<(JsonValue, usize)>)
    requires
        i <= s.len(),
    ensures
        match r {
            Some((v, j)) => parse_value(s@, i as int) == Some((v@, j as int)) && j <= s.len(),
            None => parse_value(s@, i as int) is None,
        },
    decreases s.len() - i,
{
    if i >= s.len() {
        return None;
    }
    let c = s[i];
    if c == '"' {
        match parse_str_body_x(s, i + 1) {
            Some((t, j)) => Some((JsonValue::Text(t), j)),
            None => None,
        }
    } else if 0x30 <= (c as u32) && (c as u32) <= 0x39 {
        match parse_number_x(s, i) {
            Some((v, j)) => Some((JsonValue::Num(v), j)),
            None => None,
        }
    } else if c == '[' {
        match parse_num_array_x(s, i) {
            Some((v, j)) => Some((JsonValue::Nums(v), j)),
            None => None,
        }
    } else if c == 't' {
        if s.len() - i >= 4 && s[i + 1] == 'r' && s[i + 2] == 'u' && s[i + 3] == 'e' {
            Some((JsonValue::Bool(true), i + 4))
        } else {
            None
        }
    } else if c == 'f' {
        if s.len() - i >= 5 && s[i + 1] == 'a' && s[i + 2] == 'l' && s[i + 3] == 's' && s[i + 4]
            == 'e' {
            Some((JsonValue::Bool(false), i + 5))
        } else {
            None
        }
    } else if c == 'n' {
        if s.len() - i >= 4 && s[i + 1] == 'u' && s[i + 2] == 'l' && s[i + 3] == 'l' {
            Some((JsonValue::Null, i + 4))
        } else {
            None
        }
    } else {
        None
    }
}

fn parse_member_x(s: &Vec<char>, i: usize) -> (r: Option<((String, JsonValue), usize)>)
    requires
        i <= s.len(),
    ensures
        match r {
            Some((kv, j)) => parse_member(s@, i as int) == Some((kv.deep_view(), j as int)) && j
                <= s.len(),
            None => parse_member(s@, i as int) is None,
        },
    decreases s.len() - i,
{
    if i < s.len() && s[i] == '"' {
        match parse_str_body_x(s, i + 1) {
            Some((key, j)) => {
                let k = skip_ws_x(s, j);
                if k < s.len() && s[k] == ':' {
                    let m = skip_ws_x(s, k + 1);
                    match parse_value_x(s, m) {
                        Some((v, n)) => Some(((key, v), n)),
                        None => None,
                    }
                } else {
                    None
                }
            },
            None => None,
        }
    } else {
        None
    }
}

fn parse_members_x(s: &Vec<char>, i: usize) -> (r: Option<(Vec<(String, JsonValue)>, usize)>)
    requires
        i <= s.len(),
    ensures
        match r {
            Some((ms, j)) => parse_members(s@, i as int) == Some((ms.deep_view(), j as int)) && j
                <= s.len(),
            None => parse_members(s@, i as int) is None,
        },
    decreases s.len() - i,
{
    match parse_member_x(s, i) {
        Some((kv, j)) => {
            let k = skip_ws_x(s, j);
            if k < s.len() && s[k] == ',' {
                let m = skip_ws_x(s, k + 1);
                if m <= i {
                    return None;
                }
                match parse_members_x(s, m) {
                    Some((rest, n)) => {
                        let ghost kvv = kv.deep_view();
                        let mut out: Vec<(String, JsonValue)> = Vec::new();
                        out.push(kv);
                        let mut rest = rest;
                        let ghost restv = rest.deep_view();
                        out.append(&mut rest);
                        proof {
                            assert(out.deep_view() =~= seq![kvv] + restv);
                        }
                        Some((out, n))
                    },
                    None => None,
                }
            } else if k < s.len() && s[k] == '}' {
                let ghost kvv = kv.deep_view();
                let mut out: Vec<(String, JsonValue)> = Vec::new();
                out.push(kv);
                proof {
                    assert(out.deep_view() =~= seq![kvv]);
                }
                Some((out, k + 1))
            } else {
                None
            }
        },
        None => None,
    }
}

/// Collects the characters of a string slice into a vector.
pub fn str_to_chars(s: &str) -> (v: Vec<char>)
    ensures
        v@ == s@,
{
    let n = s.unicode_len();
    let mut v: Vec<char> = Vec::new();
    let mut i: usize = 0;
    while i < n
        invariant
            i <= n,
            n == s@.len(),
            v@.len() == i,
            forall|j: int| 0 <= j < i ==> v@[j] == s@[j],
        decreases n - i,
    {
        v.push(s.get_char(i));
        i += 1;
    }
    proof {
        assert(v@ =~= s@);
    }
    v
}

/// Decodes a whole body as one JSON object and returns its members in
/// source order, or `None` where the body is not in the accepted fragment.
pub fn parse_json_object(body: &str) -> (r: Option<Vec<(String, JsonValue)>>)
    ensures
        match r {
            Some(ms) => parse_object(body@) == Some(ms.deep_view()),
            None => parse_object(body@) is None,
        },
{
    let s = str_to_chars(body);
    let i = skip_ws_x(&s, 0);
    if i < s.len() && s[i] == '{' {
        let j = skip_ws_x(&s, i + 1);
        if j < s.len() && s[j] == '}' {
            if skip_ws_x(&s, j + 1) == s.len() {
                let out: Vec<(String, JsonValue)> = Vec::new();
                proof {
                    assert(out.deep_view() =~= Seq::<(Seq<char>, JsonValueV)>::empty());
                }
                Some(out)
            } else {
                None
            }
        } else {
            match parse_members_x(&s, j) {
                Some((ms, n)) => {
                    if skip_ws_x(&s, n) == s.len() {
                        Some(ms)
                    } else {
                        None
                    }
                },
                None => None,
            }
        }
    } else {
        None
    }
}

/// Compares two string slices character by character.
pub fn str_eq(a: &str, b: &str) -> (r: bool)
    ensures
        r == (a@ == b@),
{
    let n = a.unicode_len();
    let m = b.unicode_len();
    if n != m {
        return false;
    }
    let mut i: usize = 0;
    while i < n
        invariant
            i <= n,
            n == a@.len(),
            n == b@.len(),
            forall|j: int| 0 <= j < i ==> a@[j] == b@[j],
        decreases n - i,
    {
        if a.get_char(i) != b.get_char(i) {
            return false;
        }
        i += 1;
    }
    proof {
        assert(a@ =~= b@);
    }
    true
}

/// The value of the first member named `name` at or after position `k`.
fn find_field_from_x<'a>(ms: &'a Vec<(String, JsonValue)>, k: usize, name: &str) -> (r: Option<
    &'a JsonValue,
>)
    requires
        k <= ms.len(),
    ensures
        match r {
            Some(v) => find_field_from(ms.deep_view(), k as int, name@) == Some(v.deep_view()),
            None => find_field_from(ms.deep_view(), k as int, name@) is None,
        },
    decreases ms.len() - k,
{
    if k >= ms.len() {
        None
    } else if str_eq(ms[k].0.as_str(), name) {
        Some(&ms[k].1)
    } else {
        find_field_from_x(ms, k + 1, name)
    }
}

/// The value of the first member named `name`; failing that, of the first
/// member named `alias`.
pub fn get_field_or_alias<'a>(ms: &'a Vec<(String, JsonValue)>, name: &str, alias: &str) -> (r:
    Option<&'a JsonValue>)
    ensures
        match r {
            Some(v) => find_field_or_alias(ms.deep_view(), name@, alias@) == Some(v.deep_view()),
            None => find_field_or_alias(ms.deep_view(), name@, alias@) is None,
        },
{
    match find_field_from_x(ms, 0, name) {
        Some(v) => Some(v),
        None => find_field_from_x(ms, 0, alias),
    }
}

/// The value of the first member named `name`.
pub fn get_field<'a>(ms: &'a Vec<(String, JsonValue)>, name: &str) -> (r: Option<&'a JsonValue>)
    ensures
        match r {
            Some(v) => find_field(ms.deep_view(), name@) == Some(v.deep_view()),
            None => find_field(ms.deep_view(), name@) is None,
        },
{
    find_field_from_x(ms, 0, name)
}

} // verus!

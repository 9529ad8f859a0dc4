use vstd::prelude::*;

use crate::quoted::match_lit;
use crate::quoted::parse_qstr;
use crate::quoted::spec_parse_qstr;
use crate::text::chars_to_string;

verus! {

/// A member value as the model reads it: a string, a number that fits the
/// model, a boolean, null — or `Other`, a well-formed JSON value of a shape
/// the model does not read (a nested object or array, a signed, fractional
/// or oversized number). `Other` members are consumed and ignored; a model
/// field that needs a string or number treats `Other` as the wrong type.
#[derive(Debug)]
pub enum JsonScalar {
    Str(String),
    Num(u32),
    Bool(bool),
    Null,
    Other,
}

/// The mathematical value of a member value.
pub ghost enum ScalarV {
    Str(Seq<char>),
    Num(u32),
    Bool(bool),
    Null,
    Other,
}

impl View for JsonScalar {
    type V = ScalarV;

    open spec fn view(&self) -> ScalarV {
        match self {
            JsonScalar::Str(s) => ScalarV::Str(s@),
            JsonScalar::Num(n) => ScalarV::Num(*n),
            JsonScalar::Bool(b) => ScalarV::Bool(*b),
            JsonScalar::Null => ScalarV::Null,
            JsonScalar::Other => ScalarV::Other,
        }
    }
}

/// The members of one flat JSON object, in source order.
pub type MembersV = Seq<(Seq<char>, ScalarV)>;

/// `c` is a decimal digit.
pub open spec fn is_digit(c: char) -> bool {
    c == '0' || c == '1' || c == '2' || c == '3' || c == '4' || c == '5' || c == '6' || c == '7'
        || c == '8' || c == '9'
}

/// The numeric value of a digit.
pub open spec fn digit_val(c: char) -> nat {
    if c == '0' {
        0
    } else if c == '1' {
        1
    } else if c == '2' {
        2
    } else if c == '3' {
        3
    } else if c == '4' {
        4
    } else if c == '5' {
        5
    } else if c == '6' {
        6
    } else if c == '7' {
        7
    } else if c == '8' {
        8
    } else {
        9
    }
}

/// The digit for a value below ten.
pub open spec fn digit_char(d: nat) -> char {
    if d == 0 {
        '0'
    } else if d == 1 {
        '1'
    } else if d == 2 {
        '2'
    } else if d == 3 {
        '3'
    } else if d == 4 {
        '4'
    } else if d == 5 {
        '5'
    } else if d == 6 {
        '6'
    } else if d == 7 {
        '7'
    } else if d == 8 {
        '8'
    } else {
        '9'
    }
}

/// The decimal form of a number, most significant digit first.
pub open spec fn dec_digits(n: nat) -> Seq<char>
    decreases n,
{
    if n < 10 {
        seq![digit_char(n)]
    } else {
        dec_digits(n / 10).push(digit_char(n % 10))
    }
}

/// The value of a digit string, folded from the left.
pub open spec fn num_val(ds: Seq<char>) -> nat
    decreases ds.len(),
{
    if ds.len() == 0 {
        0
    } else {
        num_val(ds.drop_last()) * 10 + digit_val(ds.last())
    }
}

/// A character that can stand in a JSON number token.
pub open spec fn is_number_char(c: char) -> bool {
    is_digit(c) || c == '-' || c == '+' || c == '.' || c == 'e' || c == 'E'
}

/// The end of the number token that starts at `i`.
pub open spec fn number_run_end(s: Seq<char>, i: int) -> int
    decreases s.len() - i,
{
    if 0 <= i < s.len() && is_number_char(s[i]) {
        number_run_end(s, i + 1)
    } else {
        i
    }
}

/// Every character of the range is a decimal digit.
pub open spec fn all_digits(s: Seq<char>, i: int, e: int) -> bool {
    forall|k: int| i <= k < e ==> is_digit(#[trigger] s[k])
}

/// The first position at or after `i` that holds no blank.
pub open spec fn skip_ws(s: Seq<char>, i: int) -> int
    decreases s.len() - i,
{
    if 0 <= i < s.len() && (s[i] == ' ' || s[i] == '\t' || s[i] == '\n' || s[i] == '\r') {
        skip_ws(s, i + 1)
    } else {
        i
    }
}

/// Parses one member value at `i` (no leading blanks): a quoted string, a
/// number token (a digit run that fits the model, or `Other`), `true`,
/// `false` or `null`.
pub open spec fn spec_parse_scalar(s: Seq<char>, i: int) -> Option<(ScalarV, int)> {
    if i < 0 || i >= s.len() {
        None
    } else if s[i] == '"' {
        match spec_parse_qstr(s, i + 1) {
            Some((t, j)) => Some((ScalarV::Str(t), j)),
            None => None,
        }
    } else if is_digit(s[i]) || s[i] == '-' {
        let e = number_run_end(s, i);
        if all_digits(s, i, e) && num_val(s.subrange(i, e)) <= u32::MAX {
            Some((ScalarV::Num(num_val(s.subrange(i, e)) as u32), e))
        } else {
            Some((ScalarV::Other, e))
        }
    } else if crate::quoted::matches_at(s, i, "true"@) {
        Some((ScalarV::Bool(true), i + 4))
    } else if crate::quoted::matches_at(s, i, "false"@) {
        Some((ScalarV::Bool(false), i + 5))
    } else if crate::quoted::matches_at(s, i, "null"@) {
        Some((ScalarV::Null, i + 4))
    } else {
        None
    }
}

/// Consumes one JSON value of any shape at `i` (no leading blanks); yields
/// the position just past it. Used for members the model does not read.
pub open spec fn spec_skip_value(s: Seq<char>, i: int) -> Option<int>
    decreases s.len() - i, 0int,
{
    if i < 0 || i >= s.len() {
        None
    } else if s[i] == '"' {
        match spec_parse_qstr(s, i + 1) {
            Some((t, j)) => Some(j),
            None => None,
        }
    } else if is_number_char(s[i]) {
        Some(number_run_end(s, i))
    } else if crate::quoted::matches_at(s, i, "true"@) {
        Some(i + 4)
    } else if crate::quoted::matches_at(s, i, "false"@) {
        Some(i + 5)
    } else if crate::quoted::matches_at(s, i, "null"@) {
        Some(i + 4)
    } else if s[i] == '[' {
        let k = skip_ws(s, i + 1);
        if i < k < s.len() && s[k] == ']' {
            Some(k + 1)
        } else {
            spec_skip_elems(s, i + 1)
        }
    } else if s[i] == '{' {
        let k = skip_ws(s, i + 1);
        if i < k < s.len() && s[k] == '}' {
            Some(k + 1)
        } else {
            spec_skip_obj(s, i + 1)
        }
    } else {
        None
    }
}

/// Consumes array elements of any shape from just after a separator,
/// through the closing bracket.
pub open spec fn spec_skip_elems(s: Seq<char>, i: int) -> Option<int>
    decreases s.len() - i, 1int,
{
    let k0 = skip_ws(s, i);
    if !(i <= k0 < s.len()) {
        None
    } else {
        match spec_skip_value(s, k0) {
            Some(j) => {
                let j2 = skip_ws(s, j);
                if !(k0 < j && j <= j2 < s.len()) {
                    None
                } else if s[j2] == ',' {
                    spec_skip_elems(s, j2 + 1)
                } else if s[j2] == ']' {
                    Some(j2 + 1)
                } else {
                    None
                }
            },
            None => None,
        }
    }
}

/// Consumes object members of any shape from just after a separator,
/// through the closing brace.
pub open spec fn spec_skip_obj(s: Seq<char>, i: int) -> Option<int>
    decreases s.len() - i, 1int,
{
    let k0 = skip_ws(s, i);
    if !(i <= k0 < s.len()) {
        None
    } else if s[k0] != '"' {
        None
    } else {
        match spec_parse_qstr(s, k0 + 1) {
            Some((key, j)) => {
                let j2 = skip_ws(s, j);
                if !(k0 + 1 < j <= j2 < s.len()) {
                    None
                } else if s[j2] != ':' {
                    None
                } else {
                    let v0 = skip_ws(s, j2 + 1);
                    if !(j2 < v0 && v0 <= s.len()) {
                        None
                    } else {
                        match spec_skip_value(s, v0) {
                            Some(m) => {
                                let m2 = skip_ws(s, m);
                                if !(v0 < m && m <= m2 < s.len()) {
                                    None
                                } else if s[m2] == ',' {
                                    spec_skip_obj(s, m2 + 1)
                                } else if s[m2] == '}' {
                                    Some(m2 + 1)
                                } else {
                                    None
                                }
                            },
                            None => None,
                        }
                    }
                }
            },
            None => None,
        }
    }
}

/// Parses one member value: a nested object or array is consumed whole and
/// read as `Other`; anything else is a scalar.
pub open spec fn spec_parse_member_value(s: Seq<char>, i: int) -> Option<(ScalarV, int)> {
    if 0 <= i < s.len() && (s[i] == '{' || s[i] == '[') {
        match spec_skip_value(s, i) {
            Some(m) => Some((ScalarV::Other, m)),
            None => None,
        }
    } else {
        spec_parse_scalar(s, i)
    }
}

/// Parses the members of a flat object from just after a separator: a quoted
/// key, a colon, a member value, then either a comma and more members or the
/// closing brace. Yields the members and the position just past the brace.
pub open spec fn spec_parse_members(s: Seq<char>, i: int) -> Option<(MembersV, int)>
    decreases s.len() - i,
{
    let k0 = skip_ws(s, i);
    if !(i <= k0 < s.len()) {
        None
    } else if s[k0] != '"' {
        None
    } else {
        match spec_parse_qstr(s, k0 + 1) {
            Some((key, j)) => {
                let j2 = skip_ws(s, j);
                if !(k0 + 1 < j <= j2 < s.len()) {
                    None
                } else if s[j2] != ':' {
                    None
                } else {
                    let v0 = skip_ws(s, j2 + 1);
                    if !(j2 < v0) {
                        None
                    } else {
                        match spec_parse_member_value(s, v0) {
                            Some((value, m)) => {
                                let m2 = skip_ws(s, m);
                                if !(v0 < m && m <= m2 < s.len()) {
                                    None
                                } else if s[m2] == ',' {
                                    match spec_parse_members(s, m2 + 1) {
                                        Some((rest, e)) => Some((seq![(key, value)] + rest, e)),
                                        None => None,
                                    }
                                } else if s[m2] == '}' {
                                    Some((seq![(key, value)], m2 + 1))
                                } else {
                                    None
                                }
                            },
                            None => None,
                        }
                    }
                }
            },
            None => None,
        }
    }
}

/// Parses one flat object at `i`: `{}` or `{` members `}`.
pub open spec fn spec_parse_obj(s: Seq<char>, i: int) -> Option<(MembersV, int)> {
    if !(0 <= i < s.len() && s[i] == '{') {
        None
    } else {
        let k = skip_ws(s, i + 1);
        if i < k < s.len() && s[k] == '}' {
            Some((Seq::empty(), k + 1))
        } else {
            spec_parse_members(s, i + 1)
        }
    }
}

/// Parses the elements of an array of flat objects from just after a
/// separator, up to and including the closing bracket.
pub open spec fn spec_parse_objs(s: Seq<char>, i: int) -> Option<(Seq<MembersV>, int)>
    decreases s.len() - i,
{
    let k0 = skip_ws(s, i);
    if !(i <= k0 < s.len()) {
        None
    } else {
        match spec_parse_obj(s, k0) {
            Some((obj, j)) => {
                let j2 = skip_ws(s, j);
                if !(k0 < j && j <= j2 < s.len()) {
                    None
                } else if s[j2] == ',' {
                    match spec_parse_objs(s, j2 + 1) {
                        Some((rest, e)) => Some((seq![obj] + rest, e)),
                        None => None,
                    }
                } else if s[j2] == ']' {
                    Some((seq![obj], j2 + 1))
                } else {
                    None
                }
            },
            None => None,
        }
    }
}

/// Parses an array of flat objects at `i`: `[]` or `[` objects `]`.
pub open spec fn spec_parse_arr(s: Seq<char>, i: int) -> Option<(Seq<MembersV>, int)> {
    if !(0 <= i < s.len() && s[i] == '[') {
        None
    } else {
        let k = skip_ws(s, i + 1);
        if i < k < s.len() && s[k] == ']' {
            Some((Seq::empty(), k + 1))
        } else {
            spec_parse_objs(s, i + 1)
        }
    }
}

/// A member of the response's top-level object: a scalar, or an array of
/// flat objects.
pub ghost enum TopValV {
    Scal(ScalarV),
    Arr(Seq<MembersV>),
}

/// The top-level members, in source order.
pub type TopV = Seq<(Seq<char>, TopValV)>;

/// Parses the members of the top-level object from just after a separator.
pub open spec fn spec_parse_top_members(s: Seq<char>, i: int) -> Option<(TopV, int)>
    decreases s.len() - i,
{
    let k0 = skip_ws(s, i);
    if !(i <= k0 < s.len()) {
        None
    } else if s[k0] != '"' {
        None
    } else {
        match spec_parse_qstr(s, k0 + 1) {
            Some((key, j)) => {
                let j2 = skip_ws(s, j);
                if !(k0 + 1 < j <= j2 < s.len()) {
                    None
                } else if s[j2] != ':' {
                    None
                } else {
                    let v0 = skip_ws(s, j2 + 1);
                    if !(j2 < v0 && v0 < s.len()) {
                        None
                    } else {
                        let parsed: Option<(TopValV, int)> = if s[v0] == '[' {
                            match spec_parse_arr(s, v0) {
                                Some((objs, m)) => Some((TopValV::Arr(objs), m)),
                                None => match spec_skip_value(s, v0) {
                                    Some(m) => Some((TopValV::Scal(ScalarV::Other), m)),
                                    None => None,
                                },
                            }
                        } else if s[v0] == '{' {
                            match spec_skip_value(s, v0) {
                                Some(m) => Some((TopValV::Scal(ScalarV::Other), m)),
                                None => None,
                            }
                        } else {
                            match spec_parse_scalar(s, v0) {
                                Some((value, m)) => Some((TopValV::Scal(value), m)),
                                None => None,
                            }
                        };
                        match parsed {
                            Some((tv, m)) => {
                                let m2 = skip_ws(s, m);
                                if !(v0 < m && m <= m2 < s.len()) {
                                    None
                                } else if s[m2] == ',' {
                                    match spec_parse_top_members(s, m2 + 1) {
                                        Some((rest, e)) => Some((seq![(key, tv)] + rest, e)),
                                        None => None,
                                    }
                                } else if s[m2] == '}' {
                                    Some((seq![(key, tv)], m2 + 1))
                                } else {
                                    None
                                }
                            },
                            None => None,
                        }
                    }
                }
            },
            None => None,
        }
    }
}

/// Parses the whole response text: optional leading blanks, one top-level
/// object, optional trailing blanks, end of input.
pub open spec fn spec_parse_top(s: Seq<char>) -> Option<TopV> {
    let i = skip_ws(s, 0);
    if !(0 <= i < s.len() && s[i] == '{') {
        None
    } else {
        let k = skip_ws(s, i + 1);
        let parsed: Option<(TopV, int)> = if i < k < s.len() && s[k] == '}' {
            Some((Seq::empty(), k + 1))
        } else {
            spec_parse_top_members(s, i + 1)
        };
        match parsed {
            Some((top, e)) => if skip_ws(s, e) == s.len() {
                Some(top)
            } else {
                None
            },
            None => None,
        }
    }
}

/// A top-level member value: a scalar, or an array of flat objects.
#[derive(Debug)]
pub enum JsonTopVal {
    Scal(JsonScalar),
    Arr(Vec<Vec<(String, JsonScalar)>>),
}

/// The members of a flat object, as mathematical values.
pub open spec fn members_view(v: Seq<(String, JsonScalar)>) -> MembersV {
    v.map_values(|p: (String, JsonScalar)| (p.0@, p.1@))
}

/// The objects of an array, as mathematical values.
pub open spec fn objs_view(v: Seq<Vec<(String, JsonScalar)>>) -> Seq<MembersV> {
    v.map_values(|o: Vec<(String, JsonScalar)>| members_view(o@))
}

impl View for JsonTopVal {
    type V = TopValV;

    open spec fn view(&self) -> TopValV {
        match self {
            JsonTopVal::Scal(v) => TopValV::Scal(v@),
            JsonTopVal::Arr(a) => TopValV::Arr(objs_view(a@)),
        }
    }
}

/// The top-level members, as mathematical values.
pub open spec fn top_view(v: Seq<(String, JsonTopVal)>) -> TopV {
    v.map_values(|p: (String, JsonTopVal)| (p.0@, p.1@))
}

/// The first position at or after `i` that holds no blank.
pub(crate) fn ws(s: &Vec<char>, i: usize) -> (r: usize)
    requires
        i <= s@.len(),
    ensures
        r as int == skip_ws(s@, i as int),
        i <= r <= s@.len(),
{
    let mut k = i;
    while k < s.len() && (s[k] == ' ' || s[k] == '\t' || s[k] == '\n' || s[k] == '\r')
        invariant
            i <= k <= s@.len(),
            skip_ws(s@, i as int) == skip_ws(s@, k as int),
        decreases s@.len() - k,
    {
        k = k + 1;
    }
    k
}

/// Whether a character is a decimal digit.
fn is_digit_char(c: char) -> (r: bool)
    ensures
        r == is_digit(c),
{
    c == '0' || c == '1' || c == '2' || c == '3' || c == '4' || c == '5' || c == '6' || c == '7'
        || c == '8' || c == '9'
}

/// Whether a character can stand in a JSON number token.
fn is_number_char_exec(c: char) -> (r: bool)
    ensures
        r == is_number_char(c),
{
    is_digit_char(c) || c == '-' || c == '+' || c == '.' || c == 'e' || c == 'E'
}

/// The end of the number token at `i`, and whether it is all digits.
fn number_token_end(s: &Vec<char>, i: usize) -> (r: (usize, bool))
    requires
        i <= s@.len(),
    ensures
        r.0 as int == number_run_end(s@, i as int),
        r.1 == all_digits(s@, i as int, r.0 as int),
        i <= r.0 <= s@.len(),
{
    let mut k: usize = i;
    let mut digits_only: bool = true;
    while k < s.len() && is_number_char_exec(s[k])
        invariant
            i <= k <= s@.len(),
            number_run_end(s@, i as int) == number_run_end(s@, k as int),
            digits_only == all_digits(s@, i as int, k as int),
            forall|m: int| i <= m < k ==> is_number_char(#[trigger] s@[m]),
        decreases s@.len() - k,
    {
        if !is_digit_char(s[k]) {
            digits_only = false;
        }
        k = k + 1;
        proof {
            assert(digits_only == all_digits(s@, i as int, k as int));
        }
    }
    proof {
        assert(number_run_end(s@, k as int) == k as int);
        lemma_run_bounds(s@, i as int);
    }
    (k, digits_only)
}

/// A number token's end lies within the text.
proof fn lemma_run_bounds(s: Seq<char>, i: int)
    requires
        0 <= i <= s.len(),
    ensures
        i <= number_run_end(s, i) <= s.len(),
    decreases s.len() - i,
{
    if i < s.len() && is_number_char(s[i]) {
        lemma_run_bounds(s, i + 1);
    }
}

/// The numeric value of a digit character.
fn digit_to_val(c: char) -> (r: u64)
    requires
        is_digit(c),
    ensures
        r == digit_val(c),
        r <= 9,
{
    if c == '0' {
        0
    } else if c == '1' {
        1
    } else if c == '2' {
        2
    } else if c == '3' {
        3
    } else if c == '4' {
        4
    } else if c == '5' {
        5
    } else if c == '6' {
        6
    } else if c == '7' {
        7
    } else if c == '8' {
        8
    } else {
        9
    }
}

/// A longer digit string never has a smaller value.
proof fn lemma_num_val_mono(s: Seq<char>, i: int, a: int, e: int)
    requires
        0 <= i <= a <= e <= s.len(),
    ensures
        num_val(s.subrange(i, e)) >= num_val(s.subrange(i, a)),
    decreases e - a,
{
    if e > a {
        lemma_num_val_mono(s, i, a, e - 1);
        assert(s.subrange(i, e).drop_last() =~= s.subrange(i, e - 1));
    }
}

/// Evaluates the all-digit token `[i, e)` as a `u32`; fails exactly when
/// its value does not fit.
fn parse_num(s: &Vec<char>, i: usize, e: usize) -> (r: Option<u32>)
    requires
        i <= e <= s@.len(),
        all_digits(s@, i as int, e as int),
    ensures
        match r {
            Some(n) => num_val(s@.subrange(i as int, e as int)) == n,
            None => num_val(s@.subrange(i as int, e as int)) > u32::MAX,
        },
{
    let mut k: usize = i;
    let mut acc: u64 = 0;
    proof {
        assert(s@.subrange(i as int, i as int) =~= Seq::<char>::empty());
    }
    while k < e
        invariant
            i <= k <= e <= s@.len(),
            all_digits(s@, i as int, e as int),
            acc == num_val(s@.subrange(i as int, k as int)),
            acc <= u32::MAX,
        decreases e - k,
    {
        let d: u64 = digit_to_val(s[k]);
        proof {
            assert(s@.subrange(i as int, k + 1).drop_last() =~= s@.subrange(i as int, k as int));
            assert(s@.subrange(i as int, k + 1).last() == s@[k as int]);
        }
        let next: u64 = acc * 10 + d;
        if next > 0xFFFF_FFFFu64 {
            proof {
                lemma_num_val_mono(s@, i as int, k + 1, e as int);
            }
            return None;
        }
        acc = next;
        k = k + 1;
    }
    Some(acc as u32)
}

/// Parses one scalar at `i` (no leading blanks).
fn parse_scalar_at(s: &Vec<char>, i: usize) -> (r: Option<(JsonScalar, usize)>)
    requires
        i <= s@.len(),
    ensures
        match r {
            Some(p) => spec_parse_scalar(s@, i as int) == Some((p.0@, p.1 as int)) && i < p.1
                <= s@.len(),
            None => spec_parse_scalar(s@, i as int) is None,
        },
{
    proof {
        reveal_strlit("true");
        reveal_strlit("false");
        reveal_strlit("null");
    }
    if i >= s.len() {
        return None;
    }
    let c = s[i];
    if c == '"' {
        match parse_qstr(s, i + 1) {
            Some(q) => Some((JsonScalar::Str(chars_to_string(&q.0)), q.1)),
            None => None,
        }
    } else if is_digit_char(c) || c == '-' {
        let (e, digits_only) = number_token_end(s, i);
        proof {
            assert(number_run_end(s@, i as int) == number_run_end(s@, i as int + 1));
            lemma_run_bounds(s@, i as int + 1);
        }
        if digits_only {
            match parse_num(s, i, e) {
                Some(n) => Some((JsonScalar::Num(n), e)),
                None => Some((JsonScalar::Other, e)),
            }
        } else {
            Some((JsonScalar::Other, e))
        }
    } else if let Some(j) = match_lit(s, i, "true") {
        Some((JsonScalar::Bool(true), j))
    } else if let Some(j) = match_lit(s, i, "false") {
        Some((JsonScalar::Bool(false), j))
    } else if let Some(j) = match_lit(s, i, "null") {
        Some((JsonScalar::Null, j))
    } else {
        None
    }
}

/// Consumes one JSON value of any shape at `i`.
fn skip_value(s: &Vec<char>, i: usize) -> (r: Option<usize>)
    requires
        i <= s@.len(),
    ensures
        match r {
            Some(j) => spec_skip_value(s@, i as int) == Some(j as int) && i < j <= s@.len(),
            None => spec_skip_value(s@, i as int) is None,
        },
    decreases s@.len() - i, 0int,
{
    proof {
        reveal_strlit("true");
        reveal_strlit("false");
        reveal_strlit("null");
    }
    if i >= s.len() {
        return None;
    }
    let c = s[i];
    if c == '"' {
        match parse_qstr(s, i + 1) {
            Some(q) => Some(q.1),
            None => None,
        }
    } else if is_number_char_exec(c) {
        let (e, _digits_only) = number_token_end(s, i);
        proof {
            assert(number_run_end(s@, i as int) == number_run_end(s@, i as int + 1));
            lemma_run_bounds(s@, i as int + 1);
        }
        Some(e)
    } else if let Some(j) = match_lit(s, i, "true") {
        Some(j)
    } else if let Some(j) = match_lit(s, i, "false") {
        Some(j)
    } else if let Some(j) = match_lit(s, i, "null") {
        Some(j)
    } else if c == '[' {
        let k = ws(s, i + 1);
        if k < s.len() && s[k] == ']' {
            Some(k + 1)
        } else {
            skip_elems(s, i + 1)
        }
    } else if c == '{' {
        let k = ws(s, i + 1);
        if k < s.len() && s[k] == '}' {
            Some(k + 1)
        } else {
            skip_obj(s, i + 1)
        }
    } else {
        None
    }
}

/// Consumes array elements of any shape through the closing bracket.
fn skip_elems(s: &Vec<char>, i: usize) -> (r: Option<usize>)
    requires
        i <= s@.len(),
    ensures
        match r {
            Some(j) => spec_skip_elems(s@, i as int) == Some(j as int) && i < j <= s@.len(),
            None => spec_skip_elems(s@, i as int) is None,
        },
    decreases s@.len() - i, 1int,
{
    let k0 = ws(s, i);
    if k0 >= s.len() {
        return None;
    }
    let j = match skip_value(s, k0) {
        Some(j) => j,
        None => {
            return None;
        },
    };
    let j2 = ws(s, j);
    if j2 >= s.len() {
        return None;
    }
    if s[j2] == ',' {
        skip_elems(s, j2 + 1)
    } else if s[j2] == ']' {
        Some(j2 + 1)
    } else {
        None
    }
}

/// Consumes object members of any shape through the closing brace.
fn skip_obj(s: &Vec<char>, i: usize) -> (r: Option<usize>)
    requires
        i <= s@.len(),
    ensures
        match r {
            Some(j) => spec_skip_obj(s@, i as int) == Some(j as int) && i < j <= s@.len(),
            None => spec_skip_obj(s@, i as int) is None,
        },
    decreases s@.len() - i, 1int,
{
    let k0 = ws(s, i);
    if k0 >= s.len() {
        return None;
    }
    if s[k0] != '"' {
        return None;
    }
    let j = match parse_qstr(s, k0 + 1) {
        Some(q) => q.1,
        None => {
            return None;
        },
    };
    let j2 = ws(s, j);
    if j2 >= s.len() || s[j2] != ':' {
        return None;
    }
    let v0 = ws(s, j2 + 1);
    let m = match skip_value(s, v0) {
        Some(m) => m,
        None => {
            return None;
        },
    };
    let m2 = ws(s, m);
    if m2 >= s.len() {
        return None;
    }
    if s[m2] == ',' {
        skip_obj(s, m2 + 1)
    } else if s[m2] == '}' {
        Some(m2 + 1)
    } else {
        None
    }
}

/// Parses flat-object members from just after a separator, through the
/// closing brace.
fn parse_members(s: &Vec<char>, i: usize) -> (r: Option<(Vec<(String, JsonScalar)>, usize)>)
    requires
        i <= s@.len(),
    ensures
        match r {
            Some(p) => spec_parse_members(s@, i as int) == Some((members_view(p.0@), p.1 as int))
                && i < p.1 <= s@.len(),
            None => spec_parse_members(s@, i as int) is None,
        },
    decreases s@.len() - i,
{
    let k0 = ws(s, i);
    if k0 >= s.len() {
        return None;
    }
    if s[k0] != '"' {
        return None;
    }
    let (key, j) = match parse_qstr(s, k0 + 1) {
        Some(q) => q,
        None => {
            return None;
        },
    };
    let j2 = ws(s, j);
    if j2 >= s.len() || s[j2] != ':' {
        return None;
    }
    let v0 = ws(s, j2 + 1);
    let (value, m) = if v0 < s.len() && (s[v0] == '{' || s[v0] == '[') {
        match skip_value(s, v0) {
            Some(m) => (JsonScalar::Other, m),
            None => {
                return None;
            },
        }
    } else {
        match parse_scalar_at(s, v0) {
            Some(q) => q,
            None => {
                return None;
            },
        }
    };
    let ghost valv = value@;
    let m2 = ws(s, m);
    if m2 >= s.len() {
        return None;
    }
    if s[m2] == ',' {
        match parse_members(s, m2 + 1) {
            Some(p) => {
                let (mut rest, e) = p;
                let ghost rest_view = members_view(rest@);
                rest.insert(0, (chars_to_string(&key), value));
                proof {
                    assert(members_view(rest@) =~= seq![(key@, valv)] + rest_view);
                }
                Some((rest, e))
            },
            None => None,
        }
    } else if s[m2] == '}' {
        let mut one: Vec<(String, JsonScalar)> = Vec::new();
        one.push((chars_to_string(&key), value));
        proof {
            assert(members_view(one@) =~= seq![(key@, valv)]);
        }
        Some((one, m2 + 1))
    } else {
        None
    }
}

/// Parses one flat object at `i`.
fn parse_obj(s: &Vec<char>, i: usize) -> (r: Option<(Vec<(String, JsonScalar)>, usize)>)
    requires
        i <= s@.len(),
    ensures
        match r {
            Some(p) => spec_parse_obj(s@, i as int) == Some((members_view(p.0@), p.1 as int))
                && i < p.1 <= s@.len(),
            None => spec_parse_obj(s@, i as int) is None,
        },
{
    if i >= s.len() || s[i] != '{' {
        return None;
    }
    let k = ws(s, i + 1);
    if k < s.len() && s[k] == '}' {
        let empty: Vec<(String, JsonScalar)> = Vec::new();
        proof {
            assert(members_view(empty@) =~= Seq::<(Seq<char>, ScalarV)>::empty());
        }
        Some((empty, k + 1))
    } else {
        parse_members(s, i + 1)
    }
}

/// Parses array elements (flat objects) from just after a separator,
/// through the closing bracket.
fn parse_objs(s: &Vec<char>, i: usize) -> (r: Option<(Vec<Vec<(String, JsonScalar)>>, usize)>)
    requires
        i <= s@.len(),
    ensures
        match r {
            Some(p) => spec_parse_objs(s@, i as int) == Some((objs_view(p.0@), p.1 as int)) && i
                < p.1 <= s@.len(),
            None => spec_parse_objs(s@, i as int) is None,
        },
    decreases s@.len() - i,
{
    let k0 = ws(s, i);
    if k0 >= s.len() {
        return None;
    }
    let (obj, j) = match parse_obj(s, k0) {
        Some(q) => q,
        None => {
            return None;
        },
    };
    let ghost objv = members_view(obj@);
    let j2 = ws(s, j);
    if j2 >= s.len() {
        return None;
    }
    if s[j2] == ',' {
        match parse_objs(s, j2 + 1) {
            Some(p) => {
                let (mut rest, e) = p;
                let ghost rest_view = objs_view(rest@);
                rest.insert(0, obj);
                proof {
                    assert(objs_view(rest@) =~= seq![objv] + rest_view);
                }
                Some((rest, e))
            },
            None => None,
        }
    } else if s[j2] == ']' {
        let mut one: Vec<Vec<(String, JsonScalar)>> = Vec::new();
        one.push(obj);
        proof {
            assert(objs_view(one@) =~= seq![objv]);
        }
        Some((one, j2 + 1))
    } else {
        None
    }
}

/// Parses an array of flat objects at `i`.
fn parse_arr(s: &Vec<char>, i: usize) -> (r: Option<(Vec<Vec<(String, JsonScalar)>>, usize)>)
    requires
        i <= s@.len(),
    ensures
        match r {
            Some(p) => spec_parse_arr(s@, i as int) == Some((objs_view(p.0@), p.1 as int)) && i
                < p.1 <= s@.len(),
            None => spec_parse_arr(s@, i as int) is None,
        },
{
    if i >= s.len() || s[i] != '[' {
        return None;
    }
    let k = ws(s, i + 1);
    if k < s.len() && s[k] == ']' {
        let empty: Vec<Vec<(String, JsonScalar)>> = Vec::new();
        proof {
            assert(objs_view(empty@) =~= Seq::<MembersV>::empty());
        }
        Some((empty, k + 1))
    } else {
        parse_objs(s, i + 1)
    }
}

/// Parses top-level members from just after a separator, through the
/// closing brace.
fn parse_top_members(s: &Vec<char>, i: usize) -> (r: Option<(Vec<(String, JsonTopVal)>, usize)>)
    requires
        i <= s@.len(),
    ensures
        match r {
            Some(p) => spec_parse_top_members(s@, i as int) == Some(
                (top_view(p.0@), p.1 as int),
            ) && i < p.1 <= s@.len(),
            None => spec_parse_top_members(s@, i as int) is None,
        },
    decreases s@.len() - i,
{
    let k0 = ws(s, i);
    if k0 >= s.len() {
        return None;
    }
    if s[k0] != '"' {
        return None;
    }
    let (key, j) = match parse_qstr(s, k0 + 1) {
        Some(q) => q,
        None => {
            return None;
        },
    };
    let j2 = ws(s, j);
    if j2 >= s.len() || s[j2] != ':' {
        return None;
    }
    let v0 = ws(s, j2 + 1);
    if v0 >= s.len() {
        return None;
    }
    let (tv, m) = if s[v0] == '[' {
        match parse_arr(s, v0) {
            Some(q) => (JsonTopVal::Arr(q.0), q.1),
            None => match skip_value(s, v0) {
                Some(m) => (JsonTopVal::Scal(JsonScalar::Other), m),
                None => {
                    return None;
                },
            },
        }
    } else if s[v0] == '{' {
        match skip_value(s, v0) {
            Some(m) => (JsonTopVal::Scal(JsonScalar::Other), m),
            None => {
                return None;
            },
        }
    } else {
        match parse_scalar_at(s, v0) {
            Some(q) => (JsonTopVal::Scal(q.0), q.1),
            None => {
                return None;
            },
        }
    };
    let ghost tvv = tv@;
    let m2 = ws(s, m);
    if m2 >= s.len() {
        return None;
    }
    if s[m2] == ',' {
        match parse_top_members(s, m2 + 1) {
            Some(p) => {
                let (mut rest, e) = p;
                let ghost rest_view = top_view(rest@);
                rest.insert(0, (chars_to_string(&key), tv));
                proof {
                    assert(top_view(rest@) =~= seq![(key@, tvv)] + rest_view);
                }
                Some((rest, e))
            },
            None => None,
        }
    } else if s[m2] == '}' {
        let mut one: Vec<(String, JsonTopVal)> = Vec::new();
        one.push((chars_to_string(&key), tv));
        proof {
            assert(top_view(one@) =~= seq![(key@, tvv)]);
        }
        Some((one, m2 + 1))
    } else {
        None
    }
}

/// Parses a whole response text into its top-level members.
pub fn parse_top(s: &Vec<char>) -> (r: Option<Vec<(String, JsonTopVal)>>)
    ensures
        match r {
            Some(p) => spec_parse_top(s@) == Some(top_view(p@)),
            None => spec_parse_top(s@) is None,
        },
{
    let i = ws(s, 0);
    if i >= s.len() || s[i] != '{' {
        return None;
    }
    let k = ws(s, i + 1);
    let (top, e) = if k < s.len() && s[k] == '}' {
        let empty: Vec<(String, JsonTopVal)> = Vec::new();
        proof {
            assert(top_view(empty@) =~= Seq::<(Seq<char>, TopValV)>::empty());
        }
        (empty, k + 1)
    } else {
        match parse_top_members(s, i + 1) {
            Some(q) => q,
            None => {
                return None;
            },
        }
    };
    let e2 = ws(s, e);
    if e2 == s.len() {
        Some(top)
    } else {
        None
    }
}

} // verus!

use vstd::prelude::*;

verus! {

/// `needle` occurs contiguously somewhere in `hay`.
pub open spec fn contains_seq(hay: Seq<char>, needle: Seq<char>) -> bool {
    exists|k: int|
        0 <= k && k + needle.len() <= hay.len() && #[trigger] hay.subrange(k, k + needle.len())
            == needle
}

/// `s` holds no line break.
pub open spec fn no_newline(s: Seq<char>) -> bool {
    forall|k: int| 0 <= k < s.len() ==> s[k] != '\n'
}

/// Relies on `String::push`: appends exactly the given character.
pub assume_specification [ String::push ](s: &mut String, ch: char)
    ensures
        final(s)@ == old(s)@.push(ch),
;

/// The characters of `s`, one by one.
pub fn str_to_chars(s: &str) -> (r: Vec<char>)
    ensures
        r@ == s@,
{
    let n = s.unicode_len();
    let mut r: Vec<char> = Vec::new();
    for i in 0..n
        invariant
            n == s@.len(),
            r@ == s@.subrange(0, i as int),
    {
        r.push(s.get_char(i));
        proof {
            assert(r@ =~= s@.subrange(0, i + 1));
        }
    }
    proof {
        assert(s@.subrange(0, s@.len() as int) =~= s@);
    }
    r
}

/// The characters of `v`, gathered into a `String`.
pub fn chars_to_string(v: &Vec<char>) -> (r: String)
    ensures
        r@ == v@,
{
    let mut r = String::new();
    let n = v.len();
    for i in 0..n
        invariant
            n == v.len(),
            r@ == v@.subrange(0, i as int),
    {
        r.push(v[i]);
        proof {
            assert(r@ =~= v@.subrange(0, i + 1));
        }
    }
    proof {
        assert(v@.subrange(0, v@.len() as int) =~= v@);
    }
    r
}

/// A run of `n` asterisks, as used to mask a password on display.
pub open spec fn spec_stars(n: nat) -> Seq<char>
    decreases n,
{
    if n == 0 {
        Seq::empty()
    } else {
        spec_stars((n - 1) as nat).push('*')
    }
}

/// One asterisk per masked character.
pub fn stars(n: usize) -> (r: String)
    ensures
        r@ == spec_stars(n as nat),
        r@.len() == n,
{
    let mut r = String::new();
    proof {
        lemma_stars_len(n as nat);
    }
    for i in 0..n
        invariant
            r@ == spec_stars(i as nat),
            r@.len() == i,
    {
        r.push('*');
    }
    r
}

/// A run of `n` asterisks has length `n`.
proof fn lemma_stars_len(n: nat)
    ensures
        spec_stars(n).len() == n,
    decreases n,
{
    if n > 0 {
        lemma_stars_len((n - 1) as nat);
    }
}

/// Exact, case-sensitive equality of two string slices.
pub fn str_eq(a: &str, b: &str) -> (r: bool)
    ensures
        r == (a@ == b@),
{
    let na = a.unicode_len();
    let nb = b.unicode_len();
    if na != nb {
        proof {
            assert(a@ != b@);
        }
        return false;
    }
    for i in 0..na
        invariant
            na == a@.len() && na == b@.len(),
            forall|j: int| 0 <= j < i ==> a@[j] == b@[j],
    {
        if a.get_char(i) != b.get_char(i) {
            return false;
        }
    }
    proof {
        assert(a@ =~= b@);
    }
    true
}

/// Appends a literal to the character buffer.
pub fn append_str(out: &mut Vec<char>, lit: &str)
    ensures
        final(out)@ == old(out)@ + lit@,
{
    let chars = str_to_chars(lit);
    let n = chars.len();
    proof {
        assert(out@ + lit@.subrange(0, 0) =~= out@);
    }
    for i in 0..n
        invariant
            n == lit@.len(),
            chars@ == lit@,
            out@ == old(out)@ + lit@.subrange(0, i as int),
    {
        out.push(chars[i]);
        proof {
            assert(out@ =~= old(out)@ + lit@.subrange(0, i + 1));
        }
    }
    proof {
        assert(lit@.subrange(0, lit@.len() as int) =~= lit@);
    }
}

} // verus!

use vstd::prelude::*;

use crate::config::Config;
use crate::config::ConfigV;
use crate::config::unique_keys;
use crate::error::Error;
use crate::quoted::escape_into;
use crate::quoted::escape_seq;
use crate::quoted::match_lit;
use crate::quoted::matches_at;
use crate::quoted::parse_qstr;
use crate::quoted::quoted;
use crate::quoted::spec_parse_qstr;
use crate::quoted::lemma_qstr_round_trip;
use crate::json::skip_ws;
use crate::json::ws;
use crate::text::append_str;
use crate::text::chars_to_string;
use crate::text::str_to_chars;

verus! {

/// One override line: quoted key, separator, quoted replacement, line break.
pub open spec fn entry_text(key: Seq<char>, value: Seq<char>) -> Seq<char> {
    quoted(key) + " = "@ + quoted(value) + "\n"@
}

/// The override lines, in table order.
pub open spec fn entries_text(entries: Seq<(Seq<char>, Seq<char>)>) -> Seq<char>
    decreases entries.len(),
{
    if entries.len() == 0 {
        Seq::empty()
    } else {
        entry_text(entries[0].0, entries[0].1) + entries_text(entries.drop_first())
    }
}

/// The serialized form of a configuration: the two credential lines, the
/// override table header, and one line per override.
pub open spec fn config_text(c: ConfigV) -> Seq<char> {
    "username = "@ + quoted(c.username) + "\n"@ + "password = "@ + quoted(c.password) + "\n"@
        + "[device_name_overrides]\n"@ + entries_text(c.device_name_overrides)
}

/// A character that may stand in an unquoted override key, as plain
/// configuration keys are written: letters, digits, dash and underscore.
pub open spec fn is_bare_char(c: char) -> bool {
    (('a' as u32) <= (c as u32) && (c as u32) <= ('z' as u32)) || (('A' as u32) <= (c as u32) && (
    c as u32) <= ('Z' as u32)) || (('0' as u32) <= (c as u32) && (c as u32) <= ('9' as u32)) || c
        == '-' || c == '_'
}

/// The end of the unquoted key that starts at `i`.
pub open spec fn bare_run_end(s: Seq<char>, i: int) -> int
    decreases s.len() - i,
{
    if 0 <= i < s.len() && is_bare_char(s[i]) {
        bare_run_end(s, i + 1)
    } else {
        i
    }
}

/// Parses override lines from position `i` to the very end of the text.
/// A line's key may be quoted or bare, and blanks before a line are skipped.
pub open spec fn spec_parse_entries(s: Seq<char>, i: int) -> Option<Seq<(Seq<char>, Seq<char>)>>
    decreases s.len() - i,
{
    let i2 = skip_ws(s, i);
    if !(0 <= i && i <= i2 <= s.len()) {
        None
    } else if i2 == s.len() {
        Some(Seq::empty())
    } else if s[i2] == '"' {
        match spec_parse_qstr(s, i2 + 1) {
            Some((key, j)) => if i2 + 1 < j && matches_at(s, j, " = \""@) {
                match spec_parse_qstr(s, j + 4) {
                    Some((value, m)) => if j + 4 < m && m < s.len() && s[m] == '\n' {
                        match spec_parse_entries(s, m + 1) {
                            Some(rest) => Some(seq![(key, value)] + rest),
                            None => None,
                        }
                    } else {
                        None
                    },
                    None => None,
                }
            } else {
                None
            },
            None => None,
        }
    } else if is_bare_char(s[i2]) {
        let e = bare_run_end(s, i2);
        if i2 < e && matches_at(s, e, " = \""@) {
            match spec_parse_qstr(s, e + 4) {
                Some((value, m)) => if e + 4 < m && m < s.len() && s[m] == '\n' {
                    match spec_parse_entries(s, m + 1) {
                        Some(rest) => Some(seq![(s.subrange(i2, e), value)] + rest),
                        None => None,
                    }
                } else {
                    None
                },
                None => None,
            }
        } else {
            None
        }
    } else {
        None
    }
}

/// Parses a whole configuration text; the result is well formed or nothing.
pub open spec fn spec_parse_config(s: Seq<char>) -> Option<ConfigV> {
    if !matches_at(s, 0, "username = \""@) {
        None
    } else {
        match spec_parse_qstr(s, 12) {
            Some((u, j)) => if matches_at(s, j, "\npassword = \""@) {
                match spec_parse_qstr(s, j + 13) {
                    Some((p, m)) => if 0 <= m < s.len() && s[m] == '\n' && matches_at(
                        s,
                        skip_ws(s, m + 1),
                        "[device_name_overrides]\n"@,
                    ) && m < skip_ws(s, m + 1) {
                        match spec_parse_entries(s, skip_ws(s, m + 1) + 24) {
                            Some(entries) => if unique_keys(entries) {
                                Some(
                                    ConfigV {
                                        username: u,
                                        password: p,
                                        device_name_overrides: entries,
                                    },
                                )
                            } else {
                                None
                            },
                            None => None,
                        }
                    } else {
                        None
                    },
                    None => None,
                }
            } else {
                None
            },
            None => None,
        }
    }
}

/// Serializes a configuration to its persisted text form.
pub fn serialize_config(c: &Config) -> (r: String)
    ensures
        r@ == config_text(c@),
{
    proof {
        reveal_strlit("username = \"");
        reveal_strlit("username = ");
        reveal_strlit("\"\npassword = \"");
        reveal_strlit("password = ");
        reveal_strlit("\"\n[device_name_overrides]\n");
        reveal_strlit("[device_name_overrides]\n");
        reveal_strlit("\n");
    }
    let mut out: Vec<char> = Vec::new();
    append_str(&mut out, "username = \"");
    escape_into(c.username.as_str(), &mut out);
    append_str(&mut out, "\"\npassword = \"");
    escape_into(c.password.as_str(), &mut out);
    append_str(&mut out, "\"\n[device_name_overrides]\n");
    let ghost head = out@;
    let n = c.device_name_overrides.len();
    proof {
        assert(out@ + entries_text(c@.device_name_overrides.subrange(0, 0)) =~= out@);
        assert(c@.device_name_overrides.len() == n);
    }
    for i in 0..n
        invariant
            n == c.device_name_overrides.len(),
            c@.device_name_overrides.len() == n,
            head == out@.subrange(0, head.len() as int) && head.len() <= out@.len(),
            out@ == head + entries_text(c@.device_name_overrides.subrange(0, i as int)),
            forall|j: int| 0 <= j < n ==> #[trigger] c@.device_name_overrides[j] == (
                c.device_name_overrides@[j].0@,
                c.device_name_overrides@[j].1@,
            ),
    {
        proof {
            reveal_strlit("\" = \"");
            reveal_strlit(" = ");
            reveal_strlit("\"\n");
            reveal_strlit("\n");
        }
        out.push('"');
        escape_into(c.device_name_overrides[i].0.as_str(), &mut out);
        append_str(&mut out, "\" = \"");
        escape_into(c.device_name_overrides[i].1.as_str(), &mut out);
        append_str(&mut out, "\"\n");
        proof {
            let entries = c@.device_name_overrides;
            lemma_entries_text_snoc(entries.subrange(0, i as int), entries[i as int]);
            assert(entries.subrange(0, i as int).push(entries[i as int]) =~= entries.subrange(
                0,
                i + 1,
            ));
            assert(out@ =~= head + entries_text(entries.subrange(0, i + 1)));
        }
    }
    proof {
        assert(c@.device_name_overrides.subrange(0, c@.device_name_overrides.len() as int)
            =~= c@.device_name_overrides);
        assert(head + entries_text(c@.device_name_overrides) =~= config_text(c@));
    }
    chars_to_string(&out)
}

/// Serializing one more entry appends its line.
proof fn lemma_entries_text_snoc(entries: Seq<(Seq<char>, Seq<char>)>, e: (Seq<char>, Seq<char>))
    ensures
        entries_text(entries.push(e)) == entries_text(entries) + entry_text(e.0, e.1),
    decreases entries.len(),
{
    if entries.len() == 0 {
        assert(entries.push(e)[0] == e);
        assert(entries.push(e).drop_first() =~= entries);
        assert(entries_text(entries.push(e)) =~= entries_text(entries) + entry_text(e.0, e.1));
    } else {
        assert(entries.push(e)[0] == entries[0]);
        assert(entries.push(e).drop_first() =~= entries.drop_first().push(e));
        lemma_entries_text_snoc(entries.drop_first(), e);
        assert(entries_text(entries.push(e)) =~= entries_text(entries) + entry_text(e.0, e.1));
    }
}

/// Whether a character may stand in an unquoted override key.
fn is_bare_char_exec(c: char) -> (r: bool)
    ensures
        r == is_bare_char(c),
{
    let v = c as u32;
    (('a' as u32) <= v && v <= ('z' as u32)) || (('A' as u32) <= v && v <= ('Z' as u32)) || (('0'
        as u32) <= v && v <= ('9' as u32)) || c == '-' || c == '_'
}

/// The end of the unquoted key at `i`.
fn bare_token_end(s: &Vec<char>, i: usize) -> (r: usize)
    requires
        i <= s@.len(),
    ensures
        r as int == bare_run_end(s@, i as int),
        i <= r <= s@.len(),
{
    let mut k: usize = i;
    while k < s.len() && is_bare_char_exec(s[k])
        invariant
            i <= k <= s@.len(),
            bare_run_end(s@, i as int) == bare_run_end(s@, k as int),
        decreases s@.len() - k,
    {
        k = k + 1;
    }
    k
}

/// A bare-key run lies within the text.
proof fn lemma_bare_bounds(s: Seq<char>, i: int)
    requires
        0 <= i <= s.len(),
    ensures
        i <= bare_run_end(s, i) <= s.len(),
    decreases s.len() - i,
{
    if i < s.len() && is_bare_char(s[i]) {
        lemma_bare_bounds(s, i + 1);
    }
}

/// The characters of the range `[a, b)`.
fn copy_range(s: &Vec<char>, a: usize, b: usize) -> (r: Vec<char>)
    requires
        a <= b <= s@.len(),
    ensures
        r@ == s@.subrange(a as int, b as int),
{
    let mut r: Vec<char> = Vec::new();
    let mut k: usize = a;
    proof {
        assert(r@ =~= s@.subrange(a as int, a as int));
    }
    while k < b
        invariant
            a <= k <= b <= s@.len(),
            r@ == s@.subrange(a as int, k as int),
        decreases b - k,
    {
        r.push(s[k]);
        k = k + 1;
        proof {
            assert(r@ =~= s@.subrange(a as int, k as int));
        }
    }
    r
}

/// Parses the persisted text form back into a configuration. Exactly the
/// texts that `spec_parse_config` accepts parse; everything else is a
/// `ConfigParseError`.
pub fn parse_config(s: &str) -> (r: Result<Config, Error>)
    ensures
        match r {
            Ok(c) => spec_parse_config(s@) == Some(c@) && c.wf(),
            Err(e) => e matches Error::ConfigParseError && spec_parse_config(s@) is None,
        },
{
    proof {
        reveal_strlit("username = \"");
        reveal_strlit("\npassword = \"");
        reveal_strlit("[device_name_overrides]\n");
        reveal_strlit(" = \"");
    }
    let chars = str_to_chars(s);
    let i0 = match match_lit(&chars, 0, "username = \"") {
        Some(j) => j,
        None => {
            return Err(Error::ConfigParseError);
        },
    };
    let (u, i1) = match parse_qstr(&chars, i0) {
        Some(p) => p,
        None => {
            return Err(Error::ConfigParseError);
        },
    };
    let i2 = match match_lit(&chars, i1, "\npassword = \"") {
        Some(j) => j,
        None => {
            return Err(Error::ConfigParseError);
        },
    };
    let (p, i3) = match parse_qstr(&chars, i2) {
        Some(q) => q,
        None => {
            return Err(Error::ConfigParseError);
        },
    };
    if i3 >= chars.len() || chars[i3] != '\n' {
        return Err(Error::ConfigParseError);
    }
    let h = ws(&chars, i3 + 1);
    let i4 = match match_lit(&chars, h, "[device_name_overrides]\n") {
        Some(j) => j,
        None => {
            return Err(Error::ConfigParseError);
        },
    };
    let mut config = Config {
        username: chars_to_string(&u),
        password: chars_to_string(&p),
        device_name_overrides: Vec::new(),
    };
    proof {
        assert(config@.device_name_overrides =~= Seq::<(Seq<char>, Seq<char>)>::empty());
        match spec_parse_entries(s@, i4 as int) {
            Some(rest) => {
                assert(config@.device_name_overrides + rest =~= rest);
            },
            None => {},
        }
    }
    let mut i: usize = i4;
    loop
        invariant
            i <= chars@.len(),
            chars@ == s@,
            config@.username == u@,
            config@.password == p@,
            config.wf(),
            matches_at(s@, 0, "username = \""@),
            spec_parse_qstr(s@, 12) == Some((u@, i1 as int)),
            matches_at(s@, i1 as int, "\npassword = \""@),
            spec_parse_qstr(s@, i1 + 13) == Some((p@, i3 as int)),
            i3 < s@.len() && s@[i3 as int] == '\n',
            h as int == skip_ws(s@, i3 + 1),
            i3 < h,
            matches_at(s@, h as int, "[device_name_overrides]\n"@),
            i4 == h + 24,
            i4 <= i,
            match spec_parse_entries(s@, i as int) {
                Some(rest) => spec_parse_entries(s@, i4 as int) == Some(
                    config@.device_name_overrides + rest,
                ),
                None => spec_parse_entries(s@, i4 as int) is None,
            },
        decreases s@.len() - i,
    {
        proof {
            reveal_strlit("username = \"");
            reveal_strlit("\npassword = \"");
            reveal_strlit("[device_name_overrides]\n");
            reveal_strlit(" = \"");
        }
        let i2 = ws(&chars, i);
        if i2 == chars.len() {
            proof {
                assert(config@.device_name_overrides + Seq::<(Seq<char>, Seq<char>)>::empty()
                    =~= config@.device_name_overrides);
                assert(ConfigV {
                    username: u@,
                    password: p@,
                    device_name_overrides: config@.device_name_overrides,
                } =~= config@);
            }
            return Ok(config);
        }
        let ghost old_entries = config@.device_name_overrides;
        let (key, j): (Vec<char>, usize) = if chars[i2] == '"' {
            match parse_qstr(&chars, i2 + 1) {
                Some(q) => q,
                None => {
                    return Err(Error::ConfigParseError);
                },
            }
        } else if is_bare_char_exec(chars[i2]) {
            proof {
                assert(bare_run_end(s@, i2 as int) == bare_run_end(s@, i2 as int + 1));
                lemma_bare_bounds(s@, i2 as int + 1);
            }
            let e = bare_token_end(&chars, i2);
            (copy_range(&chars, i2, e), e)
        } else {
            return Err(Error::ConfigParseError);
        };
        let j2 = match match_lit(&chars, j, " = \"") {
            Some(m) => m,
            None => {
                return Err(Error::ConfigParseError);
            },
        };
        let (value, m) = match parse_qstr(&chars, j2) {
            Some(q) => q,
            None => {
                return Err(Error::ConfigParseError);
            },
        };
        if m >= chars.len() || chars[m] != '\n' {
            return Err(Error::ConfigParseError);
        }
        let key_s = chars_to_string(&key);
        if config.lookup_override(&key_s).is_some() {
            proof {
                crate::config::lemma_lookup_found(old_entries, key@);
                let a = choose|a: int|
                    0 <= a < old_entries.len() && (#[trigger] old_entries[a]).0 == key@;
                match spec_parse_entries(s@, m + 1) {
                    Some(r2) => {
                        let tail_entries = seq![(key@, value@)] + r2;
                        assert(spec_parse_entries(s@, i as int) == Some(tail_entries));
                        let full = old_entries + tail_entries;
                        assert(spec_parse_entries(s@, i4 as int) == Some(full));
                        let b = old_entries.len() as int;
                        assert(full[a] == old_entries[a]);
                        assert(full[b] == tail_entries[0]);
                        assert(full[a].0 == full[b].0);
                        assert(!unique_keys(full));
                    },
                    None => {
                        assert(spec_parse_entries(s@, i as int) is None);
                    },
                }
            }
            return Err(Error::ConfigParseError);
        }
        config.device_name_overrides.push((key_s, chars_to_string(&value)));
        proof {
            assert(config@.device_name_overrides =~= old_entries.push((key@, value@)));
            match spec_parse_entries(s@, m + 1) {
                Some(rest) => {
                    assert(spec_parse_entries(s@, i as int) == Some(seq![(key@, value@)] + rest));
                    assert(old_entries.push((key@, value@)) + rest =~= old_entries + (
                    seq![(key@, value@)] + rest));
                },
                None => {},
            }
            assert forall|a: int, b: int|
                0 <= a < b < config@.device_name_overrides.len() implies (
            #[trigger] config@.device_name_overrides[a]).0 != (
            #[trigger] config@.device_name_overrides[b]).0 by {
                if b == config@.device_name_overrides.len() - 1 {
                    if config@.device_name_overrides[a].0 == key@ {
                        crate::config::lemma_key_found_lookup(old_entries, a, key@);
                    }
                } else {
                    assert(old_entries[a] == config@.device_name_overrides[a]);
                    assert(old_entries[b] == config@.device_name_overrides[b]);
                }
            }
        }
        i = m + 1;
    }
}

/// Parsing override lines right after their serialized form recovers the
/// entries exactly.
proof fn lemma_entries_round_trip(entries: Seq<(Seq<char>, Seq<char>)>, s: Seq<char>, i: int)
    requires
        0 <= i,
        i + (entries_text(entries).len() as int) == s.len(),
        forall|k: int|
            0 <= k < (entries_text(entries).len() as int) ==> s[i + k] == #[trigger] entries_text(
                entries,
            )[k],
    ensures
        spec_parse_entries(s, i) == Some(entries),
    decreases entries.len(),
{
    reveal_strlit(" = ");
    reveal_strlit(" = \"");
    reveal_strlit("\n");
    if entries.len() == 0 {
        assert(i == s.len());
        assert(skip_ws(s, i) == i);
    } else {
        let k0 = entries[0].0;
        let v0 = entries[0].1;
        let line = entry_text(k0, v0);
        let rest = entries.drop_first();
        assert(entries_text(entries) == line + entries_text(rest));
        assert forall|k: int| 0 <= k < (line.len() as int) implies s[i + k] == #[trigger] line[k] by {
            assert(entries_text(entries)[k] == line[k]);
        }
        let qk = quoted(k0);
        let qv = quoted(v0);
        assert(s[i] == line[0]);
        assert(line[0] == '"');
        assert(skip_ws(s, i) == i);
        assert forall|k: int| 0 <= k < (escape_seq(k0).len() as int) implies s[i + 1 + k]
            == #[trigger] escape_seq(k0)[k] by {
            assert(line[1 + k] == qk[1 + k]);
            assert(qk[1 + k] == escape_seq(k0)[k]);
        }
        assert(s[i + 1 + (escape_seq(k0).len() as int)] == '"') by {
            assert(line[1 + (escape_seq(k0).len() as int)] == qk[1 + (escape_seq(k0).len() as int)]);
        }
        lemma_qstr_round_trip(k0, s, i + 1);
        let j = i + 1 + (escape_seq(k0).len() as int) + 1;
        assert(spec_parse_qstr(s, i + 1) == Some((k0, j)));
        assert(matches_at(s, j, " = \""@)) by {
            assert forall|k: int| 0 <= k < 4 implies s[j + k] == #[trigger] (" = \""@)[k] by {
                assert(line[(qk.len() as int) + k] == (" = "@ + qv + "\n"@)[k]);
                if k < 3 {
                    assert((" = "@ + qv + "\n"@)[k] == (" = "@)[k]);
                    assert((" = \""@)[k] == (" = "@)[k]);
                } else {
                    assert((" = "@ + qv + "\n"@)[3] == qv[0]);
                    assert(qv[0] == '"');
                    assert((" = \""@)[3] == '"');
                }
                assert(s[i + ((qk.len() as int) + k)] == line[(qk.len() as int) + k]);
            }
        }
        assert forall|k: int| 0 <= k < (escape_seq(v0).len() as int) implies s[j + 4 + k]
            == #[trigger] escape_seq(v0)[k] by {
            assert(line[(qk.len() as int) + 3 + 1 + k] == (" = "@ + qv + "\n"@)[3 + 1 + k]);
            assert((" = "@ + qv + "\n"@)[3 + 1 + k] == qv[1 + k]);
            assert(qv[1 + k] == escape_seq(v0)[k]);
            assert(s[i + ((qk.len() as int) + 3 + 1 + k)] == line[(qk.len() as int) + 3 + 1 + k]);
        }
        assert(s[j + 4 + (escape_seq(v0).len() as int)] == '"') by {
            let n: int = (qk.len() as int) + 4 + (escape_seq(v0).len() as int);
            assert(line[n] == (" = "@ + qv + "\n"@)[3 + 1 + (escape_seq(v0).len() as int)]);
            assert((" = "@ + qv + "\n"@)[3 + 1 + (escape_seq(v0).len() as int)] == qv[1 + (
            escape_seq(v0).len() as int)]);
            assert(s[i + n] == line[n]);
        }
        lemma_qstr_round_trip(v0, s, j + 4);
        let m = j + 4 + (escape_seq(v0).len() as int) + 1;
        assert(spec_parse_qstr(s, j + 4) == Some((v0, m)));
        assert(m == i + (line.len() as int) - 1);
        assert(s[m] == '\n') by {
            assert(line[(line.len() as int) - 1] == (" = "@ + qv + "\n"@)[3 + (qv.len() as int)]);
            assert((" = "@ + qv + "\n"@)[3 + (qv.len() as int)] == '\n');
            assert(s[i + ((line.len() as int) - 1)] == line[(line.len() as int) - 1]);
        }
        assert(m < s.len());
        assert forall|k: int| 0 <= k < (entries_text(rest).len() as int) implies s[m + 1 + k]
            == #[trigger] entries_text(rest)[k] by {
            assert(entries_text(entries)[(line.len() as int) + k] == entries_text(rest)[k]);
            assert(s[i + ((line.len() as int) + k)] == entries_text(entries)[(line.len() as int) + k]);
        }
        lemma_entries_round_trip(rest, s, m + 1);
        assert(seq![(k0, v0)] + rest =~= entries);
    }
}

/// Saving a configuration and loading the result yields an equivalent
/// configuration: serialization followed by parsing is the identity on every
/// well-formed configuration value.
#[verifier::rlimit(60)]
pub proof fn lemma_config_round_trip(c: ConfigV)
    requires
        unique_keys(c.device_name_overrides),
    ensures
        spec_parse_config(config_text(c)) == Some(c),
{
    reveal_strlit("username = ");
    reveal_strlit("username = \"");
    reveal_strlit("\npassword = \"");
    reveal_strlit("password = ");
    reveal_strlit("[device_name_overrides]\n");
    reveal_strlit("[device_name_overrides]\n");
    reveal_strlit("\n");
    let s = config_text(c);
    let u = c.username;
    let p = c.password;
    let qu = quoted(u);
    let qp = quoted(p);
    let entries = c.device_name_overrides;
    let tail1 = "\n"@ + "password = "@ + qp + "\n"@ + "[device_name_overrides]\n"@
        + entries_text(entries);
    assert(s =~= "username = "@ + qu + tail1);
    assert(matches_at(s, 0, "username = \""@)) by {
        assert forall|k: int| 0 <= k < 12 implies s[k] == #[trigger] ("username = \""@)[k] by {
            if k < 11 {
                assert(s[k] == ("username = "@)[k]);
            } else {
                assert(s[11] == qu[0]);
            }
        }
    }
    assert forall|k: int| 0 <= k < (escape_seq(u).len() as int) implies s[12 + k]
        == #[trigger] escape_seq(u)[k] by {
        assert(s[11 + (1 + k)] == qu[1 + k]);
    }
    assert(s[12 + (escape_seq(u).len() as int)] == '"') by {
        assert(s[11 + (1 + (escape_seq(u).len() as int))] == qu[1 + (escape_seq(u).len() as int)]);
    }
    lemma_qstr_round_trip(u, s, 12);
    let j = 12 + (escape_seq(u).len() as int) + 1;
    assert(spec_parse_qstr(s, 12) == Some((u, j)));
    assert(j == 11 + (qu.len() as int));
    let tail2 = qp + "\n"@ + "[device_name_overrides]\n"@ + entries_text(entries);
    assert(s =~= "username = "@ + qu + "\n"@ + "password = "@ + tail2);
    assert(matches_at(s, j, "\npassword = \""@)) by {
        assert forall|k: int| 0 <= k < 13 implies s[j + k] == #[trigger] ("\npassword = \""@)[
            k
        ] by {
            if k == 0 {
                assert(s[j] == ("\n"@)[0]);
            } else if k < 12 {
                assert(s[j + k] == ("password = "@)[k - 1]);
            } else {
                assert(s[j + 12] == qp[0]);
            }
        }
    }
    assert forall|k: int| 0 <= k < (escape_seq(p).len() as int) implies s[j + 13 + k]
        == #[trigger] escape_seq(p)[k] by {
        assert(s[j + 12 + (1 + k)] == qp[1 + k]);
    }
    assert(s[j + 13 + (escape_seq(p).len() as int)] == '"') by {
        assert(s[j + 12 + (1 + (escape_seq(p).len() as int))] == qp[1 + (escape_seq(p).len() as int)]);
    }
    lemma_qstr_round_trip(p, s, j + 13);
    let m = j + 13 + (escape_seq(p).len() as int) + 1;
    assert(spec_parse_qstr(s, j + 13) == Some((p, m)));
    assert(m == j + 12 + (qp.len() as int));
    let tail3 = entries_text(entries);
    assert(s =~= "username = "@ + qu + "\n"@ + "password = "@ + qp + "\n"@
        + "[device_name_overrides]\n"@ + tail3);
    assert(s[m] == '\n') by {
        assert(s[m] == ("\n"@)[0]);
    }
    assert forall|k: int| 0 <= k < 24 implies s[m + 1 + k]
        == #[trigger] ("[device_name_overrides]\n"@)[k] by {
        assert(s[(m + 1) + k] == ("[device_name_overrides]\n"@)[k]);
    }
    assert(matches_at(s, m + 1, "[device_name_overrides]\n"@));
    assert(skip_ws(s, m + 1) == m + 1) by {
        assert(s[m + 1] == ("[device_name_overrides]\n"@)[0]);
    }
    assert forall|k: int| 0 <= k < (entries_text(entries).len() as int) implies s[m + 25 + k]
        == #[trigger] entries_text(entries)[k] by {
        assert(s[(m + 25) + k] == tail3[k]);
    }
    assert(m + 25 + (entries_text(entries).len() as int) == s.len());
    lemma_entries_round_trip(entries, s, m + 25);
    assert(spec_parse_config(s) == Some(
        ConfigV { username: u, password: p, device_name_overrides: entries },
    ));
    assert(ConfigV { username: u, password: p, device_name_overrides: entries } =~= c);
}

} // verus!

//! Verified text utilities: substring search, replacement, escaping and
//! line arithmetic, used by the rate-limit classifier and the tool layer.

use vstd::prelude::*;

use crate::strutil::{chars_of, string_from_chars};

verus! {

/// `n` occurs in `h` starting at position `i`.
pub open spec fn is_match_at(h: Seq<char>, n: Seq<char>, i: int) -> bool {
    0 <= i && i + n.len() <= h.len() && h.subrange(i, i + n.len()) == n
}

/// `n` occurs somewhere in `h`.
pub open spec fn contains_seq(h: Seq<char>, n: Seq<char>) -> bool {
    exists|i: int| is_match_at(h, n, i)
}

/// Whether `needle` occurs in `hay`.
pub fn contains_sub(hay: &str, needle: &str) -> (r: bool)
    ensures
        r == contains_seq(hay@, needle@),
{
    let h = chars_of(hay);
    let n = chars_of(needle);
    find_in_chars(&h, &n).is_some()
}

/// The first position at which `n` occurs in `h`, if any.
pub fn find_in_chars(h: &Vec<char>, n: &Vec<char>) -> (r: Option<usize>)
    ensures
        (match r {
            Some(i) => is_match_at(h@, n@, i as int) && (forall|j: int|
                0 <= j < i ==> !is_match_at(h@, n@, j)),
            None => forall|j: int| !is_match_at(h@, n@, j),
        }),
{
    let hn = h.len();
    let nn = n.len();
    if nn > hn {
        proof {
            assert forall|j: int| !is_match_at(h@, n@, j) by {}
        }
        return None;
    }
    let last = hn - nn;
    let mut i: usize = 0;
    while i <= last
        invariant
            nn == n@.len(),
            hn == h@.len(),
            nn <= hn,
            last == hn - nn,
            i <= last + 1,
            forall|j: int| 0 <= j < i ==> !is_match_at(h@, n@, j),
        decreases last - i,
    {
        let mut k: usize = 0;
        let mut matched = true;
        proof {
            assert(h@.subrange(i as int, i as int) =~= n@.subrange(0, 0));
        }
        while k < nn
            invariant
                nn == n@.len(),
                hn == h@.len(),
                i + nn <= hn,
                k <= nn,
                matched == (h@.subrange(i as int, i + k as int) == n@.subrange(0, k as int)),
            decreases nn - k,
        {
            let ghost hk = h@.subrange(i as int, i + k as int);
            let ghost nk = n@.subrange(0, k as int);
            if h[i + k] != n[k] {
                proof {
                    assert(h@.subrange(i as int, i + k + 1int)[k as int] == h@[i + k]);
                    assert(n@.subrange(0, k + 1int)[k as int] == n@[k as int]);
                }
                matched = false;
            } else {
                if matched {
                    proof {
                        assert(h@.subrange(i as int, i + k + 1int) =~= hk.push(h@[i + k]));
                        assert(n@.subrange(0, k + 1int) =~= nk.push(n@[k as int]));
                    }
                } else {
                    proof {
                        if h@.subrange(i as int, i + k + 1int) == n@.subrange(0, k + 1int) {
                            assert(hk =~= h@.subrange(i as int, i + k + 1int).subrange(
                                0,
                                k as int,
                            ));
                            assert(nk =~= n@.subrange(0, k + 1int).subrange(0, k as int));
                        }
                    }
                }
            }
            k += 1;
        }
        if matched {
            proof {
                assert(n@.subrange(0, nn as int) =~= n@);
            }
            return Some(i);
        }
        proof {
            assert(n@.subrange(0, nn as int) =~= n@);
            assert(!is_match_at(h@, n@, i as int));
        }
        if i == last {
            proof {
                assert forall|j: int| !is_match_at(h@, n@, j) by {
                    if 0 <= j <= last {
                        assert(!is_match_at(h@, n@, j));
                    }
                }
            }
            return None;
        }
        i += 1;
    }
    proof {
        assert forall|j: int| !is_match_at(h@, n@, j) by {
            if 0 <= j <= last {
                assert(!is_match_at(h@, n@, j));
            }
        }
    }
    None
}

/// `first_match` returns exactly the least match position.
pub proof fn lemma_first_match_is(h: Seq<char>, o: Seq<char>, i: int)
    requires
        is_match_at(h, o, i),
        forall|j: int| 0 <= j < i ==> !is_match_at(h, o, j),
    ensures
        first_match(h, o) == Some(i),
{
    assert(contains_seq(h, o));
    assert(is_match_at(h, o, i) && forall|j: int| 0 <= j < i ==> !is_match_at(h, o, j));
    let w = choose|w: int|
        is_match_at(h, o, w) && forall|j: int| 0 <= j < w ==> !is_match_at(h, o, j);
    if w < i {
        assert(!is_match_at(h, o, w));
    }
    if w > i {
        assert(!is_match_at(h, o, i));
    }
}

/// When `o` never occurs, `first_match` is `None`.
pub proof fn lemma_first_match_none(h: Seq<char>, o: Seq<char>)
    requires
        forall|j: int| !is_match_at(h, o, j),
    ensures
        first_match(h, o) is None,
{
}

/// `h` with the first occurrence of `o` replaced by `n`; `h` unchanged
/// when `o` does not occur.
pub fn replace_first(h: &str, o: &str, n: &str) -> (r: String)
    ensures
        (match first_match(h@, o@) {
            Some(i) => r@ == h@.subrange(0, i) + n@ + h@.subrange(i + o@.len(), h@.len() as int),
            None => r@ == h@,
        }),
{
    let hc = chars_of(h);
    let oc = chars_of(o);
    match find_in_chars(&hc, &oc) {
        Some(i) => {
            proof {
                lemma_first_match_is(h@, o@, i as int);
            }
            let hl = hc.len();
            let ol = oc.len();
            proof {
                assert(i + ol <= hl);
            }
            let mut out: Vec<char> = Vec::new();
            let mut j: usize = 0;
            while j < i
                invariant
                    hl == hc@.len(),
                    i + ol <= hl,
                    j <= i,
                    out@ == hc@.subrange(0, j as int),
                decreases i - j,
            {
                out.push(hc[j]);
                proof {
                    assert(hc@.subrange(0, j + 1int) =~= hc@.subrange(0, j as int).push(
                        hc@[j as int],
                    ));
                }
                j += 1;
            }
            let nc = chars_of(n);
            let nl = nc.len();
            let mut j2: usize = 0;
            while j2 < nl
                invariant
                    hl == hc@.len(),
                    i + ol <= hl,
                    nl == nc@.len(),
                    j2 <= nl,
                    out@ == hc@.subrange(0, i as int) + nc@.subrange(0, j2 as int),
                decreases nl - j2,
            {
                out.push(nc[j2]);
                proof {
                    assert(hc@.subrange(0, i as int) + nc@.subrange(0, j2 + 1int) =~= (
                    hc@.subrange(0, i as int) + nc@.subrange(0, j2 as int)).push(
                        nc@[j2 as int],
                    ));
                }
                j2 += 1;
            }
            proof {
                assert(nc@.subrange(0, nl as int) =~= nc@);
            }
            let mut j3: usize = i + ol;
            let ghost start = j3 as int;
            while j3 < hl
                invariant
                    hl == hc@.len(),
                    nc@ == n@,
                    start <= j3 <= hl,
                    0 <= i as int <= start,
                    out@ == hc@.subrange(0, i as int) + nc@ + hc@.subrange(start, j3 as int),
                decreases hl - j3,
            {
                out.push(hc[j3]);
                proof {
                    assert(hc@.subrange(0, i as int) + nc@ + hc@.subrange(start, j3 + 1int) =~= (
                    hc@.subrange(0, i as int) + nc@ + hc@.subrange(start, j3 as int)).push(
                        hc@[j3 as int],
                    ));
                }
                j3 += 1;
            }
            string_from_chars(&out)
        },
        None => {
            proof {
                lemma_first_match_none(h@, o@);
            }
            let mut s = String::new();
            s.append(h);
            s
        },
    }
}

/// The first position at which `o` occurs in `h`, if any.
pub open spec fn first_match(h: Seq<char>, o: Seq<char>) -> Option<int> {
    if contains_seq(h, o) {
        Some(choose|i: int| is_match_at(h, o, i) && forall|j: int| 0 <= j < i ==> !is_match_at(h, o, j))
    } else {
        None
    }
}

/// Whether `o` occurs in `h` at position `i`, checked directly.
pub fn match_at(h: &Vec<char>, o: &Vec<char>, i: usize) -> (r: bool)
    requires
        i + o@.len() <= h@.len(),
    ensures
        r == (h@.subrange(i as int, i + o@.len()) == o@),
{
    let ol = o.len();
    let hl = h.len();
    let mut k: usize = 0;
    let mut matched = true;
    proof {
        assert(h@.subrange(i as int, i as int) =~= o@.subrange(0, 0));
    }
    while k < ol
        invariant
            ol == o@.len(),
            hl == h@.len(),
            i + ol <= hl,
            k <= ol,
            matched == (h@.subrange(i as int, i + k as int) == o@.subrange(0, k as int)),
        decreases ol - k,
    {
        let ghost hk = h@.subrange(i as int, i + k as int);
        let ghost ok = o@.subrange(0, k as int);
        if h[i + k] != o[k] {
            proof {
                assert(h@.subrange(i as int, i + k + 1int)[k as int] == h@[i + k]);
                assert(o@.subrange(0, k + 1int)[k as int] == o@[k as int]);
            }
            matched = false;
        } else {
            if matched {
                proof {
                    assert(h@.subrange(i as int, i + k + 1int) =~= hk.push(h@[i + k]));
                    assert(o@.subrange(0, k + 1int) =~= ok.push(o@[k as int]));
                }
            } else {
                proof {
                    if h@.subrange(i as int, i + k + 1int) == o@.subrange(0, k + 1int) {
                        assert(hk =~= h@.subrange(i as int, i + k + 1int).subrange(0, k as int));
                        assert(ok =~= o@.subrange(0, k + 1int).subrange(0, k as int));
                    }
                }
            }
        }
        k += 1;
    }
    proof {
        assert(o@.subrange(0, ol as int) =~= o@);
    }
    matched
}

/// Appends the characters of `src` to `out`.
pub fn append_chars(out: &mut Vec<char>, src: &Vec<char>)
    ensures
        final(out)@ == old(out)@ + src@,
{
    let n = src.len();
    let mut j: usize = 0;
    while j < n
        invariant
            n == src@.len(),
            j <= n,
            out@ == old(out)@ + src@.subrange(0, j as int),
        decreases n - j,
    {
        out.push(src[j]);
        proof {
            assert(old(out)@ + src@.subrange(0, j + 1int) =~= (old(out)@ + src@.subrange(
                0,
                j as int,
            )).push(src@[j as int]));
        }
        j += 1;
    }
    proof {
        assert(old(out)@ + src@.subrange(0, n as int) =~= old(out)@ + src@);
    }
}

/// `h` with every occurrence of `o` replaced by `n`, scanning left to
/// right without overlap; an empty `o` matches at every position.
pub open spec fn replace_all_spec(h: Seq<char>, o: Seq<char>, n: Seq<char>) -> Seq<char>
    decreases h.len(),
{
    if o.len() == 0 {
        if h.len() == 0 {
            n
        } else {
            n + seq![h[0]] + replace_all_spec(h.skip(1), o, n)
        }
    } else if h.len() < o.len() {
        h
    } else if h.subrange(0, o.len() as int) == o {
        n + replace_all_spec(h.skip(o.len() as int), o, n)
    } else {
        seq![h[0]] + replace_all_spec(h.skip(1), o, n)
    }
}

/// `h` with every occurrence of `o` replaced by `n`.
pub fn replace_all(h: &str, o: &str, n: &str) -> (r: String)
    ensures
        r@ == replace_all_spec(h@, o@, n@),
{
    let hc = chars_of(h);
    let oc = chars_of(o);
    let nc = chars_of(n);
    let hl = hc.len();
    let ol = oc.len();
    let mut out: Vec<char> = Vec::new();
    let mut i: usize = 0;
    proof {
        assert(h@.skip(0) =~= h@);
    }
    while i < hl
        invariant
            hl == hc@.len(),
            ol == oc@.len(),
            hc@ == h@,
            oc@ == o@,
            nc@ == n@,
            i <= hl,
            replace_all_spec(h@, o@, n@) == out@ + replace_all_spec(h@.skip(i as int), o@, n@),
        decreases hl - i,
    {
        let ghost rest = h@.skip(i as int);
        proof {
            assert(rest.len() == hl - i);
        }
        if ol == 0 {
            append_chars(&mut out, &nc);
            out.push(hc[i]);
            proof {
                assert(rest[0] == h@[i as int]);
                assert(rest.skip(1) =~= h@.skip(i + 1int));
                assert(replace_all_spec(rest, o@, n@) == n@ + seq![h@[i as int]]
                    + replace_all_spec(h@.skip(i + 1int), o@, n@));
            }
            i += 1;
        } else if ol <= hl - i && match_at(&hc, &oc, i) {
            append_chars(&mut out, &nc);
            proof {
                assert(rest.subrange(0, ol as int) =~= h@.subrange(i as int, i + ol as int));
                assert(rest.skip(ol as int) =~= h@.skip(i + ol as int));
                assert(replace_all_spec(rest, o@, n@) == n@ + replace_all_spec(
                    h@.skip(i + ol as int),
                    o@,
                    n@,
                ));
            }
            i += ol;
        } else {
            out.push(hc[i]);
            proof {
                assert(rest[0] == h@[i as int]);
                assert(rest.skip(1) =~= h@.skip(i + 1int));
                if i + ol <= hl {
                    assert(rest.subrange(0, ol as int) =~= h@.subrange(i as int, i + ol as int));
                    assert(replace_all_spec(rest, o@, n@) == seq![h@[i as int]]
                        + replace_all_spec(h@.skip(i + 1int), o@, n@));
                } else {
                    assert(rest.len() < ol);
                    assert(replace_all_spec(rest, o@, n@) == rest);
                    assert(h@.skip(i + 1int).len() < ol);
                    assert(replace_all_spec(h@.skip(i + 1int), o@, n@) == h@.skip(i + 1int));
                    assert(rest =~= seq![h@[i as int]] + h@.skip(i + 1int));
                }
            }
            i += 1;
        }
    }
    proof {
        assert(h@.skip(hl as int) =~= Seq::<char>::empty());
    }
    if ol == 0 {
        append_chars(&mut out, &nc);
    }
    string_from_chars(&out)
}

/// The characters that must be escaped before they stand in a `sed`
/// replacement program.
pub open spec fn is_sed_special(c: char) -> bool {
    ||| c == '/'
    ||| c == '&'
    ||| c == '\\'
    ||| c == '\n'
    ||| c == '\t'
    ||| c == '\r'
    ||| c == '<'
    ||| c == '>'
    ||| c == '"'
    ||| c == '\''
    ||| c == '['
    ||| c == ']'
    ||| c == '*'
    ||| c == '?'
    ||| c == '^'
    ||| c == '$'
    ||| c == '.'
}

/// `s` with a backslash put before every special character.
pub open spec fn sed_escape_spec(s: Seq<char>) -> Seq<char>
    decreases s.len(),
{
    if s.len() == 0 {
        Seq::<char>::empty()
    } else {
        (if is_sed_special(s[0]) {
            seq!['\\', s[0]]
        } else {
            seq![s[0]]
        }) + sed_escape_spec(s.skip(1))
    }
}

/// Escapes a string for use inside a `sed` substitution.
pub fn sed_escape(s: &str) -> (r: String)
    ensures
        r@ == sed_escape_spec(s@),
{
    let sc = chars_of(s);
    let n = sc.len();
    let mut out: Vec<char> = Vec::new();
    let mut i: usize = 0;
    proof {
        assert(s@.skip(0) =~= s@);
    }
    while i < n
        invariant
            n == sc@.len(),
            sc@ == s@,
            i <= n,
            sed_escape_spec(s@) == out@ + sed_escape_spec(s@.skip(i as int)),
        decreases n - i,
    {
        let ghost rest = s@.skip(i as int);
        let c = sc[i];
        if is_sed_special_exec(c) {
            out.push('\\');
            out.push(c);
        } else {
            out.push(c);
        }
        proof {
            assert(rest[0] == s@[i as int]);
            assert(rest.skip(1) =~= s@.skip(i + 1int));
        }
        i += 1;
    }
    proof {
        assert(s@.skip(n as int) =~= Seq::<char>::empty());
    }
    string_from_chars(&out)
}

/// Whether `c` is special to `sed`.
pub fn is_sed_special_exec(c: char) -> (r: bool)
    ensures
        r == is_sed_special(c),
{
    c == '/' || c == '&' || c == '\\' || c == '\n' || c == '\t' || c == '\r' || c == '<'
        || c == '>' || c == '"' || c == '\'' || c == '[' || c == ']' || c == '*' || c == '?'
        || c == '^' || c == '$' || c == '.'
}

/// The lowercase character of one hexadecimal digit.
pub open spec fn hex_digit_char_spec(d: nat) -> char {
    if d == 0 {
        '0'
    } else if d == 1 {
        '1'
    } else if d == 2 {
        '2'
    } else if d == 3 {
        '3'
    } else if d == 4 {
        '4'
    } else if d == 5 {
        '5'
    } else if d == 6 {
        '6'
    } else if d == 7 {
        '7'
    } else if d == 8 {
        '8'
    } else if d == 9 {
        '9'
    } else if d == 10 {
        'a'
    } else if d == 11 {
        'b'
    } else if d == 12 {
        'c'
    } else if d == 13 {
        'd'
    } else if d == 14 {
        'e'
    } else {
        'f'
    }
}

/// The character of `d`, which is below sixteen.
fn hex_digit_char(d: u32) -> (r: char)
    requires
        d < 16,
    ensures
        r == hex_digit_char_spec(d as nat),
{
    if d == 0 {
        '0'
    } else if d == 1 {
        '1'
    } else if d == 2 {
        '2'
    } else if d == 3 {
        '3'
    } else if d == 4 {
        '4'
    } else if d == 5 {
        '5'
    } else if d == 6 {
        '6'
    } else if d == 7 {
        '7'
    } else if d == 8 {
        '8'
    } else if d == 9 {
        '9'
    } else if d == 10 {
        'a'
    } else if d == 11 {
        'b'
    } else if d == 12 {
        'c'
    } else if d == 13 {
        'd'
    } else if d == 14 {
        'e'
    } else {
        'f'
    }
}

/// `s` escaped for a double-quoted payload field: `"` and backslash get a
/// backslash, newline, carriage return and tab their named escapes, and
/// every other control character a four-digit `\u` escape.
pub open spec fn json_escape_spec(s: Seq<char>) -> Seq<char>
    decreases s.len(),
{
    if s.len() == 0 {
        Seq::<char>::empty()
    } else {
        (if s[0] == '"' {
            seq!['\\', '"']
        } else if s[0] == '\\' {
            seq!['\\', '\\']
        } else if s[0] == '\n' {
            seq!['\\', 'n']
        } else if s[0] == '\r' {
            seq!['\\', 'r']
        } else if s[0] == '\t' {
            seq!['\\', 't']
        } else if (s[0] as u32) < 32 {
            seq![
                '\\',
                'u',
                '0',
                '0',
                hex_digit_char_spec(((s[0] as u32) / 16) as nat),
                hex_digit_char_spec(((s[0] as u32) % 16) as nat),
            ]
        } else {
            seq![s[0]]
        }) + json_escape_spec(s.skip(1))
    }
}

/// Escapes a string for a double-quoted payload field.
pub fn json_escape(s: &str) -> (r: String)
    ensures
        r@ == json_escape_spec(s@),
{
    let sc = chars_of(s);
    let n = sc.len();
    let mut out: Vec<char> = Vec::new();
    let mut i: usize = 0;
    proof {
        assert(s@.skip(0) =~= s@);
    }
    while i < n
        invariant
            n == sc@.len(),
            sc@ == s@,
            i <= n,
            json_escape_spec(s@) == out@ + json_escape_spec(s@.skip(i as int)),
        decreases n - i,
    {
        let ghost rest = s@.skip(i as int);
        let c = sc[i];
        if c == '"' {
            out.push('\\');
            out.push('"');
        } else if c == '\\' {
            out.push('\\');
            out.push('\\');
        } else if c == '\n' {
            out.push('\\');
            out.push('n');
        } else if c == '\r' {
            out.push('\\');
            out.push('r');
        } else if c == '\t' {
            out.push('\\');
            out.push('t');
        } else if (c as u32) < 32 {
            out.push('\\');
            out.push('u');
            out.push('0');
            out.push('0');
            out.push(hex_digit_char((c as u32) / 16));
            out.push(hex_digit_char((c as u32) % 16));
        } else {
            out.push(c);
        }
        proof {
            assert(rest[0] == s@[i as int]);
            assert(rest.skip(1) =~= s@.skip(i + 1int));
        }
        i += 1;
    }
    proof {
        assert(s@.skip(n as int) =~= Seq::<char>::empty());
    }
    string_from_chars(&out)
}

/// `h` with the first occurrence of `o` replaced by `n`, as a value.
pub open spec fn replace_first_spec(h: Seq<char>, o: Seq<char>, n: Seq<char>) -> Seq<char> {
    match first_match(h, o) {
        Some(i) => h.subrange(0, i) + n + h.subrange(i + o.len(), h.len() as int),
        None => h,
    }
}

/// The number of occurrences of `c` in `s`.
pub open spec fn count_char_spec(s: Seq<char>, c: char) -> nat
    decreases s.len(),
{
    if s.len() == 0 {
        0
    } else {
        (if s[0] == c {
            1nat
        } else {
            0nat
        }) + count_char_spec(s.skip(1), c)
    }
}

/// The number of lines of `s`: its newline count, plus one for a final
/// line that no newline ends.
pub open spec fn count_lines_spec(s: Seq<char>) -> nat {
    count_char_spec(s, '\n') + (if s.len() > 0 && s[s.len() - 1] != '\n' {
        1nat
    } else {
        0nat
    })
}

/// The text of `s` from line number `k` on, newlines included.
pub open spec fn skip_lines_spec(s: Seq<char>, k: nat) -> Seq<char>
    decreases k,
{
    if k == 0 {
        s
    } else {
        match first_match(s, seq!['\n']) {
            Some(i) => if 0 <= i < s.len() {
                skip_lines_spec(s.skip(i + 1), (k - 1) as nat)
            } else {
                Seq::<char>::empty()
            },
            None => Seq::<char>::empty(),
        }
    }
}

/// Whether `p` stands in `s` as one whole newline-separated line, reading
/// line by line from the start.
pub open spec fn has_line_spec(s: Seq<char>, p: Seq<char>) -> bool
    decreases s.len(),
{
    match first_match(s, seq!['\n']) {
        Some(i) => if 0 <= i < s.len() {
            s.subrange(0, i) == p || has_line_spec(s.skip(i + 1), p)
        } else {
            s == p
        },
        None => s == p,
    }
}

/// The first position at or after `from` where `c` stands in `sc`.
pub fn find_char(sc: &Vec<char>, from: usize, c: char) -> (r: Option<usize>)
    requires
        from <= sc@.len(),
    ensures
        (match r {
            Some(j) => from <= j < sc@.len() && sc@[j as int] == c && (forall|t: int|
                from <= t < j ==> sc@[t] != c),
            None => forall|t: int| from <= t < sc@.len() ==> sc@[t] != c,
        }),
{
    let n = sc.len();
    let mut j: usize = from;
    while j < n
        invariant
            n == sc@.len(),
            from <= j <= n,
            forall|t: int| from <= t < j ==> sc@[t] != c,
        decreases n - j,
    {
        if sc[j] == c {
            return Some(j);
        }
        j += 1;
    }
    None
}

/// Ties an absolute newline position to the head of a suffix.
proof fn lemma_newline_first(s: Seq<char>, pos: int, j: int)
    requires
        0 <= pos <= j < s.len(),
        s[j] == '\n',
        forall|t: int| pos <= t < j ==> s[t] != '\n',
    ensures
        first_match(s.skip(pos), seq!['\n']) == Some(j - pos),
{
    let suffix = s.skip(pos);
    assert(suffix.subrange(j - pos, j - pos + 1) =~= seq!['\n']);
    assert(is_match_at(suffix, seq!['\n'], j - pos));
    assert forall|t: int| 0 <= t < j - pos implies !is_match_at(suffix, seq!['\n'], t) by {
        if is_match_at(suffix, seq!['\n'], t) {
            assert(suffix.subrange(t, t + 1)[0] == suffix[t]);
            assert(s[pos + t] == '\n');
        }
    }
    lemma_first_match_is(suffix, seq!['\n'], j - pos);
}

/// Shows that a suffix holds no newline from its start.
proof fn lemma_no_newline(s: Seq<char>, pos: int)
    requires
        0 <= pos <= s.len(),
        forall|t: int| pos <= t < s.len() ==> s[t] != '\n',
    ensures
        first_match(s.skip(pos), seq!['\n']) is None,
{
    let suffix = s.skip(pos);
    assert forall|t: int| !is_match_at(suffix, seq!['\n'], t) by {
        if is_match_at(suffix, seq!['\n'], t) {
            assert(suffix.subrange(t, t + 1)[0] == suffix[t]);
            assert(s[pos + t] == '\n');
        }
    }
    lemma_first_match_none(suffix, seq!['\n']);
}

/// No string holds more copies of a character than it has characters.
proof fn lemma_count_le_len(s: Seq<char>, c: char)
    ensures
        count_char_spec(s, c) <= s.len(),
    decreases s.len(),
{
    if s.len() > 0 {
        lemma_count_le_len(s.skip(1), c)
    }
}

/// Counting a character splits off the last position.
proof fn lemma_count_last(s: Seq<char>, c: char)
    requires
        s.len() > 0,
    ensures
        count_char_spec(s, c) == count_char_spec(s.take(s.len() - 1), c) + (if s.last() == c {
            1nat
        } else {
            0nat
        }),
    decreases s.len(),
{
    if s.len() == 1 {
        assert(s.take(0) =~= Seq::<char>::empty());
        assert(s.skip(1) =~= Seq::<char>::empty());
        assert(s.last() == s[0]);
    } else {
        let h: nat = if s[0] == c {
            1nat
        } else {
            0nat
        };
        let t = s.skip(1);
        lemma_count_last(t, c);
        assert(t.len() == s.len() - 1);
        assert(s.take(s.len() - 1)[0] == s[0]);
        assert(s.take(s.len() - 1).len() == s.len() - 1);
        assert(s.take(s.len() - 1).skip(1) =~= t.take(t.len() - 1));
        assert(count_char_spec(s, c) == h + count_char_spec(t, c));
        assert(count_char_spec(t, c) == count_char_spec(t.take(t.len() - 1), c) + (if t.last()
            == c {
            1nat
        } else {
            0nat
        }));
        assert(count_char_spec(s.take(s.len() - 1), c) == h + count_char_spec(
            s.take(s.len() - 1).skip(1),
            c,
        ));
        assert(count_char_spec(s.take(s.len() - 1).skip(1), c) == count_char_spec(
            t.take(t.len() - 1),
            c,
        ));
        assert(t.last() == s.last());
    }
}

/// Counts the lines of `s`.
pub fn count_lines(s: &str) -> (r: usize)
    ensures
        r == count_lines_spec(s@),
{
    let sc = chars_of(s);
    let n = sc.len();
    let mut acc: usize = 0;
    let mut i: usize = 0;
    proof {
        assert(s@.skip(0) =~= s@);
    }
    while i < n
        invariant
            n == sc@.len(),
            sc@ == s@,
            i <= n,
            acc <= i,
            count_char_spec(s@, '\n') == acc + count_char_spec(s@.skip(i as int), '\n'),
        decreases n - i,
    {
        let ghost rest = s@.skip(i as int);
        proof {
            assert(rest[0] == s@[i as int]);
            assert(rest.skip(1) =~= s@.skip(i + 1int));
        }
        if sc[i] == '\n' {
            acc += 1;
        }
        i += 1;
    }
    proof {
        assert(s@.skip(n as int) =~= Seq::<char>::empty());
    }
    if n > 0 && sc[n - 1] != '\n' {
        proof {
            lemma_count_last(s@, '\n');
            lemma_count_le_len(s@.take(n as int - 1), '\n');
            assert(s@.last() == s@[n - 1int]);
        }
        acc + 1
    } else {
        acc
    }
}

/// The text of `s` from line number `k` on.
#[verifier::rlimit(100)]
pub fn skip_lines(s: &str, k: u64) -> (r: String)
    ensures
        r@ == skip_lines_spec(s@, k as nat),
{
    let sc = chars_of(s);
    let n = sc.len();
    let mut pos: usize = 0;
    let mut done: u64 = 0;
    proof {
        assert(s@.skip(0) =~= s@);
    }
    while done < k
        invariant
            n == sc@.len(),
            sc@ == s@,
            pos <= n,
            done <= k,
            skip_lines_spec(s@, k as nat) == skip_lines_spec(
                s@.skip(pos as int),
                (k - done) as nat,
            ),
        decreases k - done,
    {
        match find_char(&sc, pos, '\n') {
            Some(j) => {
                proof {
                    lemma_newline_first(s@, pos as int, j as int);
                    assert(s@.skip(pos as int).skip(j - pos + 1) =~= s@.skip(j + 1int));
                }
                pos = j + 1;
                done += 1;
            },
            None => {
                proof {
                    lemma_no_newline(s@, pos as int);
                }
                return String::new();
            },
        }
    }
    let mut out: Vec<char> = Vec::new();
    let mut i: usize = pos;
    while i < n
        invariant
            n == sc@.len(),
            pos <= i <= n,
            out@ == sc@.subrange(pos as int, i as int),
        decreases n - i,
    {
        out.push(sc[i]);
        proof {
            assert(sc@.subrange(pos as int, i + 1int) =~= sc@.subrange(pos as int, i as int).push(
                sc@[i as int],
            ));
        }
        i += 1;
    }
    proof {
        assert(sc@.subrange(pos as int, n as int) =~= s@.skip(pos as int));
    }
    string_from_chars(&out)
}

/// Whether `p` stands in `s` as one whole line.
#[verifier::rlimit(100)]
#[verifier::spinoff_prover]
pub fn has_line(s: &str, p: &str) -> (r: bool)
    ensures
        r == has_line_spec(s@, p@),
{
    let sc = chars_of(s);
    let pc = chars_of(p);
    let n = sc.len();
    let pl = pc.len();
    let mut pos: usize = 0;
    proof {
        assert(s@.skip(0) =~= s@);
    }
    loop
        invariant
            n == sc@.len(),
            pl == pc@.len(),
            sc@ == s@,
            pc@ == p@,
            pos <= n,
            has_line_spec(s@, p@) == has_line_spec(s@.skip(pos as int), p@),
        decreases n - pos,
    {
        let ghost suffix = s@.skip(pos as int);
        match find_char(&sc, pos, '\n') {
            Some(j) => {
                proof {
                    lemma_newline_first(s@, pos as int, j as int);
                }
                let mut hit = false;
                if j - pos == pl {
                    hit = match_at(&sc, &pc, pos);
                    proof {
                        assert(suffix.subrange(0, (j - pos) as int) =~= s@.subrange(
                            pos as int,
                            pos + pl,
                        ));
                    }
                } else {
                    proof {
                        assert(suffix.subrange(0, (j - pos) as int).len() == j - pos);
                    }
                }
                if hit {
                    return true;
                }
                proof {
                    assert(suffix.skip((j - pos) as int + 1) =~= s@.skip(j + 1int));
                }
                pos = j + 1;
            },
            None => {
                proof {
                    lemma_no_newline(s@, pos as int);
                }
                if n - pos == pl {
                    let m = match_at(&sc, &pc, pos);
                    proof {
                        assert(suffix =~= s@.subrange(pos as int, pos + pl));
                    }
                    return m;
                } else {
                    proof {
                        assert(suffix.len() == n - pos);
                    }
                    return false;
                }
            },
        }
    }
}

/// The character of one decimal digit.
pub open spec fn digit_char_spec(d: nat) -> char {
    if d == 0 {
        '0'
    } else if d == 1 {
        '1'
    } else if d == 2 {
        '2'
    } else if d == 3 {
        '3'
    } else if d == 4 {
        '4'
    } else if d == 5 {
        '5'
    } else if d == 6 {
        '6'
    } else if d == 7 {
        '7'
    } else if d == 8 {
        '8'
    } else {
        '9'
    }
}

/// The decimal digits of `n`, most significant first.
pub open spec fn dec_spec(n: nat) -> Seq<char>
    decreases n,
{
    if n < 10 {
        seq![digit_char_spec(n)]
    } else {
        dec_spec(n / 10).push(digit_char_spec(n % 10))
    }
}

/// The character of `d`, which is below ten.
fn digit_char(d: u64) -> (r: char)
    requires
        d < 10,
    ensures
        r == digit_char_spec(d as nat),
{
    if d == 0 {
        '0'
    } else if d == 1 {
        '1'
    } else if d == 2 {
        '2'
    } else if d == 3 {
        '3'
    } else if d == 4 {
        '4'
    } else if d == 5 {
        '5'
    } else if d == 6 {
        '6'
    } else if d == 7 {
        '7'
    } else if d == 8 {
        '8'
    } else {
        '9'
    }
}

/// Writes `n` in decimal.
pub fn fmt_u64(n: u64) -> (r: String)
    ensures
        r@ == dec_spec(n as nat),
    decreases n,
{
    if n < 10 {
        let mut s = String::new();
        crate::strutil::push_char(&mut s, digit_char(n));
        proof {
            assert(s@ =~= seq![digit_char_spec(n as nat)]);
        }
        s
    } else {
        let mut s = fmt_u64(n / 10);
        crate::strutil::push_char(&mut s, digit_char(n % 10));
        s
    }
}

} // verus!

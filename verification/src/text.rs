use vstd::prelude::*;

verus! {

// --- character classes ---

/// Whitespace as recognized by the trimming and blank-line checks:
/// the Unicode White_Space set.
pub open spec fn is_space_char(c: char) -> bool {
    ||| c == ' '
    ||| c == '\t'
    ||| c == '\n'
    ||| c == '\u{b}'
    ||| c == '\u{c}'
    ||| c == '\r'
    ||| c == '\u{85}'
    ||| c == '\u{a0}'
    ||| c == '\u{1680}'
    ||| (0x2000 <= c as u32 && c as u32 <= 0x200a)
    ||| c == '\u{2028}'
    ||| c == '\u{2029}'
    ||| c == '\u{202f}'
    ||| c == '\u{205f}'
    ||| c == '\u{3000}'
}

pub fn char_is_space(c: char) -> (r: bool)
    ensures
        r == is_space_char(c),
{
    let u = c as u32;
    c == ' ' || c == '\t' || c == '\n' || c == '\u{b}' || c == '\u{c}' || c == '\r'
        || c == '\u{85}' || c == '\u{a0}' || c == '\u{1680}' || (0x2000 <= u && u <= 0x200a)
        || c == '\u{2028}' || c == '\u{2029}' || c == '\u{202f}' || c == '\u{205f}'
        || c == '\u{3000}'
}

pub open spec fn is_digit_char(c: char) -> bool {
    48 <= c as u32 && c as u32 <= 57
}

pub fn char_is_digit(c: char) -> (r: bool)
    ensures
        r == is_digit_char(c),
{
    let u = c as u32;
    48 <= u && u <= 57
}

// --- decimal representation of a number ---

/// The digit character for a value below ten.
pub open spec fn digit_char(d: nat) -> char {
    if d == 0 {
        '0'
    } else if d == 1 {
        '1'
    } else if d == 2 {
        '2'
    } else if d == 3 {
        '3'
    } else if d == 4 {
        '4'
    } else if d == 5 {
        '5'
    } else if d == 6 {
        '6'
    } else if d == 7 {
        '7'
    } else if d == 8 {
        '8'
    } else {
        '9'
    }
}

/// Decimal rendering of a natural number, most significant digit first,
/// with no leading zeros (a single zero for zero itself).
pub open spec fn dec_rep(n: nat) -> Seq<char>
    decreases n,
{
    if n < 10 {
        seq![digit_char(n)]
    } else {
        dec_rep(n / 10) + seq![digit_char(n % 10)]
    }
}

fn digit_str(d: u128) -> (r: &'static str)
    requires
        d < 10,
    ensures
        r@ == seq![digit_char(d as nat)],
{
    let s: &'static str = if d == 0 {
        "0"
    } else if d == 1 {
        "1"
    } else if d == 2 {
        "2"
    } else if d == 3 {
        "3"
    } else if d == 4 {
        "4"
    } else if d == 5 {
        "5"
    } else if d == 6 {
        "6"
    } else if d == 7 {
        "7"
    } else if d == 8 {
        "8"
    } else {
        "9"
    };
    proof {
        reveal_strlit("0");
        reveal_strlit("1");
        reveal_strlit("2");
        reveal_strlit("3");
        reveal_strlit("4");
        reveal_strlit("5");
        reveal_strlit("6");
        reveal_strlit("7");
        reveal_strlit("8");
        reveal_strlit("9");
        assert(s@ =~= seq![digit_char(d as nat)]);
    }
    s
}

/// Renders a number in decimal.
pub fn num_to_string(n: u128) -> (r: String)
    ensures
        r@ == dec_rep(n as nat),
    decreases n,
{
    if n < 10 {
        String::from_str(digit_str(n))
    } else {
        let mut s = num_to_string(n / 10);
        s.append(digit_str(n % 10));
        s
    }
}

// --- trimming surrounding whitespace ---

pub open spec fn trim_left_spec(s: Seq<char>) -> Seq<char>
    decreases s.len(),
{
    if s.len() > 0 && is_space_char(s[0]) {
        trim_left_spec(s.drop_first())
    } else {
        s
    }
}

pub open spec fn trim_right_spec(s: Seq<char>) -> Seq<char>
    decreases s.len(),
{
    if s.len() > 0 && is_space_char(s.last()) {
        trim_right_spec(s.drop_last())
    } else {
        s
    }
}

/// The string with surrounding whitespace removed.
pub open spec fn trim_spec(s: Seq<char>) -> Seq<char> {
    trim_right_spec(trim_left_spec(s))
}

proof fn lemma_trim_left_step(s: Seq<char>, i: int)
    requires
        0 <= i < s.len(),
        forall|k: int| 0 <= k < i ==> is_space_char(s[k]),
        is_space_char(s[i]),
    ensures
        trim_left_spec(s.subrange(i, s.len() as int)) == trim_left_spec(
            s.subrange(i + 1, s.len() as int),
        ),
{
    let suf = s.subrange(i, s.len() as int);
    assert(suf.len() > 0);
    assert(suf[0] == s[i]);
    assert(suf.drop_first() =~= s.subrange(i + 1, s.len() as int));
}

proof fn lemma_trim_right_step(s: Seq<char>, i: int, j: int)
    requires
        0 <= i <= j - 1,
        j <= s.len(),
        is_space_char(s[j - 1]),
    ensures
        trim_right_spec(s.subrange(i, j)) == trim_right_spec(s.subrange(i, j - 1)),
{
    let suf = s.subrange(i, j);
    assert(suf.len() > 0);
    assert(suf.last() == s[j - 1]);
    assert(suf.drop_last() =~= s.subrange(i, j - 1));
}

/// Removes whitespace from both ends.
pub fn trim_str(s: &str) -> (r: String)
    ensures
        r@ == trim_spec(s@),
{
    let n = s.unicode_len();
    proof {
        assert(s@.subrange(0, n as int) =~= s@);
    }
    let mut i: usize = 0;
    while i < n && char_is_space(s.get_char(i))
        invariant
            0 <= i <= n,
            n == s@.len(),
            forall|k: int| 0 <= k < i ==> is_space_char(s@[k]),
            trim_left_spec(s@) == trim_left_spec(s@.subrange(i as int, n as int)),
        decreases n - i,
    {
        proof {
            lemma_trim_left_step(s@, i as int);
        }
        i = i + 1;
    }
    proof {
        assert(s@.subrange(0, n as int) =~= s@);
        let suf = s@.subrange(i as int, n as int);
        if suf.len() > 0 {
            assert(suf[0] == s@[i as int]);
            assert(!is_space_char(suf[0]));
        }
        assert(trim_left_spec(suf) == suf);
    }
    let mut j: usize = n;
    while j > i && char_is_space(s.get_char(j - 1))
        invariant
            i <= j <= n,
            n == s@.len(),
            trim_right_spec(s@.subrange(i as int, n as int)) == trim_right_spec(
                s@.subrange(i as int, j as int),
            ),
        decreases j,
    {
        proof {
            lemma_trim_right_step(s@, i as int, j as int);
        }
        j = j - 1;
    }
    proof {
        let cur = s@.subrange(i as int, j as int);
        if cur.len() > 0 {
            assert(cur.last() == s@[j - 1]);
            assert(!is_space_char(cur.last()));
        }
        assert(trim_right_spec(cur) == cur);
    }
    String::from_str(s.substring_char(i, j))
}

// --- equality of strings ---

pub fn str_eq(a: &str, b: &str) -> (r: bool)
    ensures
        r == (a@ == b@),
{
    let n = a.unicode_len();
    if n != b.unicode_len() {
        proof {
            assert(a@ != b@) by {
                if a@ == b@ {
                    assert(a@.len() == b@.len());
                }
            }
        }
        return false;
    }
    let mut i: usize = 0;
    while i < n
        invariant
            0 <= i <= n,
            n == a@.len(),
            n == b@.len(),
            forall|k: int| 0 <= k < i ==> a@[k] == b@[k],
        decreases n - i,
    {
        if a.get_char(i) != b.get_char(i) {
            proof {
                assert(a@ != b@) by {
                    if a@ == b@ {
                        assert(a@[i as int] == b@[i as int]);
                    }
                }
            }
            return false;
        }
        i = i + 1;
    }
    proof {
        assert(a@ =~= b@);
    }
    true
}

// --- placeholder substitution ---

/// The string itself when non-empty, the placeholder otherwise.
pub open spec fn or_placeholder_spec(s: Seq<char>) -> Seq<char> {
    if s.len() == 0 {
        crate::placeholder()
    } else {
        s
    }
}

/// Substitutes the placeholder for an empty value.
pub fn or_placeholder(s: String) -> (r: String)
    ensures
        r@ == or_placeholder_spec(s@),
{
    if s.as_str().unicode_len() == 0 {
        crate::placeholder_value()
    } else {
        s
    }
}

// --- final path component ---

/// A path separator: the slash, and on Windows also the backslash.
pub open spec fn is_sep_char(c: char, platform: crate::probe::Platform) -> bool {
    c == '/' || (platform == crate::probe::Platform::Windows && c == '\\')
}

pub fn char_is_sep(c: char, platform: crate::probe::Platform) -> (r: bool)
    ensures
        r == is_sep_char(c, platform),
{
    c == '/' || (platform == crate::probe::Platform::Windows && c == '\\')
}

/// Where a path's final component ends: trailing separators and
/// trailing single-dot components do not count.
pub open spec fn strip_end(s: Seq<char>, e: int, platform: crate::probe::Platform) -> int
    decreases e,
    when 0 <= e <= s.len()
{
    if e > 0 && is_sep_char(s[e - 1], platform) {
        strip_end(s, e - 1, platform)
    } else if e > 0 && s[e - 1] == '.' && (e == 1 || is_sep_char(s[e - 2], platform)) {
        strip_end(s, e - 1, platform)
    } else {
        e
    }
}

/// Index of the last separator before e, or -1 when there is none.
pub open spec fn last_sep_before(s: Seq<char>, e: int, platform: crate::probe::Platform) -> int
    decreases e,
    when 0 <= e <= s.len()
{
    if e <= 0 {
        -1
    } else if is_sep_char(s[e - 1], platform) {
        e - 1
    } else {
        last_sep_before(s, e - 1, platform)
    }
}

/// The final component of a path: what its components end with once
/// trailing separators and single-dot components are dropped. The
/// whole path stands in when no such component exists (an empty or
/// root path) or when the final component is the parent-directory
/// marker.
pub open spec fn basename_spec(s: Seq<char>, platform: crate::probe::Platform) -> Seq<char> {
    let e = strip_end(s, s.len() as int, platform);
    let b = last_sep_before(s, e, platform) + 1;
    if e == 0 || s.subrange(b, e) == seq!['.', '.'] {
        s
    } else {
        s.subrange(b, e)
    }
}

/// Reports the final path component of a path string.
pub fn basename(path: &str, platform: crate::probe::Platform) -> (r: String)
    ensures
        r@ == basename_spec(path@, platform),
{
    let n = path.unicode_len();
    let mut e: usize = n;
    loop
        invariant
            0 <= e <= n,
            n == path@.len(),
            strip_end(path@, n as int, platform) == strip_end(path@, e as int, platform),
        ensures
            0 <= e <= n,
            n == path@.len(),
            strip_end(path@, n as int, platform) == e,
        decreases e,
    {
        if e > 0 && char_is_sep(path.get_char(e - 1), platform) {
            e = e - 1;
        } else if e > 0 && path.get_char(e - 1) == '.' && (e == 1 || char_is_sep(
            path.get_char(e - 2),
            platform,
        )) {
            e = e - 1;
        } else {
            break ;
        }
    }
    let mut b: usize = e;
    loop
        invariant
            0 <= b <= e <= n,
            n == path@.len(),
            last_sep_before(path@, e as int, platform) == last_sep_before(
                path@,
                b as int,
                platform,
            ),
        ensures
            0 <= b <= e,
            last_sep_before(path@, e as int, platform) == b - 1,
        decreases b,
    {
        if b > 0 && !char_is_sep(path.get_char(b - 1), platform) {
            b = b - 1;
        } else {
            break ;
        }
    }
    let is_parent = e - b == 2 && path.get_char(b) == '.' && path.get_char(b + 1) == '.';
    proof {
        let c = path@.subrange(b as int, e as int);
        if is_parent {
            assert(c =~= seq!['.', '.']);
        } else {
            assert(c != seq!['.', '.']) by {
                if c == seq!['.', '.'] {
                    assert(c.len() == 2);
                    assert(c[0] == path@[b as int]);
                    assert(c[1] == path@[b as int + 1]);
                }
            }
        }
    }
    if e == 0 || is_parent {
        String::from_str(path)
    } else {
        String::from_str(path.substring_char(b, e))
    }
}


// --- splitting into lines ---

/// A line with a trailing carriage return removed.
pub open spec fn strip_cr(l: Seq<char>) -> Seq<char> {
    if l.len() > 0 && l.last() == '\r' {
        l.drop_last()
    } else {
        l
    }
}

pub open spec fn lines_from(s: Seq<char>, cur: Seq<char>) -> Seq<Seq<char>>
    decreases s.len(),
{
    if s.len() == 0 {
        if cur.len() == 0 {
            Seq::empty()
        } else {
            seq![cur]
        }
    } else if s[0] == '\n' {
        seq![strip_cr(cur)] + lines_from(s.drop_first(), Seq::empty())
    } else {
        lines_from(s.drop_first(), cur.push(s[0]))
    }
}

/// The lines of a text: segments between newlines, a carriage return
/// before each newline removed, and no final empty segment after a
/// trailing newline.
pub open spec fn lines_of(s: Seq<char>) -> Seq<Seq<char>> {
    lines_from(s, Seq::empty())
}

/// Splits a text into its lines.
pub fn split_lines(s: &str) -> (r: Vec<String>)
    ensures
        r@.map_values(|l: String| l@) == lines_of(s@),
{
    let n = s.unicode_len();
    let mut out: Vec<String> = Vec::new();
    let mut start: usize = 0;
    let mut i: usize = 0;
    proof {
        assert(s@.subrange(0, n as int) =~= s@);
        assert(s@.subrange(0, 0) =~= Seq::<char>::empty());
        assert(out@.map_values(|l: String| l@) =~= Seq::<Seq<char>>::empty());
    }
    while i < n
        invariant
            0 <= start <= i <= n,
            n == s@.len(),
            lines_of(s@) == out@.map_values(|l: String| l@) + lines_from(
                s@.subrange(i as int, n as int),
                s@.subrange(start as int, i as int),
            ),
        decreases n - i,
    {
        let c = s.get_char(i);
        let ghost suf = s@.subrange(i as int, n as int);
        let ghost cur = s@.subrange(start as int, i as int);
        proof {
            assert(suf[0] == s@[i as int]);
            assert(suf.drop_first() =~= s@.subrange(i + 1, n as int));
        }
        if c == '\n' {
            let line_end = if i > start && s.get_char(i - 1) == '\r' {
                i - 1
            } else {
                i
            };
            proof {
                if i > start && s@[i - 1] == '\r' {
                    assert(cur.len() > 0 && cur.last() == '\r');
                    assert(strip_cr(cur) =~= s@.subrange(start as int, i - 1));
                } else {
                    if cur.len() > 0 {
                        assert(cur.last() == s@[i - 1]);
                    }
                    assert(strip_cr(cur) =~= cur);
                }
            }
            let line = String::from_str(s.substring_char(start, line_end));
            proof {
                let prev = out@.map_values(|l: String| l@);
                assert(out@.push(line).map_values(|l: String| l@) =~= prev.push(line@));
                assert(prev.push(line@) + lines_from(suf.drop_first(), Seq::empty()) =~= prev + (
                seq![strip_cr(cur)] + lines_from(suf.drop_first(), Seq::empty())));
                assert(s@.subrange(i + 1, i + 1) =~= Seq::<char>::empty());
            }
            out.push(line);
            start = i + 1;
        } else {
            proof {
                assert(cur.push(s@[i as int]) =~= s@.subrange(start as int, i + 1));
            }
        }
        i = i + 1;
    }
    let ghost cur = s@.subrange(start as int, n as int);
    proof {
        assert(s@.subrange(n as int, n as int) =~= Seq::<char>::empty());
    }
    if start < n {
        let line = String::from_str(s.substring_char(start, n));
        proof {
            let prev = out@.map_values(|l: String| l@);
            assert(lines_from(Seq::empty(), cur) =~= seq![cur]);
            assert(out@.push(line).map_values(|l: String| l@) =~= prev.push(line@));
            assert(prev.push(line@) =~= prev + seq![cur]);
        }
        out.push(line);
    } else {
        proof {
            assert(cur.len() == 0);
            assert(out@.map_values(|l: String| l@) + lines_from(Seq::<char>::empty(), cur)
                =~= out@.map_values(|l: String| l@));
        }
    }
    out
}

// --- predicates on a line ---

pub open spec fn is_blank_line(l: Seq<char>) -> bool {
    forall|k: int| 0 <= k < l.len() ==> is_space_char(l[k])
}

pub open spec fn has_prefix_spec(l: Seq<char>, p: Seq<char>) -> bool {
    p.len() <= l.len() && l.subrange(0, p.len() as int) == p
}

pub fn line_is_blank(l: &str) -> (r: bool)
    ensures
        r == is_blank_line(l@),
{
    let n = l.unicode_len();
    let mut i: usize = 0;
    while i < n
        invariant
            0 <= i <= n,
            n == l@.len(),
            forall|k: int| 0 <= k < i ==> is_space_char(l@[k]),
        decreases n - i,
    {
        if !char_is_space(l.get_char(i)) {
            return false;
        }
        i = i + 1;
    }
    true
}

pub fn line_contains_char(l: &str, c: char) -> (r: bool)
    ensures
        r == l@.contains(c),
{
    let n = l.unicode_len();
    let mut i: usize = 0;
    while i < n
        invariant
            0 <= i <= n,
            n == l@.len(),
            forall|k: int| 0 <= k < i ==> l@[k] != c,
        decreases n - i,
    {
        if l.get_char(i) == c {
            return true;
        }
        i = i + 1;
    }
    false
}

pub fn line_has_prefix(l: &str, p: &str) -> (r: bool)
    ensures
        r == has_prefix_spec(l@, p@),
{
    let n = l.unicode_len();
    let m = p.unicode_len();
    if m > n {
        return false;
    }
    let mut i: usize = 0;
    while i < m
        invariant
            0 <= i <= m <= n,
            n == l@.len(),
            m == p@.len(),
            forall|k: int| 0 <= k < i ==> l@[k] == p@[k],
        decreases m - i,
    {
        if l.get_char(i) != p.get_char(i) {
            proof {
                assert(!has_prefix_spec(l@, p@)) by {
                    if has_prefix_spec(l@, p@) {
                        assert(l@.subrange(0, m as int)[i as int] == p@[i as int]);
                    }
                }
            }
            return false;
        }
        i = i + 1;
    }
    proof {
        assert(l@.subrange(0, m as int) =~= p@);
    }
    true
}

// --- counting lines that pass a test ---

pub open spec fn count_nonblank(ls: Seq<Seq<char>>) -> nat
    decreases ls.len(),
{
    if ls.len() == 0 {
        0
    } else {
        (if !is_blank_line(ls[0]) {
            1nat
        } else {
            0nat
        }) + count_nonblank(ls.drop_first())
    }
}

pub open spec fn count_containing(ls: Seq<Seq<char>>, c: char) -> nat
    decreases ls.len(),
{
    if ls.len() == 0 {
        0
    } else {
        (if ls[0].contains(c) {
            1nat
        } else {
            0nat
        }) + count_containing(ls.drop_first(), c)
    }
}

pub open spec fn count_with_prefix(ls: Seq<Seq<char>>, p: Seq<char>) -> nat
    decreases ls.len(),
{
    if ls.len() == 0 {
        0
    } else {
        (if has_prefix_spec(ls[0], p) {
            1nat
        } else {
            0nat
        }) + count_with_prefix(ls.drop_first(), p)
    }
}

pub fn count_nonblank_lines(v: &Vec<String>) -> (r: usize)
    ensures
        r == count_nonblank(v@.map_values(|l: String| l@)),
{
    let ghost ls = v@.map_values(|l: String| l@);
    proof {
        assert(ls.skip(0) =~= ls);
    }
    let mut r: usize = 0;
    let mut i: usize = 0;
    while i < v.len()
        invariant
            0 <= i <= v@.len(),
            ls == v@.map_values(|l: String| l@),
            r <= i,
            count_nonblank(ls) == r + count_nonblank(ls.skip(i as int)),
        decreases v@.len() - i,
    {
        proof {
            assert(ls.skip(i as int)[0] == ls[i as int]);
            assert(ls.skip(i as int).drop_first() =~= ls.skip(i + 1));
        }
        if !line_is_blank(v[i].as_str()) {
            r = r + 1;
        }
        i = i + 1;
    }
    proof {
        assert(ls.skip(i as int) =~= Seq::<Seq<char>>::empty());
    }
    r
}

pub fn count_lines_containing(v: &Vec<String>, c: char) -> (r: usize)
    ensures
        r == count_containing(v@.map_values(|l: String| l@), c),
{
    let ghost ls = v@.map_values(|l: String| l@);
    proof {
        assert(ls.skip(0) =~= ls);
    }
    let mut r: usize = 0;
    let mut i: usize = 0;
    while i < v.len()
        invariant
            0 <= i <= v@.len(),
            ls == v@.map_values(|l: String| l@),
            r <= i,
            count_containing(ls, c) == r + count_containing(ls.skip(i as int), c),
        decreases v@.len() - i,
    {
        proof {
            assert(ls.skip(i as int)[0] == ls[i as int]);
            assert(ls.skip(i as int).drop_first() =~= ls.skip(i + 1));
        }
        if line_contains_char(v[i].as_str(), c) {
            r = r + 1;
        }
        i = i + 1;
    }
    proof {
        assert(ls.skip(i as int) =~= Seq::<Seq<char>>::empty());
    }
    r
}

pub fn count_lines_with_prefix(v: &Vec<String>, p: &str) -> (r: usize)
    ensures
        r == count_with_prefix(v@.map_values(|l: String| l@), p@),
{
    let ghost ls = v@.map_values(|l: String| l@);
    proof {
        assert(ls.skip(0) =~= ls);
    }
    let mut r: usize = 0;
    let mut i: usize = 0;
    while i < v.len()
        invariant
            0 <= i <= v@.len(),
            ls == v@.map_values(|l: String| l@),
            r <= i,
            count_with_prefix(ls, p@) == r + count_with_prefix(ls.skip(i as int), p@),
        decreases v@.len() - i,
    {
        proof {
            assert(ls.skip(i as int)[0] == ls[i as int]);
            assert(ls.skip(i as int).drop_first() =~= ls.skip(i + 1));
        }
        if line_has_prefix(v[i].as_str(), p) {
            r = r + 1;
        }
        i = i + 1;
    }
    proof {
        assert(ls.skip(i as int) =~= Seq::<Seq<char>>::empty());
    }
    r
}

// --- joining with a separator ---

pub open spec fn join_spec(ps: Seq<Seq<char>>, sep: Seq<char>) -> Seq<char>
    decreases ps.len(),
{
    if ps.len() == 0 {
        Seq::empty()
    } else if ps.len() == 1 {
        ps[0]
    } else {
        ps[0] + sep + join_spec(ps.drop_first(), sep)
    }
}

proof fn lemma_join_push(ps: Seq<Seq<char>>, sep: Seq<char>, x: Seq<char>)
    ensures
        ps.len() == 0 ==> join_spec(ps.push(x), sep) == x,
        ps.len() > 0 ==> join_spec(ps.push(x), sep) == join_spec(ps, sep) + sep + x,
    decreases ps.len(),
{
    if ps.len() == 0 {
        assert(ps.push(x)[0] == x);
    } else if ps.len() == 1 {
        assert(ps.push(x)[0] == ps[0]);
        assert(ps.push(x).drop_first() =~= seq![x]);
        assert(join_spec(seq![x], sep) == x);
    } else {
        lemma_join_push(ps.drop_first(), sep, x);
        assert(ps.push(x)[0] == ps[0]);
        assert(ps.push(x).drop_first() =~= ps.drop_first().push(x));
        assert(ps[0] + sep + (join_spec(ps.drop_first(), sep) + sep + x) =~= (ps[0] + sep
            + join_spec(ps.drop_first(), sep)) + sep + x);
    }
}

/// Joins the parts, the separator between each two.
pub fn join_with(parts: &Vec<String>, sep: &str) -> (r: String)
    ensures
        r@ == join_spec(parts@.map_values(|l: String| l@), sep@),
{
    let ghost ls = parts@.map_values(|l: String| l@);
    let mut s = String::new();
    let mut i: usize = 0;
    while i < parts.len()
        invariant
            0 <= i <= parts@.len(),
            ls == parts@.map_values(|l: String| l@),
            s@ == join_spec(ls.take(i as int), sep@),
        decreases parts@.len() - i,
    {
        proof {
            lemma_join_push(ls.take(i as int), sep@, ls[i as int]);
            assert(ls.take(i as int).push(ls[i as int]) =~= ls.take(i + 1));
        }
        if i > 0 {
            s.append(sep);
        }
        s.append(parts[i].as_str());
        proof {
            if i > 0 {
                assert(s@ =~= join_spec(ls.take(i as int), sep@) + sep@ + ls[i as int]);
            } else {
                assert(s@ =~= ls[0]);
                assert(ls.take(1)[0] == ls[0]);
            }
        }
        i = i + 1;
    }
    proof {
        assert(ls.take(parts@.len() as int) =~= ls);
    }
    s
}

} // verus!

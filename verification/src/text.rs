use vstd::prelude::*;

verus! {

// ---------------------------------------------------------------------------
// Character classes
// ---------------------------------------------------------------------------

/// Whether `c` has the Unicode `White_Space` property, the set that
/// `char::is_whitespace` and `str::trim` use.
pub open spec fn is_ws(c: char) -> bool {
    let u = c as u32;
    ||| 0x09 <= u <= 0x0D
    ||| u == 0x20
    ||| u == 0x85
    ||| u == 0xA0
    ||| u == 0x1680
    ||| 0x2000 <= u <= 0x200A
    ||| u == 0x2028
    ||| u == 0x2029
    ||| u == 0x202F
    ||| u == 0x205F
    ||| u == 0x3000
}

/// Whether `c` is an ASCII decimal digit.
pub open spec fn is_digit(c: char) -> bool {
    48 <= c as u32 <= 57
}

/// The value of an ASCII decimal digit.
pub open spec fn digit_value(c: char) -> nat {
    (c as u32 - 48) as nat
}

pub fn is_whitespace(c: char) -> (r: bool)
    ensures
        r == is_ws(c),
{
    let u = c as u32;
    (0x09 <= u && u <= 0x0D) || u == 0x20 || u == 0x85 || u == 0xA0 || u == 0x1680 || (0x2000
        <= u && u <= 0x200A) || u == 0x2028 || u == 0x2029 || u == 0x202F || u == 0x205F || u
        == 0x3000
}

pub fn is_ascii_digit(c: char) -> (r: bool)
    ensures
        r == is_digit(c),
{
    let u = c as u32;
    0x30 <= u && u <= 0x39
}

// ---------------------------------------------------------------------------
// Conversions between strings and character vectors
// ---------------------------------------------------------------------------

/// Appends one character to a string (std `String::push`).
#[verifier::external_body]
pub(crate) fn push_char(s: &mut String, c: char)
    ensures
        final(s)@ == old(s)@.push(c),
{
    s.push(c);
}

/// Appends a string slice to a string.
pub(crate) fn push_str(s: &mut String, t: &str)
    ensures
        final(s)@ == old(s)@ + t@,
{
    s.append(t);
}

/// The characters of a string slice, in order.
pub fn chars_of(s: &str) -> (v: Vec<char>)
    ensures
        v@ == s@,
{
    let mut v: Vec<char> = Vec::new();
    for c in it: s.chars()
        invariant
            v@ == it.seq().take(it.index() as int),
    {
        v.push(c);
    }
    v
}

/// A string holding the given characters.
pub fn string_of(v: &[char]) -> (s: String)
    ensures
        s@ == v@,
{
    let mut s = String::new();
    let n = v.len();
    let mut i: usize = 0;
    while i < n
        invariant
            n == v@.len(),
            i <= n,
            s@ == v@.take(i as int),
        decreases n - i,
    {
        push_char(&mut s, v[i]);
        proof {
            assert(v@.take(i + 1) =~= v@.take(i as int).push(v@[i as int]));
        }
        i += 1;
    }
    proof {
        assert(v@.take(n as int) =~= v@);
    }
    s
}

/// An owned copy of a string slice.
pub fn owned(s: &str) -> (r: String)
    ensures
        r@ == s@,
{
    let v = chars_of(s);
    string_of(v.as_slice())
}

/// The characters `v[lo..hi]`.
pub fn slice_range(v: &[char], lo: usize, hi: usize) -> (r: Vec<char>)
    requires
        lo <= hi <= v@.len(),
    ensures
        r@ == v@.subrange(lo as int, hi as int),
{
    let mut r: Vec<char> = Vec::new();
    let mut i: usize = lo;
    while i < hi
        invariant
            lo <= i <= hi,
            hi <= v@.len(),
            r@ == v@.subrange(lo as int, i as int),
        decreases hi - i,
    {
        r.push(v[i]);
        proof {
            assert(v@.subrange(lo as int, i + 1) =~= v@.subrange(lo as int, i as int).push(
                v@[i as int],
            ));
        }
        i += 1;
    }
    r
}

/// Whether two character sequences are equal.
pub fn chars_eq(a: &[char], b: &[char]) -> (r: bool)
    ensures
        r == (a@ == b@),
{
    if a.len() != b.len() {
        return false;
    }
    let n = a.len();
    let mut i: usize = 0;
    while i < n
        invariant
            n == a@.len(),
            n == b@.len(),
            i <= n,
            forall|k: int| 0 <= k < i ==> a@[k] == b@[k],
        decreases n - i,
    {
        if a[i] != b[i] {
            return false;
        }
        i += 1;
    }
    proof {
        assert(a@ =~= b@);
    }
    true
}

/// Whether `a` holds the characters of the string slice `b`.
pub fn chars_eq_str(a: &[char], b: &str) -> (r: bool)
    ensures
        r == (a@ == b@),
{
    let y = chars_of(b);
    chars_eq(a, y.as_slice())
}

/// Whether two string slices hold the same characters.
pub fn str_eq(a: &str, b: &str) -> (r: bool)
    ensures
        r == (a@ == b@),
{
    let x = chars_of(a);
    let y = chars_of(b);
    chars_eq(x.as_slice(), y.as_slice())
}

// ---------------------------------------------------------------------------
// Searching
// ---------------------------------------------------------------------------

/// `n` occurs in `h` starting at position `i`.
pub open spec fn occurs_at(h: Seq<char>, n: Seq<char>, i: int) -> bool {
    0 <= i && i + n.len() <= h.len() && h.subrange(i, i + n.len()) == n
}

/// `n` occurs somewhere in `h` (what `str::contains` with a string pattern tests).
pub open spec fn has_sub(h: Seq<char>, n: Seq<char>) -> bool {
    exists|i: int| occurs_at(h, n, i)
}

/// `h` begins with `p`.
pub open spec fn has_prefix(h: Seq<char>, p: Seq<char>) -> bool {
    p.len() <= h.len() && h.take(p.len() as int) == p
}

/// `h` ends with `p`.
pub open spec fn has_suffix(h: Seq<char>, p: Seq<char>) -> bool {
    p.len() <= h.len() && h.skip(h.len() - p.len()) == p
}

fn matches_at(h: &[char], n: &[char], i: usize) -> (r: bool)
    requires
        i + n@.len() <= h@.len(),
    ensures
        r == occurs_at(h@, n@, i as int),
{
    let m = n.len();
    let mut k: usize = 0;
    while k < m
        invariant
            m == n@.len(),
            i + m <= h.len(),
            k <= m,
            forall|j: int| 0 <= j < k ==> h@[i + j] == n@[j],
        decreases m - k,
    {
        if h[i + k] != n[k] {
            proof {
                assert(h@.subrange(i as int, i + m)[k as int] != n@[k as int]);
            }
            return false;
        }
        k += 1;
    }
    proof {
        assert(h@.subrange(i as int, i + m) =~= n@);
    }
    true
}

/// Whether `n` occurs in `h`.
pub fn contains_chars(h: &[char], n: &[char]) -> (r: bool)
    ensures
        r == has_sub(h@, n@),
{
    if n.len() > h.len() {
        return false;
    }
    let last = h.len() - n.len();
    let mut i: usize = 0;
    while i <= last
        invariant
            last == h@.len() - n@.len(),
            forall|j: int| 0 <= j < i ==> !occurs_at(h@, n@, j),
        decreases last + 1 - i,
    {
        if matches_at(h, n, i) {
            return true;
        }
        if i == last {
            proof {
                assert forall|j: int| !occurs_at(h@, n@, j) by {
                    if j == i {
                    } else if 0 <= j < i {
                    }
                }
            }
            return false;
        }
        i += 1;
    }
    proof {
        assert forall|j: int| !occurs_at(h@, n@, j) by {
            if 0 <= j < i {
            }
        }
    }
    false
}

/// The position of the first occurrence of `n` in `h` (what `str::find` gives for a
/// string pattern), or -1 when there is none.
pub open spec fn sub_index(h: Seq<char>, n: Seq<char>) -> int
    decreases h.len(),
{
    if occurs_at(h, n, 0) {
        0
    } else if h.len() == 0 {
        -1
    } else {
        let r = sub_index(h.drop_first(), n);
        if r < 0 {
            -1
        } else {
            r + 1
        }
    }
}

pub proof fn lemma_occurs_shift(h: Seq<char>, n: Seq<char>, k: int)
    requires
        h.len() > 0,
        0 <= k,
    ensures
        occurs_at(h.drop_first(), n, k) == occurs_at(h, n, k + 1),
{
    if k + 1 + n.len() <= h.len() {
        assert(h.drop_first().subrange(k, k + n.len()) =~= h.subrange(k + 1, k + 1 + n.len()));
    }
}

pub proof fn lemma_sub_index(h: Seq<char>, n: Seq<char>)
    ensures
        -1 <= sub_index(h, n) <= h.len(),
        sub_index(h, n) >= 0 ==> occurs_at(h, n, sub_index(h, n)),
        sub_index(h, n) >= 0 ==> forall|k: int| 0 <= k < sub_index(h, n) ==> !occurs_at(h, n, k),
        sub_index(h, n) < 0 ==> forall|k: int| !occurs_at(h, n, k),
    decreases h.len(),
{
    if !occurs_at(h, n, 0) && h.len() > 0 {
        let t = h.drop_first();
        lemma_sub_index(t, n);
        assert forall|k: int| 0 <= k && occurs_at(h, n, k + 1) implies occurs_at(t, n, k) by {
            lemma_occurs_shift(h, n, k);
        }
        assert forall|k: int| 0 <= k && occurs_at(t, n, k) implies occurs_at(h, n, k + 1) by {
            lemma_occurs_shift(h, n, k);
        }
        if sub_index(t, n) >= 0 {
            assert forall|k: int| 0 <= k < sub_index(h, n) implies !occurs_at(h, n, k) by {
                if k > 0 {
                    lemma_occurs_shift(h, n, k - 1);
                }
            }
        } else {
            assert forall|k: int| !occurs_at(h, n, k) by {
                if k > 0 {
                    lemma_occurs_shift(h, n, k - 1);
                }
            }
        }
    } else if !occurs_at(h, n, 0) {
        assert forall|k: int| !occurs_at(h, n, k) by {}
    }
}

/// The position of the first occurrence of `n` in `h`.
pub fn find_sub(h: &[char], n: &[char]) -> (r: Option<usize>)
    ensures
        match r {
            Some(i) => sub_index(h@, n@) == i,
            None => sub_index(h@, n@) < 0,
        },
{
    proof {
        lemma_sub_index(h@, n@);
    }
    if n.len() > h.len() {
        return None;
    }
    let last = h.len() - n.len();
    let mut i: usize = 0;
    while i <= last
        invariant
            last == h@.len() - n@.len(),
            forall|j: int| 0 <= j < i ==> !occurs_at(h@, n@, j),
            -1 <= sub_index(h@, n@) <= h@.len(),
            sub_index(h@, n@) >= 0 ==> occurs_at(h@, n@, sub_index(h@, n@)),
            sub_index(h@, n@) >= 0 ==> forall|k: int|
                0 <= k < sub_index(h@, n@) ==> !occurs_at(h@, n@, k),
            sub_index(h@, n@) < 0 ==> forall|k: int| !occurs_at(h@, n@, k),
        decreases last + 1 - i,
    {
        if matches_at(h, n, i) {
            return Some(i);
        }
        if i == last {
            return None;
        }
        i += 1;
    }
    None
}

/// Whether the string slice `h` contains the string slice `n`.
pub fn contains_str(h: &str, n: &str) -> (r: bool)
    ensures
        r == has_sub(h@, n@),
{
    let hv = chars_of(h);
    let nv = chars_of(n);
    contains_chars(hv.as_slice(), nv.as_slice())
}

/// Whether the literal `lit` occurs in `h`.
pub fn contains_lit(h: &[char], lit: &str) -> (r: bool)
    ensures
        r == has_sub(h@, lit@),
{
    let n = chars_of(lit);
    contains_chars(h, n.as_slice())
}

/// Whether `h` begins with `p`.
pub fn starts_with_chars(h: &[char], p: &[char]) -> (r: bool)
    ensures
        r == has_prefix(h@, p@),
{
    if p.len() > h.len() {
        return false;
    }
    let r = matches_at(h, p, 0);
    proof {
        assert(h@.subrange(0, p@.len() as int) =~= h@.take(p@.len() as int));
    }
    r
}

/// Whether the string slice `h` begins with `p`.
pub fn starts_with_str(h: &str, p: &str) -> (r: bool)
    ensures
        r == has_prefix(h@, p@),
{
    let hv = chars_of(h);
    let pv = chars_of(p);
    starts_with_chars(hv.as_slice(), pv.as_slice())
}

/// Whether `h` ends with `p`.
pub fn ends_with_chars(h: &[char], p: &[char]) -> (r: bool)
    ensures
        r == has_suffix(h@, p@),
{
    if p.len() > h.len() {
        return false;
    }
    let start = h.len() - p.len();
    let r = matches_at(h, p, start);
    proof {
        assert(h@.subrange(start as int, start + p@.len()) =~= h@.skip(start as int));
    }
    r
}

// ---------------------------------------------------------------------------
// Trimming
// ---------------------------------------------------------------------------

/// `s` without its leading white space.
pub open spec fn trim_start(s: Seq<char>) -> Seq<char>
    decreases s.len(),
{
    if s.len() > 0 && is_ws(s[0]) {
        trim_start(s.drop_first())
    } else {
        s
    }
}

/// `s` without its trailing white space.
pub open spec fn trim_end(s: Seq<char>) -> Seq<char>
    decreases s.len(),
{
    if s.len() > 0 && is_ws(s.last()) {
        trim_end(s.drop_last())
    } else {
        s
    }
}

/// `s` without leading and trailing white space (what `str::trim` gives).
pub open spec fn trim(s: Seq<char>) -> Seq<char> {
    trim_end(trim_start(s))
}

/// `v` without leading and trailing white space.
pub fn trim_chars(v: &[char]) -> (r: Vec<char>)
    ensures
        r@ == trim(v@),
{
    let n = v.len();
    let mut i: usize = 0;
    proof {
        assert(v@.subrange(0, n as int) =~= v@);
    }
    while i < n && is_whitespace(v[i])
        invariant
            i <= n,
            n == v@.len(),
            trim_start(v@) == trim_start(v@.subrange(i as int, n as int)),
        decreases n - i,
    {
        proof {
            assert(v@.subrange(i as int, n as int).drop_first() =~= v@.subrange(i + 1, n as int));
        }
        i += 1;
    }
    proof {
        assert(trim_start(v@.subrange(i as int, n as int)) == v@.subrange(i as int, n as int));
    }
    let mut j: usize = n;
    while j > i && is_whitespace(v[j - 1])
        invariant
            i <= j <= n,
            n == v@.len(),
            trim_start(v@) == v@.subrange(i as int, n as int),
            trim_end(v@.subrange(i as int, n as int)) == trim_end(v@.subrange(i as int, j as int)),
        decreases j - i,
    {
        proof {
            assert(v@.subrange(i as int, j as int).drop_last() =~= v@.subrange(i as int, j - 1));
        }
        j -= 1;
    }
    proof {
        assert(trim_end(v@.subrange(i as int, j as int)) == v@.subrange(i as int, j as int));
    }
    slice_range(v, i, j)
}

/// The string slice `s` without leading and trailing white space.
pub fn trim_str(s: &str) -> (r: String)
    ensures
        r@ == trim(s@),
{
    let v = chars_of(s);
    let t = trim_chars(v.as_slice());
    string_of(t.as_slice())
}


// ---------------------------------------------------------------------------
// Locating characters
// ---------------------------------------------------------------------------

/// The position of the first `c` in `s`, or -1 when `s` holds none.
pub open spec fn index_of(s: Seq<char>, c: char) -> int
    decreases s.len(),
{
    if s.len() == 0 {
        -1
    } else if s[0] == c {
        0
    } else {
        let r = index_of(s.drop_first(), c);
        if r < 0 {
            -1
        } else {
            r + 1
        }
    }
}

/// The position of the first white-space character in `s`, or `s.len()` when there is none.
pub open spec fn ws_index(s: Seq<char>) -> int
    decreases s.len(),
{
    if s.len() == 0 {
        0
    } else if is_ws(s[0]) {
        0
    } else {
        ws_index(s.drop_first()) + 1
    }
}

pub proof fn lemma_index_of(s: Seq<char>, c: char)
    ensures
        -1 <= index_of(s, c) < s.len(),
        index_of(s, c) >= 0 ==> s[index_of(s, c)] == c,
        index_of(s, c) >= 0 ==> forall|k: int| 0 <= k < index_of(s, c) ==> s[k] != c,
        index_of(s, c) < 0 ==> forall|k: int| 0 <= k < s.len() ==> s[k] != c,
    decreases s.len(),
{
    if s.len() > 0 && s[0] != c {
        lemma_index_of(s.drop_first(), c);
        assert forall|k: int| 1 <= k < s.len() implies s[k] == s.drop_first()[k - 1] by {}
    }
}

/// The first `c` at or after `from` is at `r` (`r == s.len()` when there is none).
pub open spec fn first_from(s: Seq<char>, from: int, c: char, r: int) -> bool {
    &&& from <= r <= s.len()
    &&& r < s.len() ==> s[r] == c
    &&& forall|k: int| from <= k < r ==> s[k] != c
}

pub proof fn lemma_first_from(s: Seq<char>, from: int, c: char, r: int)
    requires
        0 <= from <= s.len(),
        first_from(s, from, c, r),
    ensures
        index_of(s.skip(from), c) == (if r < s.len() {
            r - from
        } else {
            -1
        }),
{
    let t = s.skip(from);
    lemma_index_of(t, c);
    let i = index_of(t, c);
    if r < s.len() {
        assert(t[r - from] == c);
        if i >= 0 && i < r - from {
            assert(s[from + i] == c);
        }
        if i < 0 {
            assert(t[r - from] != c);
        }
    } else {
        if i >= 0 {
            assert(s[from + i] == c);
        }
    }
}

/// The position of the first `c` in `v` at or after `from`, or `v.len()`.
pub fn find_char_from(v: &[char], from: usize, c: char) -> (r: usize)
    requires
        from <= v@.len(),
    ensures
        first_from(v@, from as int, c, r as int),
{
    let n = v.len();
    let mut i = from;
    while i < n
        invariant
            from <= i <= n,
            n == v@.len(),
            forall|k: int| from <= k < i ==> v@[k] != c,
        decreases n - i,
    {
        if v[i] == c {
            return i;
        }
        i += 1;
    }
    i
}

// ---------------------------------------------------------------------------
// Splitting
// ---------------------------------------------------------------------------

/// Drops one carriage return at the end of a line.
pub open spec fn strip_cr(l: Seq<char>) -> Seq<char> {
    if l.len() > 0 && l.last() == '\r' {
        l.drop_last()
    } else {
        l
    }
}

/// The lines of `s`, as `str::lines` gives them: split at each `\n`, a `\r`
/// just before the `\n` dropped, and no empty line after a final `\n`.
pub open spec fn lines(s: Seq<char>) -> Seq<Seq<char>>
    decreases s.len(),
{
    if s.len() == 0 {
        seq![]
    } else {
        let i = index_of(s, '\n');
        if i < 0 {
            seq![s]
        } else {
            proof {
                lemma_index_of(s, '\n');
            }
            seq![strip_cr(s.take(i))] + lines(s.skip(i + 1))
        }
    }
}

/// The views of a vector of character vectors.
pub open spec fn views(v: Seq<Vec<char>>) -> Seq<Seq<char>> {
    v.map_values(|x: Vec<char>| x@)
}

/// The lines of `v`.
pub fn lines_of(v: &[char]) -> (r: Vec<Vec<char>>)
    ensures
        views(r@) == lines(v@),
{
    let n = v.len();
    let mut out: Vec<Vec<char>> = Vec::new();
    let mut pos: usize = 0;
    proof {
        assert(v@.skip(0) =~= v@);
        assert(views(out@) =~= Seq::<Seq<char>>::empty());
    }
    while pos < n
        invariant
            pos <= n,
            n == v@.len(),
            lines(v@) == views(out@) + lines(v@.skip(pos as int)),
        decreases n - pos,
    {
        let j = find_char_from(v, pos, '\n');
        proof {
            lemma_first_from(v@, pos as int, '\n', j as int);
        }
        let ghost rest = v@.skip(pos as int);
        let ghost old_out = out@;
        if j == n {
            let line = slice_range(v, pos, n);
            out.push(line);
            proof {
                assert(line@ =~= rest);
                assert(views(out@) =~= views(old_out).push(rest));
                assert(v@.skip(n as int) =~= Seq::<char>::empty());
            }
            pos = n;
        } else {
            let mut line = slice_range(v, pos, j);
            let ghost raw = line@;
            let ll = line.len();
            if ll > 0 && line[ll - 1] == '\r' {
                line.pop();
            }
            proof {
                assert(raw =~= rest.take(j - pos));
                assert(line@ =~= strip_cr(rest.take(j - pos)));
                assert(rest.skip(j - pos + 1) =~= v@.skip(j + 1));
                assert(views(out@.push(line)) =~= views(old_out).push(line@));
            }
            out.push(line);
            pos = j + 1;
        }
    }
    proof {
        assert(v@.skip(pos as int) =~= Seq::<char>::empty());
        assert(views(out@) + Seq::<Seq<char>>::empty() =~= views(out@));
    }
    out
}

/// `s` split at its first `c`: the part before and the part after.
pub open spec fn split_once(s: Seq<char>, c: char) -> Option<(Seq<char>, Seq<char>)> {
    let i = index_of(s, c);
    if i < 0 {
        None
    } else {
        Some((s.take(i), s.skip(i + 1)))
    }
}

/// `v` split at its first `c` (what `str::split_once` gives for a char pattern).
pub fn split_once_chars(v: &[char], c: char) -> (r: Option<(Vec<char>, Vec<char>)>)
    ensures
        match split_once(v@, c) {
            None => r is None,
            Some((a, b)) => r matches Some((x, y)) && x@ == a && y@ == b,
        },
{
    let n = v.len();
    let i = find_char_from(v, 0, c);
    proof {
        lemma_first_from(v@, 0, c, i as int);
        assert(v@.skip(0) =~= v@);
    }
    if i == n {
        None
    } else {
        let a = slice_range(v, 0, i);
        let b = slice_range(v, i + 1, n);
        proof {
            assert(a@ =~= v@.take(i as int));
            assert(b@ =~= v@.skip(i + 1));
        }
        Some((a, b))
    }
}

/// The pieces of `s` between the occurrences of `c` (what `str::split` gives for a
/// char pattern): one more piece than there are `c`s, empty pieces included.
pub open spec fn fields(s: Seq<char>, c: char) -> Seq<Seq<char>>
    decreases s.len(),
{
    let i = index_of(s, c);
    if i < 0 {
        seq![s]
    } else {
        proof {
            lemma_index_of(s, c);
        }
        seq![s.take(i)] + fields(s.skip(i + 1), c)
    }
}

/// The pieces of `v` between the occurrences of `c`.
pub fn fields_of(v: &[char], c: char) -> (r: Vec<Vec<char>>)
    ensures
        views(r@) == fields(v@, c),
{
    let n = v.len();
    let mut out: Vec<Vec<char>> = Vec::new();
    let mut pos: usize = 0;
    proof {
        assert(v@.skip(0) =~= v@);
        assert(views(out@) =~= Seq::<Seq<char>>::empty());
        assert(fields(v@, c) =~= views(out@) + fields(v@.skip(0), c));
    }
    loop
        invariant
            pos <= n,
            n == v@.len(),
            fields(v@, c) == views(out@) + fields(v@.skip(pos as int), c),
        decreases n - pos,
    {
        let j = find_char_from(v, pos, c);
        proof {
            lemma_first_from(v@, pos as int, c, j as int);
        }
        let ghost rest = v@.skip(pos as int);
        let ghost old_out = out@;
        if j == n {
            let piece = slice_range(v, pos, n);
            out.push(piece);
            proof {
                assert(piece@ =~= rest);
                assert(views(out@) =~= views(old_out).push(rest));
                assert(views(old_out) + seq![rest] =~= views(out@));
            }
            return out;
        }
        let piece = slice_range(v, pos, j);
        out.push(piece);
        proof {
            assert(piece@ =~= rest.take(j - pos));
            assert(rest.skip(j - pos + 1) =~= v@.skip(j + 1));
            assert(views(out@) =~= views(old_out).push(piece@));
            assert(views(old_out) + (seq![piece@] + fields(v@.skip(j + 1), c)) =~= views(out@)
                + fields(v@.skip(j + 1), c));
        }
        pos = j + 1;
    }
}

/// `s` with every occurrence of `p` taken out, scanning from the left without
/// overlap (what `str::replace(p, "")` gives); `s` itself when `p` is empty.
pub open spec fn remove_all(s: Seq<char>, p: Seq<char>) -> Seq<char>
    decreases s.len(),
{
    if s.len() == 0 {
        s
    } else if p.len() > 0 && has_prefix(s, p) {
        remove_all(s.skip(p.len() as int), p)
    } else {
        seq![s[0]] + remove_all(s.drop_first(), p)
    }
}

/// `v` with every occurrence of `p` taken out.
pub fn remove_all_chars(v: &[char], p: &[char]) -> (r: Vec<char>)
    ensures
        r@ == remove_all(v@, p@),
{
    let n = v.len();
    let m = p.len();
    let mut out: Vec<char> = Vec::new();
    let mut pos: usize = 0;
    proof {
        assert(v@.skip(0) =~= v@);
        assert(remove_all(v@, p@) =~= out@ + remove_all(v@.skip(0), p@));
    }
    while pos < n
        invariant
            pos <= n,
            n == v@.len(),
            m == p@.len(),
            remove_all(v@, p@) == out@ + remove_all(v@.skip(pos as int), p@),
        decreases n - pos,
    {
        let ghost t = v@.skip(pos as int);
        let found = m > 0 && m <= n - pos && matches_at(v, p, pos);
        proof {
            if m > 0 && m <= n - pos {
                assert(t.take(m as int) =~= v@.subrange(pos as int, pos + m));
            }
        }
        if found {
            proof {
                assert(t.skip(m as int) =~= v@.skip(pos + m));
            }
            pos = pos + m;
        } else {
            let ghost old_out = out@;
            out.push(v[pos]);
            proof {
                assert(t.drop_first() =~= v@.skip(pos + 1));
                assert(old_out + (seq![t[0]] + remove_all(t.drop_first(), p@)) =~= out@
                    + remove_all(v@.skip(pos + 1), p@));
            }
            pos = pos + 1;
        }
    }
    proof {
        assert(v@.skip(pos as int) =~= Seq::<char>::empty());
        assert(out@ + Seq::<char>::empty() =~= out@);
    }
    out
}

/// The string slice `s` with every occurrence of `p` taken out.
pub fn remove_all_str(s: &str, p: &str) -> (r: Vec<char>)
    ensures
        r@ == remove_all(s@, p@),
{
    let v = chars_of(s);
    let pv = chars_of(p);
    remove_all_chars(v.as_slice(), pv.as_slice())
}

/// The second field of `s` split at `c` (what `s.split(c).nth(1)` gives).
pub open spec fn second_field(s: Seq<char>, c: char) -> Option<Seq<char>> {
    match split_once(s, c) {
        None => None,
        Some((_, rest)) => {
            let j = index_of(rest, c);
            Some(
                if j < 0 {
                    rest
                } else {
                    rest.take(j)
                },
            )
        },
    }
}

/// The second field of `v` split at `c`.
pub fn second_field_chars(v: &[char], c: char) -> (r: Option<Vec<char>>)
    ensures
        match second_field(v@, c) {
            None => r is None,
            Some(f) => r matches Some(x) && x@ == f,
        },
{
    match split_once_chars(v, c) {
        None => None,
        Some((_, rest)) => {
            let m = rest.len();
            let j = find_char_from(rest.as_slice(), 0, c);
            proof {
                lemma_first_from(rest@, 0, c, j as int);
                assert(rest@.skip(0) =~= rest@);
            }
            let f = slice_range(rest.as_slice(), 0, j);
            proof {
                if j < m {
                    assert(f@ =~= rest@.take(j as int));
                } else {
                    assert(f@ =~= rest@);
                }
            }
            Some(f)
        },
    }
}

pub proof fn lemma_ws_index(s: Seq<char>)
    ensures
        0 <= ws_index(s) <= s.len(),
        ws_index(s) < s.len() ==> is_ws(s[ws_index(s)]),
        forall|k: int| 0 <= k < ws_index(s) ==> !is_ws(s[k]),
    decreases s.len(),
{
    if s.len() > 0 && !is_ws(s[0]) {
        lemma_ws_index(s.drop_first());
        assert forall|k: int| 1 <= k < s.len() implies s[k] == s.drop_first()[k - 1] by {}
    }
}

pub proof fn lemma_trim_start(s: Seq<char>)
    ensures
        trim_start(s).len() <= s.len(),
        trim_start(s).len() > 0 ==> !is_ws(trim_start(s)[0]),
        s.skip(s.len() - trim_start(s).len()) == trim_start(s),
        forall|k: int| 0 <= k < s.len() - trim_start(s).len() ==> is_ws(s[k]),
    decreases s.len(),
{
    if s.len() > 0 && is_ws(s[0]) {
        let t = s.drop_first();
        lemma_trim_start(t);
        assert(t.skip(t.len() - trim_start(t).len()) =~= s.skip(s.len() - trim_start(s).len()));
        assert forall|k: int| 1 <= k < s.len() - trim_start(s).len() implies is_ws(s[k]) by {
            assert(s[k] == t[k - 1]);
        }
    } else {
        assert(s.skip(0) =~= s);
    }
}

/// The white-space separated words of `s` (what `str::split_whitespace` gives).
pub open spec fn words(s: Seq<char>) -> Seq<Seq<char>>
    decreases s.len(),
{
    let t = trim_start(s);
    if t.len() == 0 {
        seq![]
    } else {
        proof {
            lemma_trim_start(s);
            lemma_ws_index(t);
        }
        let j = ws_index(t);
        seq![t.take(j)] + words(t.skip(j))
    }
}

pub proof fn lemma_trim_start_at(s: Seq<char>, pos: int, i: int)
    requires
        0 <= pos <= i <= s.len(),
        forall|k: int| pos <= k < i ==> is_ws(s[k]),
        i == s.len() || !is_ws(s[i]),
    ensures
        trim_start(s.skip(pos)) == s.skip(i),
    decreases i - pos,
{
    if pos < i {
        assert(s.skip(pos).drop_first() =~= s.skip(pos + 1));
        lemma_trim_start_at(s, pos + 1, i);
    }
}

/// The white-space separated words of `v`.
pub fn words_of(v: &[char]) -> (r: Vec<Vec<char>>)
    ensures
        views(r@) == words(v@),
{
    let n = v.len();
    let mut out: Vec<Vec<char>> = Vec::new();
    let mut pos: usize = 0;
    proof {
        assert(v@.skip(0) =~= v@);
        assert(views(out@) =~= Seq::<Seq<char>>::empty());
    }
    while pos < n
        invariant
            pos <= n,
            n == v@.len(),
            words(v@) == views(out@) + words(v@.skip(pos as int)),
        decreases n - pos,
    {
        let mut i = pos;
        while i < n && is_whitespace(v[i])
            invariant
                pos <= i <= n,
                n == v@.len(),
                forall|k: int| pos <= k < i ==> is_ws(v@[k]),
            decreases n - i,
        {
            i += 1;
        }
        proof {
            lemma_trim_start_at(v@, pos as int, i as int);
        }
        if i == n {
            proof {
                assert(v@.skip(n as int) =~= Seq::<char>::empty());
                assert(words(v@.skip(pos as int)) =~= Seq::<Seq<char>>::empty());
                assert(views(out@) + Seq::<Seq<char>>::empty() =~= views(out@));
            }
            pos = n;
        } else {
            let mut j = i;
            while j < n && !is_whitespace(v[j])
                invariant
                    i <= j <= n,
                    n == v@.len(),
                    forall|k: int| i <= k < j ==> !is_ws(v@[k]),
                decreases n - j,
            {
                j += 1;
            }
            let ghost t = v@.skip(i as int);
            proof {
                lemma_ws_index(t);
                let w = ws_index(t);
                if w < j - i {
                    assert(t[w] == v@[i + w]);
                }
                if w > j - i {
                    assert(t[j - i] == v@[j as int]);
                }
                assert(w == j - i);
                assert(t.skip(j - i) =~= v@.skip(j as int));
            }
            let word = slice_range(v, i, j);
            let ghost old_out = out@;
            out.push(word);
            proof {
                assert(word@ =~= t.take(j - i));
                assert(views(out@) =~= views(old_out).push(word@));
            }
            pos = j;
        }
    }
    proof {
        assert(v@.skip(pos as int) =~= Seq::<char>::empty());
        assert(views(out@) + Seq::<Seq<char>>::empty() =~= views(out@));
    }
    out
}


/// The second field (split at `sep`) of the first line among `ls` that begins with
/// `key`, does not begin with `exclude` when that is given, and has a second field.
pub open spec fn first_keyed_field(
    ls: Seq<Seq<char>>,
    key: Seq<char>,
    exclude: Option<Seq<char>>,
    sep: char,
) -> Option<Seq<char>>
    decreases ls.len(),
{
    if ls.len() == 0 {
        None
    } else {
        let l = ls[0];
        if has_prefix(l, key) && !(exclude is Some && has_prefix(l, exclude->0)) && second_field(
            l,
            sep,
        ) is Some {
            second_field(l, sep)
        } else {
            first_keyed_field(ls.drop_first(), key, exclude, sep)
        }
    }
}

/// The second field of the first line of `text` that begins with `key` (and not with
/// `exclude`, when given) and has a second field when split at `sep`.
pub fn keyed_field(text: &str, key: &str, exclude: Option<&str>, sep: char) -> (r: Option<
    Vec<char>,
>)
    ensures
        match first_keyed_field(lines(text@), key@, opt_view(exclude), sep) {
            None => r is None,
            Some(f) => r matches Some(x) && x@ == f,
        },
{
    let v = chars_of(text);
    let ls = lines_of(v.as_slice());
    let kv = chars_of(key);
    let ev: Option<Vec<char>> = match exclude {
        Some(e) => Some(chars_of(e)),
        None => None,
    };
    let ghost lv = views(ls@);
    let n = ls.len();
    let mut i: usize = 0;
    proof {
        assert(lv.skip(0) =~= lv);
    }
    while i < n
        invariant
            i <= n,
            n == ls@.len(),
            lv == views(ls@),
            lv == lines(text@),
            kv@ == key@,
            match ev {
                Some(e) => exclude matches Some(x) && e@ == x@,
                None => exclude is None,
            },
            first_keyed_field(lv, key@, opt_view(exclude), sep) == first_keyed_field(
                lv.skip(i as int),
                key@,
                opt_view(exclude),
                sep,
            ),
        decreases n - i,
    {
        let line = ls[i].as_slice();
        proof {
            assert(lv.skip(i as int)[0] == line@);
            assert(lv.skip(i as int).drop_first() =~= lv.skip(i + 1));
        }
        let excluded = match &ev {
            Some(e) => starts_with_chars(line, e.as_slice()),
            None => false,
        };
        if starts_with_chars(line, kv.as_slice()) && !excluded {
            let f = second_field_chars(line, sep);
            if f.is_some() {
                return f;
            }
        }
        i += 1;
    }
    None
}

/// The view of an optional string slice.
pub open spec fn opt_view(o: Option<&str>) -> Option<Seq<char>> {
    match o {
        Some(s) => Some(s@),
        None => None,
    }
}

// ---------------------------------------------------------------------------
// Numbers
// ---------------------------------------------------------------------------

/// Every character of `s` is an ASCII digit.
pub open spec fn all_digits(s: Seq<char>) -> bool {
    forall|i: int| 0 <= i < s.len() ==> is_digit(#[trigger] s[i])
}

/// The value of a string of decimal digits.
pub open spec fn digits_value(s: Seq<char>) -> nat
    decreases s.len(),
{
    if s.len() == 0 {
        0
    } else {
        digits_value(s.drop_last()) * 10 + digit_value(s.last())
    }
}

/// The digits of an unsigned integer literal: a single leading `+` is allowed.
pub open spec fn unsigned_digits(s: Seq<char>) -> Seq<char> {
    if s.len() > 0 && s[0] == '+' {
        s.drop_first()
    } else {
        s
    }
}

/// What `str::parse` gives for an unsigned integer type whose largest value is `max`:
/// the value when `s` is an optional `+` and one or more digits denoting at most `max`.
pub open spec fn parse_unsigned(s: Seq<char>, max: nat) -> Option<nat> {
    let d = unsigned_digits(s);
    if d.len() > 0 && all_digits(d) && digits_value(d) <= max {
        Some(digits_value(d))
    } else {
        None
    }
}

pub proof fn lemma_digits_value_prefix(s: Seq<char>, k: int)
    requires
        0 <= k <= s.len(),
        all_digits(s),
    ensures
        digits_value(s.take(k)) <= digits_value(s),
    decreases s.len(),
{
    if k < s.len() {
        let t = s.drop_last();
        assert(all_digits(t)) by {
            assert forall|i: int| 0 <= i < t.len() implies is_digit(t[i]) by {
                assert(t[i] == s[i]);
            }
        }
        lemma_digits_value_prefix(t, k);
        assert(t.take(k) =~= s.take(k));
    } else {
        assert(s.take(k) =~= s);
    }
}

/// Parses `v` as an unsigned decimal integer no larger than `max`, as `str::parse`
/// does for unsigned integer types.
pub fn parse_unsigned_chars(v: &[char], max: u64) -> (r: Option<u64>)
    ensures
        match parse_unsigned(v@, max as nat) {
            None => r is None,
            Some(x) => r == Some(x as u64),
        },
{
    let n = v.len();
    let start: usize = if n > 0 && v[0] == '+' {
        1
    } else {
        0
    };
    let ghost d = unsigned_digits(v@);
    proof {
        assert(d =~= v@.skip(start as int));
    }
    if start == n {
        return None;
    }
    let mut acc: u64 = 0;
    let mut i: usize = start;
    while i < n
        invariant
            start <= i <= n,
            n == v@.len(),
            d == v@.skip(start as int),
            d == unsigned_digits(v@),
            max as nat >= acc,
            acc == digits_value(d.take(i - start)),
            all_digits(d.take(i - start)),
        decreases n - i,
    {
        let c = v[i];
        if !is_ascii_digit(c) {
            proof {
                assert(d[i - start] == c);
                assert(!is_digit(d[i - start]));
                assert(!all_digits(d));
            }
            return None;
        }
        let digit = (c as u32 - 48) as u64;
        proof {
            assert(d.take(i - start + 1).drop_last() =~= d.take(i - start));
            assert(d.take(i - start + 1).last() == c);
            assert(all_digits(d.take(i - start + 1))) by {
                assert forall|k: int| 0 <= k < i - start + 1 implies is_digit(
                    #[trigger] d.take(i - start + 1)[k],
                ) by {
                    if k < i - start {
                        assert(d.take(i - start + 1)[k] == d.take(i - start)[k]);
                    }
                }
            }
        }
        let next = match acc.checked_mul(10) {
            Some(m) => m.checked_add(digit),
            None => None,
        };
        match next {
            Some(x) if x <= max => {
                acc = x;
            },
            _ => {
                proof {
                    assert(digits_value(d.take(i - start + 1)) == acc * 10 + digit);
                    if all_digits(d) {
                        lemma_digits_value_prefix(d, i - start + 1);
                    }
                }
                return None;
            },
        }
        i += 1;
    }
    proof {
        assert(d.take(n - start) =~= d);
    }
    Some(acc)
}

/// Whether `c` is a hexadecimal digit, in either case.
pub open spec fn is_hex_digit(c: char) -> bool {
    ||| 48 <= c as u32 <= 57
    ||| 65 <= c as u32 <= 70
    ||| 97 <= c as u32 <= 102
}

/// The value of a hexadecimal digit.
pub open spec fn hex_digit_value(c: char) -> nat {
    if 48 <= c as u32 <= 57 {
        (c as u32 - 48) as nat
    } else if 65 <= c as u32 <= 70 {
        (c as u32 - 55) as nat
    } else {
        (c as u32 - 87) as nat
    }
}

/// Every character of `s` is a hexadecimal digit.
pub open spec fn all_hex(s: Seq<char>) -> bool {
    forall|i: int| 0 <= i < s.len() ==> is_hex_digit(#[trigger] s[i])
}

/// The value of a string of hexadecimal digits.
pub open spec fn hex_value(s: Seq<char>) -> nat
    decreases s.len(),
{
    if s.len() == 0 {
        0
    } else {
        hex_value(s.drop_last()) * 16 + hex_digit_value(s.last())
    }
}

/// What `from_str_radix(s, 16)` gives for an unsigned integer type whose largest value
/// is `max`: the value when `s` is an optional `+` and one or more hexadecimal digits
/// denoting at most `max`.
pub open spec fn parse_hex(s: Seq<char>, max: nat) -> Option<nat> {
    let d = unsigned_digits(s);
    if d.len() > 0 && all_hex(d) && hex_value(d) <= max {
        Some(hex_value(d))
    } else {
        None
    }
}

pub proof fn lemma_hex_value_prefix(s: Seq<char>, k: int)
    requires
        0 <= k <= s.len(),
        all_hex(s),
    ensures
        hex_value(s.take(k)) <= hex_value(s),
    decreases s.len(),
{
    if k < s.len() {
        let t = s.drop_last();
        assert(all_hex(t)) by {
            assert forall|i: int| 0 <= i < t.len() implies is_hex_digit(t[i]) by {
                assert(t[i] == s[i]);
            }
        }
        lemma_hex_value_prefix(t, k);
        assert(t.take(k) =~= s.take(k));
    } else {
        assert(s.take(k) =~= s);
    }
}

/// Parses `v` as an unsigned hexadecimal integer no larger than `max`, as
/// `from_str_radix(_, 16)` does for unsigned integer types.
pub fn parse_hex_chars(v: &[char], max: u64) -> (r: Option<u64>)
    ensures
        match parse_hex(v@, max as nat) {
            None => r is None,
            Some(x) => r == Some(x as u64),
        },
{
    let n = v.len();
    let start: usize = if n > 0 && v[0] == '+' {
        1
    } else {
        0
    };
    let ghost d = unsigned_digits(v@);
    proof {
        assert(d =~= v@.skip(start as int));
    }
    if start == n {
        return None;
    }
    let mut acc: u64 = 0;
    let mut i: usize = start;
    while i < n
        invariant
            start <= i <= n,
            n == v@.len(),
            d == v@.skip(start as int),
            d == unsigned_digits(v@),
            max as nat >= acc,
            acc == hex_value(d.take(i - start)),
            all_hex(d.take(i - start)),
        decreases n - i,
    {
        let c = v[i];
        let u = c as u32;
        let digit: u64 = if 48 <= u && u <= 57 {
            (u - 48) as u64
        } else if 65 <= u && u <= 70 {
            (u - 55) as u64
        } else if 97 <= u && u <= 102 {
            (u - 87) as u64
        } else {
            proof {
                assert(d[i - start] == c);
                assert(!is_hex_digit(d[i - start]));
                assert(!all_hex(d));
            }
            return None;
        };
        proof {
            assert(d.take(i - start + 1).drop_last() =~= d.take(i - start));
            assert(d.take(i - start + 1).last() == c);
            assert(all_hex(d.take(i - start + 1))) by {
                assert forall|k: int| 0 <= k < i - start + 1 implies is_hex_digit(
                    #[trigger] d.take(i - start + 1)[k],
                ) by {
                    if k < i - start {
                        assert(d.take(i - start + 1)[k] == d.take(i - start)[k]);
                    }
                }
            }
        }
        let next = match acc.checked_mul(16) {
            Some(m) => m.checked_add(digit),
            None => None,
        };
        match next {
            Some(x) if x <= max => {
                acc = x;
            },
            _ => {
                proof {
                    assert(hex_value(d.take(i - start + 1)) == acc * 16 + digit);
                    if all_hex(d) {
                        lemma_hex_value_prefix(d, i - start + 1);
                    }
                }
                return None;
            },
        }
        i += 1;
    }
    proof {
        assert(d.take(n - start) =~= d);
    }
    Some(acc)
}

/// `s` without every leading copy of `p` (what `str::trim_start_matches` gives for a
/// string pattern); `s` itself when `p` is empty.
pub open spec fn strip_prefixes(s: Seq<char>, p: Seq<char>) -> Seq<char>
    decreases s.len(),
{
    if p.len() > 0 && has_prefix(s, p) {
        strip_prefixes(s.skip(p.len() as int), p)
    } else {
        s
    }
}

/// `v` without every leading copy of `p`.
pub fn strip_prefixes_chars(v: &[char], p: &[char]) -> (r: Vec<char>)
    ensures
        r@ == strip_prefixes(v@, p@),
{
    let n = v.len();
    let m = p.len();
    let mut pos: usize = 0;
    proof {
        assert(v@.skip(0) =~= v@);
    }
    while m > 0 && m <= n - pos && matches_at(v, p, pos)
        invariant
            pos <= n,
            n == v@.len(),
            m == p@.len(),
            strip_prefixes(v@, p@) == strip_prefixes(v@.skip(pos as int), p@),
        decreases n - pos,
    {
        proof {
            let t = v@.skip(pos as int);
            assert(t.take(m as int) =~= v@.subrange(pos as int, pos + m));
            assert(t.skip(m as int) =~= v@.skip(pos + m));
        }
        pos = pos + m;
    }
    proof {
        let t = v@.skip(pos as int);
        if m > 0 && m <= n - pos {
            assert(t.take(m as int) =~= v@.subrange(pos as int, pos + m));
        }
    }
    slice_range(v, pos, n)
}

/// Parses a string slice as a `u32`, as `str::parse::<u32>` does.
pub fn parse_u32(s: &str) -> (r: Option<u32>)
    ensures
        match parse_unsigned(s@, u32::MAX as nat) {
            None => r is None,
            Some(x) => r == Some(x as u32),
        },
{
    let v = chars_of(s);
    match parse_unsigned_chars(v.as_slice(), u32::MAX as u64) {
        None => None,
        Some(x) => Some(x as u32),
    }
}

/// Parses a string slice as a `u64`, as `str::parse::<u64>` does.
pub fn parse_u64(s: &str) -> (r: Option<u64>)
    ensures
        match parse_unsigned(s@, u64::MAX as nat) {
            None => r is None,
            Some(x) => r == Some(x as u64),
        },
{
    let v = chars_of(s);
    parse_unsigned_chars(v.as_slice(), u64::MAX)
}

/// The character of a decimal or hexadecimal digit value (upper case letters).
pub open spec fn digit_char(d: nat) -> char {
    if d < 10 {
        ((d + 48) as u8) as char
    } else {
        ((d + 55) as u8) as char
    }
}

/// The digits of `n` in base `b` (2 to 16), most significant first, without leading zeros.
pub open spec fn digits_in_base(n: nat, b: nat) -> Seq<char>
    decreases n,
{
    if b < 2 || n < b {
        seq![digit_char(n)]
    } else {
        proof {
            assert(n / b < n) by (nonlinear_arith)
                requires
                    n >= b,
                    b >= 2,
            ;
        }
        digits_in_base(n / b, b).push(digit_char(n % b))
    }
}

/// What `format!("{}", n)` gives for an unsigned integer.
pub open spec fn decimal(n: nat) -> Seq<char> {
    digits_in_base(n, 10)
}

/// What `format!("{:X}", n)` gives for an unsigned integer.
pub open spec fn hex_upper(n: nat) -> Seq<char> {
    digits_in_base(n, 16)
}

/// `s` padded on the left with `0` to at least `w` characters.
pub open spec fn zero_pad(s: Seq<char>, w: nat) -> Seq<char> {
    if s.len() >= w {
        s
    } else {
        Seq::new((w - s.len()) as nat, |i: int| '0') + s
    }
}

fn digit_to_char(d: u64) -> (c: char)
    requires
        d < 16,
    ensures
        c == digit_char(d as nat),
{
    if d < 10 {
        ((d + 48) as u8) as char
    } else {
        ((d + 55) as u8) as char
    }
}

fn push_digits(s: &mut String, n: u64, b: u64)
    requires
        2 <= b <= 16,
    ensures
        final(s)@ == old(s)@ + digits_in_base(n as nat, b as nat),
    decreases n,
{
    if n < b {
        push_char(s, digit_to_char(n));
    } else {
        assert(n / b < n) by (nonlinear_arith)
            requires
                n >= b,
                b >= 2,
        ;
        push_digits(s, n / b, b);
        push_char(s, digit_to_char(n % b));
        proof {
            let ghost a = digits_in_base((n / b) as nat, b as nat);
            assert(old(s)@ + a + seq![digit_char((n % b) as nat)] =~= old(s)@ + a.push(
                digit_char((n % b) as nat),
            ));
        }
    }
}

/// `n` in decimal, as `n.to_string()` gives it.
pub fn u64_to_string(n: u64) -> (r: String)
    ensures
        r@ == decimal(n as nat),
{
    let mut s = String::new();
    push_digits(&mut s, n, 10);
    proof {
        assert(Seq::<char>::empty() + decimal(n as nat) =~= decimal(n as nat));
    }
    s
}

/// Appends `n` in decimal to `s`.
pub fn push_decimal(s: &mut String, n: u64)
    ensures
        final(s)@ == old(s)@ + decimal(n as nat),
{
    push_digits(s, n, 10);
}

/// Appends `n` in upper-case hexadecimal, zero-padded to at least `w` digits, as
/// `format!("{:0w$X}", n)` does.
pub fn push_hex_padded(s: &mut String, n: u64, w: usize)
    ensures
        final(s)@ == old(s)@ + zero_pad(hex_upper(n as nat), w as nat),
{
    let mut digits = String::new();
    push_digits(&mut digits, n, 16);
    let dv = chars_of(digits.as_str());
    proof {
        assert(dv@ =~= hex_upper(n as nat));
    }
    let len = dv.len();
    if len < w {
        let mut k: usize = 0;
        let ghost base = s@;
        while k < w - len
            invariant
                k <= w - len,
                len < w,
                s@ == base + Seq::new(k as nat, |i: int| '0'),
            decreases w - len - k,
        {
            push_char(s, '0');
            proof {
                assert(base + Seq::new((k + 1) as nat, |i: int| '0') =~= base + Seq::new(
                    k as nat,
                    |i: int| '0',
                ).push('0'));
            }
            k += 1;
        }
    }
    let ghost before = s@;
    push_str(s, digits.as_str());
    proof {
        if len < w {
            assert(before + dv@ =~= old(s)@ + (Seq::new((w - len) as nat, |i: int| '0') + dv@));
        }
    }
}

// ---------------------------------------------------------------------------
// Case
// ---------------------------------------------------------------------------

/// `c` in ASCII lower case: `A`..`Z` become `a`..`z`, any other character stays.
pub open spec fn ascii_lower(c: char) -> char {
    if 65 <= c as u32 <= 90 {
        ((c as u32 + 32) as u8) as char
    } else {
        c
    }
}

/// `c` in ASCII upper case: `a`..`z` become `A`..`Z`, any other character stays.
pub open spec fn ascii_upper(c: char) -> char {
    if 97 <= c as u32 <= 122 {
        ((c as u32 - 32) as u8) as char
    } else {
        c
    }
}

/// Every character of `s` is ASCII.
pub open spec fn is_ascii_text(s: Seq<char>) -> bool {
    forall|i: int| 0 <= i < s.len() ==> ((#[trigger] s[i]) as u32) < 128
}

/// `s` with each character in ASCII lower case (what `str::to_ascii_lowercase` gives).
pub open spec fn ascii_lowercase(s: Seq<char>) -> Seq<char> {
    s.map_values(|c: char| ascii_lower(c))
}

/// `s` with each character in ASCII upper case (what `str::to_ascii_uppercase` gives).
pub open spec fn ascii_uppercase(s: Seq<char>) -> Seq<char> {
    s.map_values(|c: char| ascii_upper(c))
}

/// Lower-casing ASCII text does not depend on its case: the ASCII upper-case form of an
/// ASCII text is ASCII, and it lower-cases to the same text.
pub proof fn law_ascii_case_folds(s: Seq<char>)
    requires
        is_ascii_text(s),
    ensures
        is_ascii_text(ascii_uppercase(s)),
        ascii_lowercase(ascii_uppercase(s)) == ascii_lowercase(s),
{
    let u = ascii_uppercase(s);
    assert forall|i: int| 0 <= i < u.len() implies ((#[trigger] u[i]) as u32) < 128 by {
        assert((s[i] as u32) < 128);
    }
    assert forall|i: int| 0 <= i < s.len() implies ascii_lower(#[trigger] u[i]) == ascii_lower(
        s[i],
    ) by {
        let c = s[i];
        assert((c as u32) < 128);
        if 97 <= c as u32 <= 122 {
            let d = ((c as u32 - 32) as u8) as char;
            assert(d as u32 == c as u32 - 32);
            assert(u[i] == d);
            let e = ((d as u32 + 32) as u8) as char;
            assert(e as u32 == c as u32);
            vstd::utf8::char_u32_cast(e, e as u32);
            vstd::utf8::char_u32_cast(c, c as u32);
            assert(e == c);
        }
    }
    assert(ascii_lowercase(u) =~= ascii_lowercase(s));
}

/// What `str::to_lowercase` gives for `s` (Unicode lower-case mapping).
pub uninterp spec fn lowercase(s: Seq<char>) -> Seq<char>;

/// The lower-case form of a string slice (std `str::to_lowercase`). On ASCII text it is
/// the ASCII lower-case map of each character, as std documents for ASCII; on other text
/// nothing is stated beyond the name.
#[verifier::external_body]
pub(crate) fn to_lowercase(s: &str) -> (r: String)
    ensures
        r@ == lowercase(s@),
        is_ascii_text(s@) ==> r@ == ascii_lowercase(s@),
{
    s.to_lowercase()
}

} // verus!

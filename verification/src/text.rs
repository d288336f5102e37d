//! Character-level text building blocks: decimal numbers, padding,
//! trimming, ASCII case folding and joining.
//!
//! Every rendered string of the library is described by a spec function over
//! `Seq<char>`; the executable helpers here append to a `String` and state
//! the exact characters they add.
use vstd::prelude::*;

verus! {

// ---------------------------------------------------------------------------
// Trusted std call
// ---------------------------------------------------------------------------

/// Appends one character to a string (`String::push`). The contract claims
/// that the new contents are the old contents followed by `c`, as the std
/// documentation of `String::push` says.
#[verifier::external_body]
pub(crate) fn push_char(s: &mut String, c: char)
    ensures
        final(s)@ == old(s)@.push(c),
{
    s.push(c)
}

// ---------------------------------------------------------------------------
// Specifications
// ---------------------------------------------------------------------------

/// The character of a decimal digit.
pub open spec fn digit(d: int) -> char {
    if d == 0 {
        '0'
    } else if d == 1 {
        '1'
    } else if d == 2 {
        '2'
    } else if d == 3 {
        '3'
    } else if d == 4 {
        '4'
    } else if d == 5 {
        '5'
    } else if d == 6 {
        '6'
    } else if d == 7 {
        '7'
    } else if d == 8 {
        '8'
    } else {
        '9'
    }
}

/// The decimal representation of `n`, without leading zeros (`{}`).
pub open spec fn dec(n: nat) -> Seq<char>
    decreases n,
{
    if n < 10 {
        seq![digit(n as int)]
    } else {
        dec(n / 10).push(digit((n % 10) as int))
    }
}

/// `k` spaces.
pub open spec fn spaces(k: nat) -> Seq<char> {
    Seq::new(k, |_i: int| ' ')
}

/// `t` right-aligned in a field of `w` characters (`{:>w}`).
pub open spec fn pad_left(t: Seq<char>, w: nat) -> Seq<char> {
    if t.len() < w {
        spaces((w - t.len()) as nat) + t
    } else {
        t
    }
}

/// `t` left-aligned in a field of `w` characters (`{:<w}`).
pub open spec fn pad_right(t: Seq<char>, w: nat) -> Seq<char> {
    if t.len() < w {
        t + spaces((w - t.len()) as nat)
    } else {
        t
    }
}

/// The parts one after the other, each followed by nothing.
pub open spec fn concat(parts: Seq<Seq<char>>) -> Seq<char>
    decreases parts.len(),
{
    if parts.len() == 0 {
        Seq::empty()
    } else {
        concat(parts.drop_last()) + parts.last()
    }
}

/// The parts joined by `sep` (`Vec::join`).
pub open spec fn join(parts: Seq<Seq<char>>, sep: Seq<char>) -> Seq<char>
    decreases parts.len(),
{
    if parts.len() == 0 {
        Seq::empty()
    } else if parts.len() == 1 {
        parts[0]
    } else {
        join(parts.drop_last(), sep) + sep + parts.last()
    }
}

/// Unicode `White_Space`, the set that `char::is_whitespace` tests.
pub open spec fn is_white(c: char) -> bool {
    let u = c as u32;
    (0x09 <= u <= 0x0d) || u == 0x20 || u == 0x85 || u == 0xa0 || u == 0x1680 || (0x2000 <= u
        <= 0x200a) || u == 0x2028 || u == 0x2029 || u == 0x202f || u == 0x205f || u == 0x3000
}

/// `s` without its leading white space.
pub open spec fn trim_start(s: Seq<char>) -> Seq<char>
    decreases s.len(),
{
    if s.len() > 0 && is_white(s[0]) {
        trim_start(s.drop_first())
    } else {
        s
    }
}

/// `s` without its trailing white space.
pub open spec fn trim_end(s: Seq<char>) -> Seq<char>
    decreases s.len(),
{
    if s.len() > 0 && is_white(s.last()) {
        trim_end(s.drop_last())
    } else {
        s
    }
}

/// `s` without white space at either end (`str::trim`).
pub open spec fn trim(s: Seq<char>) -> Seq<char> {
    trim_end(trim_start(s))
}

/// ASCII upper-case letters mapped to lower case, every other character kept.
pub open spec fn ascii_lower(c: char) -> char {
    if 'A' <= c && c <= 'Z' {
        (((c as u8) + 32) as u8) as char
    } else {
        c
    }
}

/// Whether every character of `s` is ASCII.
pub open spec fn all_ascii(s: Seq<char>) -> bool {
    forall|i: int| 0 <= i < s.len() ==> (#[trigger] s[i] as u32) < 0x80
}

/// `s` with each ASCII upper-case letter mapped to lower case
/// (`str::to_ascii_lowercase`).
pub open spec fn ascii_lowered(s: Seq<char>) -> Seq<char> {
    s.map_values(|c: char| ascii_lower(c))
}

/// Equality up to ASCII case (`str::eq_ignore_ascii_case`).
pub open spec fn eq_ascii_case(a: Seq<char>, b: Seq<char>) -> bool {
    &&& a.len() == b.len()
    &&& forall|i: int| 0 <= i < a.len() ==> ascii_lower(#[trigger] a[i]) == ascii_lower(b[i])
}

/// Number of bytes that the UTF-8 encoding of `c` takes.
pub open spec fn utf8_width(c: char) -> nat {
    let u = c as u32;
    if u < 0x80 {
        1
    } else if u < 0x800 {
        2
    } else if u < 0x10000 {
        3
    } else {
        4
    }
}

/// Number of bytes of the UTF-8 encoding of `s` (`str::len`).
pub open spec fn utf8_len(s: Seq<char>) -> nat
    decreases s.len(),
{
    if s.len() == 0 {
        0
    } else {
        utf8_len(s.drop_last()) + utf8_width(s.last())
    }
}

/// Whether `field` holds `t` right-aligned in `w` columns: as wide as the
/// larger of `w` and `t`, spaces first, `t` last.
pub open spec fn is_right_aligned(field: Seq<char>, t: Seq<char>, w: nat) -> bool {
    &&& field.len() == if t.len() < w { w } else { t.len() }
    &&& t.is_suffix_of(field)
    &&& forall|i: int| 0 <= i < field.len() - t.len() ==> #[trigger] field[i] == ' '
}

/// Whether `field` holds `t` left-aligned in `w` columns: as wide as the
/// larger of `w` and `t`, `t` first, spaces last.
pub open spec fn is_left_aligned(field: Seq<char>, t: Seq<char>, w: nat) -> bool {
    &&& field.len() == if t.len() < w { w } else { t.len() }
    &&& t.is_prefix_of(field)
    &&& forall|i: int| t.len() <= i < field.len() ==> #[trigger] field[i] == ' '
}

// ---------------------------------------------------------------------------
// Lemmas
// ---------------------------------------------------------------------------

/// `pad_left` right-aligns and `pad_right` left-aligns.
pub proof fn lemma_padding_aligns(t: Seq<char>, w: nat)
    ensures
        is_right_aligned(pad_left(t, w), t, w),
        is_left_aligned(pad_right(t, w), t, w),
{
    let l = pad_left(t, w);
    let r = pad_right(t, w);
    assert(l.subrange(l.len() - t.len(), l.len() as int) =~= t);
    assert(r.subrange(0, t.len() as int) =~= t);
}

/// Stripping leading white space leaves no leading white space.
pub proof fn lemma_trim_start_clean(s: Seq<char>)
    ensures
        trim_start(s).len() > 0 ==> !is_white(trim_start(s)[0]),
        trim_start(s).len() <= s.len(),
    decreases s.len(),
{
    if s.len() > 0 && is_white(s[0]) {
        lemma_trim_start_clean(s.drop_first());
    }
}

/// Stripping trailing white space leaves no trailing white space, and keeps
/// the first character of a non-empty result.
pub proof fn lemma_trim_end_clean(s: Seq<char>)
    ensures
        trim_end(s).len() > 0 ==> !is_white(trim_end(s).last()),
        trim_end(s).len() <= s.len(),
        trim_end(s) =~= s.take(trim_end(s).len() as int),
    decreases s.len(),
{
    if s.len() > 0 && is_white(s.last()) {
        lemma_trim_end_clean(s.drop_last());
        assert(s.drop_last().take(trim_end(s).len() as int) =~= s.take(trim_end(s).len() as int));
    }
}

/// Trimming twice is trimming once.
pub proof fn lemma_trim_idempotent(s: Seq<char>)
    ensures
        trim(trim(s)) == trim(s),
{
    let a = trim_start(s);
    let b = trim_end(a);
    lemma_trim_start_clean(s);
    lemma_trim_end_clean(a);
    // b has no leading white space: it is a prefix of a, which has none.
    if b.len() > 0 {
        assert(b[0] == a[0]);
    }
    assert(trim_start(b) == b);
    assert(trim_end(b) == b) by {
        if b.len() > 0 {
            assert(!is_white(b.last()));
        }
    }
}

// ---------------------------------------------------------------------------
// Executable helpers
// ---------------------------------------------------------------------------

/// The character of the digit `d`.
pub fn digit_char(d: u128) -> (c: char)
    requires
        d < 10,
    ensures
        c == digit(d as int),
{
    if d == 0 {
        '0'
    } else if d == 1 {
        '1'
    } else if d == 2 {
        '2'
    } else if d == 3 {
        '3'
    } else if d == 4 {
        '4'
    } else if d == 5 {
        '5'
    } else if d == 6 {
        '6'
    } else if d == 7 {
        '7'
    } else if d == 8 {
        '8'
    } else {
        '9'
    }
}

/// The decimal digits of `n`.
pub fn decimal_chars(n: u128) -> (v: Vec<char>)
    ensures
        v@ == dec(n as nat),
{
    let mut digits: Vec<char> = Vec::new();
    let mut m: u128 = n;
    while m >= 10
        invariant
            dec(n as nat) == dec(m as nat) + digits@,
        decreases m,
    {
        let d = digit_char(m % 10);
        let ghost old_digits = digits@;
        digits.insert(0, d);
        assert(dec(m as nat) == dec((m / 10) as nat).push(d));
        assert(dec((m / 10) as nat) + digits@ =~= dec(m as nat) + old_digits);
        m = m / 10;
    }
    let ghost old_digits = digits@;
    digits.insert(0, digit_char(m));
    assert(digits@ =~= dec(m as nat) + old_digits);
    digits
}

/// The characters of a string slice.
pub fn chars_of(s: &str) -> (v: Vec<char>)
    ensures
        v@ == s@,
{
    broadcast use vstd::string::group_string_axioms;

    let mut v: Vec<char> = Vec::new();
    for c in it: s.chars()
        invariant
            v@ == it.seq().take(it.index() as int),
    {
        v.push(c);
    }
    v
}

/// Appends the characters of `v`.
pub fn push_chars(s: &mut String, v: &Vec<char>)
    ensures
        final(s)@ == old(s)@ + v@,
{
    let ghost start = s@;
    for i in 0..v.len()
        invariant
            s@ == start + v@.take(i as int),
    {
        push_char(s, v[i]);
        assert(v@.take(i + 1) =~= v@.take(i as int).push(v@[i as int]));
    }
    assert(v@.take(v.len() as int) =~= v@);
}

/// A string holding the characters of `v`.
pub fn string_of(v: &Vec<char>) -> (s: String)
    ensures
        s@ == v@,
{
    let mut s = String::new();
    push_chars(&mut s, v);
    assert(s@ =~= v@);
    s
}

/// Appends `k` spaces.
pub fn push_spaces(s: &mut String, k: usize)
    ensures
        final(s)@ == old(s)@ + spaces(k as nat),
{
    let ghost start = s@;
    for i in 0..k
        invariant
            s@ == start + spaces(i as nat),
    {
        push_char(s, ' ');
        assert(spaces((i + 1) as nat) =~= spaces(i as nat).push(' '));
    }
}

/// Appends `n` in decimal (`{}`).
pub fn push_decimal(s: &mut String, n: u128)
    ensures
        final(s)@ == old(s)@ + dec(n as nat),
{
    let v = decimal_chars(n);
    push_chars(s, &v);
}

/// Appends `v` right-aligned in `w` characters (`{:>w}`).
pub fn push_right_aligned(s: &mut String, v: &Vec<char>, w: usize)
    ensures
        final(s)@ == old(s)@ + pad_left(v@, w as nat),
{
    let ghost start = s@;
    if v.len() < w {
        push_spaces(s, w - v.len());
    }
    push_chars(s, v);
    assert(s@ =~= start + pad_left(v@, w as nat));
}

/// Appends `v` left-aligned in `w` characters (`{:<w}`).
pub fn push_left_aligned(s: &mut String, v: &Vec<char>, w: usize)
    ensures
        final(s)@ == old(s)@ + pad_right(v@, w as nat),
{
    let ghost start = s@;
    push_chars(s, v);
    if v.len() < w {
        push_spaces(s, w - v.len());
    }
    assert(s@ =~= start + pad_right(v@, w as nat));
}

/// Whether `c` is white space (`char::is_whitespace`).
pub fn is_white_char(c: char) -> (b: bool)
    ensures
        b == is_white(c),
{
    let u = c as u32;
    (0x09 <= u && u <= 0x0d) || u == 0x20 || u == 0x85 || u == 0xa0 || u == 0x1680 || (0x2000
        <= u && u <= 0x200a) || u == 0x2028 || u == 0x2029 || u == 0x202f || u == 0x205f || u
        == 0x3000
}

/// `v` without white space at either end (`str::trim`).
pub fn trim_chars(v: &Vec<char>) -> (r: Vec<char>)
    ensures
        r@ == trim(v@),
{
    let n = v.len();
    let mut i: usize = 0;
    assert(v@.skip(0) =~= v@);
    while i < n && is_white_char(v[i])
        invariant
            i <= n,
            n == v@.len(),
            trim_start(v@) == trim_start(v@.skip(i as int)),
        decreases n - i,
    {
        assert(v@.skip(i as int).drop_first() =~= v@.skip(i + 1));
        i = i + 1;
    }
    let ghost t = v@.skip(i as int);
    assert(trim_start(t) == t);
    let mut j: usize = n;
    assert(t.take(n - i) =~= t);
    while j > i && is_white_char(v[j - 1])
        invariant
            i <= j <= n,
            n == v@.len(),
            t == v@.skip(i as int),
            trim_end(t) == trim_end(t.take(j - i)),
        decreases j,
    {
        assert(t.take(j - i).drop_last() =~= t.take(j - 1 - i));
        j = j - 1;
    }
    assert(trim_end(t.take(j - i)) == t.take(j - i));
    let mut r: Vec<char> = Vec::new();
    let mut k: usize = i;
    while k < j
        invariant
            i <= k <= j <= n,
            n == v@.len(),
            r@ =~= v@.subrange(i as int, k as int),
        decreases j - k,
    {
        r.push(v[k]);
        k = k + 1;
    }
    assert(r@ =~= t.take(j - i));
    r
}

/// ASCII upper-case letters mapped to lower case (`char::to_ascii_lowercase`).
pub fn ascii_lower_char(c: char) -> (r: char)
    ensures
        r == ascii_lower(c),
{
    if 'A' <= c && c <= 'Z' {
        let b = (c as u8) + 32;
        b as char
    } else {
        c
    }
}

/// Whether `a` and `b` are equal up to ASCII case (`str::eq_ignore_ascii_case`).
pub fn eq_ascii_case_chars(a: &Vec<char>, b: &Vec<char>) -> (r: bool)
    ensures
        r == eq_ascii_case(a@, b@),
{
    if a.len() != b.len() {
        return false;
    }
    for i in 0..a.len()
        invariant
            a@.len() == b@.len(),
            forall|k: int| 0 <= k < i ==> ascii_lower(#[trigger] a@[k]) == ascii_lower(b@[k]),
    {
        if ascii_lower_char(a[i]) != ascii_lower_char(b[i]) {
            return false;
        }
    }
    true
}

/// Whether `a` equals the string `b`.
pub fn eq_chars_str(a: &Vec<char>, b: &str) -> (r: bool)
    ensures
        r == (a@ == b@),
{
    let bv = chars_of(b);
    if a.len() != bv.len() {
        return false;
    }
    for i in 0..a.len()
        invariant
            a@.len() == bv@.len(),
            bv@ == b@,
            forall|k: int| 0 <= k < i ==> a@[k] == bv@[k],
    {
        if a[i] != bv[i] {
            assert(a@[i as int] != bv@[i as int]);
            return false;
        }
    }
    assert(a@ =~= bv@);
    true
}

/// Whether `a` begins with the string `p`.
pub fn starts_with_str(a: &Vec<char>, p: &str) -> (r: bool)
    ensures
        r == p@.is_prefix_of(a@),
{
    let pv = chars_of(p);
    if pv.len() > a.len() {
        return false;
    }
    for i in 0..pv.len()
        invariant
            pv@.len() <= a@.len(),
            pv@ == p@,
            forall|k: int| 0 <= k < i ==> pv@[k] == a@[k],
    {
        if a[i] != pv[i] {
            assert(a@.take(pv@.len() as int)[i as int] != pv@[i as int]);
            return false;
        }
    }
    true
}

/// `v` from index `from` on.
pub fn skip_chars(v: &Vec<char>, from: usize) -> (r: Vec<char>)
    requires
        from <= v@.len(),
    ensures
        r@ == v@.skip(from as int),
{
    let mut r: Vec<char> = Vec::new();
    let mut k: usize = from;
    while k < v.len()
        invariant
            from <= k <= v@.len(),
            r@ =~= v@.subrange(from as int, k as int),
        decreases v.len() - k,
    {
        r.push(v[k]);
        k = k + 1;
    }
    r
}

/// `v` without any occurrence of `c` (`str::replace(c, "")`).
pub fn remove_char(v: &Vec<char>, c: char) -> (r: Vec<char>)
    ensures
        r@ == v@.filter(|x: char| x != c),
{
    let mut r: Vec<char> = Vec::new();
    for i in 0..v.len()
        invariant
            r@ == v@.take(i as int).filter(|x: char| x != c),
    {
        proof {
            v@.take(i as int).lemma_filter_push(v@[i as int], |x: char| x != c);
            assert(v@.take(i + 1) =~= v@.take(i as int).push(v@[i as int]));
        }
        if v[i] != c {
            r.push(v[i]);
        }
    }
    assert(v@.take(v.len() as int) =~= v@);
    r
}

/// How many bytes are left in a field of `room` bytes once the UTF-8
/// encoding of `v` is written in it (`room.saturating_sub(text.len())`):
/// `room` less the encoded length, or 0 where the encoding does not fit.
pub fn byte_room(v: &Vec<char>, room: usize) -> (r: usize)
    ensures
        r as nat == (if utf8_len(v@) < room { (room - utf8_len(v@)) as nat } else { 0 }),
{
    let mut used: usize = 0;
    let mut i: usize = 0;
    while i < v.len()
        invariant
            i <= v@.len(),
            used as nat == utf8_len(v@.take(i as int)),
            used <= room,
        decreases v.len() - i,
    {
        assert(v@.take(i + 1).drop_last() =~= v@.take(i as int));
        let u = v[i] as u32;
        let w: usize = if u < 0x80 {
            1
        } else if u < 0x800 {
            2
        } else if u < 0x10000 {
            3
        } else {
            4
        };
        if w >= room - used {
            proof { lemma_utf8_len_prefix_monotone(v@, (i + 1) as int); }
            return 0;
        }
        used = used + w;
        i = i + 1;
    }
    assert(v@.take(v.len() as int) =~= v@);
    room - used
}

/// The encoded length of a sequence is at least that of any prefix.
proof fn lemma_utf8_len_prefix_monotone(s: Seq<char>, k: int)
    requires
        0 <= k <= s.len(),
    ensures
        utf8_len(s.take(k)) <= utf8_len(s),
    decreases s.len() - k,
{
    if k < s.len() {
        lemma_utf8_len_prefix_monotone(s, k + 1);
        assert(s.take(k + 1).drop_last() =~= s.take(k));
    } else {
        assert(s.take(k) =~= s);
    }
}

} // verus!

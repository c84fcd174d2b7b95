//! Character-level building blocks: decimal rendering, char vectors and
//! string assembly, with their specifications over `Seq<char>`.

use vstd::prelude::*;
use vstd::string::StringSliceAdditionalSpecFns;

verus! {

/// Appends one `char` to a `String` (std's `String::push`).
#[verifier::external_body]
pub(crate) fn push_char(s: &mut String, c: char)
    ensures
        final(s)@ == old(s)@.push(c),
{
    s.push(c);
}

/// Appends `t` to `s` (std's `String::push_str`).
#[verifier::external_body]
pub(crate) fn push_str(s: &mut String, t: &str)
    ensures
        final(s)@ == old(s)@ + t@,
{
    s.push_str(t);
}

/// The characters of `s`, in order.
pub fn to_chars(s: &str) -> (v: Vec<char>)
    ensures
        v@ == s@,
{
    let mut v: Vec<char> = Vec::new();
    for c in it: s.chars()
        invariant
            v@ == it.seq().take(it.index() as int),
            it.seq() == s@,
    {
        v.push(c);
    }
    v
}

/// Appends every char of `cs` to `out`.
pub fn push_chars(out: &mut String, cs: &[char])
    ensures
        final(out)@ == old(out)@ + cs@,
{
    let mut i: usize = 0;
    while i < cs.len()
        invariant
            i <= cs@.len(),
            out@ == old(out)@ + cs@.take(i as int),
        decreases cs@.len() - i,
    {
        push_char(out, cs[i]);
        i = i + 1;
        proof {
            assert(cs@.take(i as int) == cs@.take((i - 1) as int).push(cs@[i - 1]));
        }
    }
    proof {
        assert(cs@.take(cs@.len() as int) == cs@);
    }
}

/// A `String` holding exactly the chars of `cs`.
pub fn from_chars(cs: &[char]) -> (s: String)
    ensures
        s@ == cs@,
{
    let mut s = String::new();
    push_chars(&mut s, cs);
    s
}

/// The ASCII digit for `d < 10`.
pub open spec fn digit_char(d: nat) -> char {
    ((48 + d) as u8) as char
}

/// Decimal rendering of `n`, most significant digit first, no leading zeros.
pub open spec fn dec(n: nat) -> Seq<char>
    decreases n,
{
    if n < 10 {
        seq![digit_char(n)]
    } else {
        dec(n / 10).push(digit_char(n % 10))
    }
}

/// Two-digit, zero-padded rendering of `n < 100`.
pub open spec fn two_digits(n: nat) -> Seq<char> {
    seq![digit_char(n / 10), digit_char(n % 10)]
}

/// The ASCII digit char for `d < 10`.
pub fn digit(d: u64) -> (c: char)
    requires
        d < 10,
    ensures
        c == digit_char(d as nat),
{
    let b: u8 = 48u8 + (d as u8);
    b as char
}

/// Decimal digits of `n` as chars.
pub fn dec_chars(n: u128) -> (v: Vec<char>)
    ensures
        v@ == dec(n as nat),
    decreases n,
{
    if n < 10 {
        let mut v: Vec<char> = Vec::new();
        v.push(digit(n as u64));
        v
    } else {
        let mut v = dec_chars(n / 10);
        v.push(digit((n % 10) as u64));
        v
    }
}

/// Decimal rendering of `n` (std's `u64::to_string`).
pub fn u64_to_string(n: u64) -> (s: String)
    ensures
        s@ == dec(n as nat),
{
    let v = dec_chars(n as u128);
    from_chars(v.as_slice())
}

/// Appends the decimal rendering of `n` to `out`.
pub fn push_dec(out: &mut String, n: u128)
    ensures
        final(out)@ == old(out)@ + dec(n as nat),
{
    let v = dec_chars(n);
    push_chars(out, v.as_slice());
}

/// The first `i` digits of `d` rendered with thousands separators: a `,`
/// precedes digit `j > 0` exactly when a positive multiple of three digits
/// of the whole of `d` follow it.
pub open spec fn grouped_upto(d: Seq<char>, i: int) -> Seq<char>
    decreases i,
{
    if i <= 0 {
        seq![]
    } else {
        let j = i - 1;
        let sep = if j > 0 && (d.len() - j) % 3 == 0 { seq![','] } else { seq![] };
        grouped_upto(d, j) + sep + seq![d[j]]
    }
}

/// `d` with thousands separators ("1234567" -> "1,234,567").
pub open spec fn grouped(d: Seq<char>) -> Seq<char> {
    grouped_upto(d, d.len() as int)
}

/// Appends `grouped(d)` to `out`.
pub fn push_grouped(out: &mut String, d: &[char])
    ensures
        final(out)@ == old(out)@ + grouped(d@),
{
    let n = d.len();
    let mut i: usize = 0;
    while i < n
        invariant
            n == d@.len(),
            i <= n,
            out@ == old(out)@ + grouped_upto(d@, i as int),
        decreases n - i,
    {
        if i > 0 && (n - i) % 3 == 0 {
            push_char(out, ',');
        }
        push_char(out, d[i]);
        i = i + 1;
    }
}

/// Lexicographic order on char sequences by code point (the order std's
/// `Ord for str` gives, since UTF-8 preserves code-point order).
pub open spec fn chars_le(a: Seq<char>, b: Seq<char>) -> bool
    decreases a.len(),
{
    if a.len() == 0 {
        true
    } else if b.len() == 0 {
        false
    } else if a[0] != b[0] {
        (a[0] as int) < (b[0] as int)
    } else {
        chars_le(a.drop_first(), b.drop_first())
    }
}

/// `chars_le` is reflexive.
pub proof fn lemma_chars_le_reflexive(a: Seq<char>)
    ensures
        chars_le(a, a),
    decreases a.len(),
{
    if a.len() > 0 {
        lemma_chars_le_reflexive(a.drop_first());
    }
}

/// `chars_le` is antisymmetric.
pub proof fn lemma_chars_le_antisymmetric(a: Seq<char>, b: Seq<char>)
    requires
        chars_le(a, b),
        chars_le(b, a),
    ensures
        a == b,
    decreases a.len(),
{
    if a.len() > 0 && b.len() > 0 {
        if a[0] == b[0] {
            lemma_chars_le_antisymmetric(a.drop_first(), b.drop_first());
            assert(a =~= seq![a[0]] + a.drop_first());
            assert(b =~= seq![b[0]] + b.drop_first());
        } else {
            assert((a[0] as int) != (b[0] as int));
        }
    } else {
        assert(a =~= b);
    }
}

/// `chars_le` is transitive.
pub proof fn lemma_chars_le_transitive(a: Seq<char>, b: Seq<char>, c: Seq<char>)
    requires
        chars_le(a, b),
        chars_le(b, c),
    ensures
        chars_le(a, c),
    decreases a.len(),
{
    if a.len() > 0 && b.len() > 0 && c.len() > 0 {
        if a[0] == b[0] && b[0] == c[0] {
            lemma_chars_le_transitive(a.drop_first(), b.drop_first(), c.drop_first());
        }
    }
}

/// `chars_le` is total.
pub proof fn lemma_chars_le_total(a: Seq<char>, b: Seq<char>)
    ensures
        chars_le(a, b) || chars_le(b, a),
    decreases a.len(),
{
    if a.len() > 0 && b.len() > 0 && a[0] == b[0] {
        lemma_chars_le_total(a.drop_first(), b.drop_first());
    } else if a.len() > 0 && b.len() > 0 {
        assert((a[0] as int) != (b[0] as int));
    }
}

/// Whether `a` sorts before or equal to `b`.
pub fn chars_le_exec(a: &[char], b: &[char]) -> (r: bool)
    ensures
        r == chars_le(a@, b@),
{
    let mut i: usize = 0;
    proof {
        assert(a@.skip(0) =~= a@);
        assert(b@.skip(0) =~= b@);
    }
    while i < a.len() && i < b.len()
        invariant
            i <= a@.len(),
            i <= b@.len(),
            forall|k: int| 0 <= k < i ==> a@[k] == b@[k],
            chars_le(a@, b@) == chars_le(a@.skip(i as int), b@.skip(i as int)),
        decreases a@.len() - i,
    {
        if a[i] != b[i] {
            return a[i] < b[i];
        }
        proof {
            assert(a@.skip(i as int).drop_first() =~= a@.skip(i + 1));
            assert(b@.skip(i as int).drop_first() =~= b@.skip(i + 1));
        }
        i = i + 1;
    }
    i == a.len()
}

/// `s` cut to at most `max` chars: unchanged when it fits, otherwise its
/// first `max - 1` chars followed by `…` (and nothing at all when `max` is
/// 0, where not even the ellipsis fits).
pub open spec fn truncate_text(s: Seq<char>, max: nat) -> Seq<char> {
    if s.len() <= max {
        s
    } else if max == 0 {
        seq![]
    } else {
        s.take(max - 1) + seq!['…']
    }
}

/// Truncate `s` to at most `max` characters, appending `…` when shortened.
/// Operates on `char` boundaries so it never splits a multi-byte UTF-8 scalar.
pub fn truncate(s: &str, max: usize) -> (r: String)
    ensures
        r@ == truncate_text(s@, max as nat),
{
    let cs = to_chars(s);
    if cs.len() <= max {
        from_chars(cs.as_slice())
    } else if max == 0 {
        String::new()
    } else {
        let keep: usize = max - 1;
        let mut r = String::new();
        push_chars(&mut r, slice_take(cs.as_slice(), keep));
        push_char(&mut r, '…');
        r
    }
}

/// The first `n` elements of `s`.
pub fn slice_take(s: &[char], n: usize) -> (r: &[char])
    requires
        n <= s@.len(),
    ensures
        r@ == s@.take(n as int),
{
    let (a, _b) = s.split_at(n);
    a
}

/// `s` without its first `n` elements.
pub fn slice_skip(s: &[char], n: usize) -> (r: &[char])
    requires
        n <= s@.len(),
    ensures
        r@ == s@.skip(n as int),
{
    let (_a, b) = s.split_at(n);
    b
}

/// Shortening never produces more than `max` chars, a string that fits is
/// returned unchanged, and a shortened one ends in `…` whenever there is
/// room for it.
pub proof fn lemma_truncate_bound(s: Seq<char>, max: nat)
    ensures
        truncate_text(s, max).len() <= max,
        s.len() <= max ==> truncate_text(s, max) == s,
        s.len() > max && max >= 1 ==> truncate_text(s, max).last() == '…',
        s.len() > max && max == 0 ==> truncate_text(s, max) == Seq::<char>::empty(),
{
}

/// HTML escaping of one char.
pub open spec fn esc_char(c: char) -> Seq<char> {
    if c == '&' {
        seq!['&', 'a', 'm', 'p', ';']
    } else if c == '<' {
        seq!['&', 'l', 't', ';']
    } else if c == '>' {
        seq!['&', 'g', 't', ';']
    } else if c == '"' {
        seq!['&', 'q', 'u', 'o', 't', ';']
    } else {
        seq![c]
    }
}

/// HTML escaping: `&`, `<`, `>`, `"` become entities, every other char is
/// kept.
pub open spec fn esc_text(s: Seq<char>) -> Seq<char>
    decreases s.len(),
{
    if s.len() == 0 {
        seq![]
    } else {
        esc_char(s[0]) + esc_text(s.drop_first())
    }
}

/// Appends the escaping of `cs` to `out`.
pub fn push_escaped(out: &mut String, cs: &[char])
    ensures
        final(out)@ == old(out)@ + esc_text(cs@),
{
    let mut i: usize = 0;
    proof {
        assert(cs@.skip(0) =~= cs@);
    }
    while i < cs.len()
        invariant
            i <= cs@.len(),
            old(out)@ + esc_text(cs@) == out@ + esc_text(cs@.skip(i as int)),
        decreases cs@.len() - i,
    {
        let c = cs[i];
        if c == '&' {
            push_char(out, '&');
            push_char(out, 'a');
            push_char(out, 'm');
            push_char(out, 'p');
            push_char(out, ';');
        } else if c == '<' {
            push_char(out, '&');
            push_char(out, 'l');
            push_char(out, 't');
            push_char(out, ';');
        } else if c == '>' {
            push_char(out, '&');
            push_char(out, 'g');
            push_char(out, 't');
            push_char(out, ';');
        } else if c == '"' {
            push_char(out, '&');
            push_char(out, 'q');
            push_char(out, 'u');
            push_char(out, 'o');
            push_char(out, 't');
            push_char(out, ';');
        } else {
            push_char(out, c);
        }
        proof {
            assert(cs@.skip(i as int).drop_first() =~= cs@.skip(i + 1));
            assert(cs@.skip(i as int)[0] == c);
        }
        i = i + 1;
    }
    proof {
        assert(cs@.skip(i as int) =~= seq![]);
    }
}

/// Minimal HTML escaping for user-supplied text (usernames).
pub fn esc(s: &str) -> (r: String)
    ensures
        r@ == esc_text(s@),
{
    let cs = to_chars(s);
    let mut r = String::new();
    push_escaped(&mut r, cs.as_slice());
    r
}

/// Escaped text never holds a raw `<`, `>` or `"`, so it cannot open a tag
/// or close an attribute.
pub proof fn lemma_esc_has_no_markup(s: Seq<char>)
    ensures
        forall|i: int|
            0 <= i < esc_text(s).len() ==> esc_text(s)[i] != '<' && esc_text(s)[i] != '>'
                && esc_text(s)[i] != '"',
    decreases s.len(),
{
    if s.len() > 0 {
        lemma_esc_has_no_markup(s.drop_first());
        let head = esc_char(s[0]);
        let tail = esc_text(s.drop_first());
        assert(esc_text(s) == head + tail);
        assert forall|i: int| 0 <= i < esc_text(s).len() implies esc_text(s)[i] != '<'
            && esc_text(s)[i] != '>' && esc_text(s)[i] != '"' by {
            if i < head.len() {
            } else {
                assert(esc_text(s)[i] == tail[i - head.len()]);
            }
        }
    }
}

/// The uppercase hex digit for `d < 16`.
pub open spec fn hex_char(d: nat) -> char {
    if d < 10 { digit_char(d) } else { ((55 + d) as u8) as char }
}

/// Bytes that stay literal in a URL path segment.
pub open spec fn path_safe(b: u8) -> bool {
    (65 <= b <= 90) || (97 <= b <= 122) || (48 <= b <= 57) || b == 46 || b == 95 || b == 126
        || b == 45
}

/// One byte of a URL path segment: safe bytes literal, others `%XX`.
pub open spec fn enc_byte(b: u8) -> Seq<char> {
    if path_safe(b) {
        seq![b as char]
    } else {
        seq!['%', hex_char((b / 16) as nat), hex_char((b % 16) as nat)]
    }
}

/// Percent-encoding of a byte string for a URL path segment.
pub open spec fn url_encode(bs: Seq<u8>) -> Seq<char>
    decreases bs.len(),
{
    if bs.len() == 0 {
        seq![]
    } else {
        enc_byte(bs[0]) + url_encode(bs.drop_first())
    }
}

fn hex_digit(d: u8) -> (c: char)
    requires
        d < 16,
    ensures
        c == hex_char(d as nat),
{
    if d < 10 {
        digit(d as u64)
    } else {
        (55u8 + d) as char
    }
}

/// Percent-encode anything outside the URL path-safe set so `/u/{name}`
/// survives unusual usernames intact.
pub fn url_path_encode(s: &str) -> (r: String)
    ensures
        r@ == url_encode(s.spec_bytes()),
{
    let bs = s.as_bytes();
    let mut out = String::new();
    let mut i: usize = 0;
    proof {
        assert(bs@.skip(0) =~= bs@);
    }
    while i < bs.len()
        invariant
            bs@ == s.spec_bytes(),
            i <= bs@.len(),
            url_encode(bs@) == out@ + url_encode(bs@.skip(i as int)),
        decreases bs@.len() - i,
    {
        let b = bs[i];
        if (65 <= b && b <= 90) || (97 <= b && b <= 122) || (48 <= b && b <= 57) || b == 46
            || b == 95 || b == 126 || b == 45 {
            push_char(&mut out, b as char);
        } else {
            push_char(&mut out, '%');
            push_char(&mut out, hex_digit(b / 16));
            push_char(&mut out, hex_digit(b % 16));
        }
        proof {
            assert(bs@.skip(i as int).drop_first() =~= bs@.skip(i + 1));
            assert(bs@.skip(i as int)[0] == b);
        }
        i = i + 1;
    }
    proof {
        assert(bs@.skip(i as int) =~= seq![]);
    }
    out
}

/// The value of an uppercase hex digit char.
pub open spec fn hex_val(c: char) -> nat {
    if '0' <= c && c <= '9' {
        (c as nat - 48) as nat
    } else if 'A' <= c && c <= 'F' {
        (c as nat - 55) as nat
    } else {
        0
    }
}

/// Percent-decoding: `%XX` is the byte `0xXX`, any other char its own code.
pub open spec fn url_decode(s: Seq<char>) -> Seq<u8>
    decreases s.len(),
{
    if s.len() == 0 {
        seq![]
    } else if s[0] == '%' && s.len() >= 3 {
        seq![(hex_val(s[1]) * 16 + hex_val(s[2])) as u8] + url_decode(s.skip(3))
    } else {
        seq![s[0] as u8] + url_decode(s.drop_first())
    }
}

proof fn lemma_hex_roundtrip(d: nat)
    requires
        d < 16,
    ensures
        hex_val(hex_char(d)) == d,
{
}

/// Percent-encoding loses nothing: decoding the encoding of any byte string
/// gives the bytes back.
pub proof fn lemma_url_roundtrip(bs: Seq<u8>)
    ensures
        url_decode(url_encode(bs)) == bs,
    decreases bs.len(),
{
    if bs.len() > 0 {
        let b = bs[0];
        let rest = url_encode(bs.drop_first());
        lemma_url_roundtrip(bs.drop_first());
        let e = url_encode(bs);
        assert(e == enc_byte(b) + rest);
        if path_safe(b) {
            assert(e.drop_first() =~= rest);
            assert(e[0] == b as char);
            assert((b as char) as u8 == b);
            assert(e[0] != '%');
        } else {
            lemma_hex_roundtrip((b / 16) as nat);
            lemma_hex_roundtrip((b % 16) as nat);
            assert(e.skip(3) =~= rest);
        }
        assert(bs =~= seq![b] + bs.drop_first());
    }
}

/// Removes the last char of `s` and returns it (std's `String::pop`).
#[verifier::external_body]
pub(crate) fn pop_char(s: &mut String) -> (r: Option<char>)
    ensures
        old(s)@.len() == 0 ==> r is None && final(s)@ == old(s)@,
        old(s)@.len() > 0 ==> r == Some(old(s)@.last()) && final(s)@ == old(s)@.drop_last(),
{
    s.pop()
}

/// The Unicode lowercase mapping of a text, as std's `str::to_lowercase`
/// computes it (locale-independent: a function of the text alone).
pub uninterp spec fn lowercase(s: Seq<char>) -> Seq<char>;

/// Lowercases `s` (std's `str::to_lowercase`).
#[verifier::external_body]
pub(crate) fn to_lower(s: &str) -> (r: String)
    ensures
        r@ == lowercase(s@),
{
    s.to_lowercase()
}

/// Whether `needle` occurs in `hay` as a contiguous run (an empty needle
/// occurs everywhere).
pub open spec fn has_infix(hay: Seq<char>, needle: Seq<char>) -> bool {
    exists|i: int| 0 <= i && i + needle.len() <= hay.len() && #[trigger] infix_at(hay, needle, i)
}

/// Whether `needle` occurs in `hay` starting at index `i`.
pub open spec fn infix_at(hay: Seq<char>, needle: Seq<char>, i: int) -> bool {
    hay.subrange(i, i + needle.len()) == needle
}

/// Whether `needle` occurs in `hay` (std's `str::contains` on a `&str`).
pub fn contains_chars(hay: &[char], needle: &[char]) -> (r: bool)
    ensures
        r == has_infix(hay@, needle@),
{
    let n = needle.len();
    if n == 0 {
        proof {
            assert(hay@.subrange(0, 0) =~= needle@);
            assert(infix_at(hay@, needle@, 0));
        }
        return true;
    }
    if n > hay.len() {
        return false;
    }
    let last = hay.len() - n;
    let mut i: usize = 0;
    while i <= last
        invariant
            n == needle@.len(),
            n > 0,
            last + n == hay@.len(),
            hay@.len() <= usize::MAX,
            i <= last + 1,
            forall|k: int| 0 <= k < i ==> !#[trigger] infix_at(hay@, needle@, k),
        decreases last + 1 - i,
    {
        let mut j: usize = 0;
        loop
            invariant
                n == needle@.len(),
                last + n == hay@.len(),
                hay@.len() <= usize::MAX,
                i <= last,
                j <= n,
                forall|t: int| 0 <= t < j ==> hay@[i + t] == needle@[t],
            ensures
                j == n || hay@[i + j] != needle@[j as int],
            decreases n - j,
        {
            if j >= n {
                break;
            }
            if hay[i + j] != needle[j] {
                break;
            }
            j = j + 1;
        }
        if j == n {
            proof {
                assert(hay@.subrange(i as int, i + n) =~= needle@);
                assert(infix_at(hay@, needle@, i as int));
            }
            return true;
        }
        proof {
            assert(hay@.subrange(i as int, i + n)[j as int] != needle@[j as int]);
        }
        i = i + 1;
    }
    proof {
        assert forall|k: int| 0 <= k && k + n <= hay@.len() implies !#[trigger] infix_at(
            hay@,
            needle@,
            k,
        ) by {
            assert(k < i);
        }
    }
    false
}

/// Unicode `White_Space` (what std's `char::is_whitespace` accepts).
pub open spec fn is_ws(c: char) -> bool {
    let x = c as int;
    (9 <= x <= 13) || x == 32 || x == 0x85 || x == 0xA0 || x == 0x1680 || (0x2000 <= x <= 0x200A)
        || x == 0x2028 || x == 0x2029 || x == 0x202F || x == 0x205F || x == 0x3000
}

fn is_ws_exec(c: char) -> (r: bool)
    ensures
        r == is_ws(c),
{
    ('\u{9}' <= c && c <= '\u{d}') || c == ' ' || c == '\u{85}' || c == '\u{a0}' || c == '\u{1680}'
        || ('\u{2000}' <= c && c <= '\u{200a}') || c == '\u{2028}' || c == '\u{2029}' || c
        == '\u{202f}' || c == '\u{205f}' || c == '\u{3000}'
}

/// `s` without leading whitespace.
pub open spec fn trim_start_text(s: Seq<char>) -> Seq<char>
    decreases s.len(),
{
    if s.len() > 0 && is_ws(s[0]) {
        trim_start_text(s.drop_first())
    } else {
        s
    }
}

/// `s` without trailing whitespace.
pub open spec fn trim_end_text(s: Seq<char>) -> Seq<char>
    decreases s.len(),
{
    if s.len() > 0 && is_ws(s.last()) {
        trim_end_text(s.drop_last())
    } else {
        s
    }
}

/// `s` without leading and trailing whitespace (std's `str::trim`).
pub open spec fn trim_text(s: Seq<char>) -> Seq<char> {
    trim_end_text(trim_start_text(s))
}

/// `s` without leading and trailing whitespace.
pub fn trim_chars(s: &[char]) -> (r: Vec<char>)
    ensures
        r@ == trim_text(s@),
{
    let mut a: usize = 0;
    proof {
        assert(s@.skip(0) =~= s@);
    }
    while a < s.len() && is_ws_exec(s[a])
        invariant
            a <= s@.len(),
            trim_start_text(s@) == trim_start_text(s@.skip(a as int)),
        decreases s@.len() - a,
    {
        proof {
            assert(s@.skip(a as int).drop_first() =~= s@.skip(a + 1));
        }
        a = a + 1;
    }
    let ghost mid = s@.skip(a as int);
    proof {
        assert(trim_start_text(mid) == mid);
    }
    let mut b: usize = s.len();
    while b > a && is_ws_exec(s[b - 1])
        invariant
            a <= b <= s@.len(),
            mid == s@.skip(a as int),
            trim_end_text(mid) == trim_end_text(s@.subrange(a as int, b as int)),
        decreases b - a,
    {
        proof {
            assert(s@.subrange(a as int, b as int).drop_last() =~= s@.subrange(a as int, b - 1));
        }
        b = b - 1;
    }
    proof {
        assert(mid =~= s@.subrange(a as int, s@.len() as int));
        let t = s@.subrange(a as int, b as int);
        assert(trim_end_text(t) == t);
    }
    let mut r: Vec<char> = Vec::new();
    let mut k: usize = a;
    while k < b
        invariant
            a <= k <= b <= s@.len(),
            r@ == s@.subrange(a as int, k as int),
        decreases b - k,
    {
        r.push(s[k]);
        k = k + 1;
        proof {
            assert(r@ =~= s@.subrange(a as int, k as int));
        }
    }
    r
}

/// Whether `c` is an ASCII decimal digit.
pub open spec fn is_digit(c: char) -> bool {
    48 <= (c as int) <= 57
}

/// The value of a string of decimal digits.
pub open spec fn digits_value(s: Seq<char>) -> nat
    decreases s.len(),
{
    if s.len() == 0 {
        0
    } else {
        digits_value(s.drop_last()) * 10 + ((s.last() as int) - 48) as nat
    }
}

/// What std's `str::parse::<usize>` gives: an optional `+`, then one or
/// more ASCII digits whose value fits in `usize`.
pub open spec fn parsed_usize(s: Seq<char>) -> Option<usize> {
    let body = unsigned_body(s);
    if body.len() > 0 && all_digits(body) && digits_value(body) <= usize::MAX {
        Some(digits_value(body) as usize)
    } else {
        None
    }
}

/// `s` without one leading `+`.
pub open spec fn unsigned_body(s: Seq<char>) -> Seq<char> {
    if s.len() > 0 && s[0] == '+' {
        s.drop_first()
    } else {
        s
    }
}

/// Whether every char of `s` is an ASCII digit.
pub open spec fn all_digits(s: Seq<char>) -> bool {
    forall|i: int| 0 <= i < s.len() ==> is_digit(#[trigger] s[i])
}

proof fn lemma_digits_value_grows(s: Seq<char>, k: int)
    requires
        0 <= k <= s.len(),
        forall|i: int| 0 <= i < s.len() ==> is_digit(#[trigger] s[i]),
    ensures
        digits_value(s.take(k)) <= digits_value(s),
    decreases s.len() - k,
{
    if k < s.len() {
        lemma_digits_value_grows(s, k + 1);
        assert(s.take(k + 1).drop_last() =~= s.take(k));
    } else {
        assert(s.take(k) =~= s);
    }
}

/// Parses a decimal `usize` as std's `str::parse::<usize>` does.
pub fn parse_usize(s: &[char]) -> (r: Option<usize>)
    ensures
        r == parsed_usize(s@),
{
    let ghost body = unsigned_body(s@);
    let start: usize = if s.len() > 0 && s[0] == '+' { 1 } else { 0 };
    proof {
        assert(body =~= s@.skip(start as int));
    }
    if start >= s.len() {
        return None;
    }
    let mut v: usize = 0;
    let mut i: usize = start;
    while i < s.len()
        invariant
            start <= i <= s@.len(),
            body == s@.skip(start as int),
            body == unsigned_body(s@),
            forall|t: int| 0 <= t < i - start ==> is_digit(#[trigger] body[t]),
            v as nat == digits_value(body.take(i - start)),
        decreases s@.len() - i,
    {
        let c = s[i];
        proof {
            assert(body[i - start] == c);
        }
        if !('0' <= c && c <= '9') {
            proof {
                assert(!is_digit(body[i - start]));
                assert(!all_digits(body));
            }
            return None;
        }
        let d: usize = ((c as u32) - 48) as usize;
        proof {
            assert(body.take(i + 1 - start).drop_last() =~= body.take(i - start));
            assert(body[i - start] == c);
        }
        if v > (usize::MAX - d) / 10 {
            proof {
                assert(v * 10 + d > usize::MAX) by (nonlinear_arith)
                    requires
                        v > (usize::MAX - d) / 10,
                        d <= 9,
                ;
                assert(digits_value(body.take(i + 1 - start)) > usize::MAX);
                if all_digits(body) {
                    lemma_digits_value_grows(body, i + 1 - start);
                }
            }
            return None;
        }
        v = v * 10 + d;
        i = i + 1;
    }
    proof {
        assert(body.take(i - start) =~= body);
    }
    Some(v)
}

/// Whether `cs` spells exactly `lit`.
pub fn text_is(cs: &[char], lit: &str) -> (r: bool)
    ensures
        r == (cs@ == lit@),
{
    let l = to_chars(lit);
    if cs.len() != l.len() {
        return false;
    }
    let mut i: usize = 0;
    while i < cs.len()
        invariant
            i <= cs@.len(),
            cs@.len() == l@.len(),
            l@ == lit@,
            forall|j: int| 0 <= j < i ==> cs@[j] == l@[j],
        decreases cs@.len() - i,
    {
        if cs[i] != l[i] {
            return false;
        }
        i = i + 1;
    }
    proof {
        assert(cs@ =~= lit@);
    }
    true
}

} // verus!

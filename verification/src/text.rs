//! Text as sequences of characters: trimming, ASCII case, searching, joining and
//! the printing of numbers.
use vstd::prelude::*;

verus! {

/// Appends one character.
///
/// `String::push`, as std documents it: the character is appended to the end of the string.
pub assume_specification[ String::push ](s: &mut String, ch: char)
    ensures
        final(s)@ == old(s)@.push(ch),
;

/// Appends a string slice.
///
/// `String::push_str`, as std documents it: the slice is appended to the end of the string.
pub assume_specification[ String::push_str ](s: &mut String, string: &str)
    ensures
        final(s)@ == old(s)@ + string@,
;

/// The characters of an optional text.
pub open spec fn opt_chars(s: Option<&str>) -> Option<Seq<char>> {
    match s {
        Some(t) => Some(t@),
        None => None,
    }
}

/// The characters of an optional string.
pub open spec fn opt_string(s: Option<String>) -> Option<Seq<char>> {
    match s {
        Some(t) => Some(t@),
        None => None,
    }
}

/// The characters of each string of a list.
pub open spec fn texts(v: Seq<String>) -> Seq<Seq<char>> {
    Seq::new(v.len(), |i: int| v[i]@)
}

/// Unicode's `White_Space` property.
pub open spec fn is_white_space(c: char) -> bool {
    let u = c as u32;
    (9 <= u <= 13) || u == 32 || u == 0x85 || u == 0xA0 || u == 0x1680 || (0x2000 <= u <= 0x200A)
        || u == 0x2028 || u == 0x2029 || u == 0x202F || u == 0x205F || u == 0x3000
}

/// `s` without its leading white space.
pub open spec fn trim_start(s: Seq<char>) -> Seq<char>
    decreases s.len(),
{
    if s.len() > 0 && is_white_space(s[0]) {
        trim_start(s.skip(1))
    } else {
        s
    }
}

/// `s` without its trailing white space.
pub open spec fn trim_end(s: Seq<char>) -> Seq<char>
    decreases s.len(),
{
    if s.len() > 0 && is_white_space(s.last()) {
        trim_end(s.drop_last())
    } else {
        s
    }
}

/// `s` without white space at either end.
pub open spec fn trim(s: Seq<char>) -> Seq<char> {
    trim_end(trim_start(s))
}

/// One character in ASCII lower case.
pub open spec fn ascii_lower(c: char) -> char {
    if 'A' <= c && c <= 'Z' {
        ((c as u8) + 32) as char
    } else {
        c
    }
}

/// One character in ASCII upper case.
pub open spec fn ascii_upper(c: char) -> char {
    if 'a' <= c && c <= 'z' {
        ((c as u8) - 32) as char
    } else {
        c
    }
}

/// `s` with its ASCII letters in lower case.
pub open spec fn lowered(s: Seq<char>) -> Seq<char> {
    Seq::new(s.len(), |i: int| ascii_lower(s[i]))
}

/// `s` with its ASCII letters in upper case.
pub open spec fn uppered(s: Seq<char>) -> Seq<char> {
    Seq::new(s.len(), |i: int| ascii_upper(s[i]))
}

/// The character of a decimal digit.
pub open spec fn digit(d: int) -> char {
    (48 + d) as char
}

/// `n` in decimal, without leading zeros.
pub open spec fn decimal(n: nat) -> Seq<char>
    decreases n,
{
    if n < 10 {
        seq![digit(n as int)]
    } else {
        decimal(n / 10).push(digit((n % 10) as int))
    }
}

/// `n` in decimal, padded with zeros to at least two digits.
pub open spec fn decimal2(n: nat) -> Seq<char> {
    if n < 10 {
        seq!['0', digit(n as int)]
    } else {
        decimal(n)
    }
}

/// The character of a lower-case hexadecimal digit.
pub open spec fn hex_digit(d: int) -> char {
    if d < 10 {
        (48 + d) as char
    } else {
        (87 + d) as char
    }
}

/// The last `width` hexadecimal digits of `n`, with leading zeros.
pub open spec fn hex(n: nat, width: nat) -> Seq<char>
    decreases width,
{
    if width == 0 {
        Seq::empty()
    } else {
        hex(n / 16, (width - 1) as nat).push(hex_digit((n % 16) as int))
    }
}

/// `parts` one after the other, with `sep` between neighbours.
pub open spec fn joined(parts: Seq<Seq<char>>, sep: Seq<char>) -> Seq<char>
    decreases parts.len(),
{
    if parts.len() == 0 {
        Seq::empty()
    } else if parts.len() == 1 {
        parts[0]
    } else {
        joined(parts.drop_last(), sep) + sep + parts.last()
    }
}

/// Whether `needle` stands in `hay` at position `at`.
pub open spec fn stands_at(hay: Seq<char>, needle: Seq<char>, at: int) -> bool {
    0 <= at && at + needle.len() <= hay.len() && hay.subrange(at, at + needle.len()) == needle
}

/// The first position from `from` on at which `needle` stands in `hay`.
pub open spec fn first_at(hay: Seq<char>, needle: Seq<char>, from: int) -> Option<int>
    decreases hay.len() + 1 - from,
{
    if from + needle.len() > hay.len() {
        None
    } else if stands_at(hay, needle, from) {
        Some(from)
    } else {
        first_at(hay, needle, from + 1)
    }
}

/// Whether `needle` stands anywhere in `hay`.
pub open spec fn holds_text(hay: Seq<char>, needle: Seq<char>) -> bool {
    exists|at: int| stands_at(hay, needle, at)
}

/// Whether `s` begins with `prefix`.
pub open spec fn begins_with(s: Seq<char>, prefix: Seq<char>) -> bool {
    prefix.len() <= s.len() && s.take(prefix.len() as int) == prefix
}

/// A text and no more of it than its first `limit` characters.
pub open spec fn at_most(s: Seq<char>, limit: int) -> Seq<char> {
    if s.len() <= limit {
        s
    } else {
        s.take(limit)
    }
}

/// Trimming leaves a part of the text: nothing is added or reordered.
pub proof fn lemma_trim_end_take(s: Seq<char>)
    ensures
        trim_end(s).len() <= s.len(),
        trim_end(s) == s.take(trim_end(s).len() as int),
        trim_end(s).len() > 0 ==> !is_white_space(trim_end(s).last()),
    decreases s.len(),
{
    if s.len() > 0 && is_white_space(s.last()) {
        lemma_trim_end_take(s.drop_last());
        let n = trim_end(s).len() as int;
        assert(s.drop_last().take(n) =~= s.take(n));
    } else {
        assert(s.take(s.len() as int) =~= s);
    }
}

/// What leading trimming leaves is a suffix that does not start with white space.
pub proof fn lemma_trim_start_skip(s: Seq<char>)
    ensures
        trim_start(s).len() <= s.len(),
        trim_start(s) == s.skip(s.len() - trim_start(s).len()),
        trim_start(s).len() > 0 ==> !is_white_space(trim_start(s)[0]),
    decreases s.len(),
{
    if s.len() > 0 && is_white_space(s[0]) {
        lemma_trim_start_skip(s.skip(1));
        let k = s.len() - trim_start(s).len();
        assert(s.skip(1).skip(k - 1) =~= s.skip(k));
    } else {
        assert(s.skip(0) =~= s);
    }
}

/// Trimming twice is trimming once.
pub proof fn lemma_trim_idempotent(s: Seq<char>)
    ensures
        trim(trim(s)) == trim(s),
{
    let a = trim_start(s);
    let b = trim_end(a);
    lemma_trim_start_skip(s);
    lemma_trim_end_take(a);
    if b.len() > 0 {
        assert(b[0] == a[0]);
        assert(trim_start(b) == b);
        assert(trim_end(b) == b);
    }
}

/// Whether `c` is white space.
pub fn is_whitespace(c: char) -> (r: bool)
    ensures
        r == is_white_space(c),
{
    let u: u32 = c as u32;
    (9 <= u && u <= 13) || u == 32 || u == 0x85 || u == 0xA0 || u == 0x1680 || (0x2000 <= u && u
        <= 0x200A) || u == 0x2028 || u == 0x2029 || u == 0x202F || u == 0x205F || u == 0x3000
}

/// The characters of `s`, in order.
pub fn chars_of(s: &str) -> (r: Vec<char>)
    ensures
        r@ == s@,
{
    let mut out: Vec<char> = Vec::new();
    for c in it: s.chars()
        invariant
            out@ == s@.take(it.index()),
            it.seq() == s@,
    {
        out.push(c);
        assert(out@ =~= s@.take(it.index() + 1));
    }
    assert(out@ =~= s@);
    out
}

/// The characters `from..to` of `chars`, as a string.
pub fn string_of(chars: &Vec<char>, from: usize, to: usize) -> (r: String)
    requires
        from <= to <= chars@.len(),
    ensures
        r@ == chars@.subrange(from as int, to as int),
{
    let mut out = String::new();
    let mut i: usize = from;
    while i < to
        invariant
            from <= i <= to <= chars@.len(),
            out@ == chars@.subrange(from as int, i as int),
        decreases to - i,
    {
        out.push(chars[i]);
        i = i + 1;
        assert(out@ =~= chars@.subrange(from as int, i as int));
    }
    out
}

/// Whether two texts are the same.
pub fn same(a: &str, b: &str) -> (r: bool)
    ensures
        r == (a@ == b@),
{
    let x: String = a.to_owned();
    let y: String = b.to_owned();
    x == y
}

/// `a` followed by `b`.
pub fn cat2(a: &str, b: &str) -> (r: String)
    ensures
        r@ == a@ + b@,
{
    let mut out: String = a.to_owned();
    out.push_str(b);
    out
}

/// `a`, `b` and `c`, one after the other.
pub fn cat3(a: &str, b: &str, c: &str) -> (r: String)
    ensures
        r@ == a@ + b@ + c@,
{
    let mut out: String = a.to_owned();
    out.push_str(b);
    out.push_str(c);
    out
}

/// Where the text starts behind its leading white space.
fn start_behind_white_space(chars: &Vec<char>) -> (k: usize)
    ensures
        k <= chars@.len(),
        chars@.skip(k as int) == trim_start(chars@),
{
    let mut k: usize = 0;
    assert(chars@.skip(0) =~= chars@);
    while k < chars.len() && is_whitespace(chars[k])
        invariant
            k <= chars@.len(),
            trim_start(chars@.skip(k as int)) == trim_start(chars@),
        ensures
            k <= chars@.len(),
            trim_start(chars@.skip(k as int)) == trim_start(chars@),
            k < chars@.len() ==> !is_white_space(chars@[k as int]),
        decreases chars@.len() - k,
    {
        assert(chars@.skip(k as int)[0] == chars@[k as int]);
        assert(chars@.skip(k as int).skip(1) =~= chars@.skip(k + 1));
        k = k + 1;
    }
    k
}

/// Where the text ends before its trailing white space, not before `from`.
fn end_before_white_space(chars: &Vec<char>, from: usize) -> (e: usize)
    requires
        from <= chars@.len(),
    ensures
        from <= e <= chars@.len(),
        chars@.subrange(from as int, e as int) == trim_end(chars@.skip(from as int)),
{
    let mut e: usize = chars.len();
    assert(chars@.subrange(from as int, e as int) =~= chars@.skip(from as int));
    while from < e && is_whitespace(chars[e - 1])
        invariant
            from <= e <= chars@.len(),
            trim_end(chars@.subrange(from as int, e as int)) == trim_end(chars@.skip(from as int)),
        ensures
            from <= e <= chars@.len(),
            trim_end(chars@.subrange(from as int, e as int)) == trim_end(chars@.skip(from as int)),
            from < e ==> !is_white_space(chars@[e - 1]),
        decreases e,
    {
        let ghost now = chars@.subrange(from as int, e as int);
        assert(now.last() == chars@[e - 1]);
        assert(now.drop_last() =~= chars@.subrange(from as int, e - 1));
        e = e - 1;
    }
    e
}

/// `s` without white space at either end.
pub fn trimmed(s: &str) -> (r: String)
    ensures
        r@ == trim(s@),
{
    let chars = chars_of(s);
    let from: usize = start_behind_white_space(&chars);
    let to: usize = end_before_white_space(&chars, from);
    string_of(&chars, from, to)
}

/// `s` without trailing white space.
pub fn end_trimmed(s: &str) -> (r: String)
    ensures
        r@ == trim_end(s@),
{
    let chars = chars_of(s);
    let to: usize = end_before_white_space(&chars, 0);
    assert(chars@.skip(0) =~= chars@);
    string_of(&chars, 0, to)
}

/// Whether nothing but white space is in `s`.
pub fn is_blank(s: &str) -> (r: bool)
    ensures
        r == (trim(s@).len() == 0),
{
    let t = trimmed(s);
    t.as_str().is_empty()
}

/// One character in ASCII lower case.
pub fn lower_char(c: char) -> (r: char)
    ensures
        r == ascii_lower(c),
{
    if 'A' <= c && c <= 'Z' {
        ((c as u8) + 32) as char
    } else {
        c
    }
}

/// One character in ASCII upper case.
pub fn upper_char(c: char) -> (r: char)
    ensures
        r == ascii_upper(c),
{
    if 'a' <= c && c <= 'z' {
        ((c as u8) - 32) as char
    } else {
        c
    }
}

/// `s` with its ASCII letters in lower case.
pub fn to_lower(s: &str) -> (r: String)
    ensures
        r@ == lowered(s@),
{
    let chars = chars_of(s);
    let mut out = String::new();
    let mut i: usize = 0;
    while i < chars.len()
        invariant
            i <= chars@.len(),
            out@ == lowered(chars@).take(i as int),
        decreases chars@.len() - i,
    {
        out.push(lower_char(chars[i]));
        i = i + 1;
        assert(out@ =~= lowered(chars@).take(i as int));
    }
    assert(out@ =~= lowered(s@));
    out
}

/// `s` with its ASCII letters in upper case.
pub fn to_upper(s: &str) -> (r: String)
    ensures
        r@ == uppered(s@),
{
    let chars = chars_of(s);
    let mut out = String::new();
    let mut i: usize = 0;
    while i < chars.len()
        invariant
            i <= chars@.len(),
            out@ == uppered(chars@).take(i as int),
        decreases chars@.len() - i,
    {
        out.push(upper_char(chars[i]));
        i = i + 1;
        assert(out@ =~= uppered(chars@).take(i as int));
    }
    assert(out@ =~= uppered(s@));
    out
}

/// The character of a decimal digit.
fn digit_char(d: u8) -> (r: char)
    requires
        d < 10,
    ensures
        r == digit(d as int),
{
    (48 + d) as char
}

/// `n` in decimal, without leading zeros.
pub fn print_u64(n: u64) -> (r: String)
    ensures
        r@ == decimal(n as nat),
    decreases n,
{
    if n < 10 {
        let mut out = String::new();
        out.push(digit_char(n as u8));
        assert(out@ =~= decimal(n as nat));
        out
    } else {
        let mut out = print_u64(n / 10);
        out.push(digit_char((n % 10) as u8));
        out
    }
}

/// `n` in decimal, padded with zeros to at least two digits.
pub fn print_two_digits(n: u64) -> (r: String)
    ensures
        r@ == decimal2(n as nat),
{
    if n < 10 {
        let mut out = String::new();
        out.push('0');
        out.push(digit_char(n as u8));
        assert(out@ =~= decimal2(n as nat));
        out
    } else {
        print_u64(n)
    }
}

/// The last `width` hexadecimal digits of `n`, with leading zeros.
pub fn print_hex(n: u64, width: usize) -> (r: String)
    ensures
        r@ == hex(n as nat, width as nat),
    decreases width,
{
    if width == 0 {
        let out = String::new();
        assert(out@ =~= hex(n as nat, 0));
        out
    } else {
        let mut out = print_hex(n / 16, width - 1);
        let d: u8 = (n % 16) as u8;
        let c: char = if d < 10 {
            (48 + d) as char
        } else {
            (87 + d) as char
        };
        out.push(c);
        out
    }
}

/// `true` or `false`.
pub open spec fn bool_text(b: bool) -> Seq<char> {
    if b {
        "true"@
    } else {
        "false"@
    }
}

/// `true` or `false`.
pub fn print_bool(b: bool) -> (r: String)
    ensures
        r@ == bool_text(b),
{
    if b {
        "true".to_owned()
    } else {
        "false".to_owned()
    }
}

/// The strings of `parts` one after the other, with `sep` between neighbours.
pub fn join(parts: &Vec<String>, sep: &str) -> (r: String)
    ensures
        r@ == joined(texts(parts@), sep@),
{
    let mut out = String::new();
    let mut i: usize = 0;
    while i < parts.len()
        invariant
            i <= parts@.len(),
            out@ == joined(texts(parts@).take(i as int), sep@),
        decreases parts@.len() - i,
    {
        let ghost before = texts(parts@).take(i as int);
        let ghost after = texts(parts@).take(i + 1);
        assert(after.drop_last() =~= before);
        assert(after.last() == parts@[i as int]@);
        if i > 0 {
            out.push_str(sep);
        }
        out.push_str(parts[i].as_str());
        i = i + 1;
        assert(out@ =~= joined(after, sep@));
    }
    assert(texts(parts@).take(i as int) =~= texts(parts@));
    out
}

/// Whether `needle` stands in `hay` at position `at`.
pub fn is_at(hay: &Vec<char>, needle: &Vec<char>, at: usize) -> (r: bool)
    ensures
        r == stands_at(hay@, needle@, at as int),
{
    if at > hay.len() || hay.len() - at < needle.len() {
        return false;
    }
    let mut k: usize = 0;
    while k < needle.len()
        invariant
            k <= needle@.len(),
            at + needle@.len() <= hay@.len(),
            hay@.len() <= usize::MAX,
            forall|j: int| 0 <= j < k ==> hay@[at + j] == needle@[j],
        decreases needle@.len() - k,
    {
        if hay[at + k] != needle[k] {
            assert(hay@.subrange(at as int, at + needle@.len())[k as int] != needle@[k as int]);
            return false;
        }
        k = k + 1;
    }
    assert(hay@.subrange(at as int, at + needle@.len()) =~= needle@);
    true
}

/// The first position from `from` on at which `needle` stands in `hay`.
pub fn find_at(hay: &Vec<char>, needle: &Vec<char>, from: usize) -> (r: Option<usize>)
    requires
        from <= hay@.len(),
    ensures
        match r {
            Some(at) => first_at(hay@, needle@, from as int) == Some(at as int),
            None => first_at(hay@, needle@, from as int) is None,
        },
        r matches Some(at) ==> from <= at && at + needle@.len() <= hay@.len() && stands_at(
            hay@,
            needle@,
            at as int,
        ),
{
    if hay.len() - from < needle.len() {
        return None;
    }
    let last: usize = hay.len() - needle.len();
    let mut at: usize = from;
    while at < last
        invariant
            from <= at <= last,
            last == hay@.len() - needle@.len(),
            first_at(hay@, needle@, from as int) == first_at(hay@, needle@, at as int),
        decreases last - at,
    {
        if is_at(hay, needle, at) {
            return Some(at);
        }
        at = at + 1;
    }
    if is_at(hay, needle, at) {
        Some(at)
    } else {
        assert(first_at(hay@, needle@, at + 1) is None);
        None
    }
}

/// A text that stands from some position on is found from any earlier one.
pub proof fn lemma_first_at(hay: Seq<char>, needle: Seq<char>, from: int)
    requires
        0 <= from,
    ensures
        first_at(hay, needle, from) matches Some(at) ==> from <= at && stands_at(hay, needle, at)
            && (forall|k: int| from <= k < at ==> !stands_at(hay, needle, k)),
        first_at(hay, needle, from) is None ==> (forall|k: int|
            from <= k ==> !stands_at(hay, needle, k)),
    decreases hay.len() + 1 - from,
{
    if from + needle.len() <= hay.len() && !stands_at(hay, needle, from) {
        lemma_first_at(hay, needle, from + 1);
    }
}

/// Whether `needle` stands anywhere in `hay`.
pub fn contains(hay: &str, needle: &str) -> (r: bool)
    ensures
        r == holds_text(hay@, needle@),
{
    let h = chars_of(hay);
    let n = chars_of(needle);
    let found = find_at(&h, &n, 0);
    proof {
        lemma_first_at(h@, n@, 0);
        if let Some(at) = found {
            assert(stands_at(hay@, needle@, at as int));
        }
    }
    found.is_some()
}

/// What follows `prefix` in `s`, where `s` begins with it.
pub fn strip_prefix(s: &str, prefix: &str) -> (r: Option<String>)
    ensures
        match r {
            Some(rest) => begins_with(s@, prefix@) && rest@ == s@.skip(prefix@.len() as int),
            None => !begins_with(s@, prefix@),
        },
{
    let h = chars_of(s);
    let n = chars_of(prefix);
    if is_at(&h, &n, 0) {
        assert(h@.subrange(0, n@.len() as int) =~= h@.take(n@.len() as int));
        let rest = string_of(&h, n.len(), h.len());
        assert(h@.subrange(n@.len() as int, h@.len() as int) =~= h@.skip(n@.len() as int));
        Some(rest)
    } else {
        proof {
            if begins_with(s@, prefix@) {
                assert(h@.subrange(0, n@.len() as int) =~= h@.take(n@.len() as int));
            }
        }
        None
    }
}

/// No more of `s` than its first `limit` characters.
pub fn first_chars(s: &str, limit: usize) -> (r: String)
    ensures
        r@ == at_most(s@, limit as int),
{
    let chars = chars_of(s);
    if chars.len() <= limit {
        s.to_owned()
    } else {
        let out = string_of(&chars, 0, limit);
        assert(chars@.subrange(0, limit as int) =~= chars@.take(limit as int));
        out
    }
}

/// The order of texts: character by character, a prefix first.
pub open spec fn text_before(a: Seq<char>, b: Seq<char>) -> bool
    decreases a.len(),
{
    if b.len() == 0 {
        false
    } else if a.len() == 0 {
        true
    } else if a[0] != b[0] {
        a[0] < b[0]
    } else {
        text_before(a.skip(1), b.skip(1))
    }
}

proof fn lemma_text_before_irreflexive(a: Seq<char>)
    ensures
        !text_before(a, a),
    decreases a.len(),
{
    if a.len() > 0 {
        lemma_text_before_irreflexive(a.skip(1));
    }
}

proof fn lemma_text_before_transitive(a: Seq<char>, b: Seq<char>, c: Seq<char>)
    requires
        text_before(a, b),
        text_before(b, c),
    ensures
        text_before(a, c),
    decreases a.len(),
{
    if a.len() > 0 && a[0] == b[0] && b[0] == c[0] {
        lemma_text_before_transitive(a.skip(1), b.skip(1), c.skip(1));
    }
}

proof fn lemma_text_before_total(a: Seq<char>, b: Seq<char>)
    ensures
        text_before(a, b) || text_before(b, a) || a == b,
    decreases a.len(),
{
    if a.len() == 0 || b.len() == 0 {
        if a.len() == 0 && b.len() == 0 {
            assert(a =~= b);
        }
    } else if a[0] == b[0] {
        lemma_text_before_total(a.skip(1), b.skip(1));
        if a.skip(1) == b.skip(1) {
            assert(a =~= seq![a[0]] + a.skip(1));
            assert(b =~= seq![b[0]] + b.skip(1));
        }
    }
}

/// Whether `a` comes before `b`.
pub fn comes_before(a: &str, b: &str) -> (r: bool)
    ensures
        r == text_before(a@, b@),
{
    let x = chars_of(a);
    let y = chars_of(b);
    let mut i: usize = 0;
    assert(x@.skip(0) =~= x@);
    assert(y@.skip(0) =~= y@);
    while i < x.len() && i < y.len()
        invariant
            x@ == a@,
            y@ == b@,
            i <= x@.len(),
            i <= y@.len(),
            text_before(x@, y@) == text_before(x@.skip(i as int), y@.skip(i as int)),
        decreases x@.len() - i,
    {
        let ghost xs = x@.skip(i as int);
        let ghost ys = y@.skip(i as int);
        assert(xs[0] == x@[i as int]);
        assert(ys[0] == y@[i as int]);
        if x[i] != y[i] {
            return x[i] < y[i];
        }
        assert(xs.skip(1) =~= x@.skip(i + 1));
        assert(ys.skip(1) =~= y@.skip(i + 1));
        i = i + 1;
    }
    i < y.len()
}

/// Strictly ascending texts.
pub open spec fn ascending(list: Seq<Seq<char>>) -> bool {
    forall|i: int, j: int| 0 <= i < j < list.len() ==> text_before(#[trigger] list[i], #[trigger] list[j])
}

/// Adds a text to ascending texts, unless it is there.
pub fn insert_in_order(list: &mut Vec<String>, text: &str)
    requires
        ascending(texts(old(list)@)),
    ensures
        ascending(texts(final(list)@)),
        forall|t: Seq<char>| #[trigger]
            texts(final(list)@).contains(t) <==> texts(old(list)@).contains(t) || t == text@,
{
    let ghost before = texts(list@);
    let mut at: usize = 0;
    while at < list.len() && comes_before(list[at].as_str(), text)
        invariant
            at <= list@.len(),
            texts(list@) == before,
            forall|k: int| 0 <= k < at ==> text_before(#[trigger] before[k], text@),
        ensures
            at <= list@.len(),
            texts(list@) == before,
            forall|k: int| 0 <= k < at ==> text_before(#[trigger] before[k], text@),
            at < list@.len() ==> !text_before(before[at as int], text@),
        decreases list@.len() - at,
    {
        assert(before[at as int] == list@[at as int]@);
        at = at + 1;
    }
    if at < list.len() && same(list[at].as_str(), text) {
        proof {
            assert(before[at as int] == text@);
            assert(before.contains(text@));
        }
        return;
    }
    proof {
        if at < list@.len() {
            lemma_text_before_total(before[at as int], text@);
            assert(text_before(text@, before[at as int]));
        }
    }
    list.insert(at, text.to_owned());
    proof {
        let after = texts(list@);
        assert(after =~= before.insert(at as int, text@));
        assert forall|i: int, j: int| 0 <= i < j < after.len() implies text_before(
            #[trigger] after[i],
            #[trigger] after[j],
        ) by {
            let n = at as int;
            if j == n {
                assert(after[i] == before[i]);
            } else if i == n {
                assert(after[j] == before[j - 1]);
                if j - 1 > n {
                    lemma_text_before_transitive(text@, before[n], before[j - 1]);
                }
            } else if i < n && j > n {
                assert(after[i] == before[i]);
                assert(after[j] == before[j - 1]);
            } else if i < n {
                assert(after[i] == before[i]);
                assert(after[j] == before[j]);
            } else {
                assert(after[i] == before[i - 1]);
                assert(after[j] == before[j - 1]);
            }
        }
        assert forall|t: Seq<char>| #[trigger] after.contains(t) <==> before.contains(t) || t
            == text@ by {
            if before.contains(t) {
                let k = choose|k: int| 0 <= k < before.len() && before[k] == t;
                if k < at {
                    assert(after[k] == t);
                } else {
                    assert(after[k + 1] == t);
                }
            }
            if t == text@ {
                assert(after[at as int] == t);
            }
            if after.contains(t) {
                let k = choose|k: int| 0 <= k < after.len() && after[k] == t;
                if k < at {
                    assert(before[k] == t);
                } else if k > at {
                    assert(before[k - 1] == t);
                }
            }
        }
    }
}

/// Ascending texts are settled by which texts they are: two ascending lists of the same texts
/// are equal.
pub proof fn law_ascending_lists_are_unique(a: Seq<Seq<char>>, b: Seq<Seq<char>>)
    requires
        ascending(a),
        ascending(b),
        forall|t: Seq<char>| #[trigger] a.contains(t) <==> b.contains(t),
    ensures
        a == b,
    decreases a.len(),
{
    if a.len() == 0 {
        if b.len() > 0 {
            assert(b.contains(b[0]));
            assert(a.contains(b[0]));
        }
        assert(a =~= b);
    } else {
        assert(a.contains(a[0]));
        let ja = choose|j: int| 0 <= j < b.len() && b[j] == a.last();
        assert(a.contains(a.last()));
        assert(b.contains(b.last()));
        assert(a.contains(b.last()));
        let jb = choose|j: int| 0 <= j < a.len() && a[j] == b.last();
        if a.last() != b.last() {
            assert(ja < b.len() - 1);
            assert(text_before(a.last(), b.last()));
            assert(jb < a.len() - 1);
            assert(text_before(b.last(), a.last()));
            lemma_text_before_transitive(a.last(), b.last(), a.last());
            lemma_text_before_irreflexive(a.last());
        }
        let x = a.drop_last();
        let y = b.drop_last();
        assert forall|t: Seq<char>| #[trigger] x.contains(t) <==> y.contains(t) by {
            if x.contains(t) {
                let k = choose|k: int| 0 <= k < x.len() && x[k] == t;
                assert(a[k] == t);
                assert(a.contains(t));
                assert(text_before(a[k], a[a.len() - 1]));
                let m = choose|m: int| 0 <= m < b.len() && b[m] == t;
                if m == b.len() - 1 {
                    lemma_text_before_irreflexive(t);
                }
                assert(y[m] == t);
            }
            if y.contains(t) {
                let k = choose|k: int| 0 <= k < y.len() && y[k] == t;
                assert(b[k] == t);
                assert(b.contains(t));
                assert(a.contains(t));
                assert(text_before(b[k], b[b.len() - 1]));
                let m = choose|m: int| 0 <= m < a.len() && a[m] == t;
                if m == a.len() - 1 {
                    lemma_text_before_irreflexive(t);
                }
                assert(x[m] == t);
            }
        }
        law_ascending_lists_are_unique(x, y);
        assert(a =~= x.push(a.last()));
        assert(b =~= y.push(b.last()));
    }
}

// ---- words

/// How many characters stand before the first white space.
pub open spec fn word_len(s: Seq<char>) -> nat
    decreases s.len(),
{
    if s.len() == 0 || is_white_space(s[0]) {
        0
    } else {
        1 + word_len(s.skip(1))
    }
}

/// The pieces of a text between white space.
pub open spec fn words(s: Seq<char>) -> Seq<Seq<char>>
    decreases s.len(),
{
    if s.len() == 0 {
        Seq::empty()
    } else if is_white_space(s[0]) {
        words(s.skip(1))
    } else {
        let n = word_len(s);
        if 0 < n <= s.len() {
            seq![s.take(n as int)] + words(s.skip(n as int))
        } else {
            Seq::empty()
        }
    }
}

/// A text has no more words than characters.
pub proof fn lemma_words_fit(s: Seq<char>)
    ensures
        words(s).len() <= s.len(),
    decreases s.len(),
{
    if s.len() == 0 {
    } else if is_white_space(s[0]) {
        lemma_words_fit(s.skip(1));
    } else {
        let n = word_len(s);
        if 0 < n <= s.len() {
            lemma_words_fit(s.skip(n as int));
        }
    }
}

proof fn lemma_word_len(s: Seq<char>, n: int)
    requires
        0 <= n <= s.len(),
        forall|i: int| 0 <= i < n ==> !is_white_space(s[i]),
        n < s.len() ==> is_white_space(s[n]),
    ensures
        word_len(s) == n,
    decreases s.len(),
{
    if n > 0 {
        assert forall|i: int| 0 <= i < n - 1 implies !is_white_space(s.skip(1)[i]) by {
            assert(s.skip(1)[i] == s[i + 1]);
        }
        lemma_word_len(s.skip(1), n - 1);
    }
}

/// The pieces of a text between white space.
pub fn split_words(s: &str) -> (r: Vec<String>)
    ensures
        texts(r@) == words(s@),
{
    let chars = chars_of(s);
    let total: usize = chars.len();
    let mut out: Vec<String> = Vec::new();
    let mut at: usize = 0;
    assert(chars@.skip(0) =~= s@);
    assert(texts(out@) + words(chars@.skip(0)) =~= words(s@));
    while at < total
        invariant
            chars@ == s@,
            total == chars@.len(),
            at <= total,
            texts(out@) + words(chars@.skip(at as int)) == words(s@),
        decreases total - at,
    {
        let ghost here = chars@.skip(at as int);
        assert(here[0] == chars@[at as int]);
        if is_whitespace(chars[at]) {
            assert(here.skip(1) =~= chars@.skip(at + 1));
            at = at + 1;
            continue;
        }
        let mut end: usize = at + 1;
        while end < total && !is_whitespace(chars[end])
            invariant
                at < end <= total,
                total == chars@.len(),
                forall|i: int| at <= i < end ==> !is_white_space(chars@[i]),
            ensures
                at < end <= total,
                forall|i: int| at <= i < end ==> !is_white_space(chars@[i]),
                end < total ==> is_white_space(chars@[end as int]),
            decreases total - end,
        {
            end = end + 1;
        }
        let ghost n = end - at;
        proof {
            assert forall|i: int| 0 <= i < n implies !is_white_space(here[i]) by {
                assert(here[i] == chars@[at + i]);
            }
            lemma_word_len(here, n);
            assert(here.take(n) =~= chars@.subrange(at as int, end as int));
            assert(here.skip(n) =~= chars@.skip(end as int));
        }
        let ghost before = texts(out@);
        out.push(string_of(&chars, at, end));
        proof {
            assert(texts(out@) =~= before.push(here.take(n)));
            assert(before.push(here.take(n)) + words(here.skip(n)) =~= before + (seq![here.take(n)]
                + words(here.skip(n))));
        }
        at = end;
    }
    assert(chars@.skip(at as int) =~= Seq::empty());
    assert(texts(out@) + words(chars@.skip(at as int)) =~= texts(out@));
    out
}

// ---- what texts say

/// The number that decimal digits say.
pub open spec fn said_in_decimal(s: Seq<char>) -> int
    decreases s.len(),
{
    if s.len() == 0 {
        0
    } else {
        said_in_decimal(s.drop_last()) * 10 + (s.last() as int - 48)
    }
}

/// A number that is printed is read back as itself, digit by digit, without a zero in front of
/// it; in two digits at least it is the same number.
pub proof fn law_printed_numbers_are_read_back(n: nat)
    ensures
        said_in_decimal(decimal(n)) == n,
        said_in_decimal(decimal2(n)) == n,
        decimal(n).len() >= 1,
        decimal2(n).len() >= 2,
        n > 0 ==> decimal(n)[0] != '0',
        forall|i: int| 0 <= i < decimal(n).len() ==> '0' <= #[trigger] decimal(n)[i] <= '9',
    decreases n,
{
    reveal_with_fuel(said_in_decimal, 3);
    if n < 10 {
        assert(decimal(n).drop_last() =~= Seq::empty());
        assert(decimal2(n).drop_last() =~= seq!['0']);
        assert(seq!['0'].drop_last() =~= Seq::empty());
    } else {
        law_printed_numbers_are_read_back(n / 10);
        assert(decimal(n).drop_last() =~= decimal(n / 10));
    }
}

/// The value of a lower-case hexadecimal digit.
pub open spec fn hex_value(c: char) -> int {
    if c as int <= 57 {
        c as int - 48
    } else {
        c as int - 87
    }
}

/// The number that hexadecimal digits say.
pub open spec fn said_in_hex(s: Seq<char>) -> int
    decreases s.len(),
{
    if s.len() == 0 {
        0
    } else {
        said_in_hex(s.drop_last()) * 16 + hex_value(s.last())
    }
}

/// Sixteen to some power.
pub open spec fn sixteens(width: nat) -> nat
    decreases width,
{
    if width == 0 {
        1
    } else {
        16 * sixteens((width - 1) as nat)
    }
}

/// Hexadecimal digits are as many as asked for, and are read back as the number, as far as they
/// can hold it.
pub proof fn law_printed_hex_is_read_back(n: nat, width: nat)
    requires
        n < sixteens(width),
    ensures
        hex(n, width).len() == width,
        said_in_hex(hex(n, width)) == n,
    decreases width,
{
    if width > 0 {
        let less = (width - 1) as nat;
        assert(n / 16 < sixteens(less));
        law_printed_hex_is_read_back(n / 16, less);
        assert(hex(n, width).drop_last() =~= hex(n / 16, less));
    }
}

/// Trimming takes white space off both ends and nothing else: what is left is a part of the text,
/// with white space alone around it, and neither begins nor ends with any.
pub proof fn law_trimming_takes_only_white_space(s: Seq<char>) -> (cut: (int, int))
    ensures
        0 <= cut.0 <= cut.1 <= s.len(),
        trim(s) == s.subrange(cut.0, cut.1),
        forall|i: int| 0 <= i < cut.0 ==> is_white_space(#[trigger] s[i]),
        forall|i: int| cut.1 <= i < s.len() ==> is_white_space(#[trigger] s[i]),
        trim(s).len() > 0 ==> !is_white_space(trim(s)[0]) && !is_white_space(trim(s).last()),
{
    let a = trim_start(s);
    lemma_trim_start_skip(s);
    lemma_trim_start_cuts_white(s);
    lemma_trim_end_take(a);
    lemma_trim_end_cuts_white(a);
    let from = s.len() - a.len();
    let to = from + trim_end(a).len();
    assert(trim(s) =~= s.subrange(from, to));
    assert forall|i: int| to <= i < s.len() implies is_white_space(#[trigger] s[i]) by {
        assert(s[i] == a[i - from]);
    }
    if trim(s).len() > 0 {
        assert(trim(s)[0] == a[0]);
    }
    (from, to)
}

proof fn lemma_trim_start_cuts_white(s: Seq<char>)
    ensures
        forall|i: int| 0 <= i < s.len() - trim_start(s).len() ==> is_white_space(#[trigger] s[i]),
    decreases s.len(),
{
    if s.len() > 0 && is_white_space(s[0]) {
        lemma_trim_start_cuts_white(s.skip(1));
        assert forall|i: int| 0 <= i < s.len() - trim_start(s).len() implies is_white_space(
            #[trigger] s[i],
        ) by {
            if i > 0 {
                assert(s[i] == s.skip(1)[i - 1]);
            }
        }
    }
}

proof fn lemma_trim_end_cuts_white(s: Seq<char>)
    ensures
        forall|i: int| trim_end(s).len() <= i < s.len() ==> is_white_space(#[trigger] s[i]),
    decreases s.len(),
{
    if s.len() > 0 && is_white_space(s.last()) {
        lemma_trim_end_cuts_white(s.drop_last());
        assert forall|i: int| trim_end(s).len() <= i < s.len() implies is_white_space(
            #[trigger] s[i],
        ) by {
            if i < s.len() - 1 {
                assert(s[i] == s.drop_last()[i]);
            }
        }
    }
}

/// White space is what Unicode says it is; letters, digits and marks are none.
pub proof fn law_white_space()
    ensures
        is_white_space(' ') && is_white_space('\n') && is_white_space('\r') && is_white_space('\t'),
        is_white_space('\u{a0}') && is_white_space('\u{3000}') && is_white_space('\u{2003}'),
        forall|c: char| '!' <= c <= '~' ==> !is_white_space(c),
{
}

/// A text in lower case differs from it only in its capital letters, and has none; in upper case
/// likewise.
pub proof fn law_case_changes_only_letters(s: Seq<char>, i: int)
    requires
        0 <= i < s.len(),
    ensures
        lowered(s).len() == s.len(),
        uppered(s).len() == s.len(),
        !('A' <= s[i] <= 'Z') ==> lowered(s)[i] == s[i],
        'A' <= s[i] <= 'Z' ==> lowered(s)[i] as int == s[i] as int + 32,
        !('a' <= s[i] <= 'z') ==> uppered(s)[i] == s[i],
        'a' <= s[i] <= 'z' ==> uppered(s)[i] as int == s[i] as int - 32,
{
}

/// Texts are joined in their order, with the separator between neighbours.
pub proof fn law_joined_in_order(parts: Seq<Seq<char>>, last: Seq<char>, sep: Seq<char>)
    ensures
        joined(Seq::empty(), sep) == Seq::<char>::empty(),
        joined(seq![last], sep) == last,
        parts.len() > 0 ==> joined(parts.push(last), sep) == joined(parts, sep) + sep + last,
{
    if parts.len() > 0 {
        assert(parts.push(last).drop_last() =~= parts);
    }
}

/// The words of a text are not empty and hold no white space; a word and what follows its white
/// space come one after the other.
pub proof fn law_words_are_between_white_space(s: Seq<char>, i: int)
    requires
        0 <= i < words(s).len(),
    ensures
        words(s)[i].len() > 0,
        forall|k: int| 0 <= k < words(s)[i].len() ==> !is_white_space(#[trigger] words(s)[i][k]),
    decreases s.len(),
{
    if s.len() > 0 {
        if is_white_space(s[0]) {
            law_words_are_between_white_space(s.skip(1), i);
        } else {
            let n = word_len(s);
            lemma_word_front(s);
            if i == 0 {
                assert(words(s)[0] == s.take(n as int));
            } else {
                law_words_are_between_white_space(s.skip(n as int), i - 1);
                assert(words(s)[i] == words(s.skip(n as int))[i - 1]);
            }
        }
    }
}

proof fn lemma_word_front(s: Seq<char>)
    ensures
        word_len(s) <= s.len(),
        forall|k: int| 0 <= k < word_len(s) ==> !is_white_space(#[trigger] s[k]),
        word_len(s) < s.len() ==> is_white_space(s[word_len(s) as int]),
        s.len() > 0 && !is_white_space(s[0]) ==> word_len(s) > 0,
    decreases s.len(),
{
    if s.len() > 0 && !is_white_space(s[0]) {
        lemma_word_front(s.skip(1));
        assert forall|k: int| 0 <= k < word_len(s) implies !is_white_space(#[trigger] s[k]) by {
            if k > 0 {
                assert(s[k] == s.skip(1)[k - 1]);
            }
        }
    }
}

/// A word, white space and more text have the word and the words of the rest.
pub proof fn law_words_come_in_order(word: Seq<char>, gap: char, rest: Seq<char>)
    requires
        word.len() > 0,
        forall|k: int| 0 <= k < word.len() ==> !is_white_space(#[trigger] word[k]),
        is_white_space(gap),
    ensures
        words(word) == seq![word],
        words(word.push(gap) + rest) == seq![word] + words(rest),
        words(seq![gap] + rest) == words(rest),
{
    let all = word.push(gap) + rest;
    let n = word.len() as int;
    lemma_word_len(all, n);
    lemma_word_len(word, n);
    assert(word.take(n) =~= word);
    assert(word.skip(n) =~= Seq::empty());
    assert(words(Seq::<char>::empty()) =~= Seq::<Seq<char>>::empty());
    assert(words(word) == seq![word] + words(word.skip(n)));
    assert(words(word) =~= seq![word]);
    assert(all.take(n) =~= word);
    assert(all.skip(n) =~= seq![gap] + rest);
    assert((seq![gap] + rest).skip(1) =~= rest);
    assert(words(seq![gap] + rest) == words(rest));
}

/// A text holds another where that stands somewhere in it, and begins with it where it stands at
/// its front.
pub proof fn law_texts_in_texts(a: Seq<char>, b: Seq<char>, c: Seq<char>)
    ensures
        holds_text(a + b + c, b),
        begins_with(b + c, b),
        begins_with(a, b) ==> b.len() <= a.len() && forall|i: int|
            0 <= i < b.len() ==> a[i] == b[i],
        holds_text(a, b) ==> b.len() <= a.len(),
        a.len() <= b.len() ==> at_most(a, b.len() as int) == a,
        b.len() < a.len() ==> at_most(a, b.len() as int).len() == b.len(),
{
    let all = a + b + c;
    assert(all.subrange(a.len() as int, (a.len() + b.len()) as int) =~= b);
    assert(stands_at(all, b, a.len() as int));
    assert((b + c).take(b.len() as int) =~= b);
    if begins_with(a, b) {
        assert forall|i: int| 0 <= i < b.len() implies a[i] == b[i] by {
            assert(a.take(b.len() as int)[i] == a[i]);
        }
    }
}

/// One text comes before another as dictionaries have it: where they first differ the smaller
/// character decides, a text comes before every longer one that it begins, never before itself,
/// and never both ways.
pub proof fn law_texts_are_ordered(a: Seq<char>, b: Seq<char>, common: Seq<char>, x: char, y: char)
    ensures
        !text_before(a, a),
        text_before(a, b) ==> !text_before(b, a),
        a != b ==> text_before(a, b) || text_before(b, a),
        text_before(common, common.push(x)),
        x < y ==> text_before(common.push(x) + a, common.push(y) + b),
    decreases a.len() + b.len() + common.len(),
{
    let p = common.push(x) + a;
    let q = common.push(y) + b;
    assert(p[0] == common.push(x)[0]);
    assert(q[0] == common.push(y)[0]);
    if common.len() > 0 {
        let c = common.skip(1);
        law_texts_are_ordered(a, b, c, x, y);
        assert(common.push(x).skip(1) =~= c.push(x));
        assert(p.skip(1) =~= c.push(x) + a);
        assert(q.skip(1) =~= c.push(y) + b);
    } else {
        assert(common =~= Seq::<char>::empty());
    }
    if a.len() > 0 {
        law_texts_are_ordered(a.skip(1), Seq::empty(), Seq::empty(), x, y);
    }
    if a.len() > 0 && b.len() > 0 {
        law_texts_are_ordered(a.skip(1), b.skip(1), Seq::empty(), x, y);
        if a[0] == b[0] && a.skip(1) == b.skip(1) {
            assert(a =~= seq![a[0]] + a.skip(1));
            assert(b =~= seq![b[0]] + b.skip(1));
        }
    } else if a.len() == 0 && b.len() == 0 {
        assert(a =~= b);
    }
}

/// What is found is there, and it is the first: nothing before it is the text looked for; what is
/// not found is nowhere.
pub proof fn law_found_text_is_the_first(hay: Seq<char>, needle: Seq<char>, from: int, i: int)
    requires
        0 <= from <= i,
        i + needle.len() <= hay.len(),
        hay.subrange(i, i + needle.len()) == needle,
    ensures
        first_at(hay, needle, from) matches Some(at) && from <= at <= i && hay.subrange(
            at,
            at + needle.len(),
        ) == needle,
    decreases i - from,
{
    if !stands_at(hay, needle, from) {
        assert(from != i);
        law_found_text_is_the_first(hay, needle, from + 1, i);
    }
}

} // verus!

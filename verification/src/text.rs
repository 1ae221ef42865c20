//! Text as a sequence of characters: the string operations that the rest of
//! the crate is built from, each with its exact meaning.

use vstd::prelude::*;

verus! {

/// `String::push` appends the given character to the end of the string.
pub assume_specification[ String::push ](text: &mut String, c: char)
    ensures
        final(text)@ == old(text)@.push(c),
;

/// The characters that Unicode gives the `White_Space` property.
pub open spec fn is_white_space(c: char) -> bool {
    let n = c as int;
    ||| 0x9 <= n <= 0xd
    ||| n == 0x20
    ||| n == 0x85
    ||| n == 0xa0
    ||| n == 0x1680
    ||| 0x2000 <= n <= 0x200a
    ||| n == 0x2028
    ||| n == 0x2029
    ||| n == 0x202f
    ||| n == 0x205f
    ||| n == 0x3000
}

/// Every character is white space.
pub open spec fn is_blank(s: Seq<char>) -> bool {
    forall|i: int| 0 <= i < s.len() ==> is_white_space(#[trigger] s[i])
}

/// `s` without its longest beginning made of characters that satisfy `drop`.
pub open spec fn trim_start_while(s: Seq<char>, drop: spec_fn(char) -> bool) -> Seq<char>
    decreases s.len(),
{
    if s.len() > 0 && drop(s.first()) {
        trim_start_while(s.drop_first(), drop)
    } else {
        s
    }
}

/// `s` without its longest end made of characters that satisfy `drop`.
pub open spec fn trim_end_while(s: Seq<char>, drop: spec_fn(char) -> bool) -> Seq<char>
    decreases s.len(),
{
    if s.len() > 0 && drop(s.last()) {
        trim_end_while(s.drop_last(), drop)
    } else {
        s
    }
}

/// `s` without leading and trailing white space.
pub open spec fn trimmed(s: Seq<char>) -> Seq<char> {
    trim_end_while(trim_start_while(s, |c: char| is_white_space(c)), |c: char| is_white_space(c))
}

/// Being the character `c`.
pub open spec fn equal_to(c: char) -> spec_fn(char) -> bool {
    |x: char| x == c
}

/// `s` without any leading or trailing `c`.
pub open spec fn trimmed_of(s: Seq<char>, c: char) -> Seq<char> {
    trim_end_while(trim_start_while(s, equal_to(c)), equal_to(c))
}

/// `s` without any trailing `c`.
pub open spec fn trimmed_end_of(s: Seq<char>, c: char) -> Seq<char> {
    trim_end_while(s, equal_to(c))
}

/// `part` stands in `s` at position `at`.
pub open spec fn occurs_at(s: Seq<char>, part: Seq<char>, at: int) -> bool {
    0 <= at && at + part.len() <= s.len() && s.subrange(at, at + part.len()) == part
}

/// `part` stands somewhere in `s`.
pub open spec fn contains_text(s: Seq<char>, part: Seq<char>) -> bool {
    exists|at: int| #[trigger] occurs_at(s, part, at)
}

/// The character of a decimal digit.
pub open spec fn digit_char(d: int) -> char {
    (('0' as int) + d) as char
}

/// The decimal digits of `n`, without leading zeros.
pub open spec fn decimal(n: nat) -> Seq<char>
    decreases n,
{
    if n < 10 {
        seq![digit_char(n as int)]
    } else {
        decimal(n / 10).push(digit_char((n % 10) as int))
    }
}

/// What an optional string holds.
pub open spec fn opt_text(text: Option<String>) -> Option<Seq<char>> {
    match text {
        Some(t) => Some(t@),
        None => None,
    }
}

/// What each string of a list holds.
pub open spec fn texts(list: Seq<String>) -> Seq<Seq<char>> {
    list.map_values(|t: String| t@)
}

proof fn lemma_trim_start_suffix(s: Seq<char>, drop: spec_fn(char) -> bool, k: int)
    requires
        0 <= k <= s.len(),
        forall|i: int| 0 <= i < k ==> drop(#[trigger] s[i]),
        k < s.len() ==> !drop(s[k]),
    ensures
        trim_start_while(s, drop) == s.skip(k),
    decreases s.len(),
{
    if k == 0 {
        assert(s.skip(0) == s);
    } else {
        let t = s.drop_first();
        assert forall|i: int| 0 <= i < k - 1 implies drop(#[trigger] t[i]) by {
            assert(t[i] == s[i + 1]);
        }
        lemma_trim_start_suffix(t, drop, k - 1);
        assert(t.skip(k - 1) == s.skip(k));
    }
}

proof fn lemma_trim_end_prefix(s: Seq<char>, drop: spec_fn(char) -> bool, k: int)
    requires
        0 <= k <= s.len(),
        forall|i: int| k <= i < s.len() ==> drop(#[trigger] s[i]),
        0 < k ==> !drop(s[k - 1]),
    ensures
        trim_end_while(s, drop) == s.take(k),
    decreases s.len(),
{
    if k == s.len() {
        assert(s.take(k) == s);
    } else {
        let t = s.drop_last();
        assert forall|i: int| k <= i < t.len() implies drop(#[trigger] t[i]) by {
            assert(t[i] == s[i]);
        }
        lemma_trim_end_prefix(t, drop, k);
        assert(t.take(k) == s.take(k));
    }
}

/// Trimming leaves nothing exactly when every character is white space.
pub proof fn blank_text_trims_to_nothing(s: Seq<char>)
    ensures
        trimmed(s).len() == 0 <==> is_blank(s),
{
    let white = |c: char| is_white_space(c);
    if is_blank(s) {
        lemma_trim_start_suffix(s, white, s.len() as int);
        assert(s.skip(s.len() as int).len() == 0);
    } else {
        let j = choose|j: int| 0 <= j < s.len() && !is_white_space(#[trigger] s[j]);
        lemma_trim_start_keeps(s, white, j);
        let t = trim_start_while(s, white);
        lemma_trim_end_keeps(t, white, 0);
    }
}

proof fn lemma_trim_start_keeps(s: Seq<char>, drop: spec_fn(char) -> bool, j: int)
    requires
        0 <= j < s.len(),
        !drop(s[j]),
    ensures
        trim_start_while(s, drop).len() > 0,
        !drop(trim_start_while(s, drop)[0]),
    decreases s.len(),
{
    if drop(s.first()) {
        assert(s.drop_first()[j - 1] == s[j]);
        lemma_trim_start_keeps(s.drop_first(), drop, j - 1);
    }
}

proof fn lemma_trim_end_keeps(s: Seq<char>, drop: spec_fn(char) -> bool, j: int)
    requires
        0 <= j < s.len(),
        !drop(s[j]),
    ensures
        trim_end_while(s, drop).len() > j,
    decreases s.len(),
{
    if drop(s.last()) {
        lemma_trim_end_keeps(s.drop_last(), drop, j);
    }
}

/// What is left after trimming lies within the text and neither begins nor
/// ends with the character.
pub proof fn trimming_leaves_the_middle(s: Seq<char>, c: char) -> (bounds: (int, int))
    ensures
        0 <= bounds.0 <= bounds.1 <= s.len(),
        trimmed_of(s, c) == s.subrange(bounds.0, bounds.1),
        bounds.0 < bounds.1 ==> s[bounds.0] != c && s[bounds.1 - 1] != c,
{
    let from = lemma_trim_start_middle(s, c);
    let t = s.skip(from);
    let len = lemma_trim_end_middle(t, c);
    assert(t.take(len) == s.subrange(from, from + len));
    if len > 0 {
        assert(t[0] == s[from]);
        assert(t[len - 1] == s[from + len - 1]);
    }
    (from, from + len)
}

proof fn lemma_trim_start_middle(s: Seq<char>, c: char) -> (k: int)
    ensures
        0 <= k <= s.len(),
        trim_start_while(s, equal_to(c)) == s.skip(k),
        k < s.len() ==> s[k] != c,
    decreases s.len(),
{
    if s.len() > 0 && s.first() == c {
        let k = lemma_trim_start_middle(s.drop_first(), c);
        assert(s.drop_first().skip(k) == s.skip(k + 1));
        k + 1
    } else {
        assert(s.skip(0) == s);
        0
    }
}

proof fn lemma_trim_end_middle(s: Seq<char>, c: char) -> (k: int)
    ensures
        0 <= k <= s.len(),
        trim_end_while(s, equal_to(c)) == s.take(k),
        0 < k ==> s[k - 1] != c,
    decreases s.len(),
{
    if s.len() > 0 && s.last() == c {
        let k = lemma_trim_end_middle(s.drop_last(), c);
        assert(s.drop_last().take(k) == s.take(k));
        k
    } else {
        assert(s.take(s.len() as int) == s);
        s.len() as int
    }
}

/// The characters of `s`.
pub fn chars_of(s: &str) -> (r: Vec<char>)
    ensures
        r@ == s@,
{
    let mut r: Vec<char> = Vec::new();
    for c in it: s.chars()
        invariant
            r@ == it.seq().take(it.index() as int),
            it.seq() == s@,
    {
        r.push(c);
        proof {
            assert(it.seq().take(it.index() as int + 1) == it.seq().take(it.index() as int).push(c));
        }
    }
    assert(s@.take(s@.len() as int) == s@);
    r
}

/// The string made of `chars[from]` up to, without, `chars[to]`.
pub fn text_between(chars: &Vec<char>, from: usize, to: usize) -> (r: String)
    requires
        from <= to <= chars@.len(),
    ensures
        r@ == chars@.subrange(from as int, to as int),
{
    let mut r: String = String::new();
    let mut i: usize = from;
    while i < to
        invariant
            from <= i <= to <= chars@.len(),
            r@ == chars@.subrange(from as int, i as int),
        decreases to - i,
    {
        r.push(chars[i]);
        i = i + 1;
        assert(chars@.subrange(from as int, i as int) == chars@.subrange(from as int, i - 1).push(
            chars@[i - 1],
        ));
    }
    r
}

/// Whether the two strings hold the same characters.
pub fn same_text(a: &str, b: &str) -> (r: bool)
    ensures
        r == (a@ == b@),
{
    a.to_owned() == b.to_owned()
}

/// The two strings, one after the other.
pub fn joined(a: &str, b: &str) -> (r: String)
    ensures
        r@ == a@ + b@,
{
    let mut r: String = a.to_owned();
    r.append(b);
    r
}

/// Whether `c` has the Unicode `White_Space` property.
pub fn is_white_space_char(c: char) -> (r: bool)
    ensures
        r == is_white_space(c),
{
    let n: u32 = c as u32;
    (0x9 <= n && n <= 0xd) || n == 0x20 || n == 0x85 || n == 0xa0 || n == 0x1680 || (0x2000 <= n
        && n <= 0x200a) || n == 0x2028 || n == 0x2029 || n == 0x202f || n == 0x205f || n == 0x3000
}

/// Whether `s` holds nothing but white space.
pub fn is_blank_text(s: &str) -> (r: bool)
    ensures
        r == is_blank(s@),
{
    let chars = chars_of(s);
    let mut i: usize = 0;
    while i < chars.len()
        invariant
            i <= chars@.len(),
            chars@ == s@,
            forall|j: int| 0 <= j < i ==> is_white_space(#[trigger] s@[j]),
        decreases chars@.len() - i,
    {
        if !is_white_space_char(chars[i]) {
            return false;
        }
        i = i + 1;
    }
    true
}

/// `s` without leading and trailing white space.
pub fn trim_text(s: &str) -> (r: String)
    ensures
        r@ == trimmed(s@),
{
    let chars = chars_of(s);
    let ghost white = |c: char| is_white_space(c);
    let mut from: usize = 0;
    while from < chars.len() && is_white_space_char(chars[from])
        invariant
            from <= chars@.len(),
            forall|j: int| 0 <= j < from ==> is_white_space(#[trigger] chars@[j]),
        decreases chars@.len() - from,
    {
        from = from + 1;
    }
    let mut to: usize = chars.len();
    while to > from && is_white_space_char(chars[to - 1])
        invariant
            from <= to <= chars@.len(),
            forall|j: int| to <= j < chars@.len() ==> is_white_space(#[trigger] chars@[j]),
        decreases to,
    {
        to = to - 1;
    }
    proof {
        lemma_trim_start_suffix(s@, white, from as int);
        let t = s@.skip(from as int);
        assert forall|i: int| to - from <= i < t.len() implies white(#[trigger] t[i]) by {
            assert(t[i] == chars@[i + from]);
        }
        if to > from {
            assert(t[to - from - 1] == chars@[to - 1]);
        }
        lemma_trim_end_prefix(t, white, to - from);
        assert(t.take(to - from) == chars@.subrange(from as int, to as int));
    }
    text_between(&chars, from, to)
}

/// `s` without any leading or trailing `c`.
pub fn trim_text_of(s: &str, c: char) -> (r: String)
    ensures
        r@ == trimmed_of(s@, c),
{
    let chars = chars_of(s);
    let ghost is_c = equal_to(c);
    let mut from: usize = 0;
    while from < chars.len() && chars[from] == c
        invariant
            from <= chars@.len(),
            forall|j: int| 0 <= j < from ==> #[trigger] chars@[j] == c,
        decreases chars@.len() - from,
    {
        from = from + 1;
    }
    let mut to: usize = chars.len();
    while to > from && chars[to - 1] == c
        invariant
            from <= to <= chars@.len(),
            forall|j: int| to <= j < chars@.len() ==> #[trigger] chars@[j] == c,
        decreases to,
    {
        to = to - 1;
    }
    proof {
        lemma_trim_start_suffix(s@, is_c, from as int);
        let t = s@.skip(from as int);
        assert forall|i: int| to - from <= i < t.len() implies is_c(#[trigger] t[i]) by {
            assert(t[i] == chars@[i + from]);
        }
        if to > from {
            assert(t[to - from - 1] == chars@[to - 1]);
        }
        lemma_trim_end_prefix(t, is_c, to - from);
        assert(t.take(to - from) == chars@.subrange(from as int, to as int));
    }
    text_between(&chars, from, to)
}

/// `s` without any trailing `c`.
pub fn trim_text_end_of(s: &str, c: char) -> (r: String)
    ensures
        r@ == trimmed_end_of(s@, c),
{
    let chars = chars_of(s);
    let mut to: usize = chars.len();
    while to > 0 && chars[to - 1] == c
        invariant
            to <= chars@.len(),
            forall|j: int| to <= j < chars@.len() ==> #[trigger] chars@[j] == c,
        decreases to,
    {
        to = to - 1;
    }
    proof {
        lemma_trim_end_prefix(s@, equal_to(c), to as int);
        assert(s@.take(to as int) == chars@.subrange(0, to as int));
    }
    text_between(&chars, 0, to)
}

/// Whether `s` begins with `prefix`.
pub fn starts_with(s: &str, prefix: &str) -> (r: bool)
    ensures
        r == prefix@.is_prefix_of(s@),
{
    let a = chars_of(s);
    let p = chars_of(prefix);
    if p.len() > a.len() {
        return false;
    }
    let mut i: usize = 0;
    while i < p.len()
        invariant
            i <= p@.len() <= a@.len(),
            a@ == s@,
            p@ == prefix@,
            forall|j: int| 0 <= j < i ==> #[trigger] p@[j] == a@[j],
        decreases p@.len() - i,
    {
        if p[i] != a[i] {
            assert(p@[i as int] != a@.subrange(0, p@.len() as int)[i as int]);
            return false;
        }
        i = i + 1;
    }
    assert(p@ == a@.subrange(0, p@.len() as int));
    true
}

/// What follows `prefix` in `s`, where `s` begins with it.
pub fn strip_prefix<'a>(s: &'a str, prefix: &str) -> (r: Option<&'a str>)
    ensures
        r is Some <==> prefix@.is_prefix_of(s@),
        r matches Some(rest) ==> rest@ == s@.skip(prefix@.len() as int),
{
    if starts_with(s, prefix) {
        Some(s.substring_char(prefix.unicode_len(), s.unicode_len()))
    } else {
        None
    }
}

/// Whether `c` stands somewhere in `s`.
pub fn contains_char(s: &str, c: char) -> (r: bool)
    ensures
        r == s@.contains(c),
{
    let chars = chars_of(s);
    let mut i: usize = 0;
    while i < chars.len()
        invariant
            i <= chars@.len(),
            chars@ == s@,
            forall|j: int| 0 <= j < i ==> #[trigger] chars@[j] != c,
        decreases chars@.len() - i,
    {
        if chars[i] == c {
            return true;
        }
        i = i + 1;
    }
    false
}

/// Whether `part` stands somewhere in `s`.
pub fn contains_part(s: &str, part: &str) -> (r: bool)
    ensures
        r == contains_text(s@, part@),
{
    let a = chars_of(s);
    let p = chars_of(part);
    if p.len() > a.len() {
        return false;
    }
    let size: usize = a.len();
    let last: usize = size - p.len();
    let mut at: usize = 0;
    while at <= last
        invariant
            size == a@.len(),
            a@ == s@,
            p@ == part@,
            last == a@.len() - p@.len(),
            at <= last + 1,
            forall|k: int| 0 <= k < at ==> !(#[trigger] occurs_at(s@, part@, k)),
        decreases last + 1 - at,
    {
        let mut i: usize = 0;
        while i < p.len() && a[at + i] == p[i]
            invariant
                a@ == s@,
                p@ == part@,
                i <= p@.len(),
                at + p@.len() <= size == a@.len(),
                forall|j: int| 0 <= j < i ==> #[trigger] p@[j] == a@[at + j],
            decreases p@.len() - i,
        {
            i = i + 1;
        }
        if i == p.len() {
            assert(s@.subrange(at as int, at + part@.len()) == part@);
            assert(occurs_at(s@, part@, at as int));
            return true;
        }
        assert(s@.subrange(at as int, at + part@.len())[i as int] != part@[i as int]);
        if at == last {
            assert forall|k: int| !(#[trigger] occurs_at(s@, part@, k)) by {}
            return false;
        }
        at = at + 1;
    }
    false
}

/// The decimal digits of `n`.
pub fn decimal_text(n: u64) -> (r: String)
    ensures
        r@ == decimal(n as nat),
    decreases n,
{
    let digit: u8 = (n % 10) as u8;
    let mut r: String = if n < 10 {
        String::new()
    } else {
        decimal_text(n / 10)
    };
    let c: char = (48u8 + digit) as char;
    assert(c == digit_char((n % 10) as int));
    r.push(c);
    assert(r@ == decimal(n as nat));
    r
}

/// A copy of an optional string.
pub fn copy_opt(text: &Option<String>) -> (r: Option<String>)
    ensures
        r == *text,
{
    match text {
        Some(t) => Some(t.clone()),
        None => None,
    }
}

/// The characters that count as white space: tab to carriage return, space,
/// next line, the no-break and other spaces of Unicode, and its line and
/// paragraph separators; no others.
pub proof fn white_space_is_what_unicode_says(c: char)
    ensures
        is_white_space(c) <==> (c == '\u{9}' || c == '\u{a}' || c == '\u{b}' || c == '\u{c}' || c
            == '\u{d}' || c == ' ' || c == '\u{85}' || c == '\u{a0}' || c == '\u{1680}' || (
        '\u{2000}' <= c <= '\u{200a}') || c == '\u{2028}' || c == '\u{2029}' || c == '\u{202f}'
            || c == '\u{205f}' || c == '\u{3000}'),
{
}

/// Text is blank exactly if no character of it is other than white space.
pub proof fn blank_text_holds_nothing_but_white_space(s: Seq<char>)
    ensures
        is_blank(s) <==> !(exists|i: int| 0 <= i < s.len() && !is_white_space(#[trigger] s[i])),
{
}

/// Trimming takes white space off both ends, all of it, and nothing else: what
/// is left is what lies between, and neither begins nor ends with any.
pub proof fn trimming_takes_off_white_space_only(s: Seq<char>) -> (bounds: (int, int))
    ensures
        0 <= bounds.0 <= bounds.1 <= s.len(),
        trimmed(s) == s.subrange(bounds.0, bounds.1),
        forall|i: int| 0 <= i < bounds.0 ==> is_white_space(#[trigger] s[i]),
        forall|i: int| bounds.1 <= i < s.len() ==> is_white_space(#[trigger] s[i]),
        bounds.0 < bounds.1 ==> !is_white_space(s[bounds.0]) && !is_white_space(s[bounds.1 - 1]),
{
    let white = |c: char| is_white_space(c);
    let from = lemma_trim_start_bound(s, white);
    let t = s.skip(from);
    let len = lemma_trim_end_bound(t, white);
    assert(t.take(len) == s.subrange(from, from + len));
    assert forall|i: int| from + len <= i < s.len() implies is_white_space(#[trigger] s[i]) by {
        assert(t[i - from] == s[i]);
        assert(white(t[i - from]));
    }
    assert forall|i: int| 0 <= i < from implies is_white_space(#[trigger] s[i]) by {
        assert(white(s[i]));
    }
    if len > 0 {
        assert(t[0] == s[from]);
        assert(t[len - 1] == s[from + len - 1]);
        assert(!white(t[len - 1]));
        assert(!white(s[from]));
    }
    (from, from + len)
}

proof fn lemma_trim_start_bound(s: Seq<char>, drop: spec_fn(char) -> bool) -> (k: int)
    ensures
        0 <= k <= s.len(),
        trim_start_while(s, drop) == s.skip(k),
        forall|i: int| 0 <= i < k ==> drop(#[trigger] s[i]),
        k < s.len() ==> !drop(s[k]),
    decreases s.len(),
{
    if s.len() > 0 && drop(s.first()) {
        let rest = s.drop_first();
        let k = lemma_trim_start_bound(rest, drop);
        assert(rest.skip(k) == s.skip(k + 1));
        assert forall|i: int| 0 <= i < k + 1 implies drop(#[trigger] s[i]) by {
            if i > 0 {
                assert(rest[i - 1] == s[i]);
            }
        }
        k + 1
    } else {
        assert(s.skip(0) == s);
        0
    }
}

proof fn lemma_trim_end_bound(s: Seq<char>, drop: spec_fn(char) -> bool) -> (k: int)
    ensures
        0 <= k <= s.len(),
        trim_end_while(s, drop) == s.take(k),
        forall|i: int| k <= i < s.len() ==> drop(#[trigger] s[i]),
        0 < k ==> !drop(s[k - 1]),
    decreases s.len(),
{
    if s.len() > 0 && drop(s.last()) {
        let rest = s.drop_last();
        let k = lemma_trim_end_bound(rest, drop);
        assert(rest.take(k) == s.take(k));
        assert forall|i: int| k <= i < s.len() implies drop(#[trigger] s[i]) by {
            if i < rest.len() {
                assert(rest[i] == s[i]);
            }
        }
        k
    } else {
        assert(s.take(s.len() as int) == s);
        s.len() as int
    }
}

/// Trimming a character takes all of it off both ends, and nothing else.
pub proof fn trimming_takes_off_one_character_only(s: Seq<char>, c: char) -> (bounds: (int, int))
    ensures
        0 <= bounds.0 <= bounds.1 <= s.len(),
        trimmed_of(s, c) == s.subrange(bounds.0, bounds.1),
        forall|i: int| 0 <= i < bounds.0 ==> #[trigger] s[i] == c,
        forall|i: int| bounds.1 <= i < s.len() ==> #[trigger] s[i] == c,
        bounds.0 < bounds.1 ==> s[bounds.0] != c && s[bounds.1 - 1] != c,
{
    let from = lemma_trim_start_bound(s, equal_to(c));
    let t = s.skip(from);
    let len = lemma_trim_end_bound(t, equal_to(c));
    assert(t.take(len) == s.subrange(from, from + len));
    assert forall|i: int| from + len <= i < s.len() implies #[trigger] s[i] == c by {
        assert(t[i - from] == s[i]);
        assert(equal_to(c)(t[i - from]));
    }
    assert forall|i: int| 0 <= i < from implies #[trigger] s[i] == c by {
        assert(equal_to(c)(s[i]));
    }
    if len > 0 {
        assert(t[0] == s[from]);
        assert(t[len - 1] == s[from + len - 1]);
        assert(!equal_to(c)(t[len - 1]));
        assert(!equal_to(c)(s[from]));
    }
    (from, from + len)
}

/// A text that does not end with the character stays as it is, however often
/// the character is put behind it before it is trimmed off.
pub proof fn what_was_put_behind_is_trimmed_off(s: Seq<char>, c: char, times: nat)
    requires
        s.len() > 0 ==> s.last() != c,
    ensures
        trimmed_end_of(s + Seq::new(times, |i: int| c), c) == s,
    decreases times,
{
    let all = s + Seq::new(times, |i: int| c);
    if times == 0 {
        assert(all == s);
    } else {
        let less = (times - 1) as nat;
        assert(all.drop_last() == s + Seq::new(less, |i: int| c));
        assert(all.last() == c);
        what_was_put_behind_is_trimmed_off(s, c, less);
    }
}

/// Text contains a part exactly if it is the part with something before it and
/// something behind.
pub proof fn containing_is_standing_between(s: Seq<char>, part: Seq<char>)
    ensures
        contains_text(s, part) <==> exists|before: Seq<char>, behind: Seq<char>|
            s == #[trigger] (before + part + behind),
{
    if contains_text(s, part) {
        let at = choose|at: int| #[trigger] occurs_at(s, part, at);
        let before = s.take(at);
        let behind = s.skip(at + part.len());
        assert(s == before + part + behind);
    }
    if exists|before: Seq<char>, behind: Seq<char>| s == #[trigger] (before + part + behind) {
        let (before, behind) = choose|before: Seq<char>, behind: Seq<char>|
            s == #[trigger] (before + part + behind);
        let at = before.len() as int;
        assert(s.subrange(at, at + part.len()) == part);
        assert(occurs_at(s, part, at));
    }
}

/// The number that decimal digits stand for.
pub open spec fn number_of(digits: Seq<char>) -> int
    decreases digits.len(),
{
    if digits.len() == 0 {
        0
    } else {
        10 * number_of(digits.drop_last()) + (digits.last() as int - '0' as int)
    }
}

/// The digits of a number stand for it, are decimal digits all, and begin with
/// zero only where the number is zero.
pub proof fn digits_stand_for_their_number(n: nat)
    ensures
        number_of(decimal(n)) == n,
        decimal(n).len() > 0,
        forall|i: int| 0 <= i < decimal(n).len() ==> '0' <= #[trigger] decimal(n)[i] <= '9',
        decimal(n)[0] == '0' ==> n == 0 && decimal(n).len() == 1,
    decreases n,
{
    let digits = decimal(n);
    if n < 10 {
        assert(digits.drop_last() == Seq::<char>::empty());
        assert(number_of(digits.drop_last()) == 0);
    } else {
        digits_stand_for_their_number(n / 10);
        assert(digits.drop_last() == decimal(n / 10));
        assert(digits[0] == decimal(n / 10)[0]);
        assert forall|i: int| 0 <= i < digits.len() implies '0' <= #[trigger] digits[i] <= '9' by {
            if i < digits.len() - 1 {
                assert(digits[i] == decimal(n / 10)[i]);
            }
        }
    }
}

/// Strings are seen as they are, one by one in a list, and where there is one.
pub proof fn strings_are_seen_as_they_are(list: Seq<String>, i: int, text: String)
    ensures
        texts(list).len() == list.len(),
        0 <= i < list.len() ==> texts(list)[i] == list[i]@,
        opt_text(Some(text)) == Some(text@),
        opt_text(None) is None,
{
}

} // verus!

//! Character-level helpers: trimming, splitting into words and fields,
//! decimal numbers, and comparison with literals.

use vstd::prelude::*;
use vstd::string::*;

verus! {

/// `String::push` of std appends the given character to the end of the
/// string: its characters afterwards are those before, then that one.
pub assume_specification[ String::push ](s: &mut String, c: char)
    ensures
        final(s)@ == old(s)@.push(c),
;

/// The characters with the Unicode property White_Space.
pub open spec fn is_space(c: char) -> bool {
    let u = c as u32;
    (0x09 <= u <= 0x0D) || u == 0x20 || u == 0x85 || u == 0xA0 || u == 0x1680 || (0x2000 <= u
        <= 0x200A) || u == 0x2028 || u == 0x2029 || u == 0x202F || u == 0x205F || u == 0x3000
}

pub open spec fn is_digit(c: char) -> bool {
    '0' <= c <= '9'
}

pub open spec fn digit_value(c: char) -> nat {
    (c as u32 - '0' as u32) as nat
}

/// The number that a run of decimal digits writes; nothing for an empty
/// run or one with another character in it.
pub open spec fn decimal_value(s: Seq<char>) -> Option<nat>
    decreases s.len(),
{
    if s.len() == 0 {
        None
    } else if !is_digit(s.last()) {
        None
    } else if s.len() == 1 {
        Some(digit_value(s.last()))
    } else {
        match decimal_value(s.drop_last()) {
            Some(v) => Some(v * 10 + digit_value(s.last())),
            None => None,
        }
    }
}

/// A decimal number that is at most `max`.
pub open spec fn bounded_decimal(s: Seq<char>, max: nat) -> Option<nat> {
    match decimal_value(s) {
        Some(v) => if v <= max {
            Some(v)
        } else {
            None
        },
        None => None,
    }
}

/// Index of the first `sep` at or after `from`; the length if there is none.
pub open spec fn find_char(s: Seq<char>, sep: char, from: int) -> int
    decreases s.len() - from,
{
    if from >= s.len() {
        s.len() as int
    } else if s[from] == sep {
        from
    } else {
        find_char(s, sep, from + 1)
    }
}

/// The fields between the occurrences of `sep`; one more than there are
/// separators, empty fields included.
pub open spec fn split_on(s: Seq<char>, sep: char) -> Seq<Seq<char>>
    decreases s.len(),
{
    let i = find_char(s, sep, 0);
    if 0 <= i < s.len() {
        seq![s.take(i)] + split_on(s.skip(i + 1), sep)
    } else {
        seq![s]
    }
}

/// Index of the first character at or after `from` that is not white
/// space; the length if there is none.
pub open spec fn skip_spaces(s: Seq<char>, from: int) -> int
    decreases s.len() - from,
{
    if from >= s.len() {
        s.len() as int
    } else if !is_space(s[from]) {
        from
    } else {
        skip_spaces(s, from + 1)
    }
}

/// Index of the first white space at or after `from`; the length if there
/// is none.
pub open spec fn skip_word(s: Seq<char>, from: int) -> int
    decreases s.len() - from,
{
    if from >= s.len() {
        s.len() as int
    } else if is_space(s[from]) {
        from
    } else {
        skip_word(s, from + 1)
    }
}

/// The maximal runs of characters that are not white space, in order.
pub open spec fn words(s: Seq<char>) -> Seq<Seq<char>>
    decreases s.len(),
{
    let a = skip_spaces(s, 0);
    if 0 <= a < s.len() {
        let b = skip_word(s, a);
        if a < b <= s.len() {
            seq![s.subrange(a, b)] + words(s.skip(b))
        } else {
            Seq::empty()
        }
    } else {
        Seq::empty()
    }
}

/// `s` without its leading white space.
pub open spec fn trim_start(s: Seq<char>) -> Seq<char> {
    s.skip(skip_spaces(s, 0))
}

/// Length of `s` without its trailing white space.
pub open spec fn trimmed_len(s: Seq<char>) -> int
    decreases s.len(),
{
    if s.len() == 0 {
        0
    } else if !is_space(s.last()) {
        s.len() as int
    } else {
        trimmed_len(s.drop_last())
    }
}

/// `s` without its leading and trailing white space.
pub open spec fn trim(s: Seq<char>) -> Seq<char> {
    let t = trim_start(s);
    t.take(trimmed_len(t))
}

/// The `n`-th word, if there are that many.
pub open spec fn word_at(ws: Seq<Seq<char>>, n: int) -> Option<Seq<char>> {
    if 0 <= n < ws.len() {
        Some(ws[n])
    } else {
        None
    }
}

/// The text of an optional string.
pub open spec fn text_of(s: Option<String>) -> Option<Seq<char>> {
    match s {
        Some(t) => Some(t@),
        None => None,
    }
}

/// An optional text, or `default` in its place.
pub open spec fn text_or(s: Option<Seq<char>>, default: Seq<char>) -> Seq<char> {
    match s {
        Some(t) => t,
        None => default,
    }
}

/// The views of a sequence of character vectors.
pub open spec fn views(v: Seq<Vec<char>>) -> Seq<Seq<char>> {
    v.map_values(|x: Vec<char>| x@)
}

proof fn lemma_find_char_bounds(s: Seq<char>, sep: char, from: int)
    requires
        0 <= from <= s.len(),
    ensures
        from <= find_char(s, sep, from) <= s.len(),
        find_char(s, sep, from) < s.len() ==> s[find_char(s, sep, from)] == sep,
        forall|k: int| from <= k < find_char(s, sep, from) ==> s[k] != sep,
    decreases s.len() - from,
{
    if from < s.len() && s[from] != sep {
        lemma_find_char_bounds(s, sep, from + 1);
    }
}

proof fn lemma_skip_spaces_bounds(s: Seq<char>, from: int)
    requires
        0 <= from <= s.len(),
    ensures
        from <= skip_spaces(s, from) <= s.len(),
        skip_spaces(s, from) < s.len() ==> !is_space(s[skip_spaces(s, from)]),
        forall|k: int| from <= k < skip_spaces(s, from) ==> is_space(s[k]),
    decreases s.len() - from,
{
    if from < s.len() && is_space(s[from]) {
        lemma_skip_spaces_bounds(s, from + 1);
    }
}

proof fn lemma_skip_word_bounds(s: Seq<char>, from: int)
    requires
        0 <= from <= s.len(),
    ensures
        from <= skip_word(s, from) <= s.len(),
        skip_word(s, from) < s.len() ==> is_space(s[skip_word(s, from)]),
        forall|k: int| from <= k < skip_word(s, from) ==> !is_space(s[k]),
        from < s.len() && !is_space(s[from]) ==> from < skip_word(s, from),
    decreases s.len() - from,
{
    if from < s.len() && !is_space(s[from]) {
        lemma_skip_word_bounds(s, from + 1);
    }
}

proof fn lemma_trimmed_len_bounds(s: Seq<char>)
    ensures
        0 <= trimmed_len(s) <= s.len(),
        trimmed_len(s) > 0 ==> !is_space(s[trimmed_len(s) - 1]),
        forall|k: int| trimmed_len(s) <= k < s.len() ==> is_space(s[k]),
    decreases s.len(),
{
    if s.len() > 0 && is_space(s.last()) {
        lemma_trimmed_len_bounds(s.drop_last());
        assert forall|k: int| trimmed_len(s) <= k < s.len() implies is_space(s[k]) by {
            if k < s.len() - 1 {
                assert(s.drop_last()[k] == s[k]);
            }
        }
    }
}

/// A trimmed text is a part of the text, and neither begins nor ends with
/// white space; what is cut off at either end is white space only.
pub proof fn lemma_trim_strips_white_space(s: Seq<char>)
    ensures
        trim(s).len() > 0 ==> !is_space(trim(s).first()) && !is_space(trim(s).last()),
        exists|lo: int, hi: int|
            0 <= lo <= hi <= s.len() && trim(s) == s.subrange(lo, hi) && (forall|k: int|
                0 <= k < lo ==> is_space(s[k])) && (forall|k: int|
                hi <= k < s.len() ==> is_space(s[k])),
{
    lemma_skip_spaces_bounds(s, 0);
    let lo = skip_spaces(s, 0);
    let t = trim_start(s);
    lemma_trimmed_len_bounds(t);
    let n = trimmed_len(t);
    let hi = lo + n;
    assert(trim(s) =~= s.subrange(lo, hi));
    if n > 0 {
        assert(t[n - 1] == s[lo + n - 1]);
        assert(trim(s).last() == t[n - 1]);
        assert(trim(s).first() == s[lo]);
    } else {
    }
    assert forall|k: int| hi <= k < s.len() implies is_space(s[k]) by {
        assert(t[k - lo] == s[k]);
    }
    assert(0 <= lo <= hi <= s.len() && trim(s) == s.subrange(lo, hi) && (forall|k: int|
        0 <= k < lo ==> is_space(s[k])) && (forall|k: int| hi <= k < s.len() ==> is_space(s[k])));
}

/// Every word has at least one character, and none that is white space.
pub proof fn lemma_words_hold_no_white_space(s: Seq<char>, i: int)
    requires
        0 <= i < words(s).len(),
    ensures
        words(s)[i].len() > 0,
        forall|k: int| 0 <= k < words(s)[i].len() ==> !is_space(#[trigger] words(s)[i][k]),
    decreases s.len(),
{
    lemma_skip_spaces_bounds(s, 0);
    let a = skip_spaces(s, 0);
    if a < s.len() {
        lemma_skip_word_bounds(s, a);
        let b = skip_word(s, a);
        if i == 0 {
            assert(words(s)[0] == s.subrange(a, b));
            assert forall|k: int| 0 <= k < words(s)[0].len() implies !is_space(
                #[trigger] words(s)[0][k],
            ) by {
                assert(s.subrange(a, b)[k] == s[a + k]);
            }
        } else {
            assert(words(s)[i] == words(s.skip(b))[i - 1]);
            lemma_words_hold_no_white_space(s.skip(b), i - 1);
        }
    }
}

/// No field holds the separator.
pub proof fn lemma_fields_hold_no_separator(s: Seq<char>, sep: char, i: int)
    requires
        0 <= i < split_on(s, sep).len(),
    ensures
        forall|k: int| 0 <= k < split_on(s, sep)[i].len() ==> #[trigger] split_on(s, sep)[i][k]
            != sep,
    decreases s.len(),
{
    lemma_find_char_bounds(s, sep, 0);
    let at = find_char(s, sep, 0);
    if at < s.len() {
        if i == 0 {
            assert(split_on(s, sep)[0] == s.take(at));
            assert forall|k: int| 0 <= k < split_on(s, sep)[0].len() implies #[trigger] split_on(
                s,
                sep,
            )[0][k] != sep by {
                assert(s.take(at)[k] == s[k]);
            }
        } else {
            assert(split_on(s, sep)[i] == split_on(s.skip(at + 1), sep)[i - 1]);
            lemma_fields_hold_no_separator(s.skip(at + 1), sep, i - 1);
        }
    } else {
        assert(split_on(s, sep) =~= seq![s]);
    }
}

/// The search from `from` in `s` is the search from the start in the rest.
proof fn lemma_find_char_skip(s: Seq<char>, sep: char, from: int, k: int)
    requires
        0 <= from <= k <= s.len(),
    ensures
        find_char(s.skip(from), sep, k - from) == find_char(s, sep, k) - from,
    decreases s.len() - k,
{
    if k < s.len() {
        assert(s.skip(from)[k - from] == s[k]);
        if s[k] != sep {
            lemma_find_char_skip(s, sep, from, k + 1);
        }
    }
}

proof fn lemma_skip_spaces_skip(s: Seq<char>, from: int, k: int)
    requires
        0 <= from <= k <= s.len(),
    ensures
        skip_spaces(s.skip(from), k - from) == skip_spaces(s, k) - from,
    decreases s.len() - k,
{
    if k < s.len() {
        assert(s.skip(from)[k - from] == s[k]);
        if is_space(s[k]) {
            lemma_skip_spaces_skip(s, from, k + 1);
        }
    }
}

proof fn lemma_skip_word_skip(s: Seq<char>, from: int, k: int)
    requires
        0 <= from <= k <= s.len(),
    ensures
        skip_word(s.skip(from), k - from) == skip_word(s, k) - from,
    decreases s.len() - k,
{
    if k < s.len() {
        assert(s.skip(from)[k - from] == s[k]);
        if !is_space(s[k]) {
            lemma_skip_word_skip(s, from, k + 1);
        }
    }
}

/// The characters of a string, in order.
pub fn to_chars(s: &str) -> (v: Vec<char>)
    ensures
        v@ == s@,
{
    let mut v: Vec<char> = Vec::new();
    for c in it: s.chars()
        invariant
            v@ == it.seq().take(it.index() as int),
            it.seq() == s@,
    {
        v.push(c);
        assert(it.seq().take(it.index() + 1) =~= it.seq().take(it.index() as int).push(c));
    }
    assert(v@ =~= s@);
    v
}

/// The string made of the characters `chars[lo..hi]`.
pub(crate) fn to_string_range(chars: &Vec<char>, lo: usize, hi: usize) -> (s: String)
    requires
        lo <= hi <= chars@.len(),
    ensures
        s@ == chars@.subrange(lo as int, hi as int),
{
    let mut s = String::new();
    let mut i: usize = lo;
    while i < hi
        invariant
            lo <= i <= hi <= chars@.len(),
            s@ == chars@.subrange(lo as int, i as int),
        decreases hi - i,
    {
        s.push(chars[i]);
        assert(chars@.subrange(lo as int, i + 1) =~= chars@.subrange(lo as int, i as int).push(
            chars@[i as int],
        ));
        i += 1;
    }
    s
}

/// The string made of the given characters.
pub fn to_string(chars: &Vec<char>) -> (s: String)
    ensures
        s@ == chars@,
{
    let s = to_string_range(chars, 0, chars.len());
    assert(chars@.subrange(0, chars@.len() as int) =~= chars@);
    s
}

/// A copy of `chars[lo..hi]`.
pub(crate) fn copy_range(chars: &Vec<char>, lo: usize, hi: usize) -> (v: Vec<char>)
    requires
        lo <= hi <= chars@.len(),
    ensures
        v@ == chars@.subrange(lo as int, hi as int),
{
    let mut v: Vec<char> = Vec::new();
    let mut i: usize = lo;
    while i < hi
        invariant
            lo <= i <= hi <= chars@.len(),
            v@ == chars@.subrange(lo as int, i as int),
        decreases hi - i,
    {
        v.push(chars[i]);
        assert(chars@.subrange(lo as int, i + 1) =~= chars@.subrange(lo as int, i as int).push(
            chars@[i as int],
        ));
        i += 1;
    }
    v
}

pub fn is_whitespace(c: char) -> (r: bool)
    ensures
        r == is_space(c),
{
    let u = c as u32;
    (0x09 <= u && u <= 0x0D) || u == 0x20 || u == 0x85 || u == 0xA0 || u == 0x1680 || (0x2000 <= u
        && u <= 0x200A) || u == 0x2028 || u == 0x2029 || u == 0x202F || u == 0x205F || u == 0x3000
}

/// Whether `chars` is exactly the text `lit`.
pub fn eq_str(chars: &Vec<char>, lit: &str) -> (r: bool)
    ensures
        r == (chars@ == lit@),
{
    let other = to_chars(lit);
    if other.len() != chars.len() {
        return false;
    }
    let mut i: usize = 0;
    while i < chars.len()
        invariant
            i <= chars@.len(),
            other@.len() == chars@.len(),
            other@ == lit@,
            forall|k: int| 0 <= k < i ==> chars@[k] == other@[k],
        decreases chars@.len() - i,
    {
        if chars[i] != other[i] {
            return false;
        }
        i += 1;
    }
    assert(chars@ =~= other@);
    true
}

/// Whether two texts are the same.
pub fn chars_eq(a: &Vec<char>, b: &Vec<char>) -> (r: bool)
    ensures
        r == (a@ == b@),
{
    if a.len() != b.len() {
        return false;
    }
    let mut i: usize = 0;
    while i < a.len()
        invariant
            i <= a@.len(),
            a@.len() == b@.len(),
            forall|k: int| 0 <= k < i ==> a@[k] == b@[k],
        decreases a@.len() - i,
    {
        if a[i] != b[i] {
            return false;
        }
        i += 1;
    }
    assert(a@ =~= b@);
    true
}

/// Whether `chars` begins with the text `lit`.
pub fn has_prefix(chars: &Vec<char>, lit: &str) -> (r: bool)
    ensures
        r == lit@.is_prefix_of(chars@),
{
    let other = to_chars(lit);
    if other.len() > chars.len() {
        return false;
    }
    let mut i: usize = 0;
    while i < other.len()
        invariant
            i <= other@.len() <= chars@.len(),
            other@ == lit@,
            forall|k: int| 0 <= k < i ==> chars@[k] == other@[k],
        decreases other@.len() - i,
    {
        if chars[i] != other[i] {
            assert(chars@.subrange(0, other@.len() as int)[i as int] != other@[i as int]);
            return false;
        }
        i += 1;
    }
    assert(chars@.subrange(0, other@.len() as int) =~= other@);
    true
}

/// The text without its leading and trailing white space.
pub fn trimmed(chars: &Vec<char>) -> (t: Vec<char>)
    ensures
        t@ == trim(chars@),
{
    let mut lo: usize = 0;
    while lo < chars.len() && is_whitespace(chars[lo])
        invariant
            lo <= chars@.len(),
            skip_spaces(chars@, 0) == skip_spaces(chars@, lo as int),
        decreases chars@.len() - lo,
    {
        lo += 1;
    }
    let ghost rest = chars@.skip(lo as int);
    let mut hi: usize = chars.len();
    assert(rest.take(hi - lo) =~= rest);
    while hi > lo && is_whitespace(chars[hi - 1])
        invariant
            lo <= hi <= chars@.len(),
            rest == chars@.skip(lo as int),
            trimmed_len(rest) == trimmed_len(rest.take(hi - lo)),
        decreases hi,
    {
        assert(rest.take(hi - lo).last() == chars@[hi - 1]);
        assert(rest.take(hi - lo).drop_last() =~= rest.take(hi - 1 - lo));
        hi -= 1;
    }
    proof {
        assert(rest.take(rest.len() as int) =~= rest);
        let r = rest.take(hi - lo);
        if hi > lo {
            assert(r.last() == chars@[hi - 1]);
        }
        assert(trimmed_len(r) == r.len());
        assert(chars@.subrange(lo as int, hi as int) =~= rest.take(hi - lo));
    }
    copy_range(chars, lo, hi)
}

/// The words of a text: its maximal runs without white space.
pub fn split_words(chars: &Vec<char>) -> (parts: Vec<Vec<char>>)
    ensures
        views(parts@) == words(chars@),
{
    let mut parts: Vec<Vec<char>> = Vec::new();
    let mut at: usize = 0;
    assert(chars@.skip(0) =~= chars@);
    assert(views(parts@) =~= Seq::<Seq<char>>::empty());
    loop
        invariant
            at <= chars@.len(),
            words(chars@) == views(parts@) + words(chars@.skip(at as int)),
        decreases chars@.len() - at,
    {
        let ghost rest = chars@.skip(at as int);
        let mut a: usize = at;
        while a < chars.len() && is_whitespace(chars[a])
            invariant
                at <= a <= chars@.len(),
                skip_spaces(chars@, at as int) == skip_spaces(chars@, a as int),
            decreases chars@.len() - a,
        {
            a += 1;
        }
        proof {
            lemma_skip_spaces_skip(chars@, at as int, at as int);
        }
        if a >= chars.len() {
            assert(words(rest) =~= Seq::<Seq<char>>::empty());
            assert(views(parts@) + words(rest) =~= views(parts@));
            return parts;
        }
        let mut b: usize = a;
        while b < chars.len() && !is_whitespace(chars[b])
            invariant
                a <= b <= chars@.len(),
                skip_word(chars@, a as int) == skip_word(chars@, b as int),
            decreases chars@.len() - b,
        {
            b += 1;
        }
        proof {
            lemma_skip_word_skip(chars@, at as int, a as int);
            assert(skip_spaces(rest, 0) == a - at);
            assert(skip_word(rest, a - at) == b - at);
            assert(rest.subrange(a - at, b - at) =~= chars@.subrange(a as int, b as int));
            assert(rest.skip(b - at) =~= chars@.skip(b as int));
        }
        let word = copy_range(chars, a, b);
        let ghost before = views(parts@);
        parts.push(word);
        proof {
            assert(views(parts@) =~= before.push(chars@.subrange(a as int, b as int)));
            assert(words(rest) == seq![chars@.subrange(a as int, b as int)] + words(
                chars@.skip(b as int),
            ));
            assert(before + (seq![chars@.subrange(a as int, b as int)] + words(
                chars@.skip(b as int),
            )) =~= views(parts@) + words(chars@.skip(b as int)));
        }
        at = b;
    }
}

/// The fields of a text between the occurrences of `sep`.
pub fn split_fields(chars: &Vec<char>, sep: char) -> (parts: Vec<Vec<char>>)
    ensures
        views(parts@) == split_on(chars@, sep),
{
    let mut parts: Vec<Vec<char>> = Vec::new();
    let mut at: usize = 0;
    assert(chars@.skip(0) =~= chars@);
    assert(views(parts@) =~= Seq::<Seq<char>>::empty());
    loop
        invariant
            at <= chars@.len(),
            split_on(chars@, sep) == views(parts@) + split_on(chars@.skip(at as int), sep),
        decreases chars@.len() - at,
    {
        let ghost rest = chars@.skip(at as int);
        let mut b: usize = at;
        while b < chars.len() && chars[b] != sep
            invariant
                at <= b <= chars@.len(),
                find_char(chars@, sep, at as int) == find_char(chars@, sep, b as int),
            decreases chars@.len() - b,
        {
            b += 1;
        }
        proof {
            lemma_find_char_skip(chars@, sep, at as int, at as int);
            assert(find_char(rest, sep, 0) == b - at);
            assert(rest.take(b - at) =~= chars@.subrange(at as int, b as int));
        }
        let field = copy_range(chars, at, b);
        let ghost before = views(parts@);
        parts.push(field);
        assert(views(parts@) =~= before.push(chars@.subrange(at as int, b as int)));
        if b >= chars.len() {
            proof {
                assert(rest.take(rest.len() as int) =~= rest);
                assert(split_on(rest, sep) =~= seq![rest]);
                assert(before + seq![rest] =~= views(parts@));
            }
            return parts;
        }
        proof {
            assert(rest.skip(b - at + 1) =~= chars@.skip(b + 1));
            assert(before + (seq![rest.take(b - at)] + split_on(chars@.skip(b + 1), sep))
                =~= views(parts@) + split_on(chars@.skip(b + 1), sep));
        }
        at = b + 1;
    }
}

/// Reads a decimal number that is at most `max`.
pub fn parse_decimal(chars: &Vec<char>, max: u64) -> (r: Option<u64>)
    ensures
        r is Some <==> bounded_decimal(chars@, max as nat) is Some,
        r matches Some(v) ==> bounded_decimal(chars@, max as nat) == Some(v as nat),
{
    if chars.len() == 0 {
        return None;
    }
    let mut value: u64 = 0;
    let mut i: usize = 0;
    while i < chars.len()
        invariant
            i <= chars@.len(),
            chars@.len() > 0,
            value <= max,
            i > 0 ==> decimal_value(chars@.take(i as int)) == Some(value as nat),
            i == 0 ==> value == 0,
        decreases chars@.len() - i,
    {
        let c = chars[i];
        let ghost pre = chars@.take(i + 1);
        proof {
            assert(pre.last() == c);
            assert(pre.drop_last() =~= chars@.take(i as int));
            lemma_decimal_prefix(chars@, i + 1);
        }
        if !('0' <= c && c <= '9') {
            return None;
        }
        let d = (c as u32 - '0' as u32) as u64;
        let next: u128 = value as u128 * 10 + d as u128;
        assert(decimal_value(pre) == Some(next as nat));
        if next > max as u128 {
            proof {
                if decimal_value(chars@) is Some {
                    lemma_decimal_grows(chars@, i + 1);
                }
            }
            return None;
        }
        value = next as u64;
        i += 1;
    }
    assert(chars@.take(chars@.len() as int) =~= chars@);
    Some(value)
}

/// A text is a number only if each of its prefixes is one.
pub proof fn lemma_decimal_prefix(s: Seq<char>, n: int)
    requires
        0 < n <= s.len(),
    ensures
        decimal_value(s) is Some ==> decimal_value(s.take(n)) is Some,
    decreases s.len() - n,
{
    if n < s.len() {
        assert(s.drop_last().take(n) =~= s.take(n));
        if decimal_value(s) is Some {
            lemma_decimal_prefix(s.drop_last(), n);
        }
    } else {
        assert(s.take(n) =~= s);
    }
}

/// The number of a text is at least that of each of its prefixes.
pub proof fn lemma_decimal_grows(s: Seq<char>, n: int)
    requires
        0 < n <= s.len(),
        decimal_value(s) is Some,
    ensures
        decimal_value(s.take(n)) is Some,
        decimal_value(s.take(n))->0 <= decimal_value(s)->0,
    decreases s.len() - n,
{
    lemma_decimal_prefix(s, n);
    if n < s.len() {
        assert(s.drop_last().take(n) =~= s.take(n));
        lemma_decimal_grows(s.drop_last(), n);
    } else {
        assert(s.take(n) =~= s);
    }
}

/// One number of a dotted IPv4 address: one to three digits, no leading
/// zero before another digit, at most 255.
pub open spec fn ipv4_octet(s: Seq<char>) -> Option<u8> {
    if 1 <= s.len() <= 3 && (s.len() == 1 || s[0] != '0') {
        match bounded_decimal(s, 255) {
            Some(v) => Some(v as u8),
            None => None,
        }
    } else {
        None
    }
}

/// The four bytes of a dotted IPv4 address: exactly four numbers with a
/// dot between each two, and nothing else.
pub open spec fn ipv4_octets(s: Seq<char>) -> Option<Seq<u8>> {
    let f = split_on(s, '.');
    if f.len() == 4 && ipv4_octet(f[0]) is Some && ipv4_octet(f[1]) is Some && ipv4_octet(f[2])
        is Some && ipv4_octet(f[3]) is Some {
        Some(
            seq![
                ipv4_octet(f[0])->0,
                ipv4_octet(f[1])->0,
                ipv4_octet(f[2])->0,
                ipv4_octet(f[3])->0,
            ],
        )
    } else {
        None
    }
}

/// Reads one number of a dotted IPv4 address.
pub fn parse_ipv4_octet(field: &Vec<char>) -> (r: Option<u8>)
    ensures
        r == ipv4_octet(field@),
{
    if field.len() < 1 || field.len() > 3 {
        return None;
    }
    if field.len() > 1 && field[0] == '0' {
        return None;
    }
    match parse_decimal(field, 255) {
        Some(v) => Some(v as u8),
        None => None,
    }
}

/// Reads a dotted IPv4 address.
pub fn parse_ipv4(text: &str) -> (r: Option<[u8; 4]>)
    ensures
        r is Some <==> ipv4_octets(text@) is Some,
        r matches Some(a) ==> a@ == ipv4_octets(text@)->0,
{
    let chars = to_chars(text);
    let fields = split_fields(&chars, '.');
    assert(views(fields@).len() == fields@.len());
    if fields.len() != 4 {
        return None;
    }
    assert(views(fields@)[0] == fields@[0]@);
    assert(views(fields@)[1] == fields@[1]@);
    assert(views(fields@)[2] == fields@[2]@);
    assert(views(fields@)[3] == fields@[3]@);
    let a = match parse_ipv4_octet(&fields[0]) {
        Some(v) => v,
        None => {
            return None;
        },
    };
    let b = match parse_ipv4_octet(&fields[1]) {
        Some(v) => v,
        None => {
            return None;
        },
    };
    let c = match parse_ipv4_octet(&fields[2]) {
        Some(v) => v,
        None => {
            return None;
        },
    };
    let d = match parse_ipv4_octet(&fields[3]) {
        Some(v) => v,
        None => {
            return None;
        },
    };
    let out = [a, b, c, d];
    assert(out@ =~= seq![a, b, c, d]);
    Some(out)
}

} // verus!

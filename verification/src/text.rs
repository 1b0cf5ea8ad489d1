//! Character-level text handling shared by the parsers: trimming, splitting
//! on a separator, joining, and the few calls into `std` that the parsers
//! rest on.
use vstd::prelude::*;

verus! {

/// Whether `c` carries the Unicode `White_Space` property, as `char::is_whitespace`
/// reports it: the 25 code points U+0009 to U+000D, U+0020, U+0085, U+00A0,
/// U+1680, U+2000 to U+200A, U+2028, U+2029, U+202F, U+205F and U+3000.
pub open spec fn unicode_white_space(c: char) -> bool {
    let u = c as u32;
    ||| 0x09 <= u <= 0x0D
    ||| u == 0x20
    ||| u == 0x85
    ||| u == 0xA0
    ||| u == 0x1680
    ||| 0x2000 <= u <= 0x200A
    ||| u == 0x2028
    ||| u == 0x2029
    ||| u == 0x202F
    ||| u == 0x205F
    ||| u == 0x3000
}

/// The Unicode lower-case mapping of a string, as `str::to_lowercase` computes it.
pub uninterp spec fn unicode_lowercase(s: Seq<char>) -> Seq<char>;

/// Whether `c` has the Unicode `White_Space` property, as `char::is_whitespace`
/// decides it.
pub(crate) fn is_white_space(c: char) -> (res: bool)
    ensures
        res == unicode_white_space(c),
{
    let u = c as u32;
    (0x09 <= u && u <= 0x0D) || u == 0x20 || u == 0x85 || u == 0xA0 || u == 0x1680 || (0x2000 <= u
        && u <= 0x200A) || u == 0x2028 || u == 0x2029 || u == 0x202F || u == 0x205F || u == 0x3000
}

/// `str::to_lowercase`: the result is named `unicode_lowercase(s@)`; the
/// Unicode case tables that decide it are not restated here.
#[verifier::external_body]
pub(crate) fn to_lowercase(s: &str) -> (res: String)
    ensures
        res@ == unicode_lowercase(s@),
{
    s.to_lowercase()
}

/// `String::push`: appends `c` at the end of `s`.
#[verifier::external_body]
pub(crate) fn push_char(s: &mut String, c: char)
    ensures
        final(s)@ == old(s)@.push(c),
{
    s.push(c)
}

/// Whether two string slices hold the same characters.
pub(crate) fn str_equals(a: &str, b: &str) -> (res: bool)
    ensures
        res == (a@ == b@),
{
    let ca = chars_of(a);
    let cb = chars_of(b);
    if ca.len() != cb.len() {
        return false;
    }
    let mut i: usize = 0;
    while i < ca.len()
        invariant
            ca@ == a@,
            cb@ == b@,
            ca@.len() == cb@.len(),
            i <= ca@.len(),
            forall|k: int| 0 <= k < i ==> ca@[k] == cb@[k],
        decreases ca@.len() - i,
    {
        if ca[i] != cb[i] {
            return false;
        }
        i = i + 1;
    }
    assert(a@ =~= b@);
    true
}

/// The characters of `s`, in order.
pub fn chars_of(s: &str) -> (res: Vec<char>)
    ensures
        res@ == s@,
{
    let len = s.unicode_len();
    let mut res: Vec<char> = Vec::new();
    let mut i: usize = 0;
    while i < len
        invariant
            len == s@.len(),
            i <= len,
            res@ == s@.subrange(0, i as int),
        decreases len - i,
    {
        let c = s.get_char(i);
        res.push(c);
        i = i + 1;
        assert(res@ =~= s@.subrange(0, i as int));
    }
    assert(res@ =~= s@);
    res
}

/// A `String` holding the characters `chars[from..to]`.
pub fn string_from_chars(chars: &Vec<char>, from: usize, to: usize) -> (res: String)
    requires
        from <= to <= chars@.len(),
    ensures
        res@ == chars@.subrange(from as int, to as int),
{
    let mut res = String::new();
    let mut i = from;
    while i < to
        invariant
            from <= i <= to <= chars@.len(),
            res@ == chars@.subrange(from as int, i as int),
        decreases to - i,
    {
        push_char(&mut res, chars[i]);
        i = i + 1;
        assert(res@ =~= chars@.subrange(from as int, i as int));
    }
    res
}

/// `s` without its leading white space.
pub open spec fn trim_start(s: Seq<char>) -> Seq<char>
    decreases s.len(),
{
    if s.len() > 0 && unicode_white_space(s[0]) {
        trim_start(s.drop_first())
    } else {
        s
    }
}

/// `s` without its trailing white space.
pub open spec fn trim_end(s: Seq<char>) -> Seq<char>
    decreases s.len(),
{
    if s.len() > 0 && unicode_white_space(s.last()) {
        trim_end(s.drop_last())
    } else {
        s
    }
}

/// `s` without leading and trailing white space, as `str::trim` leaves it.
pub open spec fn trim_spec(s: Seq<char>) -> Seq<char> {
    trim_end(trim_start(s))
}

/// The pieces of `s` between occurrences of `sep`, as `str::split` with a
/// `char` pattern yields them: one more piece than there are separators.
pub open spec fn split_spec(s: Seq<char>, sep: char) -> Seq<Seq<char>>
    decreases s.len(),
{
    if s.len() == 0 {
        seq![Seq::<char>::empty()]
    } else {
        let prev = split_spec(s.drop_last(), sep);
        if s.last() == sep {
            prev.push(Seq::<char>::empty())
        } else {
            prev.update(prev.len() - 1, prev.last().push(s.last()))
        }
    }
}

pub proof fn lemma_split_nonempty(s: Seq<char>, sep: char)
    ensures
        split_spec(s, sep).len() >= 1,
    decreases s.len(),
{
    if s.len() > 0 {
        lemma_split_nonempty(s.drop_last(), sep);
    }
}

/// `s` with leading and trailing white space removed.
pub fn trim(s: &str) -> (res: String)
    ensures
        res@ == trim_spec(s@),
{
    let chars = chars_of(s);
    let len = chars.len();
    let mut start: usize = 0;
    assert(s@.subrange(0, len as int) =~= s@);
    while start < len && is_white_space(chars[start])
        invariant
            len == chars@.len(),
            chars@ == s@,
            start <= len,
            trim_start(s@) == trim_start(s@.subrange(start as int, len as int)),
        decreases len - start,
    {
        assert(s@.subrange(start as int, len as int).drop_first() =~= s@.subrange(
            start + 1,
            len as int,
        ));
        start = start + 1;
    }
    assert(trim_start(s@) == s@.subrange(start as int, len as int));
    assert(trim_spec(s@) == trim_end(s@.subrange(start as int, len as int)));
    let mut end: usize = len;
    while end > start && is_white_space(chars[end - 1])
        invariant
            len == chars@.len(),
            chars@ == s@,
            start <= end <= len,
            trim_spec(s@) == trim_end(s@.subrange(start as int, end as int)),
        decreases end,
    {
        assert(s@.subrange(start as int, end as int).drop_last() =~= s@.subrange(
            start as int,
            end - 1,
        ));
        end = end - 1;
    }
    string_from_chars(&chars, start, end)
}

/// The pieces of `s` between occurrences of `sep`.
pub fn split(s: &str, sep: char) -> (res: Vec<String>)
    ensures
        res@.len() == split_spec(s@, sep).len(),
        forall|i: int| 0 <= i < res@.len() ==> #[trigger] res@[i]@ == split_spec(s@, sep)[i],
{
    let chars = chars_of(s);
    let len = chars.len();
    let mut pieces: Vec<String> = Vec::new();
    let mut current = String::new();
    let mut i: usize = 0;
    proof {
        assert(s@.subrange(0, 0) =~= Seq::<char>::empty());
    }
    while i < len
        invariant
            len == chars@.len(),
            chars@ == s@,
            i <= len,
            pieces@.len() + 1 == split_spec(s@.subrange(0, i as int), sep).len(),
            forall|k: int|
                0 <= k < pieces@.len() ==> #[trigger] pieces@[k]@ == split_spec(
                    s@.subrange(0, i as int),
                    sep,
                )[k],
            current@ == split_spec(s@.subrange(0, i as int), sep).last(),
        decreases len - i,
    {
        let c = chars[i];
        proof {
            assert(s@.subrange(0, i + 1).drop_last() =~= s@.subrange(0, i as int));
            lemma_split_nonempty(s@.subrange(0, i as int), sep);
        }
        if c == sep {
            pieces.push(current);
            current = String::new();
        } else {
            push_char(&mut current, c);
        }
        i = i + 1;
    }
    assert(s@.subrange(0, len as int) =~= s@);
    pieces.push(current);
    pieces
}

/// The pieces of `s` between occurrences of `sep`, each trimmed of white space.
pub open spec fn trimmed_pieces(s: Seq<char>, sep: char) -> Seq<Seq<char>> {
    split_spec(s, sep).map_values(|p: Seq<char>| trim_spec(p))
}

/// The pieces of `s` between occurrences of `sep`, each trimmed of white space.
pub fn split_trimmed(s: &str, sep: char) -> (res: Vec<String>)
    ensures
        res@.len() == split_spec(s@, sep).len(),
        forall|i: int|
            0 <= i < res@.len() ==> #[trigger] res@[i]@ == trim_spec(split_spec(s@, sep)[i]),
        views(res@) == trimmed_pieces(s@, sep),
{
    let pieces = split(s, sep);
    let mut res: Vec<String> = Vec::new();
    let mut i: usize = 0;
    while i < pieces.len()
        invariant
            pieces@.len() == split_spec(s@, sep).len(),
            forall|k: int| 0 <= k < pieces@.len() ==> #[trigger] pieces@[k]@ == split_spec(s@, sep)[k],
            i <= pieces@.len(),
            res@.len() == i,
            forall|k: int|
                0 <= k < i ==> #[trigger] res@[k]@ == trim_spec(split_spec(s@, sep)[k]),
        decreases pieces@.len() - i,
    {
        let t = trim(pieces[i].as_str());
        res.push(t);
        i = i + 1;
    }
    assert(views(res@) =~= trimmed_pieces(s@, sep));
    res
}

/// The items of a list field: none when the field is blank (a single piece,
/// empty after trimming), else the pieces of `s` between occurrences of
/// `sep`, each trimmed of white space, empty ones included.
pub open spec fn list_items(s: Seq<char>, sep: char) -> Seq<Seq<char>> {
    if trimmed_pieces(s, sep) == seq![Seq::<char>::empty()] {
        Seq::<Seq<char>>::empty()
    } else {
        trimmed_pieces(s, sep)
    }
}

/// The items of a list field (see `list_items`).
pub fn split_list(s: &str, sep: char) -> (res: Vec<String>)
    ensures
        views(res@) == list_items(s@, sep),
{
    let pieces = split_trimmed(s, sep);
    let ghost all = trimmed_pieces(s@, sep);
    assert(views(pieces@).len() == pieces@.len());
    if pieces.len() == 1 && pieces[0].as_str().is_empty() {
        assert(all[0] == pieces@[0]@);
        assert(all[0] =~= Seq::<char>::empty());
        assert(all =~= seq![Seq::<char>::empty()]);
        return Vec::new();
    }
    proof {
        if all == seq![Seq::<char>::empty()] {
            assert(all.len() == 1);
            assert(all[0] == pieces@[0]@);
            assert(pieces@[0]@.len() == 0);
        }
    }
    pieces
}

/// The words of `s`: its maximal runs of characters that are not white
/// space, in order, as `str::split_whitespace` yields them.
pub open spec fn words(s: Seq<char>) -> Seq<Seq<char>>
    decreases s.len(),
{
    if s.len() == 0 {
        Seq::<Seq<char>>::empty()
    } else {
        let prev = words(s.drop_last());
        if unicode_white_space(s.last()) {
            prev
        } else if s.len() >= 2 && !unicode_white_space(s[s.len() - 2]) {
            prev.update(prev.len() - 1, prev.last().push(s.last()))
        } else {
            prev.push(seq![s.last()])
        }
    }
}

/// A string that ends in a character other than white space has a word.
proof fn lemma_words_nonempty(s: Seq<char>)
    requires
        s.len() >= 1,
        !unicode_white_space(s.last()),
    ensures
        words(s).len() >= 1,
    decreases s.len(),
{
    if s.len() >= 2 && !unicode_white_space(s[s.len() - 2]) {
        let u = s.drop_last();
        assert(u.last() == s[s.len() - 2]);
        lemma_words_nonempty(u);
    }
}

/// The words of `s`, in order.
pub fn split_words(s: &str) -> (res: Vec<String>)
    ensures
        views(res@) == words(s@),
{
    let chars = chars_of(s);
    let len = chars.len();
    let mut res: Vec<String> = Vec::new();
    let mut current = String::new();
    let mut in_word = false;
    let mut i: usize = 0;
    proof {
        assert(s@.subrange(0, 0) =~= Seq::<char>::empty());
    }
    while i < len
        invariant
            len == chars@.len(),
            chars@ == s@,
            i <= len,
            in_word == (i > 0 && !unicode_white_space(s@[i - 1])),
            in_word ==> views(res@).push(current@) == words(s@.subrange(0, i as int)),
            !in_word ==> views(res@) == words(s@.subrange(0, i as int)),
        decreases len - i,
    {
        let c = chars[i];
        let ghost pre = s@.subrange(0, i as int);
        let ghost next = s@.subrange(0, i + 1);
        proof {
            assert(next.drop_last() =~= pre);
            assert(next.last() == c);
            if i > 0 {
                assert(next[next.len() - 2] == s@[i - 1]);
            }
        }
        if is_white_space(c) {
            if in_word {
                let ghost before = res@;
                res.push(current);
                current = String::new();
                assert(views(res@) =~= views(before).push(views(res@).last()));
            }
            in_word = false;
        } else {
            if in_word {
                proof {
                    lemma_words_nonempty(pre);
                    let w = words(pre);
                    assert(views(res@).push(current@).last() == current@);
                    assert(views(res@).push(current@.push(c)) =~= w.update(w.len() - 1, w.last().push(c)));
                }
                push_char(&mut current, c);
            } else {
                current = String::new();
                push_char(&mut current, c);
                assert(current@ =~= seq![c]);
            }
            in_word = true;
        }
        i = i + 1;
    }
    proof {
        assert(s@.subrange(0, len as int) =~= s@);
    }
    if in_word {
        let ghost before = res@;
        res.push(current);
        assert(views(res@) =~= views(before).push(views(res@).last()));
    }
    res
}

/// The value of a decimal digit character.
pub open spec fn digit_value(c: char) -> int {
    (c as int) - ('0' as int)
}

/// `c` is one of the ASCII digits `0` to `9`.
pub open spec fn is_digit(c: char) -> bool {
    '0' <= c <= '9'
}

/// The value of the decimal numeral `t` (no sign, digits only).
pub open spec fn decimal_value(t: Seq<char>) -> int
    decreases t.len(),
{
    if t.len() == 0 {
        0
    } else {
        decimal_value(t.drop_last()) * 10 + digit_value(t.last())
    }
}

/// `s` without a leading `+`.
pub open spec fn unsigned_part(s: Seq<char>) -> Seq<char> {
    if s.len() > 0 && s[0] == '+' {
        s.drop_first()
    } else {
        s
    }
}

/// Every character of `t` is an ASCII digit.
pub open spec fn all_digits(t: Seq<char>) -> bool {
    forall|i: int| 0 <= i < t.len() ==> is_digit(#[trigger] t[i])
}

/// The `u8` that `s` spells as `str::parse::<u8>` reads it: an optional `+`
/// followed by one or more ASCII digits, of value at most 255.
pub open spec fn parse_u8_spec(s: Seq<char>) -> Option<u8> {
    let t = unsigned_part(s);
    if t.len() > 0 && all_digits(t) && decimal_value(t) <= 255 {
        Some(decimal_value(t) as u8)
    } else {
        None
    }
}

proof fn lemma_decimal_value_grows(t: Seq<char>, k: int)
    requires
        0 <= k <= t.len(),
        forall|i: int| 0 <= i < t.len() ==> is_digit(#[trigger] t[i]),
    ensures
        decimal_value(t.subrange(0, k)) <= decimal_value(t),
        decimal_value(t) >= 0,
    decreases t.len(),
{
    if t.len() > 0 {
        let u = t.drop_last();
        assert forall|i: int| 0 <= i < u.len() implies is_digit(#[trigger] u[i]) by {
            assert(u[i] == t[i]);
        }
        if k < t.len() {
            assert(u.subrange(0, k) =~= t.subrange(0, k));
            lemma_decimal_value_grows(u, k);
        } else {
            assert(t.subrange(0, k) =~= t);
            lemma_decimal_value_grows(u, 0);
        }
        assert(is_digit(t.last()));
    }
}

/// Reads a `u8` written in decimal (see `parse_u8_spec`).
pub fn parse_u8(s: &str) -> (res: Option<u8>)
    ensures
        res == parse_u8_spec(s@),
{
    let chars = chars_of(s);
    let len = chars.len();
    let start: usize = if len > 0 && chars[0] == '+' {
        1
    } else {
        0
    };
    let ghost t = unsigned_part(s@);
    assert(t =~= s@.subrange(start as int, len as int));
    if start >= len {
        return None;
    }
    let mut acc: u32 = 0;
    let mut i: usize = start;
    proof {
        assert(t.subrange(0, 0) =~= Seq::<char>::empty());
    }
    while i < len
        invariant
            len == chars@.len(),
            chars@ == s@,
            start <= i <= len,
            t == s@.subrange(start as int, len as int),
            t == unsigned_part(s@),
            forall|j: int| 0 <= j < i - start ==> is_digit(#[trigger] t[j]),
            acc == decimal_value(t.subrange(0, i - start)),
            acc <= 255,
        decreases len - i,
    {
        let c = chars[i];
        proof {
            assert(t[i - start] == c);
            assert(t.subrange(0, i - start + 1).drop_last() =~= t.subrange(0, i - start));
        }
        if !('0' <= c && c <= '9') {
            assert(!is_digit(t[i - start]));
            assert(!all_digits(t));
            return None;
        }
        let d = (c as u32) - ('0' as u32);
        acc = acc * 10 + d;
        proof {
            let sub = t.subrange(0, i - start + 1);
            assert(sub.last() == c);
            assert(decimal_value(sub) == decimal_value(sub.drop_last()) * 10 + digit_value(c));
            assert(acc == decimal_value(sub));
        }
        if acc > 255 {
            proof {
                if all_digits(t) {
                    lemma_decimal_value_grows(t, i - start + 1);
                }
            }
            return None;
        }
        i = i + 1;
    }
    proof {
        assert(t.subrange(0, len - start) =~= t);
    }
    Some(acc as u8)
}

/// `a` comes no later than `b` in lexicographic order of code points, the
/// order in which `str` compares.
pub open spec fn lex_le(a: Seq<char>, b: Seq<char>) -> bool
    decreases a.len(),
{
    if a.len() == 0 {
        true
    } else if b.len() == 0 {
        false
    } else if (a[0] as u32) < (b[0] as u32) {
        true
    } else if (a[0] as u32) > (b[0] as u32) {
        false
    } else {
        lex_le(a.drop_first(), b.drop_first())
    }
}

pub proof fn lemma_lex_le_total(a: Seq<char>, b: Seq<char>)
    ensures
        lex_le(a, b) || lex_le(b, a),
    decreases a.len(),
{
    if a.len() > 0 && b.len() > 0 && (a[0] as u32) == (b[0] as u32) {
        lemma_lex_le_total(a.drop_first(), b.drop_first());
    }
}

pub proof fn lemma_lex_le_transitive(a: Seq<char>, b: Seq<char>, c: Seq<char>)
    requires
        lex_le(a, b),
        lex_le(b, c),
    ensures
        lex_le(a, c),
    decreases a.len(),
{
    if a.len() > 0 && b.len() > 0 && c.len() > 0 && (a[0] as u32) == (b[0] as u32) && (b[0] as u32)
        == (c[0] as u32) {
        lemma_lex_le_transitive(a.drop_first(), b.drop_first(), c.drop_first());
    }
}

/// Whether `a` comes no later than `b` in lexicographic order.
pub fn chars_lex_le(a: &Vec<char>, b: &Vec<char>) -> (res: bool)
    ensures
        res == lex_le(a@, b@),
{
    let mut i: usize = 0;
    assert(a@.skip(0) =~= a@);
    assert(b@.skip(0) =~= b@);
    while i < a.len()
        invariant
            i <= a@.len(),
            i <= b@.len(),
            lex_le(a@, b@) == lex_le(a@.skip(i as int), b@.skip(i as int)),
        decreases a@.len() - i,
    {
        if i >= b.len() {
            return false;
        }
        let x = a[i] as u32;
        let y = b[i] as u32;
        if x < y {
            return true;
        }
        if x > y {
            return false;
        }
        proof {
            assert(a@.skip(i as int).drop_first() =~= a@.skip(i + 1));
            assert(b@.skip(i as int).drop_first() =~= b@.skip(i + 1));
        }
        i = i + 1;
    }
    true
}

/// The views of a list of strings.
pub open spec fn views(v: Seq<String>) -> Seq<Seq<char>> {
    v.map_values(|s: String| s@)
}

/// Ordered by the lower-case forms of the strings, as `str` compares them.
pub open spec fn sorted_by_lowercase(v: Seq<Seq<char>>) -> bool {
    forall|i: int, j: int|
        0 <= i < j < v.len() ==> lex_le(
            unicode_lowercase(#[trigger] v[i]),
            unicode_lowercase(#[trigger] v[j]),
        )
}

/// The strings whose lower-case form is `key`.
pub open spec fn has_lowercase(key: Seq<char>) -> spec_fn(Seq<char>) -> bool {
    |s: Seq<char>| unicode_lowercase(s) == key
}

pub proof fn lemma_lex_le_reflexive(a: Seq<char>)
    ensures
        lex_le(a, a),
    decreases a.len(),
{
    if a.len() > 0 {
        lemma_lex_le_reflexive(a.drop_first());
    }
}

/// No string of `s` has the lower-case form `key`: filtering on it leaves nothing.
proof fn lemma_filter_none(s: Seq<Seq<char>>, key: Seq<char>)
    requires
        forall|j: int| 0 <= j < s.len() ==> unicode_lowercase(#[trigger] s[j]) != key,
    ensures
        s.filter(has_lowercase(key)) == Seq::<Seq<char>>::empty(),
    decreases s.len(),
{
    reveal(Seq::filter);
    if s.len() > 0 {
        assert forall|j: int| 0 <= j < s.drop_last().len() implies unicode_lowercase(
            #[trigger] s.drop_last()[j],
        ) != key by {
            assert(s.drop_last()[j] == s[j]);
        }
        lemma_filter_none(s.drop_last(), key);
        assert(!has_lowercase(key)(s.last()));
    }
}

/// Filtering a single string keeps it exactly when it has the lower-case form `key`.
proof fn lemma_filter_single(x: Seq<char>, key: Seq<char>)
    ensures
        seq![x].filter(has_lowercase(key)) == (if unicode_lowercase(x) == key {
            seq![x]
        } else {
            Seq::<Seq<char>>::empty()
        }),
{
    reveal_with_fuel(Seq::filter, 2);
    assert(seq![x].drop_last() =~= Seq::<Seq<char>>::empty());
    assert(seq![x].last() == x);
    if unicode_lowercase(x) == key {
        assert(Seq::<Seq<char>>::empty().push(x) =~= seq![x]);
    }
}

/// The strings of `v` ordered by their lower-case forms; strings with equal
/// lower-case forms keep their relative order.
pub fn sort_by_lowercase(v: Vec<String>) -> (res: Vec<String>)
    ensures
        views(res@).to_multiset() == views(v@).to_multiset(),
        sorted_by_lowercase(views(res@)),
        forall|key: Seq<char>|
            #[trigger] views(res@).filter(has_lowercase(key)) == views(v@).filter(has_lowercase(key)),
{
    broadcast use vstd::seq_lib::group_to_multiset_ensures;

    let mut res: Vec<String> = Vec::new();
    let mut keys: Vec<Vec<char>> = Vec::new();
    let mut i: usize = 0;
    assert(views(v@.subrange(0, 0)) =~= Seq::<Seq<char>>::empty());
    assert(views(res@) =~= Seq::<Seq<char>>::empty());
    while i < v.len()
        invariant
            i <= v@.len(),
            res@.len() == keys@.len(),
            forall|k: int| 0 <= k < keys@.len() ==> #[trigger] keys@[k]@ == unicode_lowercase(res@[k]@),
            views(res@).to_multiset() == views(v@.subrange(0, i as int)).to_multiset(),
            forall|a: int, b: int|
                0 <= a < b < keys@.len() ==> lex_le(#[trigger] keys@[a]@, #[trigger] keys@[b]@),
            forall|key: Seq<char>|
                #[trigger] views(res@).filter(has_lowercase(key)) == views(
                    v@.subrange(0, i as int),
                ).filter(has_lowercase(key)),
        decreases v@.len() - i,
    {
        let s = v[i].clone();
        let lowered = to_lowercase(s.as_str());
        let key = chars_of(lowered.as_str());
        let mut pos: usize = 0;
        while pos < keys.len() && chars_lex_le(&keys[pos], &key)
            invariant
                pos <= keys@.len(),
                forall|k: int| 0 <= k < pos ==> lex_le(#[trigger] keys@[k]@, key@),
            decreases keys@.len() - pos,
        {
            pos = pos + 1;
        }
        let ghost old_keys = keys@;
        let ghost old_res = res@;
        proof {
            assert forall|k: int| pos <= k < old_keys.len() implies lex_le(key@, #[trigger] old_keys[k]@) by {
                lemma_lex_le_total(key@, old_keys[pos as int]@);
                if !lex_le(key@, old_keys[pos as int]@) {
                    assert(lex_le(old_keys[pos as int]@, key@));
                    assert(false);
                }
                if k > pos {
                    lemma_lex_le_transitive(key@, old_keys[pos as int]@, old_keys[k]@);
                }
            }
        }
        res.insert(pos, s);
        keys.insert(pos, key);
        i = i + 1;
        proof {
            assert(v@.subrange(0, i as int) =~= v@.subrange(0, i - 1).push(v@[i - 1]));
            assert(views(res@) =~= views(old_res).insert(pos as int, v@[i - 1]@));
            assert(views(v@.subrange(0, i as int)) =~= views(v@.subrange(0, i - 1)).push(v@[i - 1]@));
            vstd::seq_lib::to_multiset_insert(views(old_res), pos as int, v@[i - 1]@);
            vstd::seq_lib::to_multiset_build(views(v@.subrange(0, i - 1)), v@[i - 1]@);
            assert forall|k: int| 0 <= k < keys@.len() implies #[trigger] keys@[k]@ == unicode_lowercase(
                res@[k]@,
            ) by {
                if k < pos {
                } else if k > pos {
                    assert(keys@[k] == old_keys[k - 1]);
                    assert(res@[k] == old_res[k - 1]);
                }
            }
            assert forall|a: int, b: int|
                0 <= a < b < keys@.len() implies lex_le(#[trigger] keys@[a]@, #[trigger] keys@[b]@) by {
                if b < pos {
                } else if b == pos {
                } else if a < pos {
                    assert(keys@[b] == old_keys[b - 1]);
                    lemma_lex_le_transitive(keys@[a]@, key@, keys@[b]@);
                } else if a == pos {
                    assert(keys@[b] == old_keys[b - 1]);
                } else {
                    assert(keys@[a] == old_keys[a - 1]);
                    assert(keys@[b] == old_keys[b - 1]);
                }
            }
            let x = v@[i - 1]@;
            let av = views(old_res).subrange(0, pos as int);
            let bv = views(old_res).subrange(pos as int, old_res.len() as int);
            assert(views(old_res) =~= av + bv);
            assert(views(res@) =~= av + seq![x] + bv);
            assert(key@ == unicode_lowercase(x));
            assert forall|j: int| 0 <= j < bv.len() implies unicode_lowercase(#[trigger] bv[j]) != key@ by {
                let k = pos + j;
                assert(old_keys[k]@ == unicode_lowercase(old_res[k]@));
                assert(bv[j] == old_res[k]@);
                lemma_lex_le_reflexive(key@);
                if k > pos {
                    assert(lex_le(old_keys[pos as int]@, old_keys[k]@));
                }
            }
            assert forall|kk: Seq<char>| #[trigger] views(res@).filter(has_lowercase(kk)) == views(
                v@.subrange(0, i as int),
            ).filter(has_lowercase(kk)) by {
                let p = has_lowercase(kk);
                Seq::filter_distributes_over_add(av + seq![x], bv, p);
                Seq::filter_distributes_over_add(av, seq![x], p);
                Seq::filter_distributes_over_add(av, bv, p);
                Seq::filter_distributes_over_add(
                    views(v@.subrange(0, i - 1)),
                    seq![x],
                    p,
                );
                assert(views(v@.subrange(0, i as int)) =~= views(v@.subrange(0, i - 1)) + seq![x]);
                lemma_filter_single(x, kk);
                if unicode_lowercase(x) == kk {
                    lemma_filter_none(bv, kk);
                    assert(av.filter(p) + Seq::<Seq<char>>::empty() =~= av.filter(p));
                    assert(av.filter(p) + seq![x] + Seq::<Seq<char>>::empty() =~= av.filter(p) + seq![x]);
                } else {
                    assert(av.filter(p) + Seq::<Seq<char>>::empty() =~= av.filter(p));
                    assert(views(v@.subrange(0, i - 1)).filter(p) + Seq::<Seq<char>>::empty()
                        =~= views(v@.subrange(0, i - 1)).filter(p));
                }
            }
        }
    }
    assert(v@.subrange(0, v@.len() as int) =~= v@);
    proof {
        assert forall|a: int, b: int|
            0 <= a < b < views(res@).len() implies lex_le(
            unicode_lowercase(#[trigger] views(res@)[a]),
            unicode_lowercase(#[trigger] views(res@)[b]),
        ) by {
            assert(keys@[a]@ == unicode_lowercase(res@[a]@));
            assert(keys@[b]@ == unicode_lowercase(res@[b]@));
        }
    }
    res
}

} // verus!

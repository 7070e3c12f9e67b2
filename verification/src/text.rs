//! Text helpers: building strings, splitting at separators, finding a
//! substring, and writing and reading decimal numbers.
use vstd::prelude::*;

verus! {

/// Appends one character to a string: `String::push` of std.
#[verifier::external_body]
pub(crate) fn push_char(s: &mut String, c: char)
    ensures
        final(s)@ == old(s)@.push(c),
{
    s.push(c)
}

/// A string holding `s`.
pub fn string_of(s: &str) -> (r: String)
    ensures
        r@ == s@,
{
    s.to_owned()
}

/// A string holding the characters of `chars`.
pub fn string_from_chars(chars: &Vec<char>) -> (r: String)
    ensures
        r@ == chars@,
{
    let mut r = String::new();
    let mut i: usize = 0;
    while i < chars.len()
        invariant
            i <= chars@.len(),
            r@ == chars@.take(i as int),
        decreases chars@.len() - i,
    {
        push_char(&mut r, chars[i]);
        assert(chars@.take(i + 1) =~= chars@.take(i as int).push(chars@[i as int]));
        i = i + 1;
    }
    assert(chars@.take(chars@.len() as int) =~= chars@);
    r
}

/// The characters of `s`, in order.
pub fn chars_of(s: &str) -> (r: Vec<char>)
    ensures
        r@ == s@,
{
    let n = s.unicode_len();
    let mut r: Vec<char> = Vec::new();
    let mut i: usize = 0;
    while i < n
        invariant
            n == s@.len(),
            i <= n,
            r@ == s@.take(i as int),
        decreases n - i,
    {
        r.push(s.get_char(i));
        assert(s@.take(i + 1) =~= s@.take(i as int).push(s@[i as int]));
        i = i + 1;
    }
    assert(s@.take(n as int) =~= s@);
    r
}

/// `a` followed by `b`.
pub fn concat_text(a: &str, b: &str) -> (r: String)
    ensures
        r@ == a@ + b@,
{
    let mut r = a.to_owned();
    r.append(b);
    r
}

/// The decimal digit character for `d`.
pub open spec fn digit_char(d: int) -> char {
    if d == 0 { '0' }
    else if d == 1 { '1' }
    else if d == 2 { '2' }
    else if d == 3 { '3' }
    else if d == 4 { '4' }
    else if d == 5 { '5' }
    else if d == 6 { '6' }
    else if d == 7 { '7' }
    else if d == 8 { '8' }
    else { '9' }
}

/// The decimal writing of `n`, without leading zeros ("0" for zero).
pub open spec fn decimal(n: nat) -> Seq<char>
    decreases n,
{
    if n < 10 {
        seq![digit_char(n as int)]
    } else {
        decimal(n / 10).push(digit_char((n % 10) as int))
    }
}

fn digit_to_char(d: u64) -> (c: char)
    requires
        d < 10,
    ensures
        c == digit_char(d as int),
{
    if d == 0 { '0' }
    else if d == 1 { '1' }
    else if d == 2 { '2' }
    else if d == 3 { '3' }
    else if d == 4 { '4' }
    else if d == 5 { '5' }
    else if d == 6 { '6' }
    else if d == 7 { '7' }
    else if d == 8 { '8' }
    else { '9' }
}

/// Appends the decimal writing of `n` to `out`.
pub fn push_decimal(out: &mut String, n: u64)
    ensures
        final(out)@ == old(out)@ + decimal(n as nat),
    decreases n,
{
    if n < 10 {
        push_char(out, digit_to_char(n));
        assert(old(out)@.push(digit_char(n as int)) =~= old(out)@ + decimal(n as nat));
    } else {
        push_decimal(out, n / 10);
        push_char(out, digit_to_char(n % 10));
        assert(old(out)@ + decimal((n / 10) as nat) + seq![digit_char((n % 10) as int)]
            =~= old(out)@ + decimal(n as nat));
    }
}

/// The pieces of `s` between the characters for which `is_sep` holds, as
/// `str::split` yields them: there is always at least one piece, and two
/// separators in a row yield an empty piece.
pub open spec fn split_at_seps(s: Seq<char>, seps: Seq<char>) -> Seq<Seq<char>>
    decreases s.len(),
{
    if s.len() == 0 {
        seq![Seq::<char>::empty()]
    } else {
        let rest = split_at_seps(s.drop_last(), seps);
        if seps.contains(s.last()) {
            rest.push(Seq::<char>::empty())
        } else {
            rest.update(rest.len() - 1, rest.last().push(s.last()))
        }
    }
}

pub proof fn lemma_split_nonempty(s: Seq<char>, seps: Seq<char>)
    ensures
        split_at_seps(s, seps).len() >= 1,
    decreases s.len(),
{
    if s.len() > 0 {
        lemma_split_nonempty(s.drop_last(), seps);
    }
}

/// A text with no separator in it is one piece.
pub proof fn lemma_split_without_sep(s: Seq<char>, seps: Seq<char>)
    requires
        forall|i: int| 0 <= i < s.len() ==> !seps.contains(#[trigger] s[i]),
    ensures
        split_at_seps(s, seps) == seq![s],
    decreases s.len(),
{
    if s.len() > 0 {
        let init = s.drop_last();
        assert forall|i: int| 0 <= i < init.len() implies !seps.contains(#[trigger] init[i]) by {
            assert(init[i] == s[i]);
        }
        lemma_split_without_sep(init, seps);
        assert(!seps.contains(s[s.len() - 1]));
        assert(init.push(s.last()) =~= s);
        assert(split_at_seps(s, seps) =~= seq![s]);
    } else {
        assert(s =~= Seq::<char>::empty());
    }
}

/// Splitting at a separator between two texts splits each of them.
pub proof fn lemma_split_concat(a: Seq<char>, c: char, b: Seq<char>, seps: Seq<char>)
    requires
        seps.contains(c),
    ensures
        split_at_seps(a + seq![c] + b, seps) == split_at_seps(a, seps) + split_at_seps(b, seps),
    decreases b.len(),
{
    let s = a + seq![c] + b;
    if b.len() == 0 {
        assert(s.drop_last() =~= a);
        assert(s.last() == c);
        assert(split_at_seps(b, seps) =~= seq![Seq::<char>::empty()]);
        assert(split_at_seps(s, seps) =~= split_at_seps(a, seps) + split_at_seps(b, seps));
    } else {
        let b0 = b.drop_last();
        assert(s.drop_last() =~= a + seq![c] + b0);
        assert(s.last() == b.last());
        lemma_split_concat(a, c, b0, seps);
        lemma_split_nonempty(b0, seps);
        let left = split_at_seps(a, seps);
        let right = split_at_seps(b0, seps);
        let rest = left + right;
        if seps.contains(b.last()) {
            assert(split_at_seps(s, seps) =~= left + right.push(Seq::<char>::empty()));
        } else {
            assert(rest.last() == right.last());
            assert(split_at_seps(s, seps) =~= left + right.update(right.len() - 1, right.last().push(b.last())));
        }
    }
}

/// What holds of every character of a text holds of every character of its
/// pieces.
pub proof fn lemma_split_keeps(s: Seq<char>, seps: Seq<char>, p: spec_fn(char) -> bool)
    requires
        forall|i: int| 0 <= i < s.len() ==> p(#[trigger] s[i]),
    ensures
        forall|k: int, i: int|
            0 <= k < split_at_seps(s, seps).len() && 0 <= i < split_at_seps(s, seps)[k].len()
                ==> p(#[trigger] split_at_seps(s, seps)[k][i]),
    decreases s.len(),
{
    if s.len() > 0 {
        let init = s.drop_last();
        assert forall|i: int| 0 <= i < init.len() implies p(#[trigger] init[i]) by {
            assert(init[i] == s[i]);
        }
        lemma_split_keeps(init, seps, p);
        lemma_split_nonempty(init, seps);
        assert(p(s[s.len() - 1]));
    }
}

/// The pieces of an ASCII text are ASCII.
pub proof fn lemma_split_ascii(s: Seq<char>, seps: Seq<char>)
    requires
        all_ascii(s),
    ensures
        forall|k: int| 0 <= k < split_at_seps(s, seps).len() ==> all_ascii(#[trigger] split_at_seps(s, seps)[k]),
    decreases s.len(),
{
    if s.len() > 0 {
        let init = s.drop_last();
        assert(all_ascii(init)) by {
            assert forall|i: int| 0 <= i < init.len() implies (#[trigger] init[i] as u32) < 128 by {
                assert(init[i] == s[i]);
            }
        }
        lemma_split_ascii(init, seps);
        lemma_split_nonempty(init, seps);
        let rest = split_at_seps(init, seps);
        assert((s.last() as u32) < 128);
        if !seps.contains(s.last()) {
            let last = rest.last().push(s.last());
            assert(all_ascii(rest[rest.len() - 1]));
            assert(all_ascii(last)) by {
                assert forall|i: int| 0 <= i < last.len() implies (#[trigger] last[i] as u32) < 128 by {
                    if i < last.len() - 1 {
                        assert(last[i] == rest.last()[i]);
                    }
                }
            }
        }
    }
}

/// The contents of a list of character vectors.
pub open spec fn char_vecs_view(v: Seq<Vec<char>>) -> Seq<Seq<char>> {
    v.map_values(|x: Vec<char>| x@)
}

/// The contents of a list of strings.
pub open spec fn strings_view(v: Seq<String>) -> Seq<Seq<char>> {
    v.map_values(|x: String| x@)
}

/// Whether `c` is one of `seps`.
fn is_one_of(c: char, seps: &Vec<char>) -> (r: bool)
    ensures
        r == seps@.contains(c),
{
    let mut j: usize = 0;
    while j < seps.len()
        invariant
            j <= seps@.len(),
            forall|m: int| 0 <= m < j ==> seps@[m] != c,
        decreases seps@.len() - j,
    {
        if seps[j] == c {
            assert(seps@[j as int] == c);
            return true;
        }
        j = j + 1;
    }
    false
}

/// Splits `s` at every character of `seps`, as `str::split` does.
pub fn split_at(s: &str, seps: &Vec<char>) -> (r: Vec<String>)
    ensures
        strings_view(r@) == split_at_seps(s@, seps@),
{
    let chars = chars_of(s);
    let mut parts: Vec<Vec<char>> = Vec::new();
    parts.push(Vec::new());
    proof {
        assert(s@.take(0) =~= Seq::<char>::empty());
        assert(char_vecs_view(parts@) =~= seq![Seq::<char>::empty()]);
    }
    let mut i: usize = 0;
    while i < chars.len()
        invariant
            chars@ == s@,
            i <= chars@.len(),
            char_vecs_view(parts@) == split_at_seps(s@.take(i as int), seps@),
            parts@.len() >= 1,
        decreases chars@.len() - i,
    {
        let c = chars[i];
        proof {
            assert(s@.take(i + 1).drop_last() =~= s@.take(i as int));
            assert(s@.take(i + 1).last() == c);
        }
        let ghost before = char_vecs_view(parts@);
        if is_one_of(c, seps) {
            parts.push(Vec::new());
            proof {
                assert(char_vecs_view(parts@) =~= before.push(Seq::<char>::empty()));
            }
        } else {
            let mut last = parts.pop().unwrap();
            let ghost last_before = last@;
            last.push(c);
            parts.push(last);
            proof {
                assert(char_vecs_view(parts@) =~= before.update(before.len() - 1, last_before.push(c)));
            }
        }
        i = i + 1;
    }
    proof {
        assert(s@.take(chars@.len() as int) =~= s@);
    }
    let mut out: Vec<String> = Vec::new();
    let mut k: usize = 0;
    while k < parts.len()
        invariant
            k <= parts@.len(),
            strings_view(out@) == char_vecs_view(parts@).take(k as int),
        decreases parts@.len() - k,
    {
        let ghost prev = out@;
        let piece = string_from_chars(&parts[k]);
        out.push(piece);
        proof {
            assert(out@ == prev.push(piece));
            assert(strings_view(out@) =~= strings_view(prev).push(piece@));
            assert(char_vecs_view(parts@).take(k + 1) =~= char_vecs_view(parts@).take(k as int).push(parts@[k as int]@));
        }
        k = k + 1;
    }
    proof {
        assert(char_vecs_view(parts@).take(parts@.len() as int) =~= char_vecs_view(parts@));
    }
    out
}

/// `needle` occurs in `hay` starting at position `i`.
pub open spec fn occurs_at(hay: Seq<char>, needle: Seq<char>, i: int) -> bool {
    0 <= i && i + needle.len() <= hay.len() && hay.subrange(i, i + needle.len()) == needle
}

/// The position of the first occurrence of `needle` in `hay`, as `str::find`
/// gives it (counted in characters).
pub fn find_chars(hay: &Vec<char>, needle: &Vec<char>) -> (r: Option<usize>)
    ensures
        match r {
            Some(i) => occurs_at(hay@, needle@, i as int)
                && forall|j: int| 0 <= j < i ==> !occurs_at(hay@, needle@, j),
            None => forall|j: int| !occurs_at(hay@, needle@, j),
        },
{
    if needle.len() > hay.len() {
        return None;
    }
    let last = hay.len() - needle.len();
    let mut i: usize = 0;
    loop
        invariant
            last == hay@.len() - needle@.len(),
            needle@.len() <= hay@.len(),
            i <= last,
            forall|j: int| 0 <= j < i ==> !occurs_at(hay@, needle@, j),
        decreases last - i,
    {
        let mut k: usize = 0;
        let mut same = true;
        while k < needle.len()
            invariant
                i <= last,
                last == hay@.len() - needle@.len(),
                k <= needle@.len(),
                hay@.len() == hay.len(),
                needle@.len() == needle.len(),
                same == forall|m: int| 0 <= m < k ==> hay@[i + m] == needle@[m],
            decreases needle@.len() - k,
        {
            if hay[i + k] != needle[k] {
                same = false;
            }
            k = k + 1;
        }
        if same {
            assert(hay@.subrange(i as int, i + needle@.len()) =~= needle@);
            return Some(i);
        }
        proof {
            if occurs_at(hay@, needle@, i as int) {
                let m = choose|m: int| 0 <= m < needle@.len() && hay@[i + m] != needle@[m];
                assert(hay@.subrange(i as int, i + needle@.len())[m] == hay@[i + m]);
            }
        }
        if i == last {
            assert forall|j: int| !occurs_at(hay@, needle@, j) by {
                if 0 <= j <= last {
                    assert(j < i || j == i);
                }
            }
            return None;
        }
        i = i + 1;
    }
}

/// Whether two texts are equal.
pub fn same_text(a: &str, b: &str) -> (r: bool)
    ensures
        r == (a@ == b@),
{
    let x = chars_of(a);
    let y = chars_of(b);
    if x.len() != y.len() {
        return false;
    }
    let mut i: usize = 0;
    while i < x.len()
        invariant
            x@ == a@,
            y@ == b@,
            x@.len() == y@.len(),
            i <= x@.len(),
            forall|k: int| 0 <= k < i ==> x@[k] == y@[k],
        decreases x@.len() - i,
    {
        if x[i] != y[i] {
            return false;
        }
        i = i + 1;
    }
    assert(x@ =~= y@);
    true
}

/// A string holding `chars[start..end]`.
pub fn string_from_range(chars: &Vec<char>, start: usize, end: usize) -> (r: String)
    requires
        start <= end <= chars@.len(),
    ensures
        r@ == chars@.subrange(start as int, end as int),
{
    let mut r = String::new();
    let mut i: usize = start;
    while i < end
        invariant
            start <= i <= end,
            end <= chars@.len(),
            r@ == chars@.subrange(start as int, i as int),
        decreases end - i,
    {
        push_char(&mut r, chars[i]);
        assert(chars@.subrange(start as int, i + 1) =~= chars@.subrange(start as int, i as int).push(chars@[i as int]));
        i = i + 1;
    }
    r
}

/// `needle` occurs somewhere in `hay`.
#[verifier::opaque]
pub open spec fn contains_text(hay: Seq<char>, needle: Seq<char>) -> bool {
    exists|i: int| occurs_at(hay, needle, i)
}

/// The position of the first occurrence of `needle` in `hay` (meaningful
/// where there is one).
#[verifier::opaque]
pub open spec fn first_occurrence(hay: Seq<char>, needle: Seq<char>) -> int {
    choose|i: int| occurs_at(hay, needle, i) && forall|j: int| 0 <= j < i ==> !occurs_at(hay, needle, j)
}

/// An occurrence with none before it is the first occurrence.
pub proof fn lemma_first_occurrence(hay: Seq<char>, needle: Seq<char>, i: int)
    requires
        occurs_at(hay, needle, i),
        forall|j: int| 0 <= j < i ==> !occurs_at(hay, needle, j),
    ensures
        first_occurrence(hay, needle) == i,
{
    reveal(first_occurrence);
    let c = first_occurrence(hay, needle);
    assert(occurs_at(hay, needle, c) && forall|j: int| 0 <= j < c ==> !occurs_at(hay, needle, j));
    if c < i {
        assert(!occurs_at(hay, needle, c));
    }
    if i < c {
        assert(!occurs_at(hay, needle, i));
    }
}

/// Where `needle` first occurs in `hay`, counted in characters: the position
/// that `str::find` gives, in characters rather than bytes.
pub fn find_text(hay: &Vec<char>, needle: &Vec<char>) -> (r: Option<usize>)
    ensures
        match r {
            Some(i) => occurs_at(hay@, needle@, i as int) && i == first_occurrence(hay@, needle@)
                && contains_text(hay@, needle@),
            None => !contains_text(hay@, needle@),
        },
{
    let r = find_chars(hay, needle);
    proof {
        reveal(contains_text);
        if let Some(i) = r {
            lemma_first_occurrence(hay@, needle@, i as int);
        }
    }
    r
}

/// Whether `c` occurs in `s`.
pub fn contains_char(s: &str, c: char) -> (r: bool)
    ensures
        r == s@.contains(c),
{
    let chars = chars_of(s);
    let mut i: usize = 0;
    while i < chars.len()
        invariant
            chars@ == s@,
            i <= chars@.len(),
            forall|k: int| 0 <= k < i ==> chars@[k] != c,
        decreases chars@.len() - i,
    {
        if chars[i] == c {
            assert(s@[i as int] == c);
            return true;
        }
        i = i + 1;
    }
    false
}

/// Whether `s` starts with `prefix`.
pub fn starts_with_text(s: &str, prefix: &str) -> (r: bool)
    ensures
        r == (prefix@.len() <= s@.len() && s@.take(prefix@.len() as int) == prefix@),
{
    let a = chars_of(s);
    let b = chars_of(prefix);
    if b.len() > a.len() {
        return false;
    }
    let mut i: usize = 0;
    while i < b.len()
        invariant
            a@ == s@,
            b@ == prefix@,
            b@.len() <= a@.len(),
            i <= b@.len(),
            forall|k: int| 0 <= k < i ==> a@[k] == b@[k],
        decreases b@.len() - i,
    {
        if a[i] != b[i] {
            assert(s@.take(prefix@.len() as int)[i as int] != prefix@[i as int]);
            return false;
        }
        i = i + 1;
    }
    assert(s@.take(prefix@.len() as int) =~= prefix@);
    true
}

/// What `str::to_lowercase` gives for a text.
pub uninterp spec fn str_lowercase(s: Seq<char>) -> Seq<char>;

/// What `str::to_uppercase` gives for a text.
pub uninterp spec fn str_uppercase(s: Seq<char>) -> Seq<char>;

/// A character of the Unicode property White_Space, as `char::is_whitespace`
/// lists them.
pub open spec fn is_white_space(c: char) -> bool {
    let u = c as u32;
    ||| 0x09 <= u <= 0x0D
    ||| u == 0x20
    ||| u == 0x85
    ||| u == 0xA0
    ||| u == 0x1680
    ||| 0x2000 <= u <= 0x200A
    ||| u == 0x2028
    ||| u == 0x2029
    ||| u == 0x202F
    ||| u == 0x205F
    ||| u == 0x3000
}

/// A text without its leading white space.
pub open spec fn trimmed_start(s: Seq<char>) -> Seq<char>
    decreases s.len(),
{
    if s.len() > 0 && is_white_space(s[0]) {
        trimmed_start(s.drop_first())
    } else {
        s
    }
}

/// A text without its trailing white space.
pub open spec fn trimmed_end(s: Seq<char>) -> Seq<char>
    decreases s.len(),
{
    if s.len() > 0 && is_white_space(s.last()) {
        trimmed_end(s.drop_last())
    } else {
        s
    }
}

/// What `str::trim` leaves of a text: the text without its leading and
/// trailing white space.
pub open spec fn str_trimmed(s: Seq<char>) -> Seq<char> {
    trimmed_end(trimmed_start(s))
}

/// A character's code with ASCII capitals taken as small letters, as
/// `str::eq_ignore_ascii_case` compares characters.
pub open spec fn ascii_lower(c: char) -> int {
    if 'A' <= c && c <= 'Z' { (c as u32) + 32 } else { c as u32 as int }
}

/// Two texts are the same when ASCII capitals are taken as small letters.
pub open spec fn same_ignoring_ascii_case(a: Seq<char>, b: Seq<char>) -> bool {
    a.len() == b.len() && forall|i: int| 0 <= i < a.len() ==> ascii_lower(#[trigger] a[i]) == ascii_lower(b[i])
}

/// Every character of the text is ASCII.
pub open spec fn all_ascii(s: Seq<char>) -> bool {
    forall|i: int| 0 <= i < s.len() ==> (#[trigger] s[i] as u32) < 128
}

/// A text that equals an ASCII text, ASCII case aside, is ASCII.
pub proof fn lemma_same_ignoring_case_ascii(a: Seq<char>, w: Seq<char>)
    requires
        all_ascii(w),
        same_ignoring_ascii_case(a, w),
    ensures
        all_ascii(a),
{
    assert forall|i: int| 0 <= i < a.len() implies (#[trigger] a[i] as u32) < 128 by {
        assert(ascii_lower(a[i]) == ascii_lower(w[i]));
        assert((w[i] as u32) < 128);
    }
}

/// Every character of `word` is its own ASCII lower case.
pub open spec fn ascii_small(word: Seq<char>) -> bool {
    forall|i: int| 0 <= i < word.len() ==> ascii_lower(#[trigger] word[i]) == word[i] as u32
}

/// A text lowered character by character equals a small-letter word exactly
/// when the text is that word, ASCII case aside.
pub proof fn lemma_lowered_is_word(s: Seq<char>, lowered: Seq<char>, word: Seq<char>)
    requires
        ascii_small(word),
        lowered.len() == s.len(),
        forall|i: int| 0 <= i < s.len() ==> #[trigger] lowered[i] as u32 == ascii_lower(s[i]),
    ensures
        (lowered == word) == same_ignoring_ascii_case(s, word),
{
    if same_ignoring_ascii_case(s, word) {
        assert forall|i: int| 0 <= i < word.len() implies lowered[i] == word[i] by {
            assert(lowered[i] as u32 == ascii_lower(s[i]));
            assert(ascii_lower(word[i]) == word[i] as u32);
            vstd::utf8::char_u32_cast(lowered[i], lowered[i] as u32);
            vstd::utf8::char_u32_cast(word[i], word[i] as u32);
        }
        assert(lowered =~= word);
    }
    if lowered == word {
        assert forall|i: int| 0 <= i < s.len() implies ascii_lower(#[trigger] s[i]) == ascii_lower(word[i]) by {
            assert(lowered[i] as u32 == ascii_lower(s[i]));
        }
    }
}

/// `str::to_lowercase` of std: the text in lower case, by Unicode's rules.
/// An ASCII character's lower case is its ASCII lower case, one character
/// for one, so an ASCII text keeps its length and has each capital letter
/// made small.
#[verifier::external_body]
pub(crate) fn to_lower(s: &str) -> (r: String)
    ensures
        r@ == str_lowercase(s@),
        all_ascii(s@) ==> r@.len() == s@.len()
            && forall|i: int| 0 <= i < s@.len() ==> #[trigger] r@[i] as u32 == ascii_lower(s@[i]),
{
    s.to_lowercase()
}

/// A character's code with ASCII small letters taken as capitals.
pub open spec fn ascii_upper(c: char) -> int {
    if 'a' <= c && c <= 'z' { (c as u32) - 32 } else { c as u32 as int }
}

/// `upper` is `s` with each ASCII small letter made a capital, character for
/// character.
pub open spec fn ascii_uppercased(upper: Seq<char>, s: Seq<char>) -> bool {
    upper.len() == s.len() && forall|i: int| 0 <= i < s.len() ==> #[trigger] upper[i] as u32 == ascii_upper(s[i])
}

/// `str::to_uppercase` of std: the text in upper case, by Unicode's rules.
/// An ASCII character's upper case is its ASCII upper case, one character
/// for one, so an ASCII text keeps its length and has each small letter
/// made a capital.
#[verifier::external_body]
pub(crate) fn to_upper(s: &str) -> (r: String)
    ensures
        r@ == str_uppercase(s@),
        all_ascii(s@) ==> ascii_uppercased(r@, s@),
{
    s.to_uppercase()
}

/// `str::trim` of std: the text without leading and trailing white space,
/// white space as the Unicode property White_Space has it.
#[verifier::external_body]
pub(crate) fn trim(s: &str) -> (r: &str)
    ensures
        r@ == str_trimmed(s@),
{
    s.trim()
}

/// What `regex::Regex` compiled from `pattern` says of `text`: whether it
/// matches somewhere in it (`None` where the pattern does not compile).
pub uninterp spec fn regex_match(pattern: Seq<char>, text: Seq<char>) -> Option<bool>;

/// The pattern a login must match: 3 to 20 letters, digits or '_'.
pub open spec fn login_pattern() -> Seq<char> {
    "^[a-zA-Z0-9_]{3,20}$"@
}

/// A character of the class `[a-zA-Z0-9_]`.
pub open spec fn is_login_char(c: char) -> bool {
    ('a' <= c && c <= 'z') || ('A' <= c && c <= 'Z') || ('0' <= c && c <= '9') || c == '_'
}

/// A text that `login_pattern` matches: from its start to its end, 3 to 20
/// characters of the class.
pub open spec fn login_shaped(text: Seq<char>) -> bool {
    3 <= text.len() <= 20 && forall|i: int| 0 <= i < text.len() ==> is_login_char(#[trigger] text[i])
}

/// `regex::Regex::new(pattern)` and, where it compiles, `is_match(text)`.
/// The login pattern compiles, and, its `^` and `$` standing for the start
/// and end of the text, matches exactly the texts of 3 to 20 characters of
/// its class.
#[verifier::external_body]
pub(crate) fn regex_is_match(pattern: &str, text: &str) -> (r: Option<bool>)
    ensures
        r == regex_match(pattern@, text@),
        pattern@ == login_pattern() ==> r == Some(login_shaped(text@)),
{
    match regex::Regex::new(pattern) {
        Ok(re) => Some(re.is_match(text)),
        Err(_) => None,
    }
}

/// The length of a text in bytes, as `str::len` reports it: that of its
/// UTF-8 encoding.
pub open spec fn byte_len(s: Seq<char>) -> int {
    vstd::utf8::encode_utf8(s).len() as usize as int
}

} // verus!

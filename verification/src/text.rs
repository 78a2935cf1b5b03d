//! Text as sequences of characters: decoding, trimming, splitting and
//! matching, each stated over `Seq<char>`.

use vstd::prelude::*;
use vstd::utf8::{decode_utf8, valid_utf8};

verus! {

/// What permissive decoding makes of `bytes`: the text they encode, with
/// every malformed sequence replaced.
pub uninterp spec fn lossy_text(bytes: Seq<u8>) -> Seq<char>;

/// Whether `c` is white space: the characters that have the Unicode
/// property `White_Space`.
pub open spec fn white_space(c: char) -> bool {
    let n = c as u32;
    ||| 0x09 <= n <= 0x0D
    ||| n == 0x20
    ||| n == 0x85
    ||| n == 0xA0
    ||| n == 0x1680
    ||| 0x2000 <= n <= 0x200A
    ||| n == 0x2028
    ||| n == 0x2029
    ||| n == 0x202F
    ||| n == 0x205F
    ||| n == 0x3000
}

/// Calls `String::from_utf8_lossy`. The result is a function of the bytes
/// alone; bytes that are well-formed UTF-8 decode to exactly the text they
/// encode.
#[verifier::external_body]
pub(crate) fn decode_lossy(bytes: &[u8]) -> (text: String)
    ensures
        text@ == lossy_text(bytes@),
        valid_utf8(bytes@) ==> text@ == decode_utf8(bytes@),
{
    String::from_utf8_lossy(bytes).into_owned()
}

/// Calls `String::from_utf8`. Well-formed UTF-8 gives the text it encodes,
/// anything else gives `None`.
#[verifier::external_body]
pub(crate) fn decode_strict(bytes: Vec<u8>) -> (text: Option<String>)
    ensures
        text is Some <==> valid_utf8(bytes@),
        text matches Some(t) ==> t@ == decode_utf8(bytes@),
{
    String::from_utf8(bytes).ok()
}

/// Whether `c` is white space.
pub fn is_white_space(c: char) -> (b: bool)
    ensures
        b == white_space(c),
{
    let n: u32 = c as u32;
    (0x09 <= n && n <= 0x0D) || n == 0x20 || n == 0x85 || n == 0xA0 || n == 0x1680 || (0x2000
        <= n && n <= 0x200A) || n == 0x2028 || n == 0x2029 || n == 0x202F || n == 0x205F || n
        == 0x3000
}

/// The characters of `s`, in order.
pub fn chars_of(s: &str) -> (v: Vec<char>)
    ensures
        v@ == s@,
{
    let mut v: Vec<char> = Vec::new();
    let chars = s.chars();
    for c in it: chars
        invariant
            v@ == it.seq().take(it.index() as int),
    {
        v.push(c);
    }
    v
}

/// The piece of `s` from character `from` up to, not including, `to`.
pub fn slice_of(s: &str, from: usize, to: usize) -> (piece: String)
    requires
        from <= to <= s@.len(),
    ensures
        piece@ == s@.subrange(from as int, to as int),
{
    s.substring_char(from, to).to_owned()
}

/// `s` begins with `pattern`.
pub open spec fn starts_with(s: Seq<char>, pattern: Seq<char>) -> bool {
    pattern.len() <= s.len() && s.subrange(0, pattern.len() as int) == pattern
}

/// `s` ends with `pattern`.
pub open spec fn ends_with(s: Seq<char>, pattern: Seq<char>) -> bool {
    pattern.len() <= s.len() && s.subrange(s.len() - pattern.len(), s.len() as int) == pattern
}

/// Whether `text[from..to]` equals `pattern[..]` character by character.
fn matches_at(text: &Vec<char>, from: usize, pattern: &Vec<char>) -> (b: bool)
    requires
        from + pattern.len() <= text.len(),
    ensures
        b == (text@.subrange(from as int, from + pattern.len()) == pattern@),
{
    let mut k: usize = 0;
    while k < pattern.len()
        invariant
            k <= pattern.len(),
            from + pattern.len() <= text.len(),
            forall|j: int| 0 <= j < k ==> text@[from + j] == pattern@[j],
        decreases pattern.len() - k,
    {
        if text[from + k] != pattern[k] {
            assert(text@.subrange(from as int, from + pattern.len())[k as int] != pattern@[k as int]);
            return false;
        }
        k += 1;
    }
    assert(text@.subrange(from as int, from + pattern.len()) =~= pattern@);
    true
}

/// Whether `text[from..to]` begins with `pattern`.
pub fn range_starts_with(text: &Vec<char>, from: usize, to: usize, pattern: &Vec<char>) -> (b: bool)
    requires
        from <= to <= text.len(),
    ensures
        b == starts_with(text@.subrange(from as int, to as int), pattern@),
{
    if pattern.len() > to - from {
        return false;
    }
    let b = matches_at(text, from, pattern);
    assert(text@.subrange(from as int, to as int).subrange(0, pattern.len() as int)
        =~= text@.subrange(from as int, from + pattern.len()));
    b
}

/// Whether `text[from..to]` ends with `pattern`.
pub fn range_ends_with(text: &Vec<char>, from: usize, to: usize, pattern: &Vec<char>) -> (b: bool)
    requires
        from <= to <= text.len(),
    ensures
        b == ends_with(text@.subrange(from as int, to as int), pattern@),
{
    if pattern.len() > to - from {
        return false;
    }
    let b = matches_at(text, to - pattern.len(), pattern);
    assert(text@.subrange(from as int, to as int).subrange(
        (to - from) - pattern.len(),
        (to - from) as int,
    ) =~= text@.subrange(to - pattern.len(), to as int));
    b
}

/// The index of the first `c` in `s`, or the length of `s` when it holds none.
pub open spec fn first_index_of(s: Seq<char>, c: char) -> int
    decreases s.len(),
{
    if s.len() == 0 || s[0] == c {
        0
    } else {
        1 + first_index_of(s.drop_first(), c)
    }
}

/// `first_index_of` is the one index at which `c` stands with no `c` before
/// it, and the length where there is none.
pub proof fn lemma_first_index_of(s: Seq<char>, c: char)
    ensures
        0 <= first_index_of(s, c) <= s.len(),
        first_index_of(s, c) < s.len() ==> s[first_index_of(s, c)] == c,
        forall|j: int| 0 <= j < first_index_of(s, c) ==> s[j] != c,
    decreases s.len(),
{
    if s.len() == 0 || s[0] == c {
    } else {
        let rest = s.drop_first();
        lemma_first_index_of(rest, c);
        assert forall|j: int| 0 <= j < first_index_of(s, c) implies s[j] != c by {
            if j > 0 {
                assert(s[j] == rest[j - 1]);
            }
        }
    }
}

/// An index is `first_index_of` as soon as it bounds the `c`-free prefix.
pub proof fn lemma_first_index_is(s: Seq<char>, c: char, k: int)
    requires
        0 <= k <= s.len(),
        k < s.len() ==> s[k] == c,
        forall|j: int| 0 <= j < k ==> s[j] != c,
    ensures
        first_index_of(s, c) == k,
{
    lemma_first_index_of(s, c);
    let f = first_index_of(s, c);
    if f < k {
        assert(s[f] != c);
    }
}

/// The first `c` within `text[from..to]`, as an index into `text`; `to` when
/// there is none.
pub fn find_in_range(text: &Vec<char>, from: usize, to: usize, c: char) -> (k: usize)
    requires
        from <= to <= text.len(),
    ensures
        from <= k <= to,
        k - from == first_index_of(text@.subrange(from as int, to as int), c),
{
    let mut k: usize = from;
    while k < to && text[k] != c
        invariant
            from <= k <= to <= text.len(),
            forall|j: int| from <= j < k ==> text@[j] != c,
        decreases to - k,
    {
        k += 1;
    }
    proof {
        lemma_first_index_is(text@.subrange(from as int, to as int), c, k - from);
    }
    k
}

/// `s` without its leading white space.
pub open spec fn trim_start(s: Seq<char>) -> Seq<char>
    decreases s.len(),
{
    if s.len() > 0 && white_space(s[0]) {
        trim_start(s.drop_first())
    } else {
        s
    }
}

/// `s` without its trailing white space.
pub open spec fn trim_end(s: Seq<char>) -> Seq<char>
    decreases s.len(),
{
    if s.len() > 0 && white_space(s.last()) {
        trim_end(s.drop_last())
    } else {
        s
    }
}

/// `s` without its leading and trailing white space.
pub open spec fn trim(s: Seq<char>) -> Seq<char> {
    trim_end(trim_start(s))
}

/// Trimming changes nothing in a text that neither begins nor ends with
/// white space.
pub proof fn lemma_trim_keeps_a_trimmed_text(s: Seq<char>)
    requires
        s.len() > 0 ==> !white_space(s[0]) && !white_space(s.last()),
    ensures
        trim(s) == s,
{
}

/// The bounds, within `text[from..to]`, of what trimming leaves.
pub fn trim_range(text: &Vec<char>, from: usize, to: usize) -> (bounds: (usize, usize))
    requires
        from <= to <= text.len(),
    ensures
        from <= bounds.0 <= bounds.1 <= to,
        text@.subrange(bounds.0 as int, bounds.1 as int) == trim(
            text@.subrange(from as int, to as int),
        ),
{
    let mut a: usize = from;
    while a < to && is_white_space(text[a])
        invariant
            from <= a <= to <= text.len(),
            trim_start(text@.subrange(from as int, to as int)) == trim_start(
                text@.subrange(a as int, to as int),
            ),
        decreases to - a,
    {
        assert(text@.subrange(a as int, to as int).drop_first() =~= text@.subrange(
            a + 1,
            to as int,
        ));
        a += 1;
    }
    let mut b: usize = to;
    while a < b && is_white_space(text[b - 1])
        invariant
            a <= b <= to <= text.len(),
            trim_end(text@.subrange(a as int, to as int)) == trim_end(
                text@.subrange(a as int, b as int),
            ),
        decreases b - a,
    {
        assert(text@.subrange(a as int, b as int).drop_last() =~= text@.subrange(
            a as int,
            b - 1,
        ));
        b -= 1;
    }
    (a, b)
}

/// `s` cut at every `separator`: the pieces between, in order. A text
/// without the separator is one piece, and so is the empty text.
pub open spec fn split(s: Seq<char>, separator: char) -> Seq<Seq<char>>
    decreases s.len(),
{
    if s.len() == 0 {
        seq![Seq::<char>::empty()]
    } else {
        let before = split(s.drop_last(), separator);
        if s.last() == separator {
            before.push(Seq::<char>::empty())
        } else {
            before.drop_last().push(before.last().push(s.last()))
        }
    }
}

/// The views of a sequence of strings.
pub open spec fn views(v: Seq<String>) -> Seq<Seq<char>> {
    Seq::new(v.len(), |i: int| v[i]@)
}

/// Every piece of `pieces`, trimmed.
pub open spec fn trim_each(pieces: Seq<Seq<char>>) -> Seq<Seq<char>> {
    Seq::new(pieces.len(), |i: int| trim(pieces[i]))
}

/// `pieces` written one after the other with `separator` between them.
pub open spec fn join(pieces: Seq<Seq<char>>, separator: char) -> Seq<char>
    decreases pieces.len(),
{
    if pieces.len() == 0 {
        Seq::<char>::empty()
    } else if pieces.len() == 1 {
        pieces[0]
    } else {
        join(pieces.drop_last(), separator).push(separator) + pieces.last()
    }
}

/// What `split` is: the one way of cutting `s` into pieces that hold no
/// separator and that give `s` back when joined by it.
pub proof fn lemma_split_is_the_inverse_of_join(s: Seq<char>, separator: char)
    ensures
        split(s, separator).len() >= 1,
        join(split(s, separator), separator) == s,
        forall|i: int|
            0 <= i < split(s, separator).len() ==> !(#[trigger] split(s, separator)[i]).contains(
                separator,
            ),
    decreases s.len(),
{
    let pieces = split(s, separator);
    if s.len() == 0 {
        assert(join(pieces, separator) =~= s);
    } else {
        let front = s.drop_last();
        let before = split(front, separator);
        lemma_split_is_the_inverse_of_join(front, separator);
        if s.last() == separator {
            assert(pieces.drop_last() =~= before);
            assert(join(pieces, separator) =~= front.push(separator));
            assert(front.push(separator) =~= s);
            assert forall|i: int| 0 <= i < pieces.len() implies !(#[trigger] pieces[i]).contains(
                separator,
            ) by {
                if i < before.len() {
                    assert(pieces[i] == before[i]);
                }
            }
        } else {
            let grown = before.last().push(s.last());
            assert(pieces.last() == grown);
            if before.len() == 1 {
                assert(join(before, separator) == before[0]);
                assert(join(pieces, separator) =~= front.push(s.last()));
            } else {
                assert(pieces.drop_last() =~= before.drop_last());
                assert(join(pieces, separator) =~= (join(before.drop_last(), separator).push(
                    separator,
                ) + before.last()).push(s.last()));
            }
            assert(front.push(s.last()) =~= s);
            assert forall|i: int| 0 <= i < pieces.len() implies !(#[trigger] pieces[i]).contains(
                separator,
            ) by {
                if i < before.len() - 1 {
                    assert(pieces[i] == before[i]);
                } else {
                    assert(!before[before.len() - 1].contains(separator));
                    if grown.contains(separator) {
                        let k = choose|k: int| 0 <= k < grown.len() && grown[k] == separator;
                        if k < before.last().len() {
                            assert(before.last()[k] == separator);
                        }
                    }
                }
            }
        }
    }
}

/// The entries of a list written with `separator` between them, each
/// trimmed: what a comma-separated answer stands for.
pub fn split_trimmed(s: &str, separator: char) -> (items: Vec<String>)
    ensures
        views(items@) == trim_each(split(s@, separator)),
{
    let text = chars_of(s);
    let mut items: Vec<String> = Vec::new();
    let mut start: usize = 0;
    let mut i: usize = 0;
    proof {
        assert(text@.take(0) =~= Seq::<char>::empty());
        assert(text@.subrange(0, 0) =~= Seq::<char>::empty());
        assert(split(text@.take(0), separator).drop_last() =~= Seq::<Seq<char>>::empty());
        assert(trim_each(Seq::<Seq<char>>::empty()) =~= views(items@));
    }
    while i < text.len()
        invariant
            text@ == s@,
            start <= i <= text.len(),
            split(text@.take(i as int), separator).len() >= 1,
            split(text@.take(i as int), separator).last() == text@.subrange(
                start as int,
                i as int,
            ),
            items@.len() + 1 == split(text@.take(i as int), separator).len(),
            views(items@) == trim_each(split(text@.take(i as int), separator).drop_last()),
        decreases text.len() - i,
    {
        let ghost before = split(text@.take(i as int), separator);
        proof {
            assert(text@.take(i + 1).drop_last() =~= text@.take(i as int));
            assert(text@.take(i + 1).last() == text@[i as int]);
        }
        if text[i] == separator {
            let (a, b) = trim_range(&text, start, i);
            let item = slice_of(s, a, b);
            let ghost old_items = items@;
            items.push(item);
            start = i + 1;
            proof {
                let after = split(text@.take(i + 1), separator);
                assert(after == before.push(Seq::<char>::empty()));
                assert(after.drop_last() =~= before);
                assert(text@.subrange(start as int, i + 1) =~= Seq::<char>::empty());
                assert(before =~= before.drop_last().push(before.last()));
                assert(views(items@) =~= trim_each(before)) by {
                    assert forall|j: int| 0 <= j < items@.len() implies views(items@)[j]
                        == trim_each(before)[j] by {
                        if j < old_items.len() {
                            assert(views(items@)[j] == views(old_items)[j]);
                            assert(trim_each(before.drop_last())[j] == trim(before[j]));
                        }
                    }
                }
            }
        } else {
            proof {
                let after = split(text@.take(i + 1), separator);
                assert(after == before.drop_last().push(before.last().push(text@[i as int])));
                assert(after.drop_last() =~= before.drop_last());
                assert(text@.subrange(start as int, i + 1) =~= text@.subrange(
                    start as int,
                    i as int,
                ).push(text@[i as int]));
            }
        }
        i += 1;
    }
    let (a, b) = trim_range(&text, start, i);
    let item = slice_of(s, a, b);
    let ghost old_items = items@;
    items.push(item);
    proof {
        assert(text@.take(i as int) =~= text@);
        let whole = split(s@, separator);
        assert(whole =~= whole.drop_last().push(whole.last()));
        assert(views(items@) =~= trim_each(whole)) by {
            assert forall|j: int| 0 <= j < items@.len() implies views(items@)[j] == trim_each(
                whole,
            )[j] by {
                if j < old_items.len() {
                    assert(views(items@)[j] == views(old_items)[j]);
                    assert(trim_each(whole.drop_last())[j] == trim(whole[j]));
                }
            }
        }
    }
    items
}

/// `s`, trimmed.
pub fn trimmed(s: &str) -> (t: String)
    ensures
        t@ == trim(s@),
{
    let text = chars_of(s);
    let (a, b) = trim_range(&text, 0, text.len());
    assert(text@.subrange(0, text.len() as int) =~= text@);
    slice_of(s, a, b)
}

} // verus!

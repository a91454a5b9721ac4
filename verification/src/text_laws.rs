//! What holds of every text operation.

use crate::text;
use vstd::prelude::*;

verus! {

/// The code points of the characters with the Unicode property `White_Space`.
pub open spec fn white_space_points() -> Seq<int> {
    seq![
        0x9, 0xa, 0xb, 0xc, 0xd, 0x20, 0x85, 0xa0, 0x1680, 0x2000, 0x2001, 0x2002, 0x2003, 0x2004,
        0x2005, 0x2006, 0x2007, 0x2008, 0x2009, 0x200a, 0x2028, 0x2029, 0x202f, 0x205f, 0x3000,
    ]
}

/// A character is white space exactly if its code point is one of twenty-five.
pub proof fn law_white_space(c: char)
    ensures
        text::is_white_space(c) <==> white_space_points().contains(c as int),
{
    let points = white_space_points();
    let n = c as int;
    assert(points.len() == 25);
    if text::is_white_space(c) {
        let i: int = if n <= 0xd {
            n - 0x9
        } else if n == 0x20 {
            5
        } else if n == 0x85 {
            6
        } else if n == 0xa0 {
            7
        } else if n == 0x1680 {
            8
        } else if n <= 0x200a {
            n - 0x2000 + 9
        } else if n == 0x2028 {
            20
        } else if n == 0x2029 {
            21
        } else if n == 0x202f {
            22
        } else if n == 0x205f {
            23
        } else {
            24
        };
        assert(points[i] == n);
    }
}

/// Whether every character of `s` satisfies `drop`.
pub open spec fn all_satisfy(s: Seq<char>, drop: spec_fn(char) -> bool) -> bool {
    forall|i: int| 0 <= i < s.len() ==> drop(#[trigger] s[i])
}

/// Dropping a leading run splits a text in two: all of the run satisfies the
/// property, and what is left does not begin with a character that does.
pub proof fn law_strip_start(s: Seq<char>, drop: spec_fn(char) -> bool)
    ensures
        ({
            let rest = text::strip_start(s, drop);
            let head = s.take(s.len() - rest.len());
            &&& rest.len() <= s.len()
            &&& s == head + rest
            &&& all_satisfy(head, drop)
            &&& rest.len() > 0 ==> !drop(rest[0])
        }),
    decreases s.len(),
{
    if s.len() > 0 && drop(s[0]) {
        law_strip_start(s.drop_first(), drop);
        let rest = text::strip_start(s, drop);
        let head = s.take(s.len() - rest.len());
        let inner = s.drop_first().take(s.len() - 1 - rest.len());
        assert(head =~= seq![s[0]] + inner);
        assert forall|i: int| 0 <= i < head.len() implies drop(#[trigger] head[i]) by {
            if i > 0 {
                assert(head[i] == inner[i - 1]);
            }
        }
        assert(s =~= seq![s[0]] + s.drop_first());
        assert(s =~= head + rest);
    } else {
        assert(s =~= s.take(0) + s);
    }
}

/// Dropping a trailing run splits a text in two: all of the run satisfies the
/// property, and what is left does not end in a character that does.
pub proof fn law_strip_end(s: Seq<char>, drop: spec_fn(char) -> bool)
    ensures
        ({
            let rest = text::strip_end(s, drop);
            let tail = s.skip(rest.len() as int);
            &&& rest.len() <= s.len()
            &&& s == rest + tail
            &&& all_satisfy(tail, drop)
            &&& rest.len() > 0 ==> !drop(rest.last())
        }),
    decreases s.len(),
{
    if s.len() > 0 && drop(s.last()) {
        law_strip_end(s.drop_last(), drop);
        let rest = text::strip_end(s, drop);
        let tail = s.skip(rest.len() as int);
        let inner = s.drop_last().skip(rest.len() as int);
        assert(tail =~= inner.push(s.last()));
        assert forall|i: int| 0 <= i < tail.len() implies drop(#[trigger] tail[i]) by {
            if i < inner.len() {
                assert(tail[i] == inner[i]);
            }
        }
        assert(s =~= s.drop_last().push(s.last()));
        assert(s =~= rest + tail);
    } else {
        assert(s =~= s + s.skip(s.len() as int));
    }
}

/// Whether `s` is `head`, `middle` and `tail` in this order, where `head` and
/// `tail` are white space.
pub open spec fn is_trimming(
    s: Seq<char>,
    head: Seq<char>,
    middle: Seq<char>,
    tail: Seq<char>,
) -> bool {
    &&& s == head + middle + tail
    &&& all_satisfy(head, |c: char| white_space_points().contains(c as int))
    &&& all_satisfy(tail, |c: char| white_space_points().contains(c as int))
}

/// Trimming takes white space off both ends of a text and nothing else: the
/// text is the trimmed one between two runs of white space, and the trimmed one
/// neither begins nor ends with white space.
pub proof fn law_trim(s: Seq<char>)
    ensures
        ({
            let middle = text::trimmed(s);
            &&& exists|head: Seq<char>, tail: Seq<char>| #[trigger]
                is_trimming(s, head, middle, tail)
            &&& middle.len() > 0 ==> !white_space_points().contains(middle[0] as int)
                && !white_space_points().contains(middle.last() as int)
        }),
{
    let drop = |c: char| text::is_white_space(c);
    let rest = text::strip_start(s, drop);
    let middle = text::strip_end(rest, drop);
    law_strip_start(s, drop);
    law_strip_end(rest, drop);
    let head = s.take(s.len() - rest.len());
    let tail = rest.skip(middle.len() as int);
    assert(s =~= head + middle + tail);
    let points = |c: char| white_space_points().contains(c as int);
    assert forall|i: int| 0 <= i < head.len() implies points(#[trigger] head[i]) by {
        assert(drop(head[i]));
        law_white_space(head[i]);
    }
    assert forall|i: int| 0 <= i < tail.len() implies points(#[trigger] tail[i]) by {
        assert(drop(tail[i]));
        law_white_space(tail[i]);
    }
    assert(is_trimming(s, head, middle, tail));
    if middle.len() > 0 {
        assert(middle[0] == rest[0]);
        law_white_space(middle[0]);
        law_white_space(middle.last());
    }
}

/// A text is blank exactly if every character of it is white space.
pub proof fn law_blank(s: Seq<char>)
    ensures
        text::is_blank(s) <==> all_satisfy(s, |c: char| white_space_points().contains(c as int)),
{
    let points = |c: char| white_space_points().contains(c as int);
    let middle = text::trimmed(s);
    law_trim(s);
    let (head, tail) = choose|head: Seq<char>, tail: Seq<char>| #[trigger]
        is_trimming(s, head, middle, tail);
    if middle.len() == 0 {
        assert forall|i: int| 0 <= i < s.len() implies points(#[trigger] s[i]) by {
            if i < head.len() {
                assert(points(head[i]));
            } else {
                assert(s[i] == tail[i - head.len()]);
                assert(points(tail[i - head.len()]));
            }
        }
    } else if all_satisfy(s, points) {
        assert(s[head.len() as int] == middle[0]);
        assert(points(s[head.len() as int]));
    }
}

/// Two ways to trim one text agree: what stands between two runs of white
/// space, and neither begins nor ends with white space, is the trimmed text.
pub proof fn law_trim_is_unique(s: Seq<char>, head: Seq<char>, middle: Seq<char>, tail: Seq<char>)
    requires
        is_trimming(s, head, middle, tail),
        middle.len() > 0,
        !white_space_points().contains(middle[0] as int),
        !white_space_points().contains(middle.last() as int),
    ensures
        text::trimmed(s) == middle,
{
    let points = |c: char| white_space_points().contains(c as int);
    let found = text::trimmed(s);
    law_trim(s);
    let (h, t) = choose|h: Seq<char>, t: Seq<char>| #[trigger] is_trimming(s, h, found, t);
    assert(s[head.len() as int] == middle[0]);
    assert(s[head.len() + middle.len() - 1] == middle.last());
    if found.len() == 0 {
        law_blank(s);
        assert(points(s[head.len() as int]));
    }
    assert(s[h.len() as int] == found[0]);
    assert(s[h.len() + found.len() - 1] == found.last());
    if h.len() < head.len() {
        assert(head[h.len() as int] == found[0]);
        assert(points(head[h.len() as int]));
    }
    if head.len() < h.len() {
        assert(h[head.len() as int] == middle[0]);
        assert(points(h[head.len() as int]));
    }
    let end = head.len() + middle.len();
    let stop = h.len() + found.len();
    if stop > end {
        let k = stop - 1 - end;
        assert(tail[k] == s[stop - 1]);
        assert(points(tail[k]));
    }
    if end > stop {
        let k = end - 1 - stop;
        assert(t[k] == s[end - 1]);
        assert(points(t[k]));
    }
    assert(found =~= s.subrange(h.len() as int, stop as int));
    assert(middle =~= s.subrange(head.len() as int, end as int));
}

/// Leading separators are dropped, all of them and nothing else: `name` is left
/// of any number of them followed by `name`, unless `name` begins with one.
pub proof fn law_strip_leading(n: nat, name: Seq<char>, c: char)
    requires
        name.len() > 0 ==> name[0] != c,
    ensures
        text::strip_leading(Seq::new(n, |i: int| c) + name, c) == name,
    decreases n,
{
    let run = Seq::new(n, |i: int| c);
    let s = run + name;
    if n == 0 {
        assert(s =~= name);
    } else {
        assert(s[0] == c);
        assert(s.drop_first() =~= Seq::new((n - 1) as nat, |i: int| c) + name);
        law_strip_leading((n - 1) as nat, name, c);
    }
}

/// Trailing separators are dropped, all of them and nothing else.
pub proof fn law_strip_trailing(name: Seq<char>, n: nat, c: char)
    requires
        name.len() > 0 ==> name.last() != c,
    ensures
        text::strip_trailing(name + Seq::new(n, |i: int| c), c) == name,
    decreases n,
{
    let s = name + Seq::new(n, |i: int| c);
    if n == 0 {
        assert(s =~= name);
    } else {
        assert(s.last() == c);
        assert(s.drop_last() =~= name + Seq::new((n - 1) as nat, |i: int| c));
        law_strip_trailing(name, (n - 1) as nat, c);
    }
}

/// A text has a suffix exactly if it is something followed by the suffix.
pub proof fn law_suffix(s: Seq<char>, suffix: Seq<char>)
    ensures
        text::has_suffix(s, suffix) <==> exists|head: Seq<char>| s == #[trigger] (head + suffix),
{
    if text::has_suffix(s, suffix) {
        let head = s.take(s.len() - suffix.len());
        assert(s =~= head + suffix);
    }
    if exists|head: Seq<char>| s == #[trigger] (head + suffix) {
        let head = choose|head: Seq<char>| s == #[trigger] (head + suffix);
        assert(s.subrange(s.len() - suffix.len(), s.len() as int) =~= suffix);
    }
}

/// The last position of a character holds it, and no later one does; there is
/// none exactly if the character does not occur.
pub proof fn law_last_position(s: Seq<char>, c: char)
    ensures
        ({
            let p = text::last_position(s, c);
            &&& -1 <= p < s.len()
            &&& p >= 0 ==> s[p] == c
            &&& forall|i: int| p < i < s.len() ==> (#[trigger] s[i]) != c
            &&& p >= 0 <==> s.contains(c)
        }),
    decreases s.len(),
{
    if s.len() > 0 {
        let init = s.drop_last();
        law_last_position(init, c);
        let p = text::last_position(s, c);
        if s.last() != c {
            assert forall|i: int| p < i < s.len() implies (#[trigger] s[i]) != c by {
                if i < init.len() {
                    assert(init[i] == s[i]);
                }
            }
        }
        if s.contains(c) {
            let k = choose|k: int| 0 <= k < s.len() && s[k] == c;
            assert(p >= k);
        }
    }
}

/// What follows the last `c` of a text holds no `c`; it is the whole text, or
/// the text ends with a `c` followed by it.
pub proof fn law_after_last(s: Seq<char>, c: char)
    ensures
        ({
            let piece = text::after_last(s, c);
            &&& !piece.contains(c)
            &&& piece.len() <= s.len()
            &&& s.skip(s.len() - piece.len()) == piece
            &&& piece == s || (piece.len() < s.len() && s[s.len() - piece.len() - 1] == c)
            &&& piece == s <==> !s.contains(c)
        }),
{
    let p = text::last_position(s, c);
    let piece = text::after_last(s, c);
    law_last_position(s, c);
    if piece.contains(c) {
        let k = choose|k: int| 0 <= k < piece.len() && piece[k] == c;
        assert(s[p + 1 + k] == c);
    }
    assert(s.skip(s.len() - piece.len()) =~= piece);
    if p < 0 {
        assert(piece =~= s);
    }
}

/// The last piece of `head`, a separator and `name` is `name`, whatever `head`
/// holds, as long as `name` holds no separator.
pub proof fn law_last_piece_of_path(head: Seq<char>, name: Seq<char>, c: char)
    requires
        !name.contains(c),
    ensures
        text::after_last(head.push(c) + name, c) == name,
        text::after_last(name, c) == name,
{
    let s = head.push(c) + name;
    law_after_last(s, c);
    law_after_last(name, c);
    let piece = text::after_last(s, c);
    assert(s[head.len() as int] == c);
    if piece.len() > name.len() {
        let k = piece.len() - name.len() - 1;
        assert(piece[k] == s[s.len() - piece.len() + k]);
        assert(piece[k] == c);
    } else if piece.len() < name.len() {
        let k = name.len() - piece.len() - 1;
        assert(s[s.len() - piece.len() - 1] == name[k]);
        assert(name[k] == c);
    }
    assert(piece =~= name);
}

/// Joining two portions is joining each, with a separator between; joining one
/// text gives it back, and joining none gives nothing.
pub proof fn law_joined(first: Seq<Seq<char>>, second: Seq<Seq<char>>, separator: Seq<char>)
    ensures
        text::joined(Seq::empty(), separator) == Seq::<char>::empty(),
        forall|one: Seq<char>| text::joined(#[trigger] seq![one], separator) == one,
        first.len() > 0 && second.len() > 0 ==> text::joined(first + second, separator)
            == text::joined(first, separator) + separator + text::joined(second, separator),
    decreases second.len(),
{
    if first.len() > 0 && second.len() > 0 {
        let all = first + second;
        assert(all.last() == second.last());
        if second.len() == 1 {
            assert(all.drop_last() =~= first);
        } else {
            law_joined(first, second.drop_last(), separator);
            assert(all.drop_last() =~= first + second.drop_last());
            assert(text::joined(all, separator) =~= text::joined(first, separator) + separator
                + text::joined(second, separator));
        }
    }
}

/// Splitting loses nothing and splits everywhere: joined by the separator the
/// pieces are the text again, no piece holds the separator, and there is at
/// least one piece.
pub proof fn law_split(s: Seq<char>, c: char)
    ensures
        ({
            let pieces = text::split(s, c);
            &&& pieces.len() > 0
            &&& text::joined(pieces, seq![c]) == s
            &&& forall|i: int| 0 <= i < pieces.len() ==> !(#[trigger] pieces[i]).contains(c)
        }),
    decreases s.len(),
{
    let pieces = text::split(s, c);
    if s.len() == 0 {
        assert(pieces[0] =~= Seq::<char>::empty());
    } else {
        let rest = text::split(s.drop_last(), c);
        law_split(s.drop_last(), c);
        assert(s =~= s.drop_last().push(s.last()));
        if s.last() == c {
            assert(pieces.drop_last() =~= rest);
            assert(text::joined(pieces, seq![c]) =~= s);
        } else {
            let grown = rest.last().push(s.last());
            assert(!rest.last().contains(c)) by {
                assert(rest[rest.len() - 1] == rest.last());
            }
            if grown.contains(c) {
                let k = choose|k: int| 0 <= k < grown.len() && grown[k] == c;
                assert(rest.last()[k] == c);
            }
            assert(pieces.drop_last() =~= rest.drop_last());
            if rest.len() == 1 {
                assert(text::joined(pieces, seq![c]) =~= s);
            } else {
                assert(text::joined(pieces, seq![c]) =~= text::joined(
                    rest.drop_last(),
                    seq![c],
                ) + seq![c] + grown);
                assert(text::joined(pieces, seq![c]) =~= s);
            }
            assert forall|i: int| 0 <= i < pieces.len() implies !(
            #[trigger] pieces[i]).contains(c) by {
                if i < rest.len() - 1 {
                    assert(pieces[i] == rest[i]);
                }
            }
        }
    }
}

/// The number that `digits` denote in decimal notation.
pub open spec fn value_of(digits: Seq<char>) -> int
    decreases digits.len(),
{
    if digits.len() == 0 {
        0
    } else {
        10 * value_of(digits.drop_last()) + (digits.last() as int - '0' as int)
    }
}

/// The decimal notation of a number holds digits only, denotes the number, and
/// has no leading zero but that of zero itself.
pub proof fn law_decimal(n: nat)
    ensures
        ({
            let digits = text::decimal(n);
            &&& digits.len() > 0
            &&& value_of(digits) == n
            &&& forall|i: int|
                0 <= i < digits.len() ==> '0' as int <= (#[trigger] digits[i]) as int
                    && digits[i] as int <= '9' as int
            &&& n > 0 ==> digits[0] != '0'
            &&& n == 0 ==> digits.len() == 1
        }),
    decreases n,
{
    let digits = text::decimal(n);
    if n < 10 {
        assert(digits.last() as int == '0' as int + n);
        assert(digits.drop_last() =~= Seq::<char>::empty());
        assert(value_of(digits.drop_last()) == 0);
    } else {
        law_decimal(n / 10);
        let head = text::decimal(n / 10);
        assert(digits.drop_last() =~= head);
        assert(digits.last() as int == '0' as int + n % 10);
        assert(digits[0] == head[0]);
    }
}

/// Different numbers have different notations.
pub proof fn law_decimal_is_injective(a: nat, b: nat)
    requires
        text::decimal(a) == text::decimal(b),
    ensures
        a == b,
{
    law_decimal(a);
    law_decimal(b);
}

/// The first character in which two texts differ decides which comes first, by
/// its code point.
pub proof fn law_order_of_difference(common: Seq<char>, a: Seq<char>, b: Seq<char>)
    requires
        a.len() > 0,
        b.len() > 0,
        a[0] != b[0],
    ensures
        text::precedes(common + a, common + b) <==> (a[0] as int) < (b[0] as int),
    decreases common.len(),
{
    if common.len() == 0 {
        assert(common + a =~= a);
        assert(common + b =~= b);
    } else {
        assert((common + a).drop_first() =~= common.drop_first() + a);
        assert((common + b).drop_first() =~= common.drop_first() + b);
        law_order_of_difference(common.drop_first(), a, b);
    }
}

/// A text comes before every longer one that begins with it, and not after it
/// or itself.
pub proof fn law_order_of_prefix(a: Seq<char>, more: Seq<char>)
    ensures
        text::precedes(a, a + more) <==> more.len() > 0,
        !text::precedes(a + more, a),
    decreases a.len(),
{
    if a.len() == 0 {
        assert(a + more =~= more);
    } else {
        assert((a + more).drop_first() =~= a.drop_first() + more);
        law_order_of_prefix(a.drop_first(), more);
    }
}

/// A list of bytes stands in brackets, each byte in decimal notation, with a
/// comma and a space between any two.
pub proof fn law_byte_list(first: Seq<u8>, second: Seq<u8>, byte: u8)
    ensures
        text::byte_list(Seq::empty()) == seq!['[', ']'],
        text::byte_list(seq![byte]) == seq!['['] + text::decimal(byte as nat) + seq![']'],
        first.len() > 0 && second.len() > 0 ==> text::byte_list(first + second) == text::byte_list(
            first,
        ).drop_last() + seq![',', ' '] + text::byte_list(second).drop_first(),
{
    reveal_strlit("[");
    reveal_strlit("]");
    reveal_strlit(", ");
    let show = |byte: u8| text::decimal(byte as nat);
    assert("["@ =~= seq!['[']);
    assert("]"@ =~= seq![']']);
    assert(", "@ =~= seq![',', ' ']);
    let none = Seq::<u8>::empty();
    assert(none.map_values(show) =~= Seq::<Seq<char>>::empty());
    assert(text::byte_list(none) =~= seq!['[', ']']);
    let one = seq![byte];
    assert(one.map_values(show) =~= seq![text::decimal(byte as nat)]);
    assert(text::byte_list(one) =~= seq!['['] + text::decimal(byte as nat) + seq![']']);
    if first.len() > 0 && second.len() > 0 {
        let a = first.map_values(show);
        let b = second.map_values(show);
        law_joined(a, b, ", "@);
        assert((first + second).map_values(show) =~= a + b);
        assert(text::byte_list(first + second) =~= text::byte_list(first).drop_last() + seq![
            ',',
            ' ',
        ] + text::byte_list(second).drop_first());
    }
}

/// A span of seconds is written as the number, followed by `s`; no time at all
/// is `0ns`.
pub proof fn law_seconds(n: nat)
    ensures
        n > 0 ==> text::seconds(n).last() == 's' && value_of(text::seconds(n).drop_last()) == n,
        n == 0 ==> text::seconds(n) == seq!['0', 'n', 's'],
{
    reveal_strlit("s");
    reveal_strlit("0ns");
    law_decimal(n);
    assert("0ns"@ =~= seq!['0', 'n', 's']);
    assert((text::decimal(n) + "s"@).drop_last() =~= text::decimal(n));
}

/// The texts of truth values tell them apart, and one that is absent from both.
pub proof fn law_truth(a: Option<bool>, b: Option<bool>, c: bool)
    ensures
        text::truth(true) == "true"@,
        text::truth(false) == "false"@,
        text::optional_truth(a) == text::optional_truth(b) ==> a == b,
        text::optional_truth(None) == "None"@,
        text::optional_truth(Some(c)) == "Some("@ + text::truth(c) + ")"@,
{
    reveal_strlit("true");
    reveal_strlit("false");
    reveal_strlit("None");
    reveal_strlit("Some(");
    reveal_strlit(")");
    assert(text::optional_truth(None).len() == 4);
    assert(text::optional_truth(Some(true)).len() == 10);
    assert(text::optional_truth(Some(false)).len() == 11);
}

/// The views of texts, answers and lists keep every character and every error.
pub proof fn law_views(one: String, texts: Seq<String>)
    ensures
        text::optional(Some(one)) == Some(one@),
        text::optional(None) is None,
        text::either(Ok(one)) == Ok::<Seq<char>, Seq<char>>(one@),
        text::either(Err(one)) == Err::<Seq<char>, Seq<char>>(one@),
        text::answer(Err(one)) == Err::<(), Seq<char>>(one@),
        text::answer(Ok(())) is Ok,
        text::views(texts).len() == texts.len(),
        forall|i: int| 0 <= i < texts.len() ==> #[trigger] text::views(texts)[i] == texts[i]@,
{
}

}

//! Text operations over characters: trimming, splitting, decimal notation and
//! the order of strings.
//!
//! Each executable function is stated against a specification function on
//! `Seq<char>`, the view of `str` and `String`.

use vstd::prelude::*;

verus! {

/// Whether `c` has the Unicode property `White_Space`.
pub open spec fn is_white_space(c: char) -> bool {
    ||| 0x9 <= c as int <= 0xd
    ||| c as int == 0x20
    ||| c as int == 0x85
    ||| c as int == 0xa0
    ||| c as int == 0x1680
    ||| 0x2000 <= c as int <= 0x200a
    ||| c as int == 0x2028
    ||| c as int == 0x2029
    ||| c as int == 0x202f
    ||| c as int == 0x205f
    ||| c as int == 0x3000
}

/// `s` without the leading characters that satisfy `drop`.
pub open spec fn strip_start(s: Seq<char>, drop: spec_fn(char) -> bool) -> Seq<char>
    decreases s.len(),
{
    if s.len() > 0 && drop(s[0]) {
        strip_start(s.drop_first(), drop)
    } else {
        s
    }
}

/// `s` without the trailing characters that satisfy `drop`.
pub open spec fn strip_end(s: Seq<char>, drop: spec_fn(char) -> bool) -> Seq<char>
    decreases s.len(),
{
    if s.len() > 0 && drop(s.last()) {
        strip_end(s.drop_last(), drop)
    } else {
        s
    }
}

/// `s` without leading and trailing white space.
pub open spec fn trimmed(s: Seq<char>) -> Seq<char> {
    strip_end(strip_start(s, |c: char| is_white_space(c)), |c: char| is_white_space(c))
}

/// Whether `s` holds no text at all, only white space.
pub open spec fn is_blank(s: Seq<char>) -> bool {
    trimmed(s).len() == 0
}

/// The property of being `c`.
pub open spec fn equal_to(c: char) -> spec_fn(char) -> bool {
    |d: char| d == c
}

/// `s` without its leading `c` characters.
pub open spec fn strip_leading(s: Seq<char>, c: char) -> Seq<char> {
    strip_start(s, equal_to(c))
}

/// `s` without its trailing `c` characters.
pub open spec fn strip_trailing(s: Seq<char>, c: char) -> Seq<char> {
    strip_end(s, equal_to(c))
}

/// Whether `suffix` stands at the end of `s`.
pub open spec fn has_suffix(s: Seq<char>, suffix: Seq<char>) -> bool {
    s.len() >= suffix.len() && s.subrange(s.len() - suffix.len(), s.len() as int) == suffix
}

/// The pieces of `s` between the separators `c`; without a separator `s` is
/// the only piece.
pub open spec fn split(s: Seq<char>, c: char) -> Seq<Seq<char>>
    decreases s.len(),
{
    if s.len() == 0 {
        seq![s]
    } else {
        let rest = split(s.drop_last(), c);
        if s.last() == c {
            rest.push(Seq::empty())
        } else {
            rest.drop_last().push(rest.last().push(s.last()))
        }
    }
}

/// The position of the last `c` in `s`, or -1.
pub open spec fn last_position(s: Seq<char>, c: char) -> int
    decreases s.len(),
{
    if s.len() == 0 {
        -1
    } else if s.last() == c {
        s.len() - 1
    } else {
        last_position(s.drop_last(), c)
    }
}

/// What follows the last `c` in `s`; all of `s` where there is none.
pub open spec fn after_last(s: Seq<char>, c: char) -> Seq<char> {
    s.skip(last_position(s, c) + 1)
}

/// The decimal digit `d`.
pub open spec fn digit(d: int) -> char {
    (('0' as u32) + d) as char
}

/// `n` in decimal notation, without leading zeros.
pub open spec fn decimal(n: nat) -> Seq<char>
    decreases n,
{
    if n < 10 {
        seq![digit(n as int)]
    } else {
        decimal(n / 10).push(digit((n % 10) as int))
    }
}

/// Whether `a` stands strictly before `b` in the order of strings: the first
/// character in which they differ decides, and a proper prefix comes first.
pub open spec fn precedes(a: Seq<char>, b: Seq<char>) -> bool
    decreases a.len(),
{
    if b.len() == 0 {
        false
    } else if a.len() == 0 {
        true
    } else if a[0] == b[0] {
        precedes(a.drop_first(), b.drop_first())
    } else {
        (a[0] as int) < (b[0] as int)
    }
}

/// Whether `needle` is one of `texts`.
pub open spec fn is_among(texts: Seq<String>, needle: Seq<char>) -> bool {
    exists|i: int| 0 <= i < texts.len() && (#[trigger] texts[i])@ == needle
}

/// A text is one of `texts` exactly if it is one of their views.
pub proof fn lemma_among(texts: Seq<String>, needle: Seq<char>)
    ensures
        is_among(texts, needle) == views(texts).contains(needle),
{
    let all = views(texts);
    if is_among(texts, needle) {
        let i = choose|i: int| 0 <= i < texts.len() && (#[trigger] texts[i])@ == needle;
        assert(all[i] == needle);
    }
    if all.contains(needle) {
        let i = choose|i: int| 0 <= i < all.len() && all[i] == needle;
        assert(texts[i]@ == needle);
    }
}

/// The views of a sequence of strings.
pub open spec fn views(texts: Seq<String>) -> Seq<Seq<char>> {
    texts.map_values(|t: String| t@)
}

/// `texts` in order, with `separator` between any two.
pub open spec fn joined(texts: Seq<Seq<char>>, separator: Seq<char>) -> Seq<char>
    decreases texts.len(),
{
    if texts.len() == 0 {
        Seq::empty()
    } else if texts.len() == 1 {
        texts[0]
    } else {
        joined(texts.drop_last(), separator) + separator + texts.last()
    }
}

/// `bytes` as a list of numbers in brackets.
pub open spec fn byte_list(bytes: Seq<u8>) -> Seq<char> {
    "["@ + joined(bytes.map_values(|byte: u8| decimal(byte as nat)), ", "@) + "]"@
}

/// A time span of `n` whole seconds, with its unit.
pub open spec fn seconds(n: nat) -> Seq<char> {
    if n == 0 {
        "0ns"@
    } else {
        decimal(n) + "s"@
    }
}

/// `true` or `false`.
pub open spec fn truth(value: bool) -> Seq<char> {
    if value {
        "true"@
    } else {
        "false"@
    }
}

/// `Some(true)`, `Some(false)` or `None`.
pub open spec fn optional_truth(value: Option<bool>) -> Seq<char> {
    match value {
        Some(value) => "Some("@ + truth(value) + ")"@,
        None => "None"@,
    }
}

/// The view of an optional string.
pub open spec fn optional(text: Option<String>) -> Option<Seq<char>> {
    match text {
        Some(t) => Some(t@),
        None => None,
    }
}

/// The view of a text, or of the error met in its place.
pub open spec fn either(text: Result<String, String>) -> Result<Seq<char>, Seq<char>> {
    match text {
        Ok(t) => Ok(t@),
        Err(e) => Err(e@),
    }
}

/// The view of the answer of an operation that gives nothing back.
pub open spec fn answer(result: Result<(), String>) -> Result<(), Seq<char>> {
    match result {
        Ok(_) => Ok(()),
        Err(error) => Err(error@),
    }
}

/// `texts` in order, with `separator` between any two.
pub fn join(texts: &[String], separator: &str) -> (r: String)
    ensures
        r@ == joined(views(texts@), separator@),
{
    let ghost all = views(texts@);
    if texts.len() == 0 {
        return String::new();
    }
    let mut out: String = texts[0].clone();
    let mut i: usize = 1;
    assert(all.take(1)[0] == texts@[0]@);
    while i < texts.len()
        invariant
            1 <= i <= texts.len(),
            all == views(texts@),
            out@ == joined(all.take(i as int), separator@),
        decreases texts.len() - i,
    {
        out = out.concat(separator).concat(texts[i].as_str());
        assert(all.take(i + 1).drop_last() =~= all.take(i as int));
        assert(all.take(i + 1).last() == texts@[i as int]@);
        i = i + 1;
    }
    assert(all.take(i as int) =~= all);
    out
}

/// The characters of `s`.
pub fn to_chars(s: &str) -> (r: Vec<char>)
    ensures
        r@ == s@,
{
    let mut out: Vec<char> = Vec::new();
    for c in iter: s.chars()
        invariant
            iter.seq() == s@,
            out@ == s@.take(iter.index() as int),
    {
        out.push(c);
    }
    out
}

/// Whether `c` is white space.
pub fn white_space(c: char) -> (r: bool)
    ensures
        r == is_white_space(c),
{
    let n: u32 = code_point(c);
    (0x9 <= n && n <= 0xd) || n == 0x20 || n == 0x85 || n == 0xa0 || n == 0x1680 || (0x2000 <= n
        && n <= 0x200a) || n == 0x2028 || n == 0x2029 || n == 0x202f || n == 0x205f || n == 0x3000
}

/// The length of the leading run of characters in `chars` that are white
/// space, or that equal `only` where it is given.
fn leading_run(chars: &Vec<char>, only: Option<char>, Ghost(drop): Ghost<spec_fn(char) -> bool>) -> (r:
    usize)
    requires
        forall|c: char| #[trigger]
            drop(c) == (match only {
                Some(d) => c == d,
                None => is_white_space(c),
            }),
    ensures
        r <= chars.len(),
        strip_start(chars@, drop) == chars@.skip(r as int),
{
    let mut i: usize = 0;
    assert(chars@.skip(0) =~= chars@);
    while i < chars.len()
        invariant
            i <= chars.len(),
            strip_start(chars@, drop) == strip_start(chars@.skip(i as int), drop),
            forall|c: char| #[trigger]
                drop(c) == (match only {
                    Some(d) => c == d,
                    None => is_white_space(c),
                }),
        decreases chars.len() - i,
    {
        let c: char = chars[i];
        let dropped: bool = match only {
            Some(d) => c == d,
            None => white_space(c),
        };
        assert(dropped == drop(c));
        if !dropped {
            return i;
        }
        assert(chars@.skip(i as int).drop_first() =~= chars@.skip(i + 1));
        i = i + 1;
    }
    i
}

/// The length of `chars` without its trailing run of characters that are white
/// space, or that equal `only` where it is given; at least `from`.
fn trailing_run(
    chars: &Vec<char>,
    from: usize,
    only: Option<char>,
    Ghost(drop): Ghost<spec_fn(char) -> bool>,
) -> (r: usize)
    requires
        from <= chars.len(),
        forall|c: char| #[trigger]
            drop(c) == (match only {
                Some(d) => c == d,
                None => is_white_space(c),
            }),
    ensures
        from <= r <= chars.len(),
        strip_end(chars@.skip(from as int), drop) == chars@.subrange(from as int, r as int),
{
    let mut j: usize = chars.len();
    assert(chars@.skip(from as int) =~= chars@.subrange(from as int, j as int));
    while j > from
        invariant
            from <= j <= chars.len(),
            strip_end(chars@.skip(from as int), drop) == strip_end(
                chars@.subrange(from as int, j as int),
                drop,
            ),
            forall|c: char| #[trigger]
                drop(c) == (match only {
                    Some(d) => c == d,
                    None => is_white_space(c),
                }),
        decreases j,
    {
        let c: char = chars[j - 1];
        let dropped: bool = match only {
            Some(d) => c == d,
            None => white_space(c),
        };
        assert(chars@.subrange(from as int, j as int).last() == c);
        assert(dropped == drop(c));
        if !dropped {
            return j;
        }
        assert(chars@.subrange(from as int, j as int).drop_last() =~= chars@.subrange(
            from as int,
            j - 1,
        ));
        j = j - 1;
    }
    j
}

/// `s` without leading and trailing white space.
pub fn trim(s: &str) -> (r: &str)
    ensures
        r@ == trimmed(s@),
{
    let chars: Vec<char> = to_chars(s);
    let ghost drop = |c: char| is_white_space(c);
    let from: usize = leading_run(&chars, None, Ghost(drop));
    let to: usize = trailing_run(&chars, from, None, Ghost(drop));
    s.substring_char(from, to)
}

/// `s` without its leading `c` characters.
pub fn trim_start_matches(s: &str, c: char) -> (r: &str)
    ensures
        r@ == strip_leading(s@, c),
{
    let chars: Vec<char> = to_chars(s);
    let ghost drop = equal_to(c);
    let from: usize = leading_run(&chars, Some(c), Ghost(drop));
    assert(s@.skip(from as int) =~= s@.subrange(from as int, s@.len() as int));
    s.substring_char(from, chars.len())
}

/// `s` without its trailing `c` characters.
pub fn trim_end_matches(s: &str, c: char) -> (r: &str)
    ensures
        r@ == strip_trailing(s@, c),
{
    let chars: Vec<char> = to_chars(s);
    let ghost drop = equal_to(c);
    let to: usize = trailing_run(&chars, 0, Some(c), Ghost(drop));
    assert(s@.skip(0) =~= s@);
    s.substring_char(0, to)
}

/// Whether two texts hold the same characters.
pub fn same(a: &str, b: &str) -> (r: bool)
    ensures
        r == (a@ == b@),
{
    let x: Vec<char> = to_chars(a);
    let y: Vec<char> = to_chars(b);
    if x.len() != y.len() {
        return false;
    }
    let mut i: usize = 0;
    while i < x.len()
        invariant
            i <= x.len(),
            x.len() == y.len(),
            x@ == a@,
            y@ == b@,
            x@.take(i as int) =~= y@.take(i as int),
        decreases x.len() - i,
    {
        if x[i] != y[i] {
            assert(a@[i as int] != b@[i as int]);
            return false;
        }
        i = i + 1;
    }
    assert(x@.take(i as int) =~= x@);
    assert(y@.take(i as int) =~= y@);
    true
}

/// Whether `suffix` stands at the end of `s`.
pub fn ends_with(s: &str, suffix: &str) -> (r: bool)
    ensures
        r == has_suffix(s@, suffix@),
{
    let n: usize = s.unicode_len();
    let m: usize = suffix.unicode_len();
    if n < m {
        false
    } else {
        same(s.substring_char(n - m, n), suffix)
    }
}

/// Whether `c` occurs in `s`.
pub fn contains_char(s: &str, c: char) -> (r: bool)
    ensures
        r == s@.contains(c),
{
    let chars: Vec<char> = to_chars(s);
    let mut i: usize = 0;
    while i < chars.len()
        invariant
            i <= chars.len(),
            chars@ == s@,
            forall|j: int| 0 <= j < i ==> chars@[j] != c,
        decreases chars.len() - i,
    {
        if chars[i] == c {
            assert(s@[i as int] == c);
            return true;
        }
        i = i + 1;
    }
    false
}

/// Whether `s` begins with `c`.
pub fn starts_with_char(s: &str, c: char) -> (r: bool)
    ensures
        r == (s@.len() > 0 && s@[0] == c),
{
    s.unicode_len() > 0 && s.get_char(0) == c
}

/// The position of the last `c` in `s`, where there is one.
fn rfind(s: &str, c: char) -> (r: Option<usize>)
    ensures
        match r {
            Some(i) => i < s@.len() && last_position(s@, c) == i,
            None => last_position(s@, c) == -1,
        },
{
    let chars: Vec<char> = to_chars(s);
    let mut j: usize = chars.len();
    assert(s@.take(j as int) =~= s@);
    while j > 0
        invariant
            j <= chars.len(),
            chars@ == s@,
            last_position(s@, c) == last_position(s@.take(j as int), c),
        decreases j,
    {
        assert(s@.take(j as int).last() == s@[j - 1]);
        if chars[j - 1] == c {
            return Some(j - 1);
        }
        assert(s@.take(j as int).drop_last() =~= s@.take(j - 1));
        j = j - 1;
    }
    None
}

/// What follows the last `c` in `s`; all of `s` where there is none.
pub fn last_piece(s: &str, c: char) -> (r: &str)
    ensures
        r@ == after_last(s@, c),
{
    let n: usize = s.unicode_len();
    match rfind(s, c) {
        Some(i) => {
            assert(s@.skip(i + 1) =~= s@.subrange(i + 1, n as int));
            s.substring_char(i + 1, n)
        },
        None => {
            assert(s@.skip(0) =~= s@);
            s
        },
    }
}

/// What precedes the last `c` in `s`, where there is one.
pub fn before_last(s: &str, c: char) -> (r: Option<&str>)
    ensures
        match r {
            Some(head) => 0 <= last_position(s@, c) < s@.len() && head@ == s@.take(last_position(s@, c)),
            None => last_position(s@, c) == -1,
        },
{
    match rfind(s, c) {
        Some(i) => {
            assert(s@.take(i as int) =~= s@.subrange(0, i as int));
            Some(s.substring_char(0, i))
        },
        None => None,
    }
}

/// The pieces of `s` between the separators `c`.
pub fn split_at_char(s: &str, c: char) -> (r: Vec<String>)
    ensures
        views(r@) == split(s@, c),
{
    let chars: Vec<char> = to_chars(s);
    let mut pieces: Vec<String> = Vec::new();
    let mut from: usize = 0;
    let mut i: usize = 0;
    assert(s@.take(0) =~= Seq::<char>::empty());
    assert(views(pieces@).push(s@.subrange(0, 0)) =~= seq![s@.take(0)]);
    while i < chars.len()
        invariant
            from <= i <= chars.len(),
            chars@ == s@,
            views(pieces@).push(s@.subrange(from as int, i as int)) == split(s@.take(i as int), c),
        decreases chars.len() - i,
    {
        let ghost before = views(pieces@).push(s@.subrange(from as int, i as int));
        assert(s@.take(i + 1).drop_last() =~= s@.take(i as int));
        assert(s@.take(i + 1).last() == s@[i as int]);
        assert(before.drop_last() =~= views(pieces@));
        assert(before.last() == s@.subrange(from as int, i as int));
        if chars[i] == c {
            pieces.push(s.substring_char(from, i).to_string());
            assert(views(pieces@) =~= before);
            from = i + 1;
            assert(s@.subrange(from as int, i + 1) =~= Seq::<char>::empty());
        } else {
            assert(s@.subrange(from as int, i as int).push(s@[i as int]) =~= s@.subrange(
                from as int,
                i + 1,
            ));
        }
        i = i + 1;
    }
    let ghost before = views(pieces@);
    pieces.push(s.substring_char(from, i).to_string());
    assert(views(pieces@) =~= before.push(s@.subrange(from as int, i as int)));
    assert(s@.take(i as int) =~= s@);
    pieces
}

/// Whether `needle` is one of `texts`.
pub fn contains_text(texts: &Vec<String>, needle: &str) -> (r: bool)
    ensures
        r == is_among(texts@, needle@),
{
    let mut i: usize = 0;
    while i < texts.len()
        invariant
            i <= texts.len(),
            forall|j: int| 0 <= j < i ==> (#[trigger] texts@[j])@ != needle@,
        decreases texts.len() - i,
    {
        if same(texts[i].as_str(), needle) {
            return true;
        }
        i = i + 1;
    }
    false
}

/// The text of the decimal digit `d`.
fn digit_text(d: u64) -> (r: &'static str)
    requires
        d < 10,
    ensures
        r@ == seq![digit(d as int)],
{
    proof {
        reveal_strlit("0");
        reveal_strlit("1");
        reveal_strlit("2");
        reveal_strlit("3");
        reveal_strlit("4");
        reveal_strlit("5");
        reveal_strlit("6");
        reveal_strlit("7");
        reveal_strlit("8");
        reveal_strlit("9");
    }
    if d == 0 {
        assert("0"@ =~= seq![digit(0)]);
        "0"
    } else if d == 1 {
        assert("1"@ =~= seq![digit(1)]);
        "1"
    } else if d == 2 {
        assert("2"@ =~= seq![digit(2)]);
        "2"
    } else if d == 3 {
        assert("3"@ =~= seq![digit(3)]);
        "3"
    } else if d == 4 {
        assert("4"@ =~= seq![digit(4)]);
        "4"
    } else if d == 5 {
        assert("5"@ =~= seq![digit(5)]);
        "5"
    } else if d == 6 {
        assert("6"@ =~= seq![digit(6)]);
        "6"
    } else if d == 7 {
        assert("7"@ =~= seq![digit(7)]);
        "7"
    } else if d == 8 {
        assert("8"@ =~= seq![digit(8)]);
        "8"
    } else {
        assert("9"@ =~= seq![digit(9)]);
        "9"
    }
}

/// `n` in decimal notation.
pub fn number(n: u64) -> (r: String)
    ensures
        r@ == decimal(n as nat),
    decreases n,
{
    if n < 10 {
        digit_text(n).to_string()
    } else {
        let mut r: String = number(n / 10);
        let ghost head = r@;
        r.append(digit_text(n % 10));
        assert(r@ =~= head.push(digit((n % 10) as int)));
        r
    }
}

/// `bytes` as a list of numbers in brackets.
pub fn list_bytes(bytes: &[u8]) -> (r: String)
    ensures
        r@ == byte_list(bytes@),
{
    let mut numbers: Vec<String> = Vec::new();
    let mut i: usize = 0;
    while i < bytes.len()
        invariant
            i <= bytes.len(),
            numbers.len() == i,
            forall|j: int| 0 <= j < i ==> (#[trigger] numbers@[j])@ == decimal(bytes@[j] as nat),
        decreases bytes.len() - i,
    {
        numbers.push(number(bytes[i] as u64));
        i = i + 1;
    }
    assert(views(numbers@) =~= bytes@.map_values(|byte: u8| decimal(byte as nat)));
    let list: String = join(numbers.as_slice(), ", ");
    "[".to_string().concat(list.as_str()).concat("]")
}

/// A time span of `n` whole seconds, with its unit.
pub fn seconds_text(n: u64) -> (r: String)
    ensures
        r@ == seconds(n as nat),
{
    if n == 0 {
        "0ns".to_string()
    } else {
        number(n).concat("s")
    }
}

/// `true` or `false`.
pub fn truth_text(value: bool) -> (r: &'static str)
    ensures
        r@ == truth(value),
{
    if value {
        "true"
    } else {
        "false"
    }
}

/// `Some(true)`, `Some(false)` or `None`.
pub fn optional_truth_text(value: Option<bool>) -> (r: String)
    ensures
        r@ == optional_truth(value),
{
    match value {
        Some(value) => "Some(".to_string().concat(truth_text(value)).concat(")"),
        None => "None".to_string(),
    }
}

/// The code point of `c`.
fn code_point(c: char) -> (r: u32)
    ensures
        r as int == c as int,
{
    c as u32
}

/// Whether `a` stands strictly before `b` in the order of strings.
pub fn is_before(a: &str, b: &str) -> (r: bool)
    ensures
        r == precedes(a@, b@),
{
    let x: Vec<char> = to_chars(a);
    let y: Vec<char> = to_chars(b);
    let mut i: usize = 0;
    assert(x@.skip(0) =~= x@);
    assert(y@.skip(0) =~= y@);
    while i < x.len() && i < y.len()
        invariant
            i <= x.len(),
            i <= y.len(),
            x@ == a@,
            y@ == b@,
            precedes(a@, b@) == precedes(x@.skip(i as int), y@.skip(i as int)),
        decreases x.len() - i,
    {
        let p: char = x[i];
        let q: char = y[i];
        if p != q {
            return code_point(p) < code_point(q);
        }
        assert(x@.skip(i as int).drop_first() =~= x@.skip(i + 1));
        assert(y@.skip(i as int).drop_first() =~= y@.skip(i + 1));
        i = i + 1;
    }
    i < y.len()
}

}

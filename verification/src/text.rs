//! Text helpers: trimming, comparing, joining and decimal numerals, each
//! stated over the sequence of characters that a string holds.

use vstd::prelude::*;

verus! {

/// The characters of an optional string.
pub open spec fn view_of(s: Option<String>) -> Option<Seq<char>> {
    match s {
        Some(text) => Some(text@),
        None => None,
    }
}

/// The characters of a result that is a string either way.
pub open spec fn outcome(r: Result<String, String>) -> Result<Seq<char>, Seq<char>> {
    match r {
        Ok(text) => Ok(text@),
        Err(message) => Err(message@),
    }
}

/// The characters of each string of a list.
pub open spec fn views(list: Seq<String>) -> Seq<Seq<char>> {
    Seq::new(list.len(), |i: int| list[i]@)
}

/// The characters with the Unicode property `White_Space`.
pub open spec fn is_white(c: char) -> bool {
    ||| '\u{9}' <= c <= '\u{d}'
    ||| c == '\u{20}'
    ||| c == '\u{85}'
    ||| c == '\u{a0}'
    ||| c == '\u{1680}'
    ||| '\u{2000}' <= c <= '\u{200a}'
    ||| c == '\u{2028}'
    ||| c == '\u{2029}'
    ||| c == '\u{202f}'
    ||| c == '\u{205f}'
    ||| c == '\u{3000}'
}

/// White space as a set of characters.
pub open spec fn white() -> Set<char> {
    Set::new(|c: char| is_white(c))
}

/// The path separator as a set of characters.
pub open spec fn slash() -> Set<char> {
    set!['/']
}

/// `s` without the characters of `cut` at its end.
pub open spec fn trimmed_end(s: Seq<char>, cut: Set<char>) -> Seq<char>
    decreases s.len(),
{
    if s.len() > 0 && cut.contains(s.last()) {
        trimmed_end(s.drop_last(), cut)
    } else {
        s
    }
}

/// `s` without the characters of `cut` at its start.
pub open spec fn trimmed_start(s: Seq<char>, cut: Set<char>) -> Seq<char>
    decreases s.len(),
{
    if s.len() > 0 && cut.contains(s[0]) {
        trimmed_start(s.drop_first(), cut)
    } else {
        s
    }
}

/// `s` without the characters of `cut` at either end.
pub open spec fn trimmed(s: Seq<char>, cut: Set<char>) -> Seq<char> {
    trimmed_start(trimmed_end(s, cut), cut)
}

/// Whether `c` is white space.
fn is_white_char(c: char) -> (r: bool)
    ensures
        r == white().contains(c),
{
    ('\u{9}' <= c && c <= '\u{d}') || c == '\u{20}' || c == '\u{85}' || c == '\u{a0}' || c
        == '\u{1680}' || ('\u{2000}' <= c && c <= '\u{200a}') || c == '\u{2028}' || c == '\u{2029}'
        || c == '\u{202f}' || c == '\u{205f}' || c == '\u{3000}'
}

/// The characters of `s`, in order.
pub fn chars_of(s: &str) -> (r: Vec<char>)
    ensures
        r@ == s@,
{
    let mut out: Vec<char> = Vec::new();
    for c in it: s.chars()
        invariant
            out@ == s@.take(it.index() as int),
            it.seq() == s@,
    {
        out.push(c);
        assert(s@.take(it.index() + 1) =~= s@.take(it.index() as int).push(s@[it.index() as int]));
    }
    assert(s@.take(s@.len() as int) =~= s@);
    out
}

/// Which characters a trim removes.
#[derive(Clone, Copy, PartialEq, Eq, Structural)]
pub enum Cut {
    /// White space.
    White,
    /// The character `/`.
    Slash,
}

impl Cut {
    /// The characters that are removed.
    pub open spec fn set(self) -> Set<char> {
        match self {
            Cut::White => white(),
            Cut::Slash => slash(),
        }
    }

    fn has(self, c: char) -> (r: bool)
        ensures
            r == self.set().contains(c),
    {
        match self {
            Cut::White => is_white_char(c),
            Cut::Slash => c == '/',
        }
    }
}

/// `s` without the characters of `cut` at its end.
pub fn trim_end(s: &str, cut: Cut) -> (r: &str)
    ensures
        r@ == trimmed_end(s@, cut.set()),
{
    let chars = chars_of(s);
    let mut end: usize = chars.len();
    assert(s@.take(end as int) =~= s@);
    while end > 0 && cut.has(chars[end - 1])
        invariant
            end <= chars.len(),
            chars@ == s@,
            trimmed_end(s@, cut.set()) == trimmed_end(s@.take(end as int), cut.set()),
        decreases end,
    {
        assert(s@.take(end as int).drop_last() =~= s@.take(end - 1));
        end = end - 1;
    }
    assert(s@.subrange(0, end as int) =~= s@.take(end as int));
    s.substring_char(0, end)
}

/// `s` without the characters of `cut` at its start.
pub fn trim_start(s: &str, cut: Cut) -> (r: &str)
    ensures
        r@ == trimmed_start(s@, cut.set()),
{
    let chars = chars_of(s);
    let mut start: usize = 0;
    assert(s@.skip(0) =~= s@);
    while start < chars.len() && cut.has(chars[start])
        invariant
            start <= chars.len(),
            chars@ == s@,
            trimmed_start(s@, cut.set()) == trimmed_start(s@.skip(start as int), cut.set()),
        decreases chars.len() - start,
    {
        assert(s@.skip(start as int).drop_first() =~= s@.skip(start + 1));
        start = start + 1;
    }
    assert(s@.subrange(start as int, s@.len() as int) =~= s@.skip(start as int));
    s.substring_char(start, chars.len())
}

/// `s` without the characters of `cut` at either end.
pub fn trim(s: &str, cut: Cut) -> (r: &str)
    ensures
        r@ == trimmed(s@, cut.set()),
{
    trim_start(trim_end(s, cut), cut)
}

/// Whether `s` starts with `prefix`.
pub fn starts_with(s: &str, prefix: &str) -> (r: bool)
    ensures
        r == prefix@.is_prefix_of(s@),
{
    let chars = chars_of(s);
    let wanted = chars_of(prefix);
    if wanted.len() > chars.len() {
        return false;
    }
    let mut i: usize = 0;
    while i < wanted.len()
        invariant
            i <= wanted.len() <= chars.len(),
            chars@ == s@,
            wanted@ == prefix@,
            forall|j: int| 0 <= j < i ==> chars@[j] == wanted@[j],
        decreases wanted.len() - i,
    {
        if chars[i] != wanted[i] {
            assert(s@.subrange(0, prefix@.len() as int)[i as int] == s@[i as int]);
            return false;
        }
        i = i + 1;
    }
    assert(prefix@ =~= s@.subrange(0, prefix@.len() as int));
    true
}

/// Whether two strings hold the same characters.
pub fn same(a: &str, b: &str) -> (r: bool)
    ensures
        r == (a@ == b@),
{
    a.to_owned() == b.to_owned()
}

/// `c`, in lower case where it is an ASCII letter.
pub open spec fn lower(c: char) -> char {
    if 'A' <= c <= 'Z' {
        (c as u32 + 32) as char
    } else {
        c
    }
}

/// `s` with its ASCII letters in lower case.
pub open spec fn lowered(s: Seq<char>) -> Seq<char> {
    Seq::new(s.len(), |i: int| lower(s[i]))
}

/// `c`, in lower case where it is an ASCII letter.
fn lower_char(c: char) -> (r: char)
    ensures
        r == lower(c),
{
    if 'A' <= c && c <= 'Z' {
        ((c as u8) + 32) as char
    } else {
        c
    }
}

/// Whether `s`, with its ASCII letters in lower case, holds the characters of
/// `wanted`.
pub fn same_lowered(s: &str, wanted: &str) -> (r: bool)
    ensures
        r == (lowered(s@) == wanted@),
{
    let chars = chars_of(s);
    let others = chars_of(wanted);
    if chars.len() != others.len() {
        return false;
    }
    let mut i: usize = 0;
    while i < chars.len()
        invariant
            i <= chars.len() == others.len(),
            chars@ == s@,
            others@ == wanted@,
            forall|j: int| 0 <= j < i ==> lowered(s@)[j] == wanted@[j],
        decreases chars.len() - i,
    {
        if lower_char(chars[i]) != others[i] {
            assert(lowered(s@)[i as int] != wanted@[i as int]);
            return false;
        }
        i = i + 1;
    }
    assert(lowered(s@) =~= wanted@);
    true
}

/// Where `c` stands last in `s`.
pub open spec fn last_position(s: Seq<char>, c: char) -> Option<int>
    decreases s.len(),
{
    if s.len() == 0 {
        None
    } else if s.last() == c {
        Some(s.len() - 1)
    } else {
        last_position(s.drop_last(), c)
    }
}

/// Where `c` stands last in `s`.
pub fn rfind(s: &str, c: char) -> (r: Option<usize>)
    ensures
        r is Some <==> last_position(s@, c) is Some,
        r matches Some(at) ==> at == last_position(s@, c)->0 && at < s@.len() && s@[at as int] == c,
{
    let chars = chars_of(s);
    let mut end: usize = chars.len();
    assert(s@.take(end as int) =~= s@);
    while end > 0
        invariant
            end <= chars.len(),
            chars@ == s@,
            last_position(s@, c) == last_position(s@.take(end as int), c),
        decreases end,
    {
        if chars[end - 1] == c {
            return Some(end - 1);
        }
        assert(s@.take(end as int).drop_last() =~= s@.take(end - 1));
        end = end - 1;
    }
    None
}

/// The decimal digit of `d`.
pub open spec fn digit(d: int) -> char {
    (d + 48) as char
}

/// The decimal numeral of `n`.
pub open spec fn decimal(n: nat) -> Seq<char>
    decreases n,
{
    if n < 10 {
        seq![digit(n as int)]
    } else {
        decimal(n / 10).push(digit((n % 10) as int))
    }
}

/// The decimal digit of `d`, as a string.
fn digit_text(d: u64) -> (r: &'static str)
    requires
        d < 10,
    ensures
        r@ == seq![digit(d as int)],
{
    proof {
        reveal_strlit("0");
        reveal_strlit("1");
        reveal_strlit("2");
        reveal_strlit("3");
        reveal_strlit("4");
        reveal_strlit("5");
        reveal_strlit("6");
        reveal_strlit("7");
        reveal_strlit("8");
        reveal_strlit("9");
    }
    match d {
        0 => "0",
        1 => "1",
        2 => "2",
        3 => "3",
        4 => "4",
        5 => "5",
        6 => "6",
        7 => "7",
        8 => "8",
        _ => "9",
    }
}

/// The decimal numeral of `n`.
pub fn numeral(n: u64) -> (r: String)
    ensures
        r@ == decimal(n as nat),
    decreases n,
{
    if n < 10 {
        digit_text(n).to_owned()
    } else {
        let mut out = numeral(n / 10);
        out.append(digit_text(n % 10));
        out
    }
}

/// A trim at the end removes characters of `cut`, all of those that stand
/// there, and nothing else.
pub proof fn law_trimmed_end(s: Seq<char>, cut: Set<char>)
    ensures
        trimmed_end(s, cut).is_prefix_of(s),
        forall|i: int| trimmed_end(s, cut).len() <= i < s.len() ==> cut.contains(#[trigger] s[i]),
        trimmed_end(s, cut).len() > 0 ==> !cut.contains(trimmed_end(s, cut).last()),
    decreases s.len(),
{
    if s.len() > 0 && cut.contains(s.last()) {
        law_trimmed_end(s.drop_last(), cut);
        let rest = trimmed_end(s.drop_last(), cut);
        assert(s.subrange(0, rest.len() as int) =~= s.drop_last().subrange(0, rest.len() as int));
        assert forall|i: int| rest.len() <= i < s.len() implies cut.contains(#[trigger] s[i]) by {
            if i < s.len() - 1 {
                assert(s.drop_last()[i] == s[i]);
            }
        }
    } else {
        assert(s.subrange(0, s.len() as int) =~= s);
    }
}

/// A trim at the start removes characters of `cut`, all of those that stand
/// there, and nothing else.
pub proof fn law_trimmed_start(s: Seq<char>, cut: Set<char>)
    ensures
        trimmed_start(s, cut).is_suffix_of(s),
        forall|i: int|
            0 <= i < s.len() - trimmed_start(s, cut).len() ==> cut.contains(#[trigger] s[i]),
        trimmed_start(s, cut).len() > 0 ==> !cut.contains(trimmed_start(s, cut)[0]),
    decreases s.len(),
{
    if s.len() > 0 && cut.contains(s[0]) {
        law_trimmed_start(s.drop_first(), cut);
        let rest = trimmed_start(s.drop_first(), cut);
        let inner = s.drop_first();
        assert(s.subrange(s.len() - rest.len(), s.len() as int) =~= inner.subrange(
            inner.len() - rest.len(),
            inner.len() as int,
        ));
        assert forall|i: int| 0 <= i < s.len() - rest.len() implies cut.contains(
            #[trigger] s[i],
        ) by {
            if i > 0 {
                assert(inner[i - 1] == s[i]);
            }
        }
    } else {
        assert(s.subrange(0, s.len() as int) =~= s);
    }
}

/// What is left of a trim neither starts nor ends with a character of `cut`,
/// and another trim changes nothing.
pub proof fn law_trimmed(s: Seq<char>, cut: Set<char>)
    ensures
        trimmed(s, cut).len() > 0 ==> !cut.contains(trimmed(s, cut)[0]) && !cut.contains(
            trimmed(s, cut).last(),
        ),
        trimmed(trimmed(s, cut), cut) == trimmed(s, cut),
{
    let body = trimmed_end(s, cut);
    law_trimmed_end(s, cut);
    law_trimmed_start(body, cut);
    let rest = trimmed(s, cut);
    if rest.len() > 0 {
        assert(rest =~= body.subrange(body.len() - rest.len(), body.len() as int));
        assert(rest.last() == body.last());
    }
}

/// Characters of `cut` that are put at the end of a text do not change what a
/// trim at the end leaves.
pub proof fn law_trimmed_end_ignores_more(s: Seq<char>, more: Seq<char>, cut: Set<char>)
    requires
        forall|i: int| 0 <= i < more.len() ==> cut.contains(#[trigger] more[i]),
    ensures
        trimmed_end(s + more, cut) == trimmed_end(s, cut),
    decreases more.len(),
{
    if more.len() == 0 {
        assert(s + more =~= s);
    } else {
        assert((s + more).drop_last() =~= s + more.drop_last());
        assert forall|i: int| 0 <= i < more.drop_last().len() implies cut.contains(
            #[trigger] more.drop_last()[i],
        ) by {
            assert(more.drop_last()[i] == more[i]);
        }
        law_trimmed_end_ignores_more(s, more.drop_last(), cut);
    }
}

/// The number that a decimal numeral stands for.
pub open spec fn value_of(numeral: Seq<char>) -> int
    decreases numeral.len(),
{
    if numeral.len() == 0 {
        0
    } else {
        value_of(numeral.drop_last()) * 10 + (numeral.last() as int - 48)
    }
}

/// A decimal numeral stands for the number that it was made of, so different
/// numbers have different numerals.
pub proof fn law_decimal_reads_back(n: nat)
    ensures
        value_of(decimal(n)) == n,
    decreases n,
{
    if n < 10 {
        assert(decimal(n).drop_last() =~= Seq::empty());
        reveal_with_fuel(value_of, 2);
    } else {
        law_decimal_reads_back(n / 10);
        assert(decimal(n).drop_last() =~= decimal(n / 10));
    }
}

/// Lower case leaves a text as it is that is in lower case already.
pub proof fn law_lowered_twice(s: Seq<char>)
    ensures
        lowered(lowered(s)) == lowered(s),
{
    assert(lowered(lowered(s)) =~= lowered(s));
}

/// Lower case moves no character that is not an ASCII letter.
pub proof fn lemma_last_position_lowered(s: Seq<char>, c: char)
    requires
        !('A' <= c <= 'Z'),
        !('a' <= c <= 'z'),
    ensures
        last_position(lowered(s), c) == last_position(s, c),
    decreases s.len(),
{
    if s.len() > 0 {
        assert(lowered(s).drop_last() =~= lowered(s.drop_last()));
        lemma_last_position_lowered(s.drop_last(), c);
    }
}

/// A position that was found is one of the text and holds the character, and
/// the character does not stand behind it; where none was found, the character
/// stands nowhere.
pub proof fn lemma_last_position(s: Seq<char>, c: char)
    ensures
        last_position(s, c) matches Some(i) ==> 0 <= i < s.len() && s[i] == c && forall|j: int|
            i < j < s.len() ==> #[trigger] s[j] != c,
        last_position(s, c) is None ==> forall|j: int| 0 <= j < s.len() ==> #[trigger] s[j] != c,
    decreases s.len(),
{
    if s.len() > 0 {
        let rest = s.drop_last();
        lemma_last_position(rest, c);
        assert forall|j: int| 0 <= j < rest.len() implies #[trigger] s[j] == rest[j] by {}
    }
}

/// White space is: tab to carriage return, the space, and the further spaces
/// and separators of Unicode, by their code points. The path separator is `/`
/// alone. A trim removes one or the other.
pub proof fn law_what_is_trimmed(c: char)
    ensures
        white().contains(c) <==> {
            let code = c as int;
            ||| 9 <= code <= 13
            ||| code == 32
            ||| code == 0x85
            ||| code == 0xa0
            ||| code == 0x1680
            ||| 0x2000 <= code <= 0x200a
            ||| 0x2028 <= code <= 0x2029
            ||| code == 0x202f
            ||| code == 0x205f
            ||| code == 0x3000
        },
        slash().contains(c) <==> c == '/',
        Cut::White.set() == white(),
        Cut::Slash.set() == slash(),
{
}

/// A trim takes characters of `cut` away at the two ends and keeps everything
/// in between: what it leaves, with what it took put back, is the text.
pub proof fn law_trimmed_is_the_middle(s: Seq<char>, cut: Set<char>) -> (around: (Seq<char>, Seq<char>))
    ensures
        s == around.0 + trimmed(s, cut) + around.1,
        forall|i: int| 0 <= i < around.0.len() ==> cut.contains(#[trigger] around.0[i]),
        forall|i: int| 0 <= i < around.1.len() ==> cut.contains(#[trigger] around.1[i]),
        trimmed(s, cut).len() > 0 ==> !cut.contains(trimmed(s, cut)[0]) && !cut.contains(
            trimmed(s, cut).last(),
        ),
{
    let body = trimmed_end(s, cut);
    let rest = trimmed(s, cut);
    law_trimmed(s, cut);
    law_trimmed_end(s, cut);
    law_trimmed_start(body, cut);
    let before = body.take(body.len() - rest.len());
    let behind = s.skip(body.len() as int);
    assert(body =~= s.subrange(0, body.len() as int));
    assert(rest =~= body.subrange(body.len() - rest.len(), body.len() as int));
    assert forall|i: int| 0 <= i < before.len() implies cut.contains(#[trigger] before[i]) by {
        assert(before[i] == body[i]);
    }
    assert forall|i: int| 0 <= i < behind.len() implies cut.contains(#[trigger] behind[i]) by {
        assert(behind[i] == s[body.len() + i]);
    }
    assert(before + rest =~= body);
    assert(body + behind =~= s);
    (before, behind)
}

/// Lower case keeps every character where it is: the letters from A to Z
/// become those from a to z, and every other character stays.
pub proof fn law_lowered(s: Seq<char>, i: int)
    requires
        0 <= i < s.len(),
    ensures
        lowered(s).len() == s.len(),
        65 <= s[i] as int <= 90 ==> lowered(s)[i] as int == s[i] as int + 32,
        !(65 <= s[i] as int <= 90) ==> lowered(s)[i] == s[i],
{
}

/// A numeral has the digits of its number, the last digit last and none too
/// many: below ten one digit, and from ten on the numeral of a tenth of the
/// number with one digit more.
pub proof fn law_decimal_digits(n: nat)
    ensures
        decimal(n).len() > 0,
        decimal(n).last() as int == 48 + n % 10,
        n < 10 ==> decimal(n).len() == 1,
        n >= 10 ==> decimal(n).drop_last() == decimal(n / 10),
{
    if n >= 10 {
        assert(decimal(n).drop_last() =~= decimal(n / 10));
    }
}

/// Texts that are missing, that fail or that stand in a list are seen by their
/// characters, none of them changed, moved or left out.
pub proof fn law_texts_are_seen_as_they_are(text: String, list: Seq<String>, i: int)
    ensures
        view_of(Some(text)) == Some(text@),
        view_of(None) is None,
        outcome(Ok(text)) == Ok::<Seq<char>, Seq<char>>(text@),
        outcome(Err(text)) == Err::<Seq<char>, Seq<char>>(text@),
        views(list).len() == list.len(),
        0 <= i < list.len() ==> views(list)[i] == list[i]@,
{
}

} // verus!

//! Text as sequences of characters: the helpers that the other modules share.

use vstd::prelude::*;

verus! {

/// Whether `a` comes before `b` in dictionary order, characters compared by
/// code point. This is the order of `str` itself.
pub open spec fn text_lt(a: Seq<char>, b: Seq<char>) -> bool
    decreases a.len(),
{
    if b.len() == 0 {
        false
    } else if a.len() == 0 {
        true
    } else if a[0] != b[0] {
        a[0] < b[0]
    } else {
        text_lt(a.drop_first(), b.drop_first())
    }
}

/// No text comes before itself.
pub proof fn text_lt_irreflexive(a: Seq<char>)
    ensures
        !text_lt(a, a),
    decreases a.len(),
{
    if a.len() > 0 {
        text_lt_irreflexive(a.drop_first());
    }
}

/// Of two different texts, one comes first.
pub proof fn text_lt_total(a: Seq<char>, b: Seq<char>)
    ensures
        a == b || text_lt(a, b) || text_lt(b, a),
    decreases a.len(),
{
    if a.len() == 0 && b.len() == 0 {
        assert(a =~= b);
    } else if a.len() > 0 && b.len() > 0 && a[0] == b[0] {
        text_lt_total(a.drop_first(), b.drop_first());
        if a.drop_first() == b.drop_first() {
            assert(a =~= seq![a[0]] + a.drop_first());
            assert(b =~= seq![b[0]] + b.drop_first());
        }
    }
}

/// Dictionary order is transitive.
pub proof fn text_lt_transitive(a: Seq<char>, b: Seq<char>, c: Seq<char>)
    requires
        text_lt(a, b),
        text_lt(b, c),
    ensures
        text_lt(a, c),
    decreases a.len(),
{
    if a.len() > 0 && a[0] == b[0] && b[0] == c[0] {
        text_lt_transitive(a.drop_first(), b.drop_first(), c.drop_first());
    }
}

/// The characters of a text.
pub fn chars_of(text: &str) -> (chars: Vec<char>)
    ensures
        chars@ == text@,
{
    let mut chars: Vec<char> = Vec::new();
    for c in it: text.chars()
        invariant
            chars@ == text@.take(it.index() as int),
            it.seq() == text@,
    {
        chars.push(c);
        assert(text@.take(it.index() + 1) =~= text@.take(it.index() as int).push(c));
    }
    assert(text@.take(text@.len() as int) =~= text@);
    chars
}

/// Whether `a` comes before `b` in dictionary order.
pub fn text_before(a: &str, b: &str) -> (before: bool)
    ensures
        before == text_lt(a@, b@),
{
    let x: Vec<char> = chars_of(a);
    let y: Vec<char> = chars_of(b);
    let mut i: usize = 0;
    assert(a@.skip(0) =~= a@);
    assert(b@.skip(0) =~= b@);
    while i < x.len() && i < y.len() && x[i] == y[i]
        invariant
            x@ == a@,
            y@ == b@,
            i <= x.len(),
            i <= y.len(),
            text_lt(a@, b@) == text_lt(a@.skip(i as int), b@.skip(i as int)),
        decreases x.len() - i,
    {
        assert(a@.skip(i as int).drop_first() =~= a@.skip(i + 1));
        assert(b@.skip(i as int).drop_first() =~= b@.skip(i + 1));
        i += 1;
    }
    if i < y.len() {
        i == x.len() || x[i] < y[i]
    } else {
        false
    }
}

/// Whether two texts are the same.
pub fn same_text(a: &str, b: &str) -> (same: bool)
    ensures
        same == (a@ == b@),
{
    a.to_owned() == b.to_owned()
}

/// Whether two optional texts are the same.
pub fn same_optional_text(a: &Option<String>, b: &Option<String>) -> (same: bool)
    ensures
        same == (a.deep_view() == b.deep_view()),
{
    match (a, b) {
        (Some(x), Some(y)) => *x == *y,
        (None, None) => true,
        _ => false,
    }
}

/// Two texts, one behind the other.
pub fn concat2(a: &str, b: &str) -> (joined: String)
    ensures
        joined@ == a@ + b@,
{
    let mut joined: String = a.to_owned();
    joined.append(b);
    joined
}

/// Three texts, one behind the other.
pub fn concat3(a: &str, b: &str, c: &str) -> (joined: String)
    ensures
        joined@ == a@ + b@ + c@,
{
    let mut joined: String = concat2(a, b);
    joined.append(c);
    joined
}

/// Four texts, one behind the other.
pub fn concat4(a: &str, b: &str, c: &str, d: &str) -> (joined: String)
    ensures
        joined@ == a@ + b@ + c@ + d@,
{
    let mut joined: String = concat3(a, b, c);
    joined.append(d);
    joined
}

/// The last `n` characters of a text, or all of it where it is shorter.
pub open spec fn last_chars_of(text: Seq<char>, n: nat) -> Seq<char> {
    if text.len() <= n {
        text
    } else {
        text.skip(text.len() - n)
    }
}

/// The last `n` characters of `text`, or all of it where it is shorter.
pub fn last_chars(text: &str, n: usize) -> (suffix: String)
    ensures
        suffix@ == last_chars_of(text@, n as nat),
{
    let len: usize = text.unicode_len();
    if len <= n {
        text.to_owned()
    } else {
        text.substring_char(len - n, len).to_owned()
    }
}

/// `text` without the `c`s at its end.
pub open spec fn trimmed_end(text: Seq<char>, c: char) -> Seq<char>
    decreases text.len(),
{
    if text.len() > 0 && text.last() == c {
        trimmed_end(text.drop_last(), c)
    } else {
        text
    }
}

/// `text` without the `c`s at its end.
pub fn trim_end(text: &str, c: char) -> (trimmed: String)
    ensures
        trimmed@ == trimmed_end(text@, c),
{
    let chars: Vec<char> = chars_of(text);
    let mut n: usize = chars.len();
    assert(text@.take(n as int) =~= text@);
    while n > 0 && chars[n - 1] == c
        invariant
            chars@ == text@,
            n <= chars.len(),
            trimmed_end(text@, c) == trimmed_end(text@.take(n as int), c),
        decreases n,
    {
        assert(text@.take(n as int).drop_last() =~= text@.take(n - 1));
        n -= 1;
    }
    assert(text@.subrange(0, n as int) =~= text@.take(n as int));
    text.substring_char(0, n).to_owned()
}

/// Whether `part` stands in `text` at position `at`.
pub open spec fn stands_at(text: Seq<char>, part: Seq<char>, at: int) -> bool {
    0 <= at && at + part.len() <= text.len() && text.subrange(at, at + part.len()) == part
}

/// Whether `part` stands anywhere in `text`.
pub open spec fn has_part(text: Seq<char>, part: Seq<char>) -> bool {
    exists|at: int| stands_at(text, part, at)
}

/// Whether `part` stands in `text` at position `at`.
fn matches_at(text: &Vec<char>, part: &Vec<char>, at: usize) -> (found: bool)
    requires
        at <= text.len(),
    ensures
        found == stands_at(text@, part@, at as int),
{
    if part.len() > text.len() - at {
        return false;
    }
    let mut i: usize = 0;
    while i < part.len()
        invariant
            i <= part.len(),
            at + part.len() <= text.len(),
            forall|j: int| 0 <= j < i ==> text@[at + j] == part@[j],
        decreases part.len() - i,
    {
        if text[at + i] != part[i] {
            assert(text@.subrange(at as int, at + part@.len())[i as int] != part@[i as int]);
            return false;
        }
        i += 1;
    }
    assert(text@.subrange(at as int, at + part@.len()) =~= part@);
    true
}

/// Whether `text` begins with `part`.
pub fn starts_with_text(text: &str, part: &str) -> (found: bool)
    ensures
        found == stands_at(text@, part@, 0),
{
    matches_at(&chars_of(text), &chars_of(part), 0)
}

/// Whether `part` stands anywhere in `text`.
pub fn contains_text(text: &str, part: &str) -> (found: bool)
    ensures
        found == has_part(text@, part@),
{
    let x: Vec<char> = chars_of(text);
    let y: Vec<char> = chars_of(part);
    let mut at: usize = 0;
    while at < x.len()
        invariant
            x@ == text@,
            y@ == part@,
            at <= x.len(),
            forall|j: int| 0 <= j < at ==> !stands_at(text@, part@, j),
        decreases x.len() - at,
    {
        if matches_at(&x, &y, at) {
            return true;
        }
        at += 1;
    }
    let found: bool = matches_at(&x, &y, at);
    assert forall|j: int| stands_at(text@, part@, j) implies j <= at by {};
    found
}

/// `c` with an ASCII capital made small.
pub open spec fn ascii_lower(c: char) -> char {
    if 'A' <= c <= 'Z' {
        ((c as u32) + 32) as char
    } else {
        c
    }
}

/// The small letters of the alphabet, in order.
const SMALL_LETTERS: &'static str = "abcdefghijklmnopqrstuvwxyz";

/// The small letters stand behind each other as their code points do.
proof fn small_letters_are_in_order(k: int)
    requires
        0 <= k < 26,
    ensures
        SMALL_LETTERS@.len() == 26,
        SMALL_LETTERS@[k] as int == 'a' as int + k,
{
    reveal_strlit("abcdefghijklmnopqrstuvwxyz");
}

/// `text` with its ASCII capitals made small.
pub fn to_ascii_lower(text: &str) -> (lower: String)
    ensures
        lower@ == text@.map_values(|c: char| ascii_lower(c)),
{
    let ghost wanted = text@.map_values(|c: char| ascii_lower(c));
    let len: usize = text.unicode_len();
    let mut lower: String = String::new();
    let mut i: usize = 0;
    assert(lower@ =~= wanted.take(0));
    while i < len
        invariant
            len == text@.len(),
            i <= len,
            wanted == text@.map_values(|c: char| ascii_lower(c)),
            lower@ == wanted.take(i as int),
        decreases len - i,
    {
        let c: char = text.get_char(i);
        if 'A' <= c && c <= 'Z' {
            let k: usize = (c as u32 - 'A' as u32) as usize;
            proof {
                small_letters_are_in_order(k as int);
            }
            lower.append(SMALL_LETTERS.substring_char(k, k + 1));
        } else {
            lower.append(text.substring_char(i, i + 1));
        }
        assert(lower@ =~= wanted.take(i + 1));
        i += 1;
    }
    assert(wanted.take(len as int) =~= wanted);
    lower
}

/// The texts of `parts` with `separator` between each two of them.
pub open spec fn joined(parts: Seq<Seq<char>>, separator: Seq<char>) -> Seq<char>
    decreases parts.len(),
{
    if parts.len() == 0 {
        seq![]
    } else if parts.len() == 1 {
        parts[0]
    } else {
        joined(parts.drop_last(), separator) + separator + parts.last()
    }
}

/// The texts of `parts` with `separator` between each two of them.
pub fn join_texts(parts: &Vec<String>, separator: &str) -> (text: String)
    ensures
        text@ == joined(parts.deep_view(), separator@),
{
    let ghost all = parts.deep_view();
    let mut text: String = String::new();
    let mut i: usize = 0;
    while i < parts.len()
        invariant
            i <= parts.len(),
            all == parts.deep_view(),
            text@ == joined(all.take(i as int), separator@),
        decreases parts.len() - i,
    {
        assert(all.take(i + 1).drop_last() =~= all.take(i as int));
        if i > 0 {
            text.append(separator);
        }
        text.append(parts[i].as_str());
        assert(all.take(i + 1).last() == parts@[i as int]@);
        i += 1;
    }
    assert(all.take(all.len() as int) =~= all);
    text
}

/// Of two texts that agree in their first `i` characters, that one comes first
/// which ends there while the other goes on, or which has the lesser character
/// there.
pub proof fn the_first_difference_decides(a: Seq<char>, b: Seq<char>, i: int)
    requires
        0 <= i <= a.len(),
        i <= b.len(),
        a.take(i) == b.take(i),
    ensures
        i == a.len() && i < b.len() ==> text_lt(a, b),
        i == b.len() ==> !text_lt(a, b),
        i < a.len() && i < b.len() && a[i] != b[i] ==> text_lt(a, b) == (a[i] < b[i]),
    decreases i,
{
    if i > 0 {
        assert forall|k: int| 0 <= k < i implies a[k] == b[k] by {
            assert(a.take(i)[k] == a[k]);
            assert(b.take(i)[k] == b[k]);
        }
        assert(a.drop_first().take(i - 1) =~= b.drop_first().take(i - 1));
        the_first_difference_decides(a.drop_first(), b.drop_first(), i - 1);
    }
}

/// The last characters of a text are as many as asked for, or as there are, and
/// stand at its end.
pub proof fn last_chars_stand_at_the_end(text: Seq<char>, n: nat, i: int)
    ensures
        last_chars_of(text, n).len() <= n,
        last_chars_of(text, n).len() <= text.len(),
        last_chars_of(text, n).len() == n || last_chars_of(text, n).len() == text.len(),
        0 <= i < last_chars_of(text, n).len() ==> last_chars_of(text, n)[i] == text[text.len()
            - last_chars_of(text, n).len() + i],
{
}

/// Trimming takes away the `c`s at the end, all of them, and nothing else.
pub proof fn trimming_takes_the_end_alone(text: Seq<char>, c: char)
    ensures
        trimmed_end(text, c).len() <= text.len(),
        trimmed_end(text, c) == text.take(trimmed_end(text, c).len() as int),
        trimmed_end(text, c).len() > 0 ==> trimmed_end(text, c).last() != c,
        forall|i: int| trimmed_end(text, c).len() <= i < text.len() ==> #[trigger] text[i] == c,
    decreases text.len(),
{
    if text.len() > 0 && text.last() == c {
        let shorter = text.drop_last();
        trimming_takes_the_end_alone(shorter, c);
        let n = trimmed_end(shorter, c).len() as int;
        assert(shorter.take(n) =~= text.take(n));
        assert forall|i: int| n <= i < text.len() implies #[trigger] text[i] == c by {
            if i < shorter.len() {
                assert(shorter[i] == c);
            }
        }
    } else {
        assert(text.take(text.len() as int) =~= text);
    }
}

/// A part stands where each of its characters does.
pub proof fn a_part_stands_where_its_characters_do(text: Seq<char>, part: Seq<char>, at: int)
    ensures
        stands_at(text, part, at) <==> 0 <= at && at + part.len() <= text.len() && forall|i: int|
            0 <= i < part.len() ==> text[at + i] == #[trigger] part[i],
{
    if 0 <= at && at + part.len() <= text.len() {
        let found = text.subrange(at, at + part.len());
        assert forall|i: int| 0 <= i < part.len() implies found[i] == text[at + i] by {}
        if forall|i: int| 0 <= i < part.len() ==> text[at + i] == #[trigger] part[i] {
            assert(found =~= part);
        }
    }
}

/// A text has a part if, and only if, it is made of that part with something
/// before and after it, be that empty.
pub proof fn a_part_stands_between(text: Seq<char>, part: Seq<char>)
    ensures
        has_part(text, part) <==> exists|before: Seq<char>, after: Seq<char>|
            #[trigger] (before + part + after) == text,
{
    if has_part(text, part) {
        let at = choose|at: int| stands_at(text, part, at);
        let before = text.take(at);
        let after = text.skip(at + part.len());
        assert(before + part + after =~= text);
    }
    if exists|before: Seq<char>, after: Seq<char>| #[trigger] (before + part + after) == text {
        let (before, after) = choose|before: Seq<char>, after: Seq<char>|
            #[trigger] (before + part + after) == text;
        let at = before.len() as int;
        assert(text.subrange(at, at + part.len()) =~= part);
        assert(stands_at(text, part, at));
    }
}

/// The letters from `A` to `Z`, and no other characters, become the letters as
/// far behind `a`.
pub proof fn capitals_alone_are_made_small(c: char)
    ensures
        'A' <= c <= 'Z' ==> ascii_lower(c) as int - 'a' as int == c as int - 'A' as int,
        c < 'A' || 'Z' < c ==> ascii_lower(c) == c,
{
}

/// Joining texts in two goes is the same as in one.
pub proof fn joining_in_two_goes_is_the_same(
    a: Seq<Seq<char>>,
    b: Seq<Seq<char>>,
    separator: Seq<char>,
)
    requires
        a.len() > 0,
        b.len() > 0,
    ensures
        joined(a + b, separator) == joined(a, separator) + separator + joined(b, separator),
    decreases b.len(),
{
    let all = a + b;
    assert(all.drop_last() =~= a + b.drop_last());
    assert(all.last() == b.last());
    if b.len() > 1 {
        joining_in_two_goes_is_the_same(a, b.drop_last(), separator);
        assert(joined(a, separator) + separator + joined(b.drop_last(), separator) + separator
            + b.last() =~= joined(a, separator) + separator + (joined(b.drop_last(), separator)
            + separator + b.last()));
    } else {
        assert(b.drop_last() =~= Seq::<Seq<char>>::empty());
        assert(a + b.drop_last() =~= a);
    }
}

/// One text alone is joined to itself, and none to nothing.
pub proof fn one_text_is_joined_to_itself(text: Seq<char>, separator: Seq<char>)
    ensures
        joined(seq![text], separator) == text,
        joined(seq![], separator).len() == 0,
{
}

} // verus!

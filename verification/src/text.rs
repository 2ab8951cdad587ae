//! Text primitives: searching, trimming, replacing, decimal numbers.

use vstd::prelude::*;

verus! {

/// `needle` stands in `hay` at position `at`.
pub open spec fn occurs_at(hay: Seq<char>, needle: Seq<char>, at: int) -> bool {
    0 <= at && at + needle.len() <= hay.len() && hay.subrange(at, at + needle.len()) == needle
}

/// `needle` stands somewhere in `hay`.
pub open spec fn has_substring(hay: Seq<char>, needle: Seq<char>) -> bool {
    exists|at: int| occurs_at(hay, needle, at)
}

/// The characters of a string, in order.
pub fn char_vec(text: &str) -> (chars: Vec<char>)
    ensures
        chars@ == text@,
{
    let mut chars: Vec<char> = Vec::new();
    for c in iter: text.chars()
        invariant
            iter.seq() == text@,
            chars@ == iter.seq().take(iter.index() as int),
    {
        chars.push(c);
    }
    proof {
        assert(text@.take(text@.len() as int) == text@);
    }
    chars
}

fn matches_at(hay: &Vec<char>, needle: &Vec<char>, at: usize) -> (found: bool)
    requires
        at + needle@.len() <= hay@.len(),
    ensures
        found == occurs_at(hay@, needle@, at as int),
{
    let end: usize = hay.len();
    let mut i: usize = 0;
    while i < needle.len()
        invariant
            end == hay@.len(),
            at + needle@.len() <= end,
            i <= needle@.len(),
            forall|j: int| 0 <= j < i ==> hay@[at + j] == needle@[j],
        decreases needle@.len() - i,
    {
        if hay[at + i] != needle[i] {
            proof {
                let sub = hay@.subrange(at as int, at + needle@.len());
                assert(sub[i as int] == hay@[at + i]);
            }
            return false;
        }
        i += 1;
    }
    proof {
        assert(hay@.subrange(at as int, at + needle@.len()) == needle@);
    }
    true
}

/// Whether `needle` stands somewhere in `hay`.
pub fn contains(hay: &str, needle: &str) -> (found: bool)
    ensures
        found == has_substring(hay@, needle@),
{
    let hay_chars = char_vec(hay);
    let needle_chars = char_vec(needle);
    if needle_chars.len() > hay_chars.len() {
        return false;
    }
    let last: usize = hay_chars.len() - needle_chars.len();
    let mut at: usize = 0;
    loop
        invariant
            hay_chars@ == hay@,
            needle_chars@ == needle@,
            needle@.len() <= hay@.len(),
            last == hay@.len() - needle@.len(),
            at <= last,
            forall|j: int| 0 <= j < at ==> !occurs_at(hay@, needle@, j),
        decreases last - at,
    {
        if matches_at(&hay_chars, &needle_chars, at) {
            return true;
        }
        if at == last {
            return false;
        }
        at += 1;
    }
}

/// The Unicode `White_Space` property.
pub open spec fn white_space(c: char) -> bool {
    ||| '\u{9}' <= c <= '\u{d}'
    ||| c == ' '
    ||| c == '\u{85}'
    ||| c == '\u{a0}'
    ||| c == '\u{1680}'
    ||| '\u{2000}' <= c <= '\u{200a}'
    ||| c == '\u{2028}'
    ||| c == '\u{2029}'
    ||| c == '\u{202f}'
    ||| c == '\u{205f}'
    ||| c == '\u{3000}'
}

/// Whether a character has the Unicode `White_Space` property.
pub fn is_white_space(c: char) -> (r: bool)
    ensures
        r == white_space(c),
{
    ('\u{9}' <= c && c <= '\u{d}') || c == ' ' || c == '\u{85}' || c == '\u{a0}' || c == '\u{1680}'
        || ('\u{2000}' <= c && c <= '\u{200a}') || c == '\u{2028}' || c == '\u{2029}'
        || c == '\u{202f}' || c == '\u{205f}' || c == '\u{3000}'
}

/// Nothing but white space.
pub open spec fn blank(text: Seq<char>) -> bool {
    forall|i: int| 0 <= i < text.len() ==> white_space(#[trigger] text[i])
}

/// Whether a text holds nothing but white space.
pub fn is_blank(text: &str) -> (r: bool)
    ensures
        r == blank(text@),
{
    let chars = char_vec(text);
    for i in 0..chars.len()
        invariant
            chars@ == text@,
            forall|j: int| 0 <= j < i ==> white_space(#[trigger] text@[j]),
    {
        if !is_white_space(chars[i]) {
            return false;
        }
    }
    true
}

/// The text from its first character without the property `p` on.
pub open spec fn skip_while(text: Seq<char>, p: spec_fn(char) -> bool) -> Seq<char>
    decreases text.len(),
{
    if text.len() > 0 && p(text.first()) {
        skip_while(text.drop_first(), p)
    } else {
        text
    }
}

/// The text up to its last character without the property `p`.
pub open spec fn drop_tail_while(text: Seq<char>, p: spec_fn(char) -> bool) -> Seq<char>
    decreases text.len(),
{
    if text.len() > 0 && p(text.last()) {
        drop_tail_while(text.drop_last(), p)
    } else {
        text
    }
}

/// A text without its leading and trailing white space.
pub open spec fn trimmed(text: Seq<char>) -> Seq<char> {
    drop_tail_while(skip_while(text, |c: char| white_space(c)), |c: char| white_space(c))
}

/// A carriage return or a line feed.
pub open spec fn line_break(c: char) -> bool {
    c == '\r' || c == '\n'
}

/// A text without the line breaks that it ends in.
pub open spec fn without_line_end(text: Seq<char>) -> Seq<char> {
    drop_tail_while(text, |c: char| line_break(c))
}

proof fn lemma_drop_tail_bounds(text: Seq<char>, p: spec_fn(char) -> bool)
    ensures
        drop_tail_while(text, p).len() <= text.len(),
        drop_tail_while(text, p) == text.take(drop_tail_while(text, p).len() as int),
        drop_tail_while(text, p).len() > 0 ==> !p(drop_tail_while(text, p).last()),
        forall|i: int|
            drop_tail_while(text, p).len() <= i < text.len() ==> p(#[trigger] text[i]),
    decreases text.len(),
{
    if text.len() > 0 && p(text.last()) {
        lemma_drop_tail_bounds(text.drop_last(), p);
        let kept = drop_tail_while(text.drop_last(), p);
        assert(text.drop_last().take(kept.len() as int) == text.take(kept.len() as int));
        assert forall|i: int| kept.len() <= i < text.len() implies p(#[trigger] text[i]) by {
            if i < text.len() - 1 {
                assert(text.drop_last()[i] == text[i]);
            }
        }
    } else {
        assert(text.take(text.len() as int) == text);
    }
}

proof fn lemma_skip_bounds(text: Seq<char>, p: spec_fn(char) -> bool)
    ensures
        skip_while(text, p).len() <= text.len(),
        skip_while(text, p) == text.skip(text.len() - skip_while(text, p).len()),
        skip_while(text, p).len() > 0 ==> !p(skip_while(text, p).first()),
        forall|i: int|
            0 <= i < text.len() - skip_while(text, p).len() ==> p(#[trigger] text[i]),
    decreases text.len(),
{
    if text.len() > 0 && p(text.first()) {
        lemma_skip_bounds(text.drop_first(), p);
        let kept = skip_while(text.drop_first(), p);
        assert(text.drop_first().skip(text.len() - 1 - kept.len()) == text.skip(
            text.len() - kept.len(),
        ));
        assert forall|i: int| 0 <= i < text.len() - kept.len() implies p(#[trigger] text[i]) by {
            if i > 0 {
                assert(text.drop_first()[i - 1] == text[i]);
            }
        }
    } else {
        assert(text.skip(0) == text);
    }
}

/// Trimming leaves nothing exactly of a blank text.
pub proof fn trimmed_empty_iff_blank(text: Seq<char>)
    ensures
        trimmed(text).len() == 0 <==> blank(text),
{
    let ws = |c: char| white_space(c);
    let rest = skip_while(text, ws);
    lemma_skip_bounds(text, ws);
    lemma_drop_tail_bounds(rest, ws);
    if blank(text) {
        if rest.len() > 0 {
            assert(rest[0] == text[text.len() - rest.len()]);
        }
    } else if rest.len() == 0 {
        assert(blank(text)) by {
            assert forall|i: int| 0 <= i < text.len() implies white_space(#[trigger] text[i]) by {
                assert(ws(text[i]));
            }
        }
    } else if trimmed(text).len() == 0 {
        assert(ws(rest[0]));
    }
}

/// What trimming leaves of a text is not blank.
pub proof fn trimmed_is_not_blank(text: Seq<char>)
    requires
        trimmed(text).len() > 0,
    ensures
        !blank(trimmed(text)),
{
    let ws = |c: char| white_space(c);
    lemma_drop_tail_bounds(skip_while(text, ws), ws);
    let inner = trimmed(text);
    assert(!ws(inner.last()));
    assert(!white_space(inner[inner.len() - 1]));
}

/// A text without its leading and trailing white space.
pub fn trim(text: &str) -> (inner: String)
    ensures
        inner@ == trimmed(text@),
{
    let chars = char_vec(text);
    let ghost ws = |c: char| white_space(c);
    let mut from: usize = 0;
    proof {
        assert(text@.skip(0) == text@);
    }
    while from < chars.len() && is_white_space(chars[from])
        invariant
            chars@ == text@,
            ws == (|c: char| white_space(c)),
            from <= chars@.len(),
            skip_while(text@, ws) == skip_while(text@.skip(from as int), ws),
        decreases chars@.len() - from,
    {
        proof {
            assert(text@.skip(from as int).drop_first() == text@.skip(from + 1));
            assert(ws(text@.skip(from as int).first()));
        }
        from += 1;
    }
    let ghost rest = text@.skip(from as int);
    proof {
        assert(rest.len() > 0 ==> rest.first() == chars@[from as int]);
        assert(skip_while(text@, ws) == rest);
        assert(text@.subrange(from as int, text@.len() as int) == rest);
    }
    let mut to: usize = chars.len();
    while to > from && is_white_space(chars[to - 1])
        invariant
            chars@ == text@,
            ws == (|c: char| white_space(c)),
            from <= to <= chars@.len(),
            drop_tail_while(rest, ws) == drop_tail_while(
                text@.subrange(from as int, to as int),
                ws,
            ),
        decreases to,
    {
        proof {
            let kept = text@.subrange(from as int, to as int);
            assert(kept.drop_last() == text@.subrange(from as int, to - 1));
            assert(ws(kept.last()));
        }
        to -= 1;
    }
    proof {
        let kept = text@.subrange(from as int, to as int);
        assert(kept.len() > 0 ==> kept.last() == chars@[to - 1]);
    }
    text.substring_char(from, to).to_string()
}

/// A text without the line breaks that it ends in.
pub fn trim_line_end(text: &str) -> (kept: String)
    ensures
        kept@ == without_line_end(text@),
{
    let chars = char_vec(text);
    let ghost p = |c: char| line_break(c);
    let mut to: usize = chars.len();
    proof {
        assert(text@.take(text@.len() as int) == text@);
    }
    while to > 0 && (chars[to - 1] == '\r' || chars[to - 1] == '\n')
        invariant
            chars@ == text@,
            p == (|c: char| line_break(c)),
            to <= chars@.len(),
            without_line_end(text@) == drop_tail_while(text@.take(to as int), p),
        decreases to,
    {
        proof {
            let kept = text@.take(to as int);
            assert(kept.drop_last() == text@.take(to - 1));
            assert(p(kept.last()));
        }
        to -= 1;
    }
    proof {
        let kept = text@.take(to as int);
        assert(kept.len() > 0 ==> kept.last() == chars@[to - 1]);
        assert(text@.subrange(0, to as int) == kept);
    }
    text.substring_char(0, to).to_string()
}

/// The decimal digit of a number below ten.
pub open spec fn digit(d: nat) -> char {
    if d == 0 {
        '0'
    } else if d == 1 {
        '1'
    } else if d == 2 {
        '2'
    } else if d == 3 {
        '3'
    } else if d == 4 {
        '4'
    } else if d == 5 {
        '5'
    } else if d == 6 {
        '6'
    } else if d == 7 {
        '7'
    } else if d == 8 {
        '8'
    } else {
        '9'
    }
}

/// A number in decimal, without leading zeros.
pub open spec fn decimal_text(n: nat) -> Seq<char>
    decreases n,
{
    if n < 10 {
        seq![digit(n)]
    } else {
        decimal_text(n / 10).push(digit(n % 10))
    }
}

fn digit_str(d: u64) -> (s: &'static str)
    requires
        d < 10,
    ensures
        s@ == seq![digit(d as nat)],
{
    proof {
        reveal_strlit("0");
        reveal_strlit("1");
        reveal_strlit("2");
        reveal_strlit("3");
        reveal_strlit("4");
        reveal_strlit("5");
        reveal_strlit("6");
        reveal_strlit("7");
        reveal_strlit("8");
        reveal_strlit("9");
    }
    if d == 0 {
        "0"
    } else if d == 1 {
        "1"
    } else if d == 2 {
        "2"
    } else if d == 3 {
        "3"
    } else if d == 4 {
        "4"
    } else if d == 5 {
        "5"
    } else if d == 6 {
        "6"
    } else if d == 7 {
        "7"
    } else if d == 8 {
        "8"
    } else {
        "9"
    }
}

/// A number in decimal.
pub fn decimal(n: u64) -> (s: String)
    ensures
        s@ == decimal_text(n as nat),
    decreases n,
{
    if n < 10 {
        digit_str(n).to_string()
    } else {
        let mut s = decimal(n / 10);
        s.append(digit_str(n % 10));
        s
    }
}

/// Every occurrence of `pattern` in `text`, found from the left and without
/// overlap, gives way to `to`.
pub open spec fn replaced(text: Seq<char>, pattern: Seq<char>, to: Seq<char>) -> Seq<char>
    decreases text.len(),
{
    if pattern.len() == 0 || text.len() < pattern.len() {
        text
    } else if text.take(pattern.len() as int) == pattern {
        to + replaced(text.skip(pattern.len() as int), pattern, to)
    } else {
        seq![text.first()] + replaced(text.drop_first(), pattern, to)
    }
}

/// Replaces every occurrence of `pattern` in `text` by `to`.
pub fn replace(text: &str, pattern: &str, to: &str) -> (result: String)
    requires
        pattern@.len() > 0,
    ensures
        result@ == replaced(text@, pattern@, to@),
{
    let text_chars = char_vec(text);
    let pattern_chars = char_vec(pattern);
    let mut result = String::new();
    let mut at: usize = 0;
    proof {
        assert(text@.skip(0) == text@);
        assert(result@ + replaced(text@, pattern@, to@) == replaced(text@, pattern@, to@));
    }
    while text_chars.len() - at >= pattern_chars.len()
        invariant
            text_chars@ == text@,
            pattern_chars@ == pattern@,
            pattern@.len() > 0,
            at <= text@.len(),
            replaced(text@, pattern@, to@) == result@ + replaced(
                text@.skip(at as int),
                pattern@,
                to@,
            ),
        decreases text@.len() - at,
    {
        let ghost rest = text@.skip(at as int);
        let ghost before = result@;
        if matches_at(&text_chars, &pattern_chars, at) {
            proof {
                assert(rest.take(pattern@.len() as int) == text@.subrange(
                    at as int,
                    at + pattern@.len(),
                ));
                assert(rest.skip(pattern@.len() as int) == text@.skip(at + pattern@.len()));
            }
            result.append(to);
            at += pattern_chars.len();
            assert(result@ + replaced(text@.skip(at as int), pattern@, to@) == before + (to@
                + replaced(text@.skip(at as int), pattern@, to@)));
        } else {
            proof {
                assert(rest.take(pattern@.len() as int) == text@.subrange(
                    at as int,
                    at + pattern@.len(),
                ));
                assert(rest.drop_first() == text@.skip(at + 1));
                assert(text@.subrange(at as int, at + 1) == seq![rest.first()]);
            }
            result.append(text.substring_char(at, at + 1));
            at += 1;
            assert(result@ + replaced(text@.skip(at as int), pattern@, to@) == before + (seq![
                rest.first(),
            ] + replaced(text@.skip(at as int), pattern@, to@)));
        }
    }
    result.append(text.substring_char(at, text_chars.len()));
    assert(text@.subrange(at as int, text@.len() as int) == text@.skip(at as int));
    result
}

proof fn lemma_replaced_nothing(text: Seq<char>, pattern: Seq<char>, to: Seq<char>)
    requires
        pattern.len() > 0,
        !text.contains(pattern.first()),
    ensures
        replaced(text, pattern, to) == text,
    decreases text.len(),
{
    if text.len() >= pattern.len() {
        assert(text.contains(text[0]));
        assert(text.take(pattern.len() as int)[0] == text[0]);
        assert forall|i: int| 0 <= i < text.drop_first().len() implies text.drop_first()[i]
            != pattern.first() by {
            assert(text.contains(text[i + 1]));
        }
        lemma_replaced_nothing(text.drop_first(), pattern, to);
        assert(seq![text.first()] + text.drop_first() == text);
    }
}

/// A pattern whose first character stands nowhere else in a text is replaced
/// once.
pub proof fn replaced_once(head: Seq<char>, pattern: Seq<char>, tail: Seq<char>, to: Seq<char>)
    requires
        pattern.len() > 0,
        !head.contains(pattern.first()),
        !tail.contains(pattern.first()),
    ensures
        replaced(head + pattern + tail, pattern, to) == head + to + tail,
    decreases head.len(),
{
    let text = head + pattern + tail;
    if head.len() == 0 {
        assert(text.take(pattern.len() as int) == pattern);
        assert(text.skip(pattern.len() as int) == tail);
        lemma_replaced_nothing(tail, pattern, to);
        assert(to + tail == head + to + tail);
    } else {
        assert(head.contains(head[0]));
        assert(text.take(pattern.len() as int)[0] == head[0]);
        assert forall|i: int| 0 <= i < head.drop_first().len() implies head.drop_first()[i]
            != pattern.first() by {
            assert(head.contains(head[i + 1]));
        }
        replaced_once(head.drop_first(), pattern, tail, to);
        assert(text.drop_first() == head.drop_first() + pattern + tail);
        assert(seq![head[0]] + (head.drop_first() + to + tail) == head + to + tail);
    }
}

/// What the strings of a list hold.
pub open spec fn texts(strings: Seq<String>) -> Seq<Seq<char>> {
    strings.map_values(|s: String| s@)
}

/// The words of a list with one space between any two neighbours.
pub open spec fn spaced(words: Seq<Seq<char>>) -> Seq<char>
    decreases words.len(),
{
    if words.len() == 0 {
        Seq::empty()
    } else if words.len() == 1 {
        words[0]
    } else {
        spaced(words.drop_last()) + " "@ + words.last()
    }
}

/// The words of a list with one space between any two neighbours.
pub fn join_words(words: &Vec<String>) -> (joined: String)
    ensures
        joined@ == spaced(texts(words@)),
{
    let mut joined = String::new();
    for i in 0..words.len()
        invariant
            joined@ == spaced(texts(words@.take(i as int))),
    {
        proof {
            assert(texts(words@.take(i + 1)).drop_last() == texts(words@.take(i as int)));
            assert(texts(words@.take(i + 1)).last() == words@[i as int]@);
        }
        if i > 0 {
            joined.append(" ");
        }
        joined.append(words[i].as_str());
        proof {
            if i == 0 {
                assert(joined@ == words@[0]@);
            }
        }
    }
    proof {
        assert(words@.take(words@.len() as int) == words@);
    }
    joined
}

/// Whether two texts are the same, character by character.
pub fn same(a: &str, b: &str) -> (r: bool)
    ensures
        r == (a@ == b@),
{
    a.to_string() == b.to_string()
}

/// What an optional string holds.
pub open spec fn opt_text(s: Option<String>) -> Option<Seq<char>> {
    match s {
        Some(s) => Some(s@),
        None => None,
    }
}

/// What an optional string slice holds.
pub open spec fn opt_str(s: Option<&str>) -> Option<Seq<char>> {
    match s {
        Some(s) => Some(s@),
        None => None,
    }
}

/// Two texts, one behind the other.
pub fn concat2(a: &str, b: &str) -> (s: String)
    ensures
        s@ == a@ + b@,
{
    a.to_string().concat(b)
}

/// Three texts, one behind the other.
pub fn concat3(a: &str, b: &str, c: &str) -> (s: String)
    ensures
        s@ == a@ + b@ + c@,
{
    a.to_string().concat(b).concat(c)
}

/// The text that `String::from_utf8_lossy` makes of a byte sequence.
pub uninterp spec fn lossy_text(bytes: Seq<u8>) -> Seq<char>;

/// Calls `String::from_utf8_lossy`. Its result depends on the bytes alone, and
/// bytes that are valid UTF-8 come out as the characters that they encode. How
/// invalid sequences turn into replacement characters is left to the function.
#[verifier::external_body]
pub(crate) fn utf8_lossy(bytes: &[u8]) -> (s: String)
    ensures
        s@ == lossy_text(bytes@),
        vstd::utf8::valid_utf8(bytes@) ==> s@ == vstd::utf8::decode_utf8(bytes@),
{
    String::from_utf8_lossy(bytes).into_owned()
}

/// A text stands in another exactly when the other is that text with something
/// before it and something behind it.
pub proof fn substring_is_a_middle(hay: Seq<char>, needle: Seq<char>)
    ensures
        has_substring(hay, needle) <==> exists|before: Seq<char>, behind: Seq<char>|
            hay == #[trigger] (before + needle + behind),
{
    if has_substring(hay, needle) {
        let at = choose|at: int| occurs_at(hay, needle, at);
        let before = hay.take(at);
        let behind = hay.skip(at + needle.len());
        assert forall|i: int| 0 <= i < hay.len() implies hay[i] == (before + needle + behind)[i] by {
            if at <= i < at + needle.len() {
                assert(hay.subrange(at, at + needle.len())[i - at] == hay[i]);
            }
        }
        assert(hay == before + needle + behind);
    }
    if exists|before: Seq<char>, behind: Seq<char>| hay == #[trigger] (before + needle + behind) {
        let (before, behind) = choose|before: Seq<char>, behind: Seq<char>|
            hay == #[trigger] (before + needle + behind);
        let at = before.len() as int;
        assert(hay.subrange(at, at + needle.len()) == needle);
        assert(occurs_at(hay, needle, at));
    }
}

/// What stands in a text stands in every longer text around it.
pub proof fn substring_stays(
    before: Seq<char>,
    hay: Seq<char>,
    behind: Seq<char>,
    needle: Seq<char>,
)
    requires
        has_substring(hay, needle),
    ensures
        has_substring(before + hay + behind, needle),
{
    let at = choose|at: int| occurs_at(hay, needle, at);
    let whole = before + hay + behind;
    let there = before.len() + at;
    assert forall|i: int| 0 <= i < needle.len() implies whole.subrange(
        there,
        there + needle.len(),
    )[i] == needle[i] by {
        assert(hay.subrange(at, at + needle.len())[i] == hay[at + i]);
    }
    assert(whole.subrange(there, there + needle.len()) == needle);
    assert(occurs_at(whole, needle, there));
}

/// A text of several parts is blank exactly when each part is; nothing is
/// blank, and so is a single character exactly when it is white space.
pub proof fn blank_by_parts(a: Seq<char>, b: Seq<char>, c: char)
    ensures
        blank(a + b) <==> blank(a) && blank(b),
        blank(Seq::empty()),
        blank(seq![c]) <==> white_space(c),
{
    assert(forall|i: int| 0 <= i < a.len() ==> (a + b)[i] == a[i]);
    assert(forall|i: int| 0 <= i < b.len() ==> (a + b)[a.len() + i] == b[i]);
    assert(seq![c][0] == c);
    if blank(a + b) {
        assert forall|i: int| 0 <= i < b.len() implies white_space(#[trigger] b[i]) by {
            assert(white_space((a + b)[a.len() + i]));
        }
        assert forall|i: int| 0 <= i < a.len() implies white_space(#[trigger] a[i]) by {
            assert(white_space((a + b)[i]));
        }
    }
}

/// Trimming takes blank text off both ends, and all of it: what is left neither
/// begins nor ends with white space.
pub proof fn trimming_takes_off_blank_ends(text: Seq<char>)
    ensures
        exists|before: Seq<char>, behind: Seq<char>|
            text == #[trigger] (before + trimmed(text) + behind) && blank(before) && blank(behind),
        trimmed(text).len() > 0 ==> !white_space(trimmed(text).first()) && !white_space(
            trimmed(text).last(),
        ),
{
    let ws = |c: char| white_space(c);
    let rest = skip_while(text, ws);
    let inner = trimmed(text);
    lemma_skip_bounds(text, ws);
    lemma_drop_tail_bounds(rest, ws);
    let before = text.take(text.len() - rest.len());
    let behind = rest.skip(inner.len() as int);
    assert(text == before + inner + behind);
    assert forall|i: int| 0 <= i < before.len() implies white_space(#[trigger] before[i]) by {
        assert(ws(text[i]));
    }
    assert forall|i: int| 0 <= i < behind.len() implies white_space(#[trigger] behind[i]) by {
        assert(ws(rest[inner.len() + i]));
    }
    if inner.len() > 0 {
        assert(!ws(inner.last()));
        assert(inner.first() == rest.first());
        assert(!ws(rest.first()));
    }
}

/// Cutting the line end takes carriage returns and line feeds off the end of a
/// text, all of them and nothing else.
pub proof fn line_end_is_cut(text: Seq<char>)
    ensures
        exists|end: Seq<char>|
            text == #[trigger] (without_line_end(text) + end) && forall|i: int|
                0 <= i < end.len() ==> (#[trigger] end[i] == '\r' || end[i] == '\n'),
        without_line_end(text).len() > 0 ==> without_line_end(text).last() != '\r'
            && without_line_end(text).last() != '\n',
{
    let p = |c: char| line_break(c);
    let kept = without_line_end(text);
    lemma_drop_tail_bounds(text, p);
    let end = text.skip(kept.len() as int);
    assert(text == kept + end);
    assert forall|i: int| 0 <= i < end.len() implies (#[trigger] end[i] == '\r' || end[i]
        == '\n') by {
        assert(p(text[kept.len() + i]));
    }
    if kept.len() > 0 {
        assert(!p(kept.last()));
    }
}

/// The number that a row of decimal digits stands for.
pub open spec fn decimal_value(digits: Seq<char>) -> int
    decreases digits.len(),
{
    if digits.len() == 0 {
        0
    } else {
        10 * decimal_value(digits.drop_last()) + (digits.last() as int - '0' as int)
    }
}

/// A number in decimal is a row of digits that stands for the number and does
/// not begin with a zero, but for the number zero.
pub proof fn decimal_stands_for_the_number(n: nat)
    ensures
        decimal_value(decimal_text(n)) == n,
        forall|i: int|
            0 <= i < decimal_text(n).len() ==> '0' <= (#[trigger] decimal_text(n)[i]) <= '9',
        decimal_text(n).len() > 0,
        n > 0 ==> decimal_text(n).first() != '0',
    decreases n,
{
    let digits = decimal_text(n);
    if n < 10 {
        assert(digits.drop_last() == Seq::<char>::empty());
        assert(decimal_value(Seq::empty()) == 0);
    } else {
        decimal_stands_for_the_number(n / 10);
        assert(digits.drop_last() == decimal_text(n / 10));
        assert(digits.first() == decimal_text(n / 10).first());
        assert forall|i: int| 0 <= i < digits.len() implies '0' <= (#[trigger] digits[i])
            <= '9' by {
            if i < digits.len() - 1 {
                assert(digits[i] == decimal_text(n / 10)[i]);
            }
        }
    }
}

/// A text in which the pattern does not stand is left as it is.
pub proof fn nothing_to_replace(text: Seq<char>, pattern: Seq<char>, to: Seq<char>)
    requires
        !has_substring(text, pattern),
    ensures
        replaced(text, pattern, to) == text,
    decreases text.len(),
{
    if pattern.len() > 0 && text.len() >= pattern.len() {
        assert(text.subrange(0, pattern.len() as int) == text.take(pattern.len() as int));
        assert(!occurs_at(text, pattern, 0));
        if has_substring(text.drop_first(), pattern) {
            substring_stays(seq![text.first()], text.drop_first(), Seq::empty(), pattern);
            assert(seq![text.first()] + text.drop_first() + Seq::<char>::empty() == text);
        }
        nothing_to_replace(text.drop_first(), pattern, to);
        assert(seq![text.first()] + text.drop_first() == text);
    }
}

/// The first place where the pattern stands gives way to the replacement; what
/// is before it stays, and what is behind it is treated in the same way.
pub proof fn first_place_is_replaced(
    head: Seq<char>,
    pattern: Seq<char>,
    tail: Seq<char>,
    to: Seq<char>,
)
    requires
        pattern.len() > 0,
        forall|at: int|
            0 <= at < head.len() ==> !#[trigger] occurs_at(head + pattern + tail, pattern, at),
    ensures
        replaced(head + pattern + tail, pattern, to) == head + to + replaced(tail, pattern, to),
    decreases head.len(),
{
    let text = head + pattern + tail;
    if head.len() == 0 {
        assert(text.take(pattern.len() as int) == pattern);
        assert(text.skip(pattern.len() as int) == tail);
        assert(to + replaced(tail, pattern, to) == head + to + replaced(tail, pattern, to));
    } else {
        assert(!occurs_at(text, pattern, 0));
        assert(text.subrange(0, pattern.len() as int) == text.take(pattern.len() as int));
        let rest = head.drop_first();
        assert(text.drop_first() == rest + pattern + tail);
        assert forall|at: int| 0 <= at < rest.len() implies !#[trigger] occurs_at(
            rest + pattern + tail,
            pattern,
            at,
        ) by {
            assert(!occurs_at(text, pattern, at + 1));
            assert((rest + pattern + tail).subrange(at, at + pattern.len()) == text.subrange(
                at + 1,
                at + 1 + pattern.len(),
            ));
        }
        first_place_is_replaced(rest, pattern, tail, to);
        assert(seq![head[0]] + (rest + to + replaced(tail, pattern, to)) == head + to + replaced(
            tail,
            pattern,
            to,
        ));
    }
}

/// One word stays as it is, and two lists of words are put together with one
/// space between them.
pub proof fn words_are_spaced(word: Seq<char>, a: Seq<Seq<char>>, b: Seq<Seq<char>>)
    requires
        a.len() > 0,
        b.len() > 0,
    ensures
        spaced(seq![word]) == word,
        spaced(a + b) == spaced(a) + " "@ + spaced(b),
    decreases b.len(),
{
    assert((a + b).drop_last() == a + b.drop_last());
    assert((a + b).last() == b.last());
    if b.len() == 1 {
        assert(a + b.drop_last() == a);
    } else {
        words_are_spaced(word, a, b.drop_last());
        assert(spaced(a + b) == spaced(a) + " "@ + spaced(b.drop_last()) + " "@ + b.last());
    }
}

} // verus!

//! Text as sequences of characters: the few string operations that the shell is built from,
//! each with its meaning on `Seq<char>` and an executable counterpart.
use vstd::prelude::*;

verus! {

/// The index of the first `c` in `s`, or the length of `s` if there is none.
pub open spec fn position(s: Seq<char>, c: char) -> int
    decreases s.len(),
{
    if s.len() == 0 || s[0] == c {
        0
    } else {
        1 + position(s.drop_first(), c)
    }
}

/// `position` is the one index in front of which there is no `c`, and at which there is one
/// unless the text ends there.
pub proof fn lemma_position(s: Seq<char>, c: char)
    ensures
        0 <= position(s, c) <= s.len(),
        forall|i: int| 0 <= i < position(s, c) ==> s[i] != c,
        position(s, c) < s.len() ==> s[position(s, c)] == c,
        position(s, c) < s.len() <==> s.contains(c),
    decreases s.len(),
{
    if s.len() > 0 && s[0] != c {
        let rest = s.drop_first();
        lemma_position(rest, c);
        assert forall|i: int| 0 <= i < position(s, c) implies s[i] != c by {
            if i > 0 {
                assert(rest[i - 1] == s[i]);
            }
        }
        if s.contains(c) {
            let k = choose|k: int| 0 <= k < s.len() && s[k] == c;
            assert(rest[k - 1] == c);
        }
        if rest.contains(c) {
            let k = choose|k: int| 0 <= k < rest.len() && rest[k] == c;
            assert(s[k + 1] == c);
        }
    } else if s.len() > 0 {
        assert(s[0] == c);
    }
}

/// The converse: whatever index has that property is `position`.
pub proof fn lemma_position_unique(s: Seq<char>, c: char, p: int)
    requires
        0 <= p <= s.len(),
        forall|i: int| 0 <= i < p ==> s[i] != c,
        p == s.len() || s[p] == c,
    ensures
        position(s, c) == p,
{
    lemma_position(s, c);
    let q = position(s, c);
    if q < p {
        assert(s[q] != c);
    }
}

/// The pieces of `s` between the occurrences of `sep`, empty pieces among them.
pub open spec fn split(s: Seq<char>, sep: char) -> Seq<Seq<char>>
    decreases s.len(),
{
    proof {
        lemma_position(s, sep);
    }
    let p = position(s, sep);
    if p == s.len() {
        seq![s]
    } else {
        seq![s.take(p)] + split(s.skip(p + 1), sep)
    }
}

/// The texts of a list of strings.
pub open spec fn texts(list: Seq<String>) -> Seq<Seq<char>> {
    list.map_values(|s: String| s@)
}

/// The text of an optional string.
pub open spec fn optional_text(text: Option<String>) -> Option<Seq<char>> {
    match text {
        Some(text) => Some(text@),
        None => None,
    }
}

/// The parts in a row, with `sep` between each two of them.
pub open spec fn join(parts: Seq<Seq<char>>, sep: Seq<char>) -> Seq<char>
    decreases parts.len(),
{
    if parts.len() == 0 {
        Seq::empty()
    } else if parts.len() == 1 {
        parts[0]
    } else {
        parts[0] + sep + join(parts.drop_first(), sep)
    }
}

/// `s` without the run of `c` at its end.
pub open spec fn trim_end(s: Seq<char>, c: char) -> Seq<char>
    decreases s.len(),
{
    if s.len() > 0 && s.last() == c {
        trim_end(s.drop_last(), c)
    } else {
        s
    }
}

/// `s` without the run of `c` at its start.
pub open spec fn trim_start(s: Seq<char>, c: char) -> Seq<char>
    decreases s.len(),
{
    if s.len() > 0 && s[0] == c {
        trim_start(s.drop_first(), c)
    } else {
        s
    }
}

/// Whether `pattern` stands in `s` at index `i`.
pub open spec fn stands_at(s: Seq<char>, pattern: Seq<char>, i: int) -> bool {
    0 <= i && i + pattern.len() <= s.len() && s.subrange(i, i + pattern.len()) == pattern
}

/// The index at which `pattern` stands in `s` first, if it does anywhere.
pub open spec fn first_at(s: Seq<char>, pattern: Seq<char>) -> Option<int>
    decreases s.len(),
{
    if pattern.is_prefix_of(s) {
        Some(0)
    } else if s.len() == 0 {
        None
    } else {
        match first_at(s.drop_first(), pattern) {
            Some(i) => Some(i + 1),
            None => None,
        }
    }
}

/// `first_at` finds the least index at which the pattern stands.
pub proof fn lemma_first_at(s: Seq<char>, pattern: Seq<char>)
    ensures
        match first_at(s, pattern) {
            Some(i) => stands_at(s, pattern, i) && forall|j: int|
                0 <= j < i ==> !stands_at(s, pattern, j),
            None => forall|j: int| !stands_at(s, pattern, j),
        },
    decreases s.len(),
{
    if pattern.is_prefix_of(s) {
        assert(s.subrange(0, pattern.len() as int) =~= pattern);
    } else {
        assert(!stands_at(s, pattern, 0));
        if s.len() > 0 {
            let rest = s.drop_first();
            lemma_first_at(rest, pattern);
            assert forall|j: int| j > 0 implies stands_at(s, pattern, j) == stands_at(
                rest,
                pattern,
                j - 1,
            ) by {
                if j + pattern.len() <= s.len() {
                    assert(s.subrange(j, j + pattern.len()) =~= rest.subrange(
                        j - 1,
                        j - 1 + pattern.len(),
                    ));
                }
            }
            match first_at(rest, pattern) {
                Some(i) => {
                    assert forall|j: int| 0 <= j < i + 1 implies !stands_at(s, pattern, j) by {
                        if j > 0 {
                            assert(!stands_at(rest, pattern, j - 1));
                        }
                    }
                    assert(stands_at(s, pattern, i + 1));
                },
                None => {
                    assert forall|j: int| !stands_at(s, pattern, j) by {
                        if j > 0 {
                            assert(!stands_at(rest, pattern, j - 1));
                        }
                    }
                },
            }
        }
    }
}

/// The converse: the least index at which the pattern stands is `first_at`.
pub proof fn lemma_first_at_unique(s: Seq<char>, pattern: Seq<char>, p: int)
    requires
        stands_at(s, pattern, p),
        forall|j: int| 0 <= j < p ==> !stands_at(s, pattern, j),
    ensures
        first_at(s, pattern) == Some(p),
{
    lemma_first_at(s, pattern);
}

/// A line without the carriage return that stood in front of its line feed.
pub open spec fn strip_return(line: Seq<char>) -> Seq<char> {
    if line.len() > 0 && line.last() == '\r' {
        line.drop_last()
    } else {
        line
    }
}

/// The lines of `s`: a line ends with a line feed, or with a carriage return and a line feed,
/// and the last one may lack its ending. A carriage return anywhere else belongs to its line.
pub open spec fn lines(s: Seq<char>) -> Seq<Seq<char>>
    decreases s.len(),
{
    proof {
        lemma_position(s, '\n');
    }
    let p = position(s, '\n');
    if s.len() == 0 {
        Seq::empty()
    } else if p == s.len() {
        seq![s]
    } else {
        seq![strip_return(s.take(p))] + lines(s.skip(p + 1))
    }
}

/// The ASCII lower-case letter of an ASCII upper-case one; any other character as it is.
pub open spec fn ascii_lower(c: char) -> char {
    if 'A' <= c && c <= 'Z' {
        (c as u32 + 32) as char
    } else {
        c
    }
}

/// `s` with its ASCII letters in lower case.
pub open spec fn ascii_lowercase(s: Seq<char>) -> Seq<char> {
    s.map_values(|c: char| ascii_lower(c))
}

/// The characters that ASCII counts as white space.
pub open spec fn is_ascii_whitespace(c: char) -> bool {
    c == ' ' || c == '\t' || c == '\n' || c == '\x0C' || c == '\r'
}

/// The decimal digit of a number below ten.
pub open spec fn digit(n: int) -> char {
    ('0' as u32 + n) as char
}

/// The decimal digits of `n`, without leading zeros.
pub open spec fn decimal(n: nat) -> Seq<char>
    decreases n,
{
    if n < 10 {
        seq![digit(n as int)]
    } else {
        decimal(n / 10).push(digit((n % 10) as int))
    }
}

/// The characters of `text`, one by one.
pub fn chars_of(text: &str) -> (chars: Vec<char>)
    ensures
        chars@ == text@,
{
    let mut chars: Vec<char> = Vec::new();
    for c in it: text.chars()
        invariant
            it.seq() == text@,
            chars@ == it.seq().take(it.index() as int),
    {
        chars.push(c);
    }
    assert(text@.take(text@.len() as int) =~= text@);
    chars
}

/// The text made of `chars[from..to]`.
pub fn text_of(chars: &Vec<char>, from: usize, to: usize) -> (text: String)
    requires
        from <= to <= chars.len(),
    ensures
        text@ == chars@.subrange(from as int, to as int),
{
    let mut text = String::new();
    let mut i: usize = from;
    while i < to
        invariant
            from <= i <= to <= chars.len(),
            text@ == chars@.subrange(from as int, i as int),
        decreases to - i,
    {
        text.push(chars[i]);
        i += 1;
    }
    text
}

/// Whether two texts hold the same characters.
pub fn same_text(a: &str, b: &str) -> (same: bool)
    ensures
        same == (a@ == b@),
{
    a.to_owned() == b.to_owned()
}

/// The index of the first `c` at or behind `start`, or the length if there is none.
pub fn find_char(chars: &Vec<char>, start: usize, c: char) -> (found: usize)
    requires
        start <= chars.len(),
    ensures
        found == start + position(chars@.skip(start as int), c),
        start <= found <= chars.len(),
{
    let mut i: usize = start;
    while i < chars.len() && chars[i] != c
        invariant
            start <= i <= chars.len(),
            forall|k: int| start <= k < i ==> chars@[k] != c,
        decreases chars.len() - i,
    {
        i += 1;
    }
    proof {
        lemma_position_unique(chars@.skip(start as int), c, i - start);
    }
    i
}

/// The pieces of `text` between the occurrences of `sep`, empty pieces among them.
pub fn split_text(text: &str, sep: char) -> (pieces: Vec<String>)
    ensures
        texts(pieces@) == split(text@, sep),
{
    let chars = chars_of(text);
    let mut pieces: Vec<String> = Vec::new();
    let mut start: usize = 0;
    assert(text@.skip(0) =~= text@);
    assert(texts(pieces@) =~= Seq::<Seq<char>>::empty());
    loop
        invariant
            start <= chars.len(),
            chars@ == text@,
            texts(pieces@) + split(text@.skip(start as int), sep) == split(text@, sep),
        decreases chars.len() - start,
    {
        let ghost rest = text@.skip(start as int);
        let ghost before = pieces@;
        let end = find_char(&chars, start, sep);
        pieces.push(text_of(&chars, start, end));
        proof {
            assert(pieces@.last()@ =~= rest.take(end - start));
            assert(texts(pieces@) =~= texts(before) + seq![rest.take(end - start)]);
        }
        if end == chars.len() {
            proof {
                assert(rest.take(end - start) =~= rest);
            }
            return pieces;
        }
        proof {
            assert(rest.skip(end - start + 1) =~= text@.skip(end + 1));
            assert((texts(before) + seq![rest.take(end - start)]) + split(text@.skip(end + 1), sep)
                =~= texts(before) + (seq![rest.take(end - start)] + split(text@.skip(end + 1), sep)));
        }
        start = end + 1;
    }
}

/// The lines of `text`, without their endings.
pub fn lines_of(text: &str) -> (found: Vec<String>)
    ensures
        texts(found@) == lines(text@),
{
    let chars = chars_of(text);
    let mut found: Vec<String> = Vec::new();
    let mut start: usize = 0;
    assert(text@.skip(0) =~= text@);
    assert(texts(found@) =~= Seq::<Seq<char>>::empty());
    while start < chars.len()
        invariant
            start <= chars.len(),
            chars@ == text@,
            texts(found@) + lines(text@.skip(start as int)) == lines(text@),
        decreases chars.len() - start,
    {
        let ghost rest = text@.skip(start as int);
        let ghost before = found@;
        let end = find_char(&chars, start, '\n');
        if end == chars.len() {
            found.push(text_of(&chars, start, end));
            proof {
                assert(found@.last()@ =~= rest);
                assert(texts(found@) =~= texts(before) + seq![rest]);
            }
            return found;
        }
        let stop = if end > start && chars[end - 1] == '\r' {
            end - 1
        } else {
            end
        };
        found.push(text_of(&chars, start, stop));
        proof {
            assert(found@.last()@ =~= strip_return(rest.take(end - start)));
            assert(texts(found@) =~= texts(before) + seq![strip_return(rest.take(end - start))]);
            assert(rest.skip(end - start + 1) =~= text@.skip(end + 1));
            assert((texts(before) + seq![strip_return(rest.take(end - start))]) + lines(
                text@.skip(end + 1),
            ) =~= texts(before) + (seq![strip_return(rest.take(end - start))] + lines(
                text@.skip(end + 1),
            )));
        }
        start = end + 1;
    }
    assert(text@.skip(start as int) =~= Seq::<char>::empty());
    assert(texts(found@) + Seq::<Seq<char>>::empty() =~= texts(found@));
    found
}

/// The parts in a row, with `sep` between each two of them.
pub fn join_texts(parts: &Vec<String>, sep: &str) -> (joined: String)
    ensures
        joined@ == join(texts(parts@), sep@),
{
    let mut joined = String::new();
    let mut i: usize = parts.len();
    let ghost all = texts(parts@);
    // The text is put together from its end.
    while i > 0
        invariant
            i <= parts.len(),
            all == texts(parts@),
            joined@ == join(all.skip(i as int), sep@),
        decreases i,
    {
        i -= 1;
        let mut head = parts[i].clone();
        if i + 1 < parts.len() {
            head.append(sep);
        }
        head.append(joined.as_str());
        proof {
            assert(all.skip(i as int).drop_first() =~= all.skip(i + 1));
            assert(all.skip(i as int)[0] == parts@[i as int]@);
            if i + 1 == parts.len() {
                assert(head@ =~= parts@[i as int]@);
            } else {
                assert(head@ =~= parts@[i as int]@ + sep@ + joined@);
            }
        }
        joined = head;
    }
    assert(all.skip(0) =~= all);
    joined
}

/// Whether `text` starts with `prefix`.
pub fn starts_with(text: &str, prefix: &str) -> (starts: bool)
    ensures
        starts == prefix@.is_prefix_of(text@),
{
    let chars = chars_of(text);
    let front = chars_of(prefix);
    stands_in(&chars, &front, 0)
}

/// Whether `pattern` stands in `chars` at index `at`.
fn stands_in(chars: &Vec<char>, pattern: &Vec<char>, at: usize) -> (stands: bool)
    ensures
        stands == stands_at(chars@, pattern@, at as int),
        at == 0 ==> stands == pattern@.is_prefix_of(chars@),
{
    if at > chars.len() || pattern.len() > chars.len() - at {
        return false;
    }
    let mut i: usize = 0;
    while i < pattern.len()
        invariant
            i <= pattern.len(),
            at + pattern.len() <= chars.len(),
            forall|k: int| 0 <= k < i ==> chars@[at + k] == pattern@[k],
        decreases pattern.len() - i,
    {
        if chars[at + i] != pattern[i] {
            assert(chars@.subrange(at as int, at + pattern@.len())[i as int] != pattern@[i as int]);
            return false;
        }
        i += 1;
    }
    assert(chars@.subrange(at as int, at + pattern@.len()) =~= pattern@);
    true
}

/// The index at which `pattern` stands in `chars` first, if it does anywhere.
pub fn find_text(chars: &Vec<char>, pattern: &str) -> (found: Option<usize>)
    ensures
        match found {
            Some(i) => first_at(chars@, pattern@) == Some(i as int) && i + pattern@.len()
                <= chars.len(),
            None => first_at(chars@, pattern@) is None,
        },
{
    let sought = chars_of(pattern);
    let mut i: usize = 0;
    proof {
        lemma_first_at(chars@, pattern@);
    }
    loop
        invariant
            sought@ == pattern@,
            i <= chars.len(),
            forall|j: int| 0 <= j < i ==> !stands_at(chars@, pattern@, j),
            match first_at(chars@, pattern@) {
                Some(k) => stands_at(chars@, pattern@, k) && forall|j: int|
                    0 <= j < k ==> !stands_at(chars@, pattern@, j),
                None => forall|j: int| !stands_at(chars@, pattern@, j),
            },
        decreases chars.len() - i,
    {
        if stands_in(chars, &sought, i) {
            return Some(i);
        }
        if i == chars.len() {
            return None;
        }
        i += 1;
    }
}

/// `text` without the run of `c` at its end.
pub fn trim_end_text(text: &str, c: char) -> (trimmed: String)
    ensures
        trimmed@ == trim_end(text@, c),
{
    let chars = chars_of(text);
    let mut end: usize = chars.len();
    assert(text@.take(end as int) =~= text@);
    while end > 0 && chars[end - 1] == c
        invariant
            end <= chars.len(),
            chars@ == text@,
            trim_end(text@.take(end as int), c) == trim_end(text@, c),
        decreases end,
    {
        assert(text@.take(end as int).drop_last() =~= text@.take(end - 1));
        end -= 1;
    }
    text_of(&chars, 0, end)
}

/// `text` without the runs of `c` at its start and at its end.
pub fn trim_text(text: &str, c: char) -> (trimmed: String)
    ensures
        trimmed@ == trim_end(trim_start(text@, c), c),
{
    let chars = chars_of(text);
    let mut start: usize = 0;
    assert(text@.skip(0) =~= text@);
    while start < chars.len() && chars[start] == c
        invariant
            start <= chars.len(),
            chars@ == text@,
            trim_start(text@.skip(start as int), c) == trim_start(text@, c),
        decreases chars.len() - start,
    {
        assert(text@.skip(start as int).drop_first() =~= text@.skip(start + 1));
        start += 1;
    }
    let rest = text_of(&chars, start, chars.len());
    assert(rest@ =~= text@.skip(start as int));
    trim_end_text(rest.as_str(), c)
}

/// `text` with its ASCII letters in lower case.
pub fn ascii_lowercase_text(text: &str) -> (lower: String)
    ensures
        lower@ == ascii_lowercase(text@),
{
    let chars = chars_of(text);
    let mut lower = String::new();
    let mut i: usize = 0;
    while i < chars.len()
        invariant
            i <= chars.len(),
            chars@ == text@,
            lower@ == ascii_lowercase(text@.take(i as int)),
        decreases chars.len() - i,
    {
        let c = chars[i];
        if 'A' <= c && c <= 'Z' {
            lower.push((c as u8 + 32) as char);
        } else {
            lower.push(c);
        }
        i += 1;
        assert(ascii_lowercase(text@.take(i as int)) =~= ascii_lowercase(text@.take(i - 1)).push(
            ascii_lower(text@[i - 1]),
        ));
    }
    assert(text@.take(i as int) =~= text@);
    lower
}

/// Whether some character of `text` is ASCII white space.
pub fn has_ascii_whitespace(text: &str) -> (has: bool)
    ensures
        has == exists|i: int| 0 <= i < text@.len() && is_ascii_whitespace(#[trigger] text@[i]),
{
    let chars = chars_of(text);
    let mut i: usize = 0;
    while i < chars.len()
        invariant
            i <= chars.len(),
            chars@ == text@,
            forall|k: int| 0 <= k < i ==> !is_ascii_whitespace(#[trigger] text@[k]),
        decreases chars.len() - i,
    {
        let c = chars[i];
        if c == ' ' || c == '\t' || c == '\n' || c == '\x0C' || c == '\r' {
            assert(is_ascii_whitespace(text@[i as int]));
            return true;
        }
        i += 1;
    }
    false
}

/// Whether `c` occurs in `text`.
pub fn has_char(text: &str, c: char) -> (has: bool)
    ensures
        has == text@.contains(c),
{
    let chars = chars_of(text);
    let found = find_char(&chars, 0, c);
    proof {
        assert(text@.skip(0) =~= text@);
        lemma_position(text@, c);
    }
    found < chars.len()
}

/// The decimal digits of `n`, without leading zeros.
pub fn decimal_text(n: u64) -> (digits: String)
    ensures
        digits@ == decimal(n as nat),
    decreases n,
{
    let mut digits = if n < 10 {
        String::new()
    } else {
        decimal_text(n / 10)
    };
    digits.push((48 + (n % 10) as u8) as char);
    assert(digits@ =~= decimal(n as nat));
    digits
}

/// A whole number in decimal digits, with a minus sign if it is negative.
pub open spec fn signed_decimal(n: int) -> Seq<char> {
    if n < 0 {
        seq!['-'] + decimal((-n) as nat)
    } else {
        decimal(n as nat)
    }
}

/// A whole number in decimal digits, with a minus sign if it is negative.
pub fn signed_decimal_text(n: i32) -> (digits: String)
    ensures
        digits@ == signed_decimal(n as int),
{
    if n < 0 {
        let mut digits = String::new();
        digits.push('-');
        digits.append(decimal_text((-(n as i64)) as u64).as_str());
        assert(digits@ =~= signed_decimal(n as int));
        digits
    } else {
        decimal_text(n as u64)
    }
}

/// The pieces of a text hold no separator, and put together again with separators between them
/// they are the text.
pub proof fn law_pieces_make_the_text(s: Seq<char>, sep: char)
    ensures
        split(s, sep).len() > 0,
        forall|i: int| 0 <= i < split(s, sep).len() ==> !(#[trigger] split(s, sep)[i]).contains(sep),
        join(split(s, sep), seq![sep]) == s,
    decreases s.len(),
{
    lemma_position(s, sep);
    let p = position(s, sep);
    if p == s.len() {
        assert(split(s, sep) =~= seq![s]);
    } else {
        let rest = s.skip(p + 1);
        law_pieces_make_the_text(rest, sep);
        let pieces = split(s, sep);
        assert(pieces =~= seq![s.take(p)] + split(rest, sep));
        assert(pieces.drop_first() =~= split(rest, sep));
        assert forall|i: int| 0 <= i < pieces.len() implies !(#[trigger] pieces[i]).contains(sep) by {
            if i > 0 {
                assert(pieces[i] == split(rest, sep)[i - 1]);
            }
        }
        assert(s.take(p) + seq![sep] + rest =~= s);
    }
}

/// A text without the run of a character at its end is a beginning of the text that does not end
/// with the character, and behind which there is nothing else.
pub proof fn law_trim_end(s: Seq<char>, c: char)
    ensures
        trim_end(s, c).len() <= s.len(),
        trim_end(s, c) == s.take(trim_end(s, c).len() as int),
        trim_end(s, c).len() > 0 ==> trim_end(s, c)[trim_end(s, c).len() - 1] != c,
        forall|i: int| trim_end(s, c).len() <= i < s.len() ==> s[i] == c,
    decreases s.len(),
{
    if s.len() > 0 && s.last() == c {
        let rest = s.drop_last();
        law_trim_end(rest, c);
        assert(s.take(trim_end(s, c).len() as int) =~= rest.take(trim_end(s, c).len() as int));
        assert forall|i: int| trim_end(s, c).len() <= i < s.len() implies s[i] == c by {
            if i < rest.len() {
                assert(rest[i] == s[i]);
            }
        }
    } else {
        assert(s.take(s.len() as int) =~= s);
    }
}

/// A text without the run of a character at its start is an end of the text that does not start
/// with the character, and in front of which there is nothing else.
pub proof fn law_trim_start(s: Seq<char>, c: char)
    ensures
        trim_start(s, c).len() <= s.len(),
        trim_start(s, c) == s.skip(s.len() - trim_start(s, c).len()),
        trim_start(s, c).len() > 0 ==> trim_start(s, c)[0] != c,
        forall|i: int| 0 <= i < s.len() - trim_start(s, c).len() ==> s[i] == c,
    decreases s.len(),
{
    if s.len() > 0 && s[0] == c {
        let rest = s.drop_first();
        law_trim_start(rest, c);
        let n = trim_start(s, c).len() as int;
        assert(s.skip(s.len() - n) =~= rest.skip(rest.len() - n));
        assert forall|i: int| 0 <= i < s.len() - n implies s[i] == c by {
            if i > 0 {
                assert(rest[i - 1] == s[i]);
            }
        }
    } else {
        assert(s.skip(0) =~= s);
    }
}

/// Nothing has no lines; a text without line feeds is one line; and a line in front of a line feed
/// is the first of the lines, without the carriage return that it may end with.
pub proof fn law_lines(line: Seq<char>, rest: Seq<char>)
    requires
        !line.contains('\n'),
    ensures
        lines(Seq::empty()) == Seq::<Seq<char>>::empty(),
        line.len() > 0 ==> lines(line) == seq![line],
        lines(line + seq!['\n'] + rest) == seq![
            if line.len() > 0 && line[line.len() - 1] == '\r' {
                line.take(line.len() - 1)
            } else {
                line
            },
        ] + lines(rest),
{
    assert forall|i: int| 0 <= i < line.len() implies line[i] != '\n' by {
        assert(line.contains(line[i]));
    }
    lemma_position_unique(line, '\n', line.len() as int);
    let s = line + seq!['\n'] + rest;
    lemma_position_unique(s, '\n', line.len() as int);
    assert(s.take(line.len() as int) =~= line);
    assert(s.skip(line.len() as int + 1) =~= rest);
    if line.len() > 0 {
        assert(line.take(line.len() - 1) =~= line.drop_last());
    }
}

/// The letters from A to Z, and no others, become those from a to z.
pub proof fn law_ascii_lowercase(s: Seq<char>, i: int)
    requires
        0 <= i < s.len(),
    ensures
        ascii_lowercase(s).len() == s.len(),
        ascii_lowercase(s)[i] as u32 == if 65 <= s[i] as u32 <= 90 {
            s[i] as u32 + 32
        } else {
            s[i] as int
        },
{
}

/// White space is what the codes 9, 10, 12, 13 and 32 stand for, and nothing else.
pub proof fn law_ascii_whitespace(c: char)
    ensures
        is_ascii_whitespace(c) <==> (c as u32 == 9 || c as u32 == 10 || c as u32 == 12 || c as u32
            == 13 || c as u32 == 32),
{
}

/// The number that digits stand for.
pub open spec fn number_of(digits: Seq<char>) -> int
    decreases digits.len(),
{
    if digits.len() == 0 {
        0
    } else {
        10 * number_of(digits.drop_last()) + (digits.last() as int - 48)
    }
}

/// A number is written in digits that stand for it, without a zero in front.
pub proof fn law_decimal_reads_back(n: nat)
    ensures
        number_of(decimal(n)) == n,
        decimal(n).len() > 0,
        forall|i: int| 0 <= i < decimal(n).len() ==> 48 <= #[trigger] decimal(n)[i] as u32 <= 57,
        decimal(n).len() > 1 ==> decimal(n)[0] as u32 != 48,
    decreases n,
{
    if n < 10 {
        assert(decimal(n).drop_last() =~= Seq::empty());
        assert(number_of(decimal(n).drop_last()) == 0);
    } else {
        law_decimal_reads_back(n / 10);
        assert(decimal(n).drop_last() =~= decimal(n / 10));
        if n / 10 < 10 {
            assert(decimal(n / 10)[0] as u32 == 48 + n / 10);
        } else {
            law_decimal_reads_back(n / 10 / 10);
            assert(decimal(n / 10).len() > 1);
        }
        assert(decimal(n)[0] == decimal(n / 10)[0]);
    }
}

/// A negative number is written as a minus sign in front of the digits of its opposite; any other
/// is written in its digits.
pub proof fn law_signed_decimal_reads_back(n: int)
    ensures
        n < 0 ==> signed_decimal(n)[0] == '-' && number_of(signed_decimal(n).skip(1)) == -n,
        n >= 0 ==> signed_decimal(n)[0] != '-' && number_of(signed_decimal(n)) == n,
{
    if n < 0 {
        law_decimal_reads_back((-n) as nat);
        assert(signed_decimal(n).skip(1) =~= decimal((-n) as nat));
    } else {
        law_decimal_reads_back(n as nat);
    }
}

/// A list of strings has as many texts as strings, each at its place; an optional string has a text
/// exactly if it is there.
pub proof fn law_texts_are_those_of_the_strings(list: Seq<String>, text: Option<String>)
    ensures
        texts(list).len() == list.len(),
        forall|i: int| 0 <= i < list.len() ==> #[trigger] texts(list)[i] == list[i]@,
        text matches Some(t) ==> optional_text(text) == Some(t@),
        text is None ==> optional_text(text) is None,
{
}

/// A pattern stands in a text where each of its characters does.
pub proof fn law_pattern_stands_character_by_character(s: Seq<char>, pattern: Seq<char>, i: int)
    ensures
        stands_at(s, pattern, i) <==> 0 <= i && i + pattern.len() <= s.len() && (forall|k: int|
            0 <= k < pattern.len() ==> s[i + k] == #[trigger] pattern[k]),
{
    if 0 <= i && i + pattern.len() <= s.len() {
        let part = s.subrange(i, i + pattern.len());
        if stands_at(s, pattern, i) {
            assert forall|k: int| 0 <= k < pattern.len() implies s[i + k] == #[trigger] pattern[k] by {
                assert(part[k] == pattern[k]);
            }
        }
        if forall|k: int| 0 <= k < pattern.len() ==> s[i + k] == #[trigger] pattern[k] {
            assert(part =~= pattern);
        }
    }
}

} // verus!

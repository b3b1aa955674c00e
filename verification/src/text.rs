//! Text as sequences of characters: classification, number formatting,
//! splitting and joining. Everything here is stated over `Seq<char>`, the
//! view of `String` and `str`.

use vstd::prelude::*;
use vstd::string::StringExecFns;

verus! {

/// What `str::to_lowercase` returns for a text.
pub uninterp spec fn lowercase(s: Seq<char>) -> Seq<char>;

/// `String::push`: appends one character.
#[verifier::external_body]
pub(crate) fn push_char(s: &mut String, c: char)
    ensures
        final(s)@ == old(s)@.push(c),
{
    s.push(c)
}

/// `str::to_lowercase`: the lowercase equivalent of the text, by Unicode's
/// own tables, which depend on nothing but the text.
#[verifier::external_body]
pub(crate) fn to_lowercase(s: &str) -> (r: String)
    ensures
        r@ == lowercase(s@),
{
    s.to_lowercase()
}

/// The characters of a text, in order.
pub fn chars_of(s: &str) -> (v: Vec<char>)
    ensures
        v@ == s@,
{
    let mut v: Vec<char> = Vec::new();
    for c in it: s.chars()
        invariant
            v@ == it.seq().take(it.index() as int),
            it.seq() == s@,
    {
        v.push(c);
    }
    v
}

/// Appends characters to a text.
pub fn push_chars(s: &mut String, v: &Vec<char>)
    ensures
        final(s)@ == old(s)@ + v@,
{
    let mut i: usize = 0;
    while i < v.len()
        invariant
            i <= v.len(),
            s@ == old(s)@ + v@.take(i as int),
        decreases v.len() - i,
    {
        push_char(s, v[i]);
        i = i + 1;
    }
}

/// The text made of the given characters.
pub fn string_of(v: &Vec<char>) -> (s: String)
    ensures
        s@ == v@,
{
    let mut s = String::new();
    push_chars(&mut s, v);
    s
}

/// Whether the two texts hold the same characters.
pub fn same_text(a: &str, b: &str) -> (r: bool)
    ensures
        r == (a@ == b@),
{
    let x = chars_of(a);
    let y = chars_of(b);
    if x.len() != y.len() {
        return false;
    }
    let mut i: usize = 0;
    while i < x.len()
        invariant
            i <= x.len(),
            x.len() == y.len(),
            x@ == a@,
            y@ == b@,
            x@.take(i as int) == y@.take(i as int),
        decreases x.len() - i,
    {
        if x[i] != y[i] {
            return false;
        }
        i = i + 1;
    }
    assert(x@.take(x.len() as int) == x@);
    assert(y@.take(y.len() as int) == y@);
    true
}

/// Unicode's `White_Space` property.
pub open spec fn is_space(c: char) -> bool {
    let n = c as u32;
    ||| 0x09 <= n <= 0x0d
    ||| n == 0x20
    ||| n == 0x85
    ||| n == 0xa0
    ||| n == 0x1680
    ||| 0x2000 <= n <= 0x200a
    ||| n == 0x2028
    ||| n == 0x2029
    ||| n == 0x202f
    ||| n == 0x205f
    ||| n == 0x3000
}

/// Whether a character separates words.
pub fn is_whitespace(c: char) -> (r: bool)
    ensures
        r == is_space(c),
{
    let n: u32 = c as u32;
    (0x09 <= n && n <= 0x0d) || n == 0x20 || n == 0x85 || n == 0xa0 || n == 0x1680 || (0x2000 <= n
        && n <= 0x200a) || n == 0x2028 || n == 0x2029 || n == 0x202f || n == 0x205f || n == 0x3000
}

/// The upper-case form of an ASCII letter; every other character is itself.
pub open spec fn ascii_upper(c: char) -> char {
    if 'a' <= c <= 'z' {
        ((c as u32 - 32) as u8) as char
    } else {
        c
    }
}

/// The upper-case form of an ASCII letter; every other character is itself.
pub fn to_ascii_uppercase(c: char) -> (r: char)
    ensures
        r == ascii_upper(c),
{
    let n: u32 = c as u32;
    if 97 <= n && n <= 122 {
        ((n - 32) as u8) as char
    } else {
        c
    }
}

/// The character that writes one digit below 16, letters in upper case.
pub open spec fn digit(d: int) -> char {
    if d < 10 {
        ((48 + d) as u8) as char
    } else {
        ((55 + d) as u8) as char
    }
}

/// A number in base `base` (2 to 16), without leading zeros.
pub open spec fn numeral(n: nat, base: nat) -> Seq<char>
    decreases n,
{
    if n < base || base < 2 {
        seq![digit(n as int)]
    } else {
        proof {
            assert(n / base < n) by (nonlinear_arith)
                requires
                    2 <= base <= n,
            ;
        }
        numeral(n / base, base).push(digit((n % base) as int))
    }
}

/// `s` with as many copies of `fill` before it as it takes to reach `width`.
pub open spec fn padded(s: Seq<char>, width: nat, fill: char) -> Seq<char> {
    if s.len() >= width {
        s
    } else {
        Seq::new((width - s.len()) as nat, |i: int| fill) + s
    }
}

/// The character that writes one digit below 16.
pub fn digit_char(d: u64) -> (c: char)
    requires
        d < 16,
    ensures
        c == digit(d as int),
{
    if d < 10 {
        ((48 + d) as u8) as char
    } else {
        ((55 + d) as u8) as char
    }
}

/// Appends `n` written in base `base`.
pub fn push_numeral(out: &mut Vec<char>, n: u64, base: u64)
    requires
        2 <= base <= 16,
    ensures
        final(out)@ == old(out)@ + numeral(n as nat, base as nat),
    decreases n,
{
    if n < base {
        out.push(digit_char(n));
    } else {
        assert(n / base < n) by (nonlinear_arith)
            requires
                2 <= base <= n,
        ;
        push_numeral(out, n / base, base);
        out.push(digit_char(n % base));
    }
}

/// `n` in base `base`, padded on the left with `fill` to `width` characters.
pub fn format_number(n: u64, base: u64, width: usize, fill: char) -> (v: Vec<char>)
    requires
        2 <= base <= 16,
    ensures
        v@ == padded(numeral(n as nat, base as nat), width as nat, fill),
{
    let mut digits: Vec<char> = Vec::new();
    push_numeral(&mut digits, n, base);
    pad_left(&digits, width, fill)
}

/// `s` padded on the left with `fill` to `width` characters.
pub fn pad_left(s: &Vec<char>, width: usize, fill: char) -> (v: Vec<char>)
    ensures
        v@ == padded(s@, width as nat, fill),
{
    let mut v: Vec<char> = Vec::new();
    if s.len() < width {
        let gap: usize = width - s.len();
        let mut i: usize = 0;
        while i < gap
            invariant
                i <= gap,
                v@ == Seq::new(i as nat, |k: int| fill),
            decreases gap - i,
        {
            v.push(fill);
            i = i + 1;
        }
    }
    let ghost before = v@;
    let mut j: usize = 0;
    while j < s.len()
        invariant
            j <= s.len(),
            v@ == before + s@.take(j as int),
        decreases s.len() - j,
    {
        v.push(s[j]);
        j = j + 1;
    }
    assert(v@ == padded(s@, width as nat, fill)) by {}
    v
}

/// The state of a scan for words after the first `n` characters: the words
/// that are complete, and the word that is being read.
pub open spec fn words_scan(s: Seq<char>, n: int) -> (Seq<Seq<char>>, Seq<char>)
    decreases n,
{
    if n <= 0 {
        (Seq::empty(), Seq::empty())
    } else {
        let (done, word) = words_scan(s, n - 1);
        let c = s[n - 1];
        if is_space(c) {
            if word.len() > 0 {
                (done.push(word), Seq::empty())
            } else {
                (done, word)
            }
        } else {
            (done, word.push(c))
        }
    }
}

/// The maximal runs of characters that are not white space, in order.
pub open spec fn words(s: Seq<char>) -> Seq<Seq<char>> {
    let (done, word) = words_scan(s, s.len() as int);
    if word.len() > 0 {
        done.push(word)
    } else {
        done
    }
}

/// Splits a text at white space, as `str::split_whitespace` does.
pub fn split_whitespace(s: &str) -> (r: Vec<String>)
    ensures
        r.deep_view() == words(s@),
{
    let text = chars_of(s);
    let mut done: Vec<String> = Vec::new();
    let mut word: Vec<char> = Vec::new();
    let mut i: usize = 0;
    while i < text.len()
        invariant
            i <= text.len(),
            (done.deep_view(), word@) == words_scan(text@, i as int),
        decreases text.len() - i,
    {
        let c = text[i];
        if is_whitespace(c) {
            if word.len() > 0 {
                done.push(string_of(&word));
                word = Vec::new();
            }
        } else {
            word.push(c);
        }
        i = i + 1;
    }
    if word.len() > 0 {
        done.push(string_of(&word));
    }
    done
}

/// The words from index `from` on, with one `sep` between neighbours.
pub open spec fn joined(parts: Seq<Seq<char>>, from: int, sep: char) -> Seq<char>
    decreases parts.len() - from,
{
    if from >= parts.len() || from < 0 {
        Seq::empty()
    } else if from == parts.len() - 1 {
        parts[from]
    } else {
        parts[from] + seq![sep] + joined(parts, from + 1, sep)
    }
}

/// The state of `join_from` after the parts before `upto`.
pub open spec fn joined_upto(parts: Seq<Seq<char>>, from: int, upto: int, sep: char) -> Seq<char>
    decreases upto - from,
{
    if upto <= from {
        Seq::empty()
    } else if upto == from + 1 {
        parts[from]
    } else {
        joined_upto(parts, from, upto - 1, sep) + seq![sep] + parts[upto - 1]
    }
}

/// Joining from the left and from the right give the same text.
pub proof fn lemma_joined_upto(parts: Seq<Seq<char>>, from: int, upto: int, sep: char)
    requires
        0 <= from <= upto <= parts.len(),
    ensures
        joined_upto(parts, from, upto, sep) + (if from < upto && upto < parts.len() {
            seq![sep] + joined(parts, upto, sep)
        } else {
            joined(parts, upto, sep)
        }) == joined(parts, from, sep),
    decreases upto - from,
{
    if upto > from + 1 {
        lemma_joined_upto(parts, from, upto - 1, sep);
    }
}

/// Joins the words from index `from` on with `sep`, as `join` on a slice of
/// texts does.
pub fn join_from(parts: &Vec<String>, from: usize, sep: char) -> (r: String)
    ensures
        r@ == joined(parts.deep_view(), from as int, sep),
{
    let mut r = String::new();
    if from >= parts.len() {
        return r;
    }
    let mut i: usize = from;
    while i < parts.len()
        invariant
            from <= i <= parts.len(),
            r@ == joined_upto(parts.deep_view(), from as int, i as int, sep),
        decreases parts.len() - i,
    {
        if i > from {
            push_char(&mut r, sep);
        }
        r.append(parts[i].as_str());
        i = i + 1;
    }
    proof {
        lemma_joined_upto(parts.deep_view(), from as int, parts.len() as int, sep);
    }
    r
}

/// A line as it stands once its ending is taken off: without the carriage
/// return that came just before the line feed.
pub open spec fn chomp(line: Seq<char>) -> Seq<char> {
    if line.len() > 0 && line.last() == '\r' {
        line.drop_last()
    } else {
        line
    }
}

/// The state of a scan for lines after the first `n` characters: the lines
/// that are complete, and the line that is being read.
pub open spec fn lines_scan(s: Seq<char>, n: int) -> (Seq<Seq<char>>, Seq<char>)
    decreases n,
{
    if n <= 0 {
        (Seq::empty(), Seq::empty())
    } else {
        let (done, line) = lines_scan(s, n - 1);
        let c = s[n - 1];
        if c == '\n' {
            (done.push(chomp(line)), Seq::empty())
        } else {
            (done, line.push(c))
        }
    }
}

/// The lines of a text. A line ends at a line feed, or at a carriage return
/// and a line feed; the ending of the last line is optional.
pub open spec fn lines(s: Seq<char>) -> Seq<Seq<char>> {
    let (done, line) = lines_scan(s, s.len() as int);
    if line.len() > 0 {
        done.push(line)
    } else {
        done
    }
}

/// Splits a text into its lines, as `str::lines` does.
pub fn split_lines(s: &str) -> (r: Vec<String>)
    ensures
        r.deep_view() == lines(s@),
{
    let text = chars_of(s);
    let mut done: Vec<String> = Vec::new();
    let mut line: Vec<char> = Vec::new();
    let mut i: usize = 0;
    while i < text.len()
        invariant
            i <= text.len(),
            (done.deep_view(), line@) == lines_scan(text@, i as int),
        decreases text.len() - i,
    {
        let c = text[i];
        if c == '\n' {
            if line.len() > 0 && line[line.len() - 1] == '\r' {
                line.pop();
            }
            done.push(string_of(&line));
            line = Vec::new();
        } else {
            line.push(c);
        }
        i = i + 1;
    }
    if line.len() > 0 {
        done.push(string_of(&line));
    }
    done
}

/// The index of the first character from `n` on that is not white space;
/// the length of the text where there is none.
pub open spec fn lead(s: Seq<char>, n: int) -> int
    decreases s.len() - n,
{
    if n < 0 || n >= s.len() {
        s.len() as int
    } else if !is_space(s[n]) {
        n
    } else {
        lead(s, n + 1)
    }
}

/// The index behind the last character before `n` that is not white
/// space; 0 where there is none.
pub open spec fn trail(s: Seq<char>, n: int) -> int
    decreases n,
{
    if n <= 0 || n > s.len() {
        0
    } else if !is_space(s[n - 1]) {
        n
    } else {
        trail(s, n - 1)
    }
}

/// A text without the white space at its start and at its end.
pub open spec fn trimmed(s: Seq<char>) -> Seq<char> {
    let from = lead(s, 0);
    let to = trail(s, s.len() as int);
    if from < to {
        s.subrange(from, to)
    } else {
        Seq::empty()
    }
}

/// Takes the white space off both ends of a text, as `str::trim` does.
pub fn trim(s: &str) -> (r: String)
    ensures
        r@ == trimmed(s@),
{
    let text = chars_of(s);
    let mut from: usize = 0;
    while from < text.len() && is_whitespace(text[from])
        invariant
            from <= text.len(),
            lead(text@, 0) == lead(text@, from as int),
        decreases text.len() - from,
    {
        from = from + 1;
    }
    let mut to: usize = text.len();
    while to > 0 && is_whitespace(text[to - 1])
        invariant
            to <= text.len(),
            trail(text@, text.len() as int) == trail(text@, to as int),
        decreases to,
    {
        to = to - 1;
    }
    let mut out: Vec<char> = Vec::new();
    if from < to {
        let mut i: usize = from;
        while i < to
            invariant
                from <= i <= to <= text.len(),
                out@ == text@.subrange(from as int, i as int),
            decreases to - i,
        {
            out.push(text[i]);
            i = i + 1;
        }
    }
    string_of(&out)
}

} // verus!

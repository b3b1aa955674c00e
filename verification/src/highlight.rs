//! Color tokens: what a pane attaches to each character, how a token is
//! written in a script, and how a named token is resolved through the
//! color table.

use crate::strmap::StrMap;
use crate::text::{chars_of, string_of};
use vstd::prelude::*;

verus! {

/// A color token. `Link` names another entry of the color table.
#[derive(Debug, PartialEq)]
pub enum Color {
    Invalid,
    Base16(u8),
    Hex { r: u8, g: u8, b: u8 },
    Link(String),
}

/// A color token with its name as characters.
pub enum ColorView {
    Invalid,
    Base16(u8),
    Hex { r: u8, g: u8, b: u8 },
    Link(Seq<char>),
}

impl View for Color {
    type V = ColorView;

    open spec fn view(&self) -> ColorView {
        match self {
            Color::Invalid => ColorView::Invalid,
            Color::Base16(n) => ColorView::Base16(*n),
            Color::Hex { r, g, b } => ColorView::Hex { r: *r, g: *g, b: *b },
            Color::Link(s) => ColorView::Link(s@),
        }
    }
}

impl DeepView for Color {
    type V = ColorView;

    open spec fn deep_view(&self) -> ColorView {
        self@
    }
}

impl Clone for Color {
    fn clone(&self) -> (r: Self)
        ensures
            r == *self,
    {
        match self {
            Color::Invalid => Color::Invalid,
            Color::Base16(n) => Color::Base16(*n),
            Color::Hex { r, g, b } => Color::Hex { r: *r, g: *g, b: *b },
            Color::Link(s) => Color::Link(s.clone()),
        }
    }
}

impl Color {
    /// A link to the table entry called `name`.
    pub fn link(name: &str) -> (c: Color)
        ensures
            c@ == ColorView::Link(name@),
    {
        Color::Link(name.to_string())
    }

    /// Whether two tokens are the same, names compared by their characters.
    pub fn same(&self, other: &Color) -> (r: bool)
        ensures
            r == (self@ == other@),
    {
        match (self, other) {
            (Color::Invalid, Color::Invalid) => true,
            (Color::Base16(a), Color::Base16(b)) => *a == *b,
            (Color::Hex { r: r1, g: g1, b: b1 }, Color::Hex { r: r2, g: g2, b: b2 }) => *r1 == *r2
                && *g1 == *g2 && *b1 == *b2,
            (Color::Link(a), Color::Link(b)) => *a == *b,
            _ => false,
        }
    }
}

/// What a token resolves to when at most `fuel` links are followed. A link
/// to a name that the table lacks resolves to nothing.
pub open spec fn resolved(table: Map<Seq<char>, Color>, c: Color, fuel: nat) -> Option<Color>
    decreases fuel,
{
    match c {
        Color::Link(name) => if fuel > 0 && table.contains_key(name@) {
            resolved(table, table[name@], (fuel - 1) as nat)
        } else {
            None
        },
        _ => Some(c),
    }
}

/// More fuel never changes what a token has resolved to.
pub proof fn lemma_resolved_stable(table: Map<Seq<char>, Color>, c: Color, fuel: nat, more: nat)
    requires
        resolved(table, c, fuel) is Some,
        fuel <= more,
    ensures
        resolved(table, c, more) == resolved(table, c, fuel),
    decreases fuel,
{
    if let Color::Link(name) = c {
        lemma_resolved_stable(table, table[name@], (fuel - 1) as nat, (more - 1) as nat);
    }
}

/// The number of links that are followed from a token with the given
/// fuel.
pub open spec fn hops(table: Map<Seq<char>, Color>, c: Color, fuel: nat) -> nat
    decreases fuel,
{
    match c {
        Color::Link(name) => if fuel > 0 && table.contains_key(name@) {
            1 + hops(table, table[name@], (fuel - 1) as nat)
        } else {
            0
        },
        _ => 0,
    }
}

/// The names that are followed from a token with the given fuel, in order.
pub open spec fn trail(table: Map<Seq<char>, Color>, c: Color, fuel: nat) -> Seq<Seq<char>>
    decreases fuel,
{
    match c {
        Color::Link(name) => if fuel > 0 && table.contains_key(name@) {
            seq![name@] + trail(table, table[name@], (fuel - 1) as nat)
        } else {
            Seq::empty()
        },
        _ => Seq::empty(),
    }
}

/// A token that resolves does so after the same number of links whatever
/// the fuel, and takes no more fuel than that.
pub proof fn lemma_hops_stable(table: Map<Seq<char>, Color>, c: Color, fuel: nat, other: nat)
    requires
        resolved(table, c, fuel) is Some,
        resolved(table, c, other) is Some,
    ensures
        hops(table, c, fuel) == hops(table, c, other),
        hops(table, c, fuel) <= fuel,
        resolved(table, c, hops(table, c, fuel)) == resolved(table, c, fuel),
    decreases fuel,
{
    if let Color::Link(name) = c {
        lemma_hops_stable(table, table[name@], (fuel - 1) as nat, (other - 1) as nat);
    }
}

/// The names that are followed are keys of the table, one for each link.
pub proof fn lemma_trail_in_table(table: Map<Seq<char>, Color>, c: Color, fuel: nat)
    ensures
        trail(table, c, fuel).len() == hops(table, c, fuel),
        forall|i: int|
            0 <= i < trail(table, c, fuel).len() ==> table.contains_key(
                #[trigger] trail(table, c, fuel)[i],
            ),
    decreases fuel,
{
    if let Color::Link(name) = c {
        if fuel > 0 && table.contains_key(name@) {
            lemma_trail_in_table(table, table[name@], (fuel - 1) as nat);
        }
    }
}

/// Behind the link with index `i` on the way of a token that resolves,
/// the entry that the link names resolves too, with the fuel that is left
/// and after the links that are left.
pub proof fn lemma_trail_step(table: Map<Seq<char>, Color>, c: Color, fuel: nat, i: int)
    requires
        resolved(table, c, fuel) is Some,
        0 <= i < trail(table, c, fuel).len(),
    ensures
        i + 1 <= fuel,
        table.contains_key(trail(table, c, fuel)[i]),
        resolved(table, table[trail(table, c, fuel)[i]], (fuel - i - 1) as nat) is Some,
        hops(table, c, fuel) == i + 1 + hops(
            table,
            table[trail(table, c, fuel)[i]],
            (fuel - i - 1) as nat,
        ),
    decreases fuel,
{
    if let Color::Link(name) = c {
        if i > 0 {
            lemma_trail_step(table, table[name@], (fuel - 1) as nat, i - 1);
        }
    }
}

/// A token that resolves follows no name twice.
pub proof fn lemma_trail_distinct(table: Map<Seq<char>, Color>, c: Color, fuel: nat)
    requires
        resolved(table, c, fuel) is Some,
    ensures
        trail(table, c, fuel).no_duplicates(),
{
    let names = trail(table, c, fuel);
    assert forall|i: int, j: int| 0 <= i < names.len() && 0 <= j < names.len() && i != j implies names[i]
        != names[j] by {
        if names[i] == names[j] {
            lemma_trail_step(table, c, fuel, i);
            lemma_trail_step(table, c, fuel, j);
            let entry = table[names[i]];
            lemma_hops_stable(table, entry, (fuel - i - 1) as nat, (fuel - j - 1) as nat);
        }
    }
}

/// A token that resolves at all resolves with as much fuel as the table
/// has keys: it follows no name twice, and all of them are keys.
pub proof fn lemma_resolved_complete(table: Map<Seq<char>, Color>, c: Color, fuel: nat)
    requires
        table.dom().finite(),
        resolved(table, c, fuel) is Some,
    ensures
        resolved(table, c, table.dom().len()) == resolved(table, c, fuel),
{
    let names = trail(table, c, fuel);
    lemma_trail_distinct(table, c, fuel);
    lemma_trail_in_table(table, c, fuel);
    names.unique_seq_to_set();
    vstd::set_lib::lemma_len_subset(names.to_set(), table.dom());
    lemma_hops_stable(table, c, fuel, fuel);
    lemma_resolved_stable(table, c, hops(table, c, fuel), table.dom().len());
}

/// Resolves a token through the color table, following links from entry to
/// entry: the result is what the token resolves to with whatever fuel it
/// takes. A link to a name that the table lacks, and a chain of links that
/// runs in a circle, resolve to nothing.
pub fn get_color(map: &StrMap<Color>, c: Color) -> (r: Option<Color>)
    ensures
        r == resolved(map@, c, map.entries().len()),
        forall|fuel: nat| (#[trigger] resolved(map@, c, fuel)) is Some ==> r == resolved(map@, c, fuel),
        r matches Some(found) ==> !(found is Link),
{
    let mut cur = c;
    let mut fuel: usize = map.len();
    proof {
        assert forall|f: nat| (#[trigger] resolved(map@, c, f)) is Some implies resolved(
            map@,
            c,
            map.entries().len(),
        ) == resolved(map@, c, f) by {
            lemma_resolved_complete(map@, c, f);
        }
    }
    loop
        invariant
            resolved(map@, cur, fuel as nat) == resolved(map@, c, map.entries().len()),
            forall|f: nat|
                (#[trigger] resolved(map@, c, f)) is Some ==> resolved(
                    map@,
                    c,
                    map.entries().len(),
                ) == resolved(map@, c, f),
        decreases fuel,
    {
        match cur {
            Color::Link(name) => {
                if fuel == 0 {
                    return None;
                }
                match map.get(&name) {
                    Some(next) => {
                        cur = next.clone();
                        fuel = fuel - 1;
                    },
                    None => {
                        return None;
                    },
                }
            },
            other => {
                return Some(other);
            },
        }
    }
}

/// The value of a hexadecimal digit.
pub open spec fn hex_digit(c: char) -> Option<int> {
    if '0' <= c <= '9' {
        Some(c as int - 48)
    } else if 'a' <= c <= 'f' {
        Some(c as int - 87)
    } else if 'A' <= c <= 'F' {
        Some(c as int - 55)
    } else {
        None
    }
}

/// The number that a run of hexadecimal digits writes; nothing where a
/// character is no such digit. The empty run writes 0.
pub open spec fn hex_number(s: Seq<char>) -> Option<int>
    decreases s.len(),
{
    if s.len() == 0 {
        Some(0)
    } else {
        match (hex_number(s.drop_last()), hex_digit(s.last())) {
            (Some(n), Some(d)) => Some(n * 16 + d),
            _ => None,
        }
    }
}

/// A hexadecimal number with an optional sign before at least one digit.
pub open spec fn signed_hex(s: Seq<char>) -> Option<int> {
    if s.len() > 0 && s[0] == '+' {
        if s.len() > 1 {
            hex_number(s.skip(1))
        } else {
            None
        }
    } else if s.len() > 0 && s[0] == '-' {
        if s.len() > 1 {
            match hex_number(s.skip(1)) {
                Some(n) => Some(-n),
                None => None,
            }
        } else {
            None
        }
    } else if s.len() > 0 {
        hex_number(s)
    } else {
        None
    }
}

/// The color that the low 24 bits of `n` encode, 8 bits each for red,
/// green and blue.
pub open spec fn rgb(n: int) -> ColorView {
    let low = n % 0x100_0000;
    ColorView::Hex { r: (low / 0x1_0000) as u8, g: (low / 0x100 % 0x100) as u8, b: (low % 0x100) as u8 }
}

/// The token that a text writes: `%name` links to a table entry, `#` and
/// six characters that make a hexadecimal number give red, green and blue,
/// and everything else is invalid.
pub open spec fn color_of(text: Seq<char>) -> ColorView {
    if text.len() > 0 && text[0] == '%' {
        ColorView::Link(text.skip(1))
    } else if text.len() == 7 && text[0] == '#' {
        match signed_hex(text.skip(1)) {
            Some(n) => rgb(n),
            None => ColorView::Invalid,
        }
    } else {
        ColorView::Invalid
    }
}

/// The value of a hexadecimal digit.
pub fn hex_digit_value(c: char) -> (r: Option<u32>)
    ensures
        match r {
            Some(d) => hex_digit(c) == Some(d as int) && d < 16,
            None => hex_digit(c) is None,
        },
{
    let n: u32 = c as u32;
    if 48 <= n && n <= 57 {
        Some(n - 48)
    } else if 97 <= n && n <= 102 {
        Some(n - 87)
    } else if 65 <= n && n <= 70 {
        Some(n - 55)
    } else {
        None
    }
}

/// Reads the digits of `s` from index `from` on, at most six of them.
fn parse_hex_digits(s: &Vec<char>, from: usize) -> (r: Option<u32>)
    requires
        from <= s.len() <= from + 6,
    ensures
        match r {
            Some(n) => hex_number(s@.skip(from as int)) == Some(n as int) && n < 0x100_0000,
            None => hex_number(s@.skip(from as int)) is None,
        },
{
    let ghost tail = s@.skip(from as int);
    let mut n: u32 = 0;
    let mut i: usize = from;
    while i < s.len()
        invariant
            from <= i <= s.len() <= from + 6,
            tail == s@.skip(from as int),
            hex_number(tail.take(i - from)) == Some(n as int),
            n < pow16((i - from) as nat),
        decreases s.len() - i,
    {
        proof {
            assert(tail.take(i - from + 1).drop_last() == tail.take(i - from));
            reveal_with_fuel(pow16, 7);
        }
        match hex_digit_value(s[i]) {
            Some(d) => {
                n = n * 16 + d;
            },
            None => {
                proof {
                    lemma_hex_number_prefix(tail, i - from + 1);
                }
                return None;
            },
        }
        i = i + 1;
    }
    proof {
        assert(tail.take(tail.len() as int) == tail);
        reveal_with_fuel(pow16, 7);
    }
    Some(n)
}

/// 16 to the power of `k`.
pub open spec fn pow16(k: nat) -> int
    decreases k,
{
    if k == 0 {
        1
    } else {
        16 * pow16((k - 1) as nat)
    }
}

/// Where a prefix holds a character that is no digit, the whole run writes
/// no number.
pub proof fn lemma_hex_number_prefix(s: Seq<char>, k: int)
    requires
        0 <= k <= s.len(),
        hex_number(s.take(k)) is None,
    ensures
        hex_number(s) is None,
    decreases s.len() - k,
{
    if k < s.len() {
        assert(s.take(k + 1).drop_last() == s.take(k));
        lemma_hex_number_prefix(s, k + 1);
    } else {
        assert(s.take(k) == s);
    }
}

/// Reads a color token from its written form.
pub fn parse_color(color: String) -> (r: Option<Color>)
    ensures
        r matches Some(c) && c@ == color_of(color@),
{
    let text = chars_of(color.as_str());
    if text.len() > 0 && text[0] == '%' {
        let mut name: Vec<char> = Vec::new();
        let mut i: usize = 1;
        while i < text.len()
            invariant
                1 <= i <= text.len(),
                name@ == text@.subrange(1, i as int),
            decreases text.len() - i,
        {
            name.push(text[i]);
            i = i + 1;
        }
        Some(Color::Link(string_of(&name)))
    } else if text.len() == 7 && text[0] == '#' {
        let negative = text[1] == '-';
        let start: usize = if text[1] == '+' || negative {
            2
        } else {
            1
        };
        let ghost rest = text@.skip(1);
        assert(rest.skip(1) == text@.skip(2));
        match parse_hex_digits(&text, start) {
            Some(n) => {
                let low: u32 = if negative && n > 0 {
                    0x100_0000 - n
                } else {
                    n
                };
                Some(
                    Color::Hex {
                        r: (low / 0x1_0000) as u8,
                        g: (low / 0x100 % 0x100) as u8,
                        b: (low % 0x100) as u8,
                    },
                )
            },
            None => Some(Color::Invalid),
        }
    } else {
        Some(Color::Invalid)
    }
}

} // verus!

//! Low-level helpers for producing wire text: comma-separated field lists
//! and JSON string escaping.

use vstd::prelude::*;

verus! {

/// The members of `parts` joined by a single `,`, with no leading or
/// trailing separator.
pub open spec fn spec_csv(parts: Seq<Seq<char>>) -> Seq<char>
    decreases parts.len(),
{
    if parts.len() == 0 {
        Seq::empty()
    } else if parts.len() == 1 {
        parts[0]
    } else {
        parts[0] + seq![','] + spec_csv(parts.drop_first())
    }
}

/// Appending one more part extends the joined text by a comma and the part
/// (or by just the part, when it is the first).
pub proof fn lemma_csv_push(parts: Seq<Seq<char>>, part: Seq<char>)
    ensures
        spec_csv(parts.push(part)) == if parts.len() == 0 {
            part
        } else {
            (spec_csv(parts) + seq![','] + part)
        },
    decreases parts.len(),
{
    let whole = parts.push(part);
    if parts.len() == 0 {
        assert(whole.len() == 1);
        assert(whole[0] == part);
    } else if parts.len() == 1 {
        assert(whole.drop_first() =~= parts.drop_first().push(part));
        lemma_csv_push(parts.drop_first(), part);
        assert(spec_csv(whole) == whole[0] + seq![','] + spec_csv(whole.drop_first()));
    } else {
        assert(whole.drop_first() =~= parts.drop_first().push(part));
        lemma_csv_push(parts.drop_first(), part);
        assert(spec_csv(parts) == parts[0] + seq![','] + spec_csv(parts.drop_first()));
        assert(spec_csv(whole) == whole[0] + seq![','] + spec_csv(whole.drop_first()));
        assert(spec_csv(whole) =~= spec_csv(parts) + seq![','] + part);
    }
}

/// Joins the given strings with `,`.
pub fn join_csv(parts: &Vec<String>) -> (r: String)
    ensures
        r@ == spec_csv(parts@.map_values(|s: String| s@)),
{
    let ghost viewed = parts@.map_values(|s: String| s@);
    let mut out = String::new();
    proof {
        reveal_strlit(",");
        assert(","@ =~= seq![',']);
        assert(viewed.take(0) =~= Seq::<Seq<char>>::empty());
    }
    for i in 0..parts.len()
        invariant
            viewed == parts@.map_values(|s: String| s@),
            out@ == spec_csv(viewed.take(i as int)),
    {
        if i > 0 {
            out.append(",");
        }
        out.append(parts[i].as_str());
        proof {
            reveal_strlit(",");
            assert(","@ =~= seq![',']);
            assert(viewed[i as int] == parts@[i as int]@);
            lemma_csv_push(viewed.take(i as int), viewed[i as int]);
            assert(viewed.take(i as int).push(viewed[i as int]) =~= viewed.take(i + 1));
        }
    }
    proof {
        assert(viewed.take(parts@.len() as int) =~= viewed);
    }
    out
}

/// `s` wrapped in double quotes.
pub open spec fn spec_quoted(s: Seq<char>) -> Seq<char> {
    seq!['"'] + s + seq!['"']
}

/// One `"key":value` member of a JSON object.
pub open spec fn spec_pair(key: Seq<char>, value: Seq<char>) -> Seq<char> {
    spec_quoted(key) + seq![':'] + value
}

/// The members contributed by an optional field: one pair when the value
/// is present, nothing at all (never `null`) when it is absent.
pub open spec fn spec_opt_pair(key: Seq<char>, value: Option<Seq<char>>) -> Seq<Seq<char>> {
    match value {
        Option::Some(v) => seq![spec_pair(key, v)],
        Option::None => Seq::empty(),
    }
}

/// A JSON object holding exactly the given members, in order.
pub open spec fn spec_obj(pairs: Seq<Seq<char>>) -> Seq<char> {
    seq!['{'] + spec_csv(pairs) + seq!['}']
}

/// A JSON boolean.
pub open spec fn spec_bool(b: bool) -> Seq<char> {
    if b {
        "true"@
    } else {
        "false"@
    }
}

/// Renders a JSON boolean.
pub fn bool_str(b: bool) -> (r: &'static str)
    ensures
        r@ == spec_bool(b),
{
    if b {
        "true"
    } else {
        "false"
    }
}

/// Renders `s` as a complete JSON string literal, quotes included.
pub fn quoted_escaped(s: &str) -> (r: String)
    ensures
        r@ == spec_quoted(spec_escaped(s@)),
{
    let mut out = String::new();
    out.append("\"");
    out.append(escape_json(s).as_str());
    out.append("\"");
    proof {
        reveal_strlit("\"");
        assert("\""@ =~= seq!['"']);
        assert(out@ =~= spec_quoted(spec_escaped(s@)));
    }
    out
}

/// The decimal digit `d` (0 to 9) as a character.
pub open spec fn spec_digit(d: int) -> char {
    if d == 0 {
        '0'
    } else if d == 1 {
        '1'
    } else if d == 2 {
        '2'
    } else if d == 3 {
        '3'
    } else if d == 4 {
        '4'
    } else if d == 5 {
        '5'
    } else if d == 6 {
        '6'
    } else if d == 7 {
        '7'
    } else if d == 8 {
        '8'
    } else {
        '9'
    }
}

/// The hexadecimal digit `d` (0 to 15) as a lower-case character.
pub open spec fn spec_hex_digit(d: int) -> char {
    if d < 10 {
        spec_digit(d)
    } else if d == 10 {
        'a'
    } else if d == 11 {
        'b'
    } else if d == 12 {
        'c'
    } else if d == 13 {
        'd'
    } else if d == 14 {
        'e'
    } else {
        'f'
    }
}

/// How a single character appears inside a JSON string: quote, backslash
/// and control characters are escaped, everything else stands for itself.
pub open spec fn spec_escaped_char(c: char) -> Seq<char> {
    if c == '"' {
        seq!['\\', '"']
    } else if c == '\\' {
        seq!['\\', '\\']
    } else if c == '\n' {
        seq!['\\', 'n']
    } else if c == '\r' {
        seq!['\\', 'r']
    } else if c == '\t' {
        seq!['\\', 't']
    } else if (c as u32) < 32 {
        seq!['\\', 'u', '0', '0', spec_hex_digit((c as u32) as int / 16), spec_hex_digit(
            (c as u32) as int % 16,
        )]
    } else {
        seq![c]
    }
}

/// The body of a JSON string holding the text `s`.
pub open spec fn spec_escaped(s: Seq<char>) -> Seq<char>
    decreases s.len(),
{
    if s.len() == 0 {
        Seq::empty()
    } else {
        spec_escaped_char(s[0]) + spec_escaped(s.drop_first())
    }
}

pub proof fn lemma_escaped_push(s: Seq<char>, c: char)
    ensures
        spec_escaped(s.push(c)) == spec_escaped(s) + spec_escaped_char(c),
    decreases s.len(),
{
    let whole = s.push(c);
    if s.len() == 0 {
        reveal_with_fuel(spec_escaped, 3);
        assert(whole[0] == c);
        assert(whole.drop_first() =~= Seq::<char>::empty());
        assert(spec_escaped(whole) =~= spec_escaped(s) + spec_escaped_char(c));
    } else {
        assert(whole.drop_first() =~= s.drop_first().push(c));
        lemma_escaped_push(s.drop_first(), c);
        assert(spec_escaped(whole) =~= spec_escaped(s) + spec_escaped_char(c));
    }
}

/// The hexadecimal digit `d` as a one-character string.
fn hex_digit_str(d: u32) -> (r: &'static str)
    requires
        d < 16,
    ensures
        r@ =~= seq![spec_hex_digit(d as int)],
{
    proof {
        reveal_strlit("0");
        reveal_strlit("1");
        reveal_strlit("2");
        reveal_strlit("3");
        reveal_strlit("4");
        reveal_strlit("5");
        reveal_strlit("6");
        reveal_strlit("7");
        reveal_strlit("8");
        reveal_strlit("9");
        reveal_strlit("a");
        reveal_strlit("b");
        reveal_strlit("c");
        reveal_strlit("d");
        reveal_strlit("e");
        reveal_strlit("f");
    }
    match d {
        0 => "0",
        1 => "1",
        2 => "2",
        3 => "3",
        4 => "4",
        5 => "5",
        6 => "6",
        7 => "7",
        8 => "8",
        9 => "9",
        10 => "a",
        11 => "b",
        12 => "c",
        13 => "d",
        14 => "e",
        _ => "f",
    }
}

/// The decimal digit `d` as a one-character string.
fn digit_str(d: u32) -> (r: &'static str)
    requires
        d < 10,
    ensures
        r@ =~= seq![spec_digit(d as int)],
{
    hex_digit_str(d)
}

/// Escapes `s` for inclusion in a JSON string literal.
pub fn escape_json(s: &str) -> (r: String)
    ensures
        r@ == spec_escaped(s@),
{
    let n: usize = s.unicode_len();
    let mut out = String::new();
    proof {
        assert(s@.take(0) =~= Seq::<char>::empty());
    }
    for i in 0..n
        invariant
            n == s@.len(),
            out@ == spec_escaped(s@.take(i as int)),
    {
        let c = s.get_char(i);
        if c == '"' {
            out.append("\\\"");
            proof {
                reveal_strlit("\\\"");
                assert("\\\""@ =~= spec_escaped_char(c));
            }
        } else if c == '\\' {
            out.append("\\\\");
            proof {
                reveal_strlit("\\\\");
                assert("\\\\"@ =~= spec_escaped_char(c));
            }
        } else if c == '\n' {
            out.append("\\n");
            proof {
                reveal_strlit("\\n");
                assert("\\n"@ =~= spec_escaped_char(c));
            }
        } else if c == '\r' {
            out.append("\\r");
            proof {
                reveal_strlit("\\r");
                assert("\\r"@ =~= spec_escaped_char(c));
            }
        } else if c == '\t' {
            out.append("\\t");
            proof {
                reveal_strlit("\\t");
                assert("\\t"@ =~= spec_escaped_char(c));
            }
        } else if (c as u32) < 32 {
            out.append("\\u00");
            out.append(hex_digit_str((c as u32) / 16));
            out.append(hex_digit_str((c as u32) % 16));
            proof {
                reveal_strlit("\\u00");
                assert("\\u00"@ + seq![spec_hex_digit((c as u32) as int / 16)] + seq![
                    spec_hex_digit((c as u32) as int % 16),
                ] =~= spec_escaped_char(c));
            }
        } else {
            out.append(s.substring_char(i, i + 1));
            proof {
                assert(s@.subrange(i as int, i as int + 1) =~= seq![c]);
                assert(seq![c] =~= spec_escaped_char(c));
            }
        }
        proof {
            lemma_escaped_push(s@.take(i as int), c);
            assert(s@.take(i as int).push(c) =~= s@.take(i + 1));
        }
    }
    proof {
        assert(s@.take(n as int) =~= s@);
    }
    out
}

/// `n` in decimal, without padding.
pub open spec fn spec_dec_u8(n: u8) -> Seq<char> {
    if n < 10 {
        seq![spec_digit(n as int)]
    } else if n < 100 {
        seq![spec_digit(n as int / 10), spec_digit(n as int % 10)]
    } else {
        seq![spec_digit(n as int / 100), spec_digit((n as int / 10) % 10), spec_digit(
            n as int % 10,
        )]
    }
}

/// Renders `n` in decimal.
pub fn dec_u8(n: u8) -> (r: String)
    ensures
        r@ == spec_dec_u8(n),
{
    let mut out = String::new();
    if n >= 100 {
        out.append(digit_str(n as u32 / 100));
    }
    if n >= 10 {
        out.append(digit_str((n as u32 / 10) % 10));
    }
    out.append(digit_str(n as u32 % 10));
    proof {
        assert(out@ =~= spec_dec_u8(n));
    }
    out
}

/// `n` in decimal, left-padded with zeros to at least two digits.
pub open spec fn spec_dec2_u8(n: u8) -> Seq<char> {
    if n < 10 {
        seq!['0', spec_digit(n as int)]
    } else {
        spec_dec_u8(n)
    }
}

/// Renders `n` in decimal, zero-padded to at least two digits.
pub fn dec2_u8(n: u8) -> (r: String)
    ensures
        r@ == spec_dec2_u8(n),
{
    let mut out = String::new();
    if n < 10 {
        out.append("0");
        proof {
            reveal_strlit("0");
            assert("0"@ =~= seq!['0']);
        }
    }
    out.append(dec_u8(n).as_str());
    proof {
        assert(out@ =~= spec_dec2_u8(n));
    }
    out
}

/// `n` in decimal, left-padded with zeros to at least four digits.
pub open spec fn spec_dec4_u16(n: u16) -> Seq<char> {
    if n >= 10000 {
        seq![spec_digit(n as int / 10000), spec_digit((n as int / 1000) % 10), spec_digit(
            (n as int / 100) % 10,
        ), spec_digit((n as int / 10) % 10), spec_digit(n as int % 10)]
    } else {
        seq![spec_digit(n as int / 1000), spec_digit((n as int / 100) % 10), spec_digit(
            (n as int / 10) % 10,
        ), spec_digit(n as int % 10)]
    }
}

/// Renders `n` in decimal, zero-padded to at least four digits.
pub fn dec4_u16(n: u16) -> (r: String)
    ensures
        r@ == spec_dec4_u16(n),
{
    let mut out = String::new();
    if n >= 10000 {
        out.append(digit_str(n as u32 / 10000));
    }
    out.append(digit_str((n as u32 / 1000) % 10));
    out.append(digit_str((n as u32 / 100) % 10));
    out.append(digit_str((n as u32 / 10) % 10));
    out.append(digit_str(n as u32 % 10));
    proof {
        assert(out@ =~= spec_dec4_u16(n));
    }
    out
}

/// The view of each rendered member so far.
pub open spec fn spec_part_views(parts: Seq<String>) -> Seq<Seq<char>> {
    parts.map_values(|s: String| s@)
}

pub(crate) fn push_string_pair(parts: &mut Vec<String>, prefix: &str, v: &Option<String>, Ghost(key): Ghost<
    Seq<char>,
>)
    requires
        prefix@ == spec_quoted(key) + seq![':'],
    ensures
        spec_part_views(final(parts)@) == spec_part_views(old(parts)@) + spec_opt_pair(
            key,
            if v is Some {
                Option::Some(spec_quoted(spec_escaped(v->0@)))
            } else {
                Option::None
            },
        ),
{
    let ghost oldmap = spec_part_views(parts@);
    if let Some(ref t) = *v {
        let mut p = String::new();
        p.append(prefix);
        p.append(quoted_escaped(t.as_str()).as_str());
        proof {
            assert(p@ =~= spec_pair(key, spec_quoted(spec_escaped(t@))));
        }
        parts.push(p);
    }
    proof {
        assert(spec_part_views(parts@) =~= oldmap + spec_opt_pair(
            key,
            if v is Some {
                Option::Some(spec_quoted(spec_escaped(v->0@)))
            } else {
                Option::None
            },
        ));
    }
}

pub(crate) fn push_bool_pair(parts: &mut Vec<String>, prefix: &str, v: &Option<bool>, Ghost(key): Ghost<
    Seq<char>,
>)
    requires
        prefix@ == spec_quoted(key) + seq![':'],
    ensures
        spec_part_views(final(parts)@) == spec_part_views(old(parts)@) + spec_opt_pair(
            key,
            if v is Some {
                Option::Some(spec_bool(v->0))
            } else {
                Option::None
            },
        ),
{
    let ghost oldmap = spec_part_views(parts@);
    if let Some(ref b) = *v {
        let mut p = String::new();
        p.append(prefix);
        p.append(bool_str(*b));
        proof {
            assert(p@ =~= spec_pair(key, spec_bool(*b)));
        }
        parts.push(p);
    }
    proof {
        assert(spec_part_views(parts@) =~= oldmap + spec_opt_pair(
            key,
            if v is Some {
                Option::Some(spec_bool(v->0))
            } else {
                Option::None
            },
        ));
    }
}

pub(crate) fn push_u8_pair(parts: &mut Vec<String>, prefix: &str, v: &Option<u8>, Ghost(key): Ghost<
    Seq<char>,
>)
    requires
        prefix@ == spec_quoted(key) + seq![':'],
    ensures
        spec_part_views(final(parts)@) == spec_part_views(old(parts)@) + spec_opt_pair(
            key,
            if v is Some {
                Option::Some(spec_dec_u8(v->0))
            } else {
                Option::None
            },
        ),
{
    let ghost oldmap = spec_part_views(parts@);
    if let Some(ref n) = *v {
        let mut p = String::new();
        p.append(prefix);
        p.append(dec_u8(*n).as_str());
        proof {
            assert(p@ =~= spec_pair(key, spec_dec_u8(*n)));
        }
        parts.push(p);
    }
    proof {
        assert(spec_part_views(parts@) =~= oldmap + spec_opt_pair(
            key,
            if v is Some {
                Option::Some(spec_dec_u8(v->0))
            } else {
                Option::None
            },
        ));
    }
}

} // verus!

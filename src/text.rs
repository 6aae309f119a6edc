use vstd::prelude::*;
use vstd::string::*;

verus! {

/// The hexadecimal digit of `n` (below 16), upper or lower case.
pub open spec fn hex_char(n: int, upper: bool) -> char {
    if n < 10 {
        (48 + n) as char
    } else if upper {
        (55 + n) as char
    } else {
        (87 + n) as char
    }
}

/// A byte as two hexadecimal digits.
pub open spec fn hex_pair(b: u8, upper: bool) -> Seq<char> {
    seq![hex_char(b as int / 16, upper), hex_char(b as int % 16, upper)]
}

/// Bytes as hexadecimal pairs with `sep` between each two.
pub open spec fn hex_joined(s: Seq<u8>, sep: Seq<char>, upper: bool) -> Seq<char>
    decreases s.len(),
{
    if s.len() == 0 {
        seq![]
    } else if s.len() == 1 {
        hex_pair(s[0], upper)
    } else {
        hex_joined(s.drop_last(), sep, upper) + sep + hex_pair(s.last(), upper)
    }
}

/// An upper-case hexadecimal digit.
fn upper_digit(n: u8) -> (r: &'static str)
    requires
        n < 16,
    ensures
        r@ == seq![hex_char(n as int, true)],
{
    proof {
        reveal_strlit("0");
        reveal_strlit("1");
        reveal_strlit("2");
        reveal_strlit("3");
        reveal_strlit("4");
        reveal_strlit("5");
        reveal_strlit("6");
        reveal_strlit("7");
        reveal_strlit("8");
        reveal_strlit("9");
        reveal_strlit("A");
        reveal_strlit("B");
        reveal_strlit("C");
        reveal_strlit("D");
        reveal_strlit("E");
        reveal_strlit("F");
    }
    match n {
        0 => "0",
        1 => "1",
        2 => "2",
        3 => "3",
        4 => "4",
        5 => "5",
        6 => "6",
        7 => "7",
        8 => "8",
        9 => "9",
        10 => "A",
        11 => "B",
        12 => "C",
        13 => "D",
        14 => "E",
        _ => "F",
    }
}

/// A lower-case hexadecimal digit.
fn lower_digit(n: u8) -> (r: &'static str)
    requires
        n < 16,
    ensures
        r@ == seq![hex_char(n as int, false)],
{
    proof {
        reveal_strlit("0");
        reveal_strlit("1");
        reveal_strlit("2");
        reveal_strlit("3");
        reveal_strlit("4");
        reveal_strlit("5");
        reveal_strlit("6");
        reveal_strlit("7");
        reveal_strlit("8");
        reveal_strlit("9");
        reveal_strlit("a");
        reveal_strlit("b");
        reveal_strlit("c");
        reveal_strlit("d");
        reveal_strlit("e");
        reveal_strlit("f");
    }
    match n {
        0 => "0",
        1 => "1",
        2 => "2",
        3 => "3",
        4 => "4",
        5 => "5",
        6 => "6",
        7 => "7",
        8 => "8",
        9 => "9",
        10 => "a",
        11 => "b",
        12 => "c",
        13 => "d",
        14 => "e",
        _ => "f",
    }
}

/// Appends the two hexadecimal digits of `b` to `s`.
pub fn push_hex_pair(s: &mut String, b: u8, upper: bool)
    ensures
        final(s)@ == old(s)@ + hex_pair(b, upper),
{
    if upper {
        s.append(upper_digit(b / 16));
        s.append(upper_digit(b % 16));
    } else {
        s.append(lower_digit(b / 16));
        s.append(lower_digit(b % 16));
    }
}

/// Bytes as upper-case hexadecimal pairs joined by `separator`.
pub fn bytes_to_hex(data: &[u8], separator: &str) -> (r: String)
    ensures
        r@ == hex_joined(data@, separator@, true),
{
    hex_join(data, separator, true)
}

/// Bytes as hexadecimal pairs, upper or lower case, joined by `separator`.
pub fn hex_join(data: &[u8], separator: &str, upper: bool) -> (r: String)
    ensures
        r@ == hex_joined(data@, separator@, upper),
{
    let mut out = String::new();
    let mut i: usize = 0;
    while i < data.len()
        invariant
            i <= data@.len(),
            out@ == hex_joined(data@.take(i as int), separator@, upper),
        decreases data@.len() - i,
    {
        if i > 0 {
            out.append(separator);
        }
        push_hex_pair(&mut out, data[i], upper);
        i += 1;
        assert(data@.take(i as int).drop_last() == data@.take(i - 1));
    }
    assert(data@.take(data@.len() as int) == data@);
    out
}

/// `s` with every colon taken out.
pub open spec fn without_colons(s: Seq<char>) -> Seq<char>
    decreases s.len(),
{
    if s.len() == 0 {
        seq![]
    } else if s.last() == ':' {
        without_colons(s.drop_last())
    } else {
        without_colons(s.drop_last()).push(s.last())
    }
}

/// `s` with every colon taken out.
pub fn remove_colons(s: &str) -> (r: String)
    ensures
        r@ == without_colons(s@),
{
    let n = s.unicode_len();
    let mut out = String::new();
    let mut i: usize = 0;
    while i < n
        invariant
            i <= n == s@.len(),
            out@ == without_colons(s@.take(i as int)),
        decreases n - i,
    {
        let c = s.get_char(i);
        assert(s@.take(i + 1).drop_last() == s@.take(i as int));
        if c != ':' {
            let one = s.substring_char(i, i + 1);
            assert(one@ =~= seq![c]);
            out.append(one);
            assert(out@ =~= without_colons(s@.take(i as int)).push(c));
        }
        i += 1;
    }
    assert(s@.take(n as int) == s@);
    out
}

/// The pieces of `s` between commas, in order; an empty text is one empty
/// piece.
pub open spec fn split_commas(s: Seq<char>) -> Seq<Seq<char>>
    decreases s.len(),
{
    if s.len() == 0 {
        seq![seq![]]
    } else if s.last() == ',' {
        split_commas(s.drop_last()).push(seq![])
    } else {
        let p = split_commas(s.drop_last());
        p.update(p.len() - 1, p.last().push(s.last()))
    }
}

proof fn lemma_split_nonempty(s: Seq<char>)
    ensures
        split_commas(s).len() >= 1,
    decreases s.len(),
{
    if s.len() > 0 {
        lemma_split_nonempty(s.drop_last());
    }
}

pub open spec fn strings_view(v: Seq<String>) -> Seq<Seq<char>> {
    v.map_values(|x: String| x@)
}

/// Splits a comma-separated list into its pieces.
pub fn split_list(s: &str) -> (r: Vec<String>)
    ensures
        strings_view(r@) == split_commas(s@),
{
    let n = s.unicode_len();
    let mut parts: Vec<String> = Vec::new();
    let mut cur = String::new();
    let mut i: usize = 0;
    while i < n
        invariant
            i <= n == s@.len(),
            strings_view(parts@).push(cur@) == split_commas(s@.take(i as int)),
        decreases n - i,
    {
        let c = s.get_char(i);
        let ghost prefix = s@.take(i as int);
        assert(s@.take(i + 1).drop_last() == prefix);
        proof {
            lemma_split_nonempty(prefix);
        }
        if c == ',' {
            let ghost before = parts@;
            parts.push(cur);
            cur = String::new();
            assert(strings_view(parts@) =~= strings_view(before).push(parts@.last()@));
            assert(strings_view(parts@).push(cur@) =~= split_commas(s@.take(i + 1)));
        } else {
            let one = s.substring_char(i, i + 1);
            assert(one@ =~= seq![c]);
            let ghost old_cur = cur@;
            let ghost p = split_commas(prefix);
            cur.append(one);
            assert(cur@ =~= old_cur.push(c));
            assert(p.last() == old_cur);
            assert(split_commas(s@.take(i + 1)) == p.update(p.len() - 1, old_cur.push(c)));
            assert(strings_view(parts@).push(cur@) =~= p.update(p.len() - 1, old_cur.push(c)));
        }
        i += 1;
    }
    assert(s@.take(n as int) == s@);
    let ghost before = parts@;
    parts.push(cur);
    assert(strings_view(parts@) =~= strings_view(before).push(parts@.last()@));
    parts
}

} // verus!

use vstd::prelude::*;

verus! {

/// The character that writes the digit `d` (below 10) in decimal.
pub open spec fn decimal_digit(d: nat) -> char {
    (48 + d) as char
}

/// The character that writes the digit `d` (below 16) in upper-case
/// hexadecimal.
pub open spec fn hex_digit(d: nat) -> char {
    if d < 10 {
        (48 + d) as char
    } else {
        (55 + d) as char
    }
}

/// `n` written in decimal, without sign or leading zeros.
pub open spec fn decimal(n: nat) -> Seq<char>
    decreases n,
{
    if n < 10 {
        seq![decimal_digit(n)]
    } else {
        decimal(n / 10).push(decimal_digit(n % 10))
    }
}

/// A byte written as two upper-case hexadecimal digits.
pub open spec fn hex_byte(b: u8) -> Seq<char> {
    seq![hex_digit((b / 16) as nat), hex_digit((b % 16) as nat)]
}

/// The items written one after the other with `sep` between neighbours.
pub open spec fn joined(items: Seq<Seq<char>>, sep: Seq<char>) -> Seq<char>
    decreases items.len(),
{
    if items.len() == 0 {
        Seq::empty()
    } else if items.len() == 1 {
        items[0]
    } else {
        joined(items.drop_last(), sep) + sep + items.last()
    }
}

/// The contents of each string, in order.
pub open spec fn texts(items: Seq<String>) -> Seq<Seq<char>> {
    items.map_values(|s: String| s@)
}

fn decimal_digit_str(d: u8) -> (s: &'static str)
    requires
        d < 10,
    ensures
        s@ == seq![decimal_digit(d as nat)],
{
    proof {
        reveal_strlit("0");
        reveal_strlit("1");
        reveal_strlit("2");
        reveal_strlit("3");
        reveal_strlit("4");
        reveal_strlit("5");
        reveal_strlit("6");
        reveal_strlit("7");
        reveal_strlit("8");
        reveal_strlit("9");
    }
    match d {
        0 => "0",
        1 => "1",
        2 => "2",
        3 => "3",
        4 => "4",
        5 => "5",
        6 => "6",
        7 => "7",
        8 => "8",
        _ => "9",
    }
}

fn hex_digit_str(d: u8) -> (s: &'static str)
    requires
        d < 16,
    ensures
        s@ == seq![hex_digit(d as nat)],
{
    proof {
        reveal_strlit("A");
        reveal_strlit("B");
        reveal_strlit("C");
        reveal_strlit("D");
        reveal_strlit("E");
        reveal_strlit("F");
    }
    match d {
        10 => "A",
        11 => "B",
        12 => "C",
        13 => "D",
        14 => "E",
        15 => "F",
        _ => decimal_digit_str(d),
    }
}

/// Writes `n` in decimal.
pub fn format_decimal(n: usize) -> (out: String)
    ensures
        out@ == decimal(n as nat),
    decreases n,
{
    if n < 10 {
        String::from_str(decimal_digit_str(n as u8))
    } else {
        let mut out = format_decimal(n / 10);
        out.append(decimal_digit_str((n % 10) as u8));
        out
    }
}

/// Writes a byte as two upper-case hexadecimal digits.
pub fn format_hex_byte(b: u8) -> (out: String)
    ensures
        out@ == hex_byte(b),
{
    let mut out = String::from_str(hex_digit_str(b / 16));
    out.append(hex_digit_str(b % 16));
    out
}

/// Writes the items one after the other with `sep` between neighbours.
pub fn join(items: &Vec<String>, sep: &str) -> (out: String)
    ensures
        out@ == joined(texts(items@), sep@),
{
    let mut out = String::new();
    let mut k: usize = 0;
    while k < items.len()
        invariant
            k <= items.len(),
            out@ == joined(texts(items@).take(k as int), sep@),
        decreases items.len() - k,
    {
        proof {
            let before = texts(items@).take(k as int);
            let after = texts(items@).take(k as int + 1);
            assert(after.drop_last() == before);
            assert(after.last() == items@[k as int]@);
        }
        if k > 0 {
            out.append(sep);
        }
        out.append(items[k].as_str());
        k += 1;
    }
    proof {
        assert(texts(items@).take(items.len() as int) == texts(items@));
    }
    out
}

/// Adds one row to a table of texts.
pub(crate) fn push_row(rows: &mut Vec<String>, row: String)
    ensures
        texts(final(rows)@) == texts(old(rows)@).push(row@),
{
    let ghost before = texts(rows@);
    rows.push(row);
    assert(texts(rows@) =~= before.push(row@));
}

} // verus!

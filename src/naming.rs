use vstd::prelude::*;

verus! {

/// How many candidate names are tried for one entry before giving up on it.
pub const NAME_ATTEMPTS: usize = 10000;

/// The character of a decimal digit.
pub open spec fn digit_char(d: nat) -> char {
    if d == 0 {
        '0'
    } else if d == 1 {
        '1'
    } else if d == 2 {
        '2'
    } else if d == 3 {
        '3'
    } else if d == 4 {
        '4'
    } else if d == 5 {
        '5'
    } else if d == 6 {
        '6'
    } else if d == 7 {
        '7'
    } else if d == 8 {
        '8'
    } else {
        '9'
    }
}

/// The decimal notation of `n`, without leading zeros.
pub open spec fn decimal(n: nat) -> Seq<char>
    decreases n,
{
    if n < 10 {
        seq![digit_char(n)]
    } else {
        decimal(n / 10).push(digit_char(n % 10))
    }
}

/// The file name tried for the entry at `index` on try number `attempt`:
/// `File<index>.txt` first, then `File<index>(<attempt>).txt`.
pub open spec fn file_name(index: nat, attempt: nat) -> Seq<char> {
    let stem = seq!['F', 'i', 'l', 'e'] + decimal(index);
    let suffix = if attempt == 0 {
        Seq::<char>::empty()
    } else {
        seq!['('] + decimal(attempt) + seq![')']
    };
    stem + suffix + seq!['.', 't', 'x', 't']
}

fn digit_str(d: usize) -> (r: &'static str)
    requires
        d < 10,
    ensures
        r@ == seq![digit_char(d as nat)],
{
    if d == 0 {
        proof { reveal_strlit("0"); }
        "0"
    } else if d == 1 {
        proof { reveal_strlit("1"); }
        "1"
    } else if d == 2 {
        proof { reveal_strlit("2"); }
        "2"
    } else if d == 3 {
        proof { reveal_strlit("3"); }
        "3"
    } else if d == 4 {
        proof { reveal_strlit("4"); }
        "4"
    } else if d == 5 {
        proof { reveal_strlit("5"); }
        "5"
    } else if d == 6 {
        proof { reveal_strlit("6"); }
        "6"
    } else if d == 7 {
        proof { reveal_strlit("7"); }
        "7"
    } else if d == 8 {
        proof { reveal_strlit("8"); }
        "8"
    } else {
        proof { reveal_strlit("9"); }
        "9"
    }
}

/// Appends the decimal notation of `n` to `s`.
pub(crate) fn push_decimal(s: &mut String, n: usize)
    ensures
        final(s)@ == old(s)@ + decimal(n as nat),
    decreases n,
{
    if n >= 10 {
        push_decimal(s, n / 10);
    }
    s.append(digit_str(n % 10));
    proof {
        if n < 10 {
            assert(decimal(n as nat) == seq![digit_char(n as nat)]);
        }
    }
    assert(s@ =~= old(s)@ + decimal(n as nat));
}

/// The candidate file name for the entry at `index` on try number `attempt`.
pub fn candidate_name(index: usize, attempt: usize) -> (r: String)
    ensures
        r@ == file_name(index as nat, attempt as nat),
{
    let mut s = String::from_str("File");
    proof { reveal_strlit("File"); }
    push_decimal(&mut s, index);
    if attempt != 0 {
        s.append("(");
        proof { reveal_strlit("("); }
        push_decimal(&mut s, attempt);
        s.append(")");
        proof { reveal_strlit(")"); }
    }
    s.append(".txt");
    proof { reveal_strlit(".txt"); }
    assert(s@ =~= file_name(index as nat, attempt as nat));
    s
}

} // verus!

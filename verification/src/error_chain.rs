//! Error chain reporting: renders a top-level error's underlying causes as
//! the lines printed before the process exits — a "Caused by:" header, then
//! each cause, numbered only when there is more than one.

use vstd::prelude::*;

verus! {

/// A top-level error as the reporter reads it: the primary message and the
/// messages of its underlying causes, outermost first.
pub struct ErrorChain {
    pub message: String,
    pub causes: Vec<String>,
}

/// The decimal digit character of `d` (`d < 10`).
pub open spec fn digit_char(d: nat) -> char {
    if d == 0 {
        '0'
    } else if d == 1 {
        '1'
    } else if d == 2 {
        '2'
    } else if d == 3 {
        '3'
    } else if d == 4 {
        '4'
    } else if d == 5 {
        '5'
    } else if d == 6 {
        '6'
    } else if d == 7 {
        '7'
    } else if d == 8 {
        '8'
    } else {
        '9'
    }
}

/// The decimal representation of `n`, most significant digit first, no
/// leading zeros (a single `'0'` for zero).
pub open spec fn dec_rep(n: nat) -> Seq<char>
    decreases n,
{
    if n < 10 {
        seq![digit_char(n)]
    } else {
        dec_rep(n / 10) + seq![digit_char(n % 10)]
    }
}

/// `n` spaces.
pub open spec fn padding(n: int) -> Seq<char>
    decreases n,
{
    if n <= 0 {
        Seq::<char>::empty()
    } else {
        seq![' '] + padding(n - 1)
    }
}

/// One printed cause line: with several causes the index, right-aligned to
/// four columns, a colon and a space, then the cause; with a single cause
/// six spaces and the cause, unnumbered.
pub open spec fn cause_line(i: nat, cause: Seq<char>, multiple: bool) -> Seq<char> {
    if multiple {
        padding(4 - dec_rep(i).len()) + dec_rep(i) + ": "@ + cause
    } else {
        "      "@ + cause
    }
}

fn digit_str(d: usize) -> (r: &'static str)
    requires
        d < 10,
    ensures
        r@ == seq![digit_char(d as nat)],
{
    proof {
        reveal_strlit("0");
        reveal_strlit("1");
        reveal_strlit("2");
        reveal_strlit("3");
        reveal_strlit("4");
        reveal_strlit("5");
        reveal_strlit("6");
        reveal_strlit("7");
        reveal_strlit("8");
        reveal_strlit("9");
    }
    let r = match d {
        0 => "0",
        1 => "1",
        2 => "2",
        3 => "3",
        4 => "4",
        5 => "5",
        6 => "6",
        7 => "7",
        8 => "8",
        _ => "9",
    };
    assert(r@ =~= seq![digit_char(d as nat)]);
    r
}

/// The decimal text of `n`.
pub fn to_decimal(n: usize) -> (r: String)
    ensures
        r@ == dec_rep(n as nat),
    decreases n,
{
    if n < 10 {
        String::from_str(digit_str(n))
    } else {
        to_decimal(n / 10).concat(digit_str(n % 10))
    }
}

fn aligned_index(n: usize) -> (r: String)
    ensures
        r@ == padding(4 - dec_rep(n as nat).len()) + dec_rep(n as nat),
{
    let ds = to_decimal(n);
    let len = ds.as_str().unicode_len();
    assert(dec_rep(n as nat).len() >= 1);
    if len >= 4 {
        assert(padding(4 - dec_rep(n as nat).len()) + ds@ =~= ds@);
        ds
    } else {
        proof {
            reveal_strlit(" ");
            reveal_strlit("  ");
            reveal_strlit("   ");
            assert(padding(0) =~= Seq::<char>::empty());
            assert(padding(1) =~= seq![' ']);
            assert(padding(2) =~= seq![' '] + padding(1));
            assert(padding(2) =~= seq![' ', ' ']);
            assert(padding(3) =~= seq![' '] + padding(2));
            assert(padding(3) =~= seq![' ', ' ', ' ']);
        }
        let pad: &'static str = if len == 1 {
            "   "
        } else if len == 2 {
            "  "
        } else {
            " "
        };
        assert(pad@ =~= padding(4 - dec_rep(n as nat).len()));
        String::from_str(pad).concat(ds.as_str())
    }
}

/// The lines reported for `err`'s underlying causes: nothing without a
/// cause; otherwise a blank line, the "Caused by:" header, and one line per
/// cause — numbered when there is more than one, indented and unnumbered
/// when there is exactly one.
pub fn error_chain_lines(err: &ErrorChain) -> (r: Vec<String>)
    ensures
        err.causes@.len() == 0 ==> r@.len() == 0,
        err.causes@.len() > 0 ==> r@.len() == 2 + err.causes@.len(),
        err.causes@.len() > 0 ==> r@[0]@ == Seq::<char>::empty() && r@[1]@ == "Caused by:"@,
        forall|i: int|
            0 <= i < err.causes@.len() ==> r@[2 + i]@ == cause_line(
                i as nat,
                (#[trigger] err.causes@[i])@,
                err.causes@.len() > 1,
            ),
{
    let mut r: Vec<String> = Vec::new();
    if err.causes.len() == 0 {
        return r;
    }
    let multiple = err.causes.len() > 1;
    r.push(String::new());
    r.push(String::from_str("Caused by:"));
    let mut i: usize = 0;
    while i < err.causes.len()
        invariant
            i <= err.causes@.len(),
            r@.len() == 2 + i,
            r@[0]@ == Seq::<char>::empty() && r@[1]@ == "Caused by:"@,
            multiple == (err.causes@.len() > 1),
            forall|j: int|
                0 <= j < i ==> r@[2 + j]@ == cause_line(
                    j as nat,
                    (#[trigger] err.causes@[j])@,
                    multiple,
                ),
        decreases err.causes@.len() - i,
    {
        let cause = &err.causes[i];
        let line = if multiple {
            aligned_index(i).concat(": ").concat(cause.as_str())
        } else {
            String::from_str("      ").concat(cause.as_str())
        };
        r.push(line);
        i += 1;
    }
    r
}

} // verus!

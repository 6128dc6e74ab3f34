//! Verified text helpers: decimal rendering of integers and joining of
//! message lists, used to build the human-readable violation reports.

use vstd::prelude::*;
use vstd::string::StringExecFns;

verus! {

/// The character sequences behind a sequence of strings.
pub open spec fn strings_view(v: Seq<String>) -> Seq<Seq<char>> {
    v.map_values(|s: String| s@)
}

/// The character for a single decimal digit.
pub open spec fn digit_char(d: nat) -> char
    recommends
        d < 10,
{
    if d == 0 {
        '0'
    } else if d == 1 {
        '1'
    } else if d == 2 {
        '2'
    } else if d == 3 {
        '3'
    } else if d == 4 {
        '4'
    } else if d == 5 {
        '5'
    } else if d == 6 {
        '6'
    } else if d == 7 {
        '7'
    } else if d == 8 {
        '8'
    } else {
        '9'
    }
}

/// The usual decimal rendering of `n`: most significant digit first,
/// no leading zeros (except for `n == 0`, rendered as `"0"`).
pub open spec fn dec_rep(n: nat) -> Seq<char>
    decreases n,
{
    if n < 10 {
        seq![digit_char(n)]
    } else {
        dec_rep(n / 10).push(digit_char(n % 10))
    }
}

/// A one-character string slice for the digit `d`.
fn digit_str(d: u32) -> (r: &'static str)
    requires
        d < 10,
    ensures
        r@ == seq![digit_char(d as nat)],
{
    if d == 0 {
        proof {
            reveal_strlit("0");
        }
        let r = "0";
        assert(r@ =~= seq![digit_char(d as nat)]);
        r
    } else if d == 1 {
        proof {
            reveal_strlit("1");
        }
        let r = "1";
        assert(r@ =~= seq![digit_char(d as nat)]);
        r
    } else if d == 2 {
        proof {
            reveal_strlit("2");
        }
        let r = "2";
        assert(r@ =~= seq![digit_char(d as nat)]);
        r
    } else if d == 3 {
        proof {
            reveal_strlit("3");
        }
        let r = "3";
        assert(r@ =~= seq![digit_char(d as nat)]);
        r
    } else if d == 4 {
        proof {
            reveal_strlit("4");
        }
        let r = "4";
        assert(r@ =~= seq![digit_char(d as nat)]);
        r
    } else if d == 5 {
        proof {
            reveal_strlit("5");
        }
        let r = "5";
        assert(r@ =~= seq![digit_char(d as nat)]);
        r
    } else if d == 6 {
        proof {
            reveal_strlit("6");
        }
        let r = "6";
        assert(r@ =~= seq![digit_char(d as nat)]);
        r
    } else if d == 7 {
        proof {
            reveal_strlit("7");
        }
        let r = "7";
        assert(r@ =~= seq![digit_char(d as nat)]);
        r
    } else if d == 8 {
        proof {
            reveal_strlit("8");
        }
        let r = "8";
        assert(r@ =~= seq![digit_char(d as nat)]);
        r
    } else {
        proof {
            reveal_strlit("9");
        }
        let r = "9";
        assert(r@ =~= seq![digit_char(d as nat)]);
        r
    }
}

/// Renders `n` in decimal.
pub fn u32_string(n: u32) -> (s: String)
    ensures
        s@ == dec_rep(n as nat),
    decreases n,
{
    if n < 10 {
        digit_str(n).to_owned()
    } else {
        let mut s = u32_string(n / 10);
        s.append(digit_str(n % 10));
        proof {
            assert(s@ =~= dec_rep(n as nat));
        }
        s
    }
}

/// The messages of `msgs` laid out one per line: the messages in order,
/// separated by single newline characters.
pub open spec fn join_newline(msgs: Seq<Seq<char>>) -> Seq<char>
    decreases msgs.len(),
{
    if msgs.len() == 0 {
        Seq::empty()
    } else if msgs.len() == 1 {
        msgs[0]
    } else {
        join_newline(msgs.drop_last()) + seq!['\n'] + msgs.last()
    }
}

/// Joins the strings of `v` with newline separators.
pub fn join_lines(v: &Vec<String>) -> (r: String)
    ensures
        r@ == join_newline(strings_view(v@)),
{
    let ghost msgs = strings_view(v@);
    let mut r = String::new();
    let mut i: usize = 0;
    while i < v.len()
        invariant
            0 <= i <= v.len(),
            msgs == strings_view(v@),
            r@ == join_newline(msgs.take(i as int)),
        decreases v.len() - i,
    {
        if i > 0 {
            proof {
                reveal_strlit("\n");
            }
            r.append("\n");
        }
        r.append(v[i].as_str());
        proof {
            assert(msgs.take(i + 1 as int).drop_last() =~= msgs.take(i as int));
            assert(msgs.take(i + 1 as int).last() == msgs[i as int]);
            if i == 0 {
                assert(r@ =~= join_newline(msgs.take(i + 1 as int)));
            } else {
                assert(("\n")@ =~= seq!['\n']);
                assert(r@ =~= join_newline(msgs.take(i + 1 as int)));
            }
        }
        i = i + 1;
    }
    proof {
        assert(msgs.take(v@.len() as int) =~= msgs);
    }
    r
}

} // verus!

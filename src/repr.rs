use crate::deque::Deque;
use vstd::prelude::*;
use vstd::string::StringExecFns;

verus! {

/// The character of a decimal digit.
pub open spec fn digit_char(d: nat) -> char {
    if d == 0 {
        '0'
    } else if d == 1 {
        '1'
    } else if d == 2 {
        '2'
    } else if d == 3 {
        '3'
    } else if d == 4 {
        '4'
    } else if d == 5 {
        '5'
    } else if d == 6 {
        '6'
    } else if d == 7 {
        '7'
    } else if d == 8 {
        '8'
    } else {
        '9'
    }
}

/// The decimal digits of `n`, without leading zeros.
pub open spec fn decimal(n: nat) -> Seq<char>
    decreases n,
{
    if n < 10 {
        seq![digit_char(n)]
    } else {
        decimal(n / 10).push(digit_char(n % 10))
    }
}

/// The decimal text of an integer, with a leading `-` when negative.
pub open spec fn int_text(x: int) -> Seq<char> {
    if x < 0 {
        seq!['-'] + decimal((-x) as nat)
    } else {
        decimal(x as nat)
    }
}

/// The elements' texts separated by `", "`.
pub open spec fn items_text(s: Seq<i64>) -> Seq<char>
    decreases s.len(),
{
    if s.len() == 0 {
        Seq::empty()
    } else if s.len() == 1 {
        int_text(s[0] as int)
    } else {
        items_text(s.drop_last()) + seq![',', ' '] + int_text(s.last() as int)
    }
}

/// The text of a container: `deque([1, 2])`, or `deque([1, 2], maxlen=3)`
/// when it has a capacity.
pub open spec fn repr_text(s: Seq<i64>, cap: Option<usize>) -> Seq<char> {
    "deque(["@ + items_text(s) + "]"@ + match cap {
        Some(c) => ", maxlen="@ + decimal(c as nat),
        None => Seq::empty(),
    } + ")"@
}

fn digit_text(d: u64) -> (r: &'static str)
    requires
        d < 10,
    ensures
        r@ == seq![digit_char(d as nat)],
{
    if d == 0 {
        proof {
            reveal_strlit("0");
        }
        "0"
    } else if d == 1 {
        proof {
            reveal_strlit("1");
        }
        "1"
    } else if d == 2 {
        proof {
            reveal_strlit("2");
        }
        "2"
    } else if d == 3 {
        proof {
            reveal_strlit("3");
        }
        "3"
    } else if d == 4 {
        proof {
            reveal_strlit("4");
        }
        "4"
    } else if d == 5 {
        proof {
            reveal_strlit("5");
        }
        "5"
    } else if d == 6 {
        proof {
            reveal_strlit("6");
        }
        "6"
    } else if d == 7 {
        proof {
            reveal_strlit("7");
        }
        "7"
    } else if d == 8 {
        proof {
            reveal_strlit("8");
        }
        "8"
    } else {
        proof {
            reveal_strlit("9");
        }
        "9"
    }
}

/// Appends the decimal digits of `n`.
fn push_decimal(out: &mut String, n: u64)
    ensures
        final(out)@ == old(out)@ + decimal(n as nat),
    decreases n,
{
    if n >= 10 {
        push_decimal(out, n / 10);
    }
    out.append(digit_text(n % 10));
    assert(final(out)@ == old(out)@ + decimal(n as nat)) by {
        if n >= 10 {
            assert(old(out)@ + decimal((n / 10) as nat) + seq![digit_char((n % 10) as nat)] =~= old(out)@
                + decimal(n as nat));
        } else {
            assert(final(out)@ =~= old(out)@ + decimal(n as nat));
        }
    }
}

/// Appends the decimal text of `x`.
fn push_int(out: &mut String, x: i64)
    ensures
        final(out)@ == old(out)@ + int_text(x as int),
{
    if x < 0 {
        let ghost before = out@;
        out.append("-");
        proof {
            reveal_strlit("-");
        }
        let magnitude: u64 = (-(x + 1)) as u64 + 1;
        push_decimal(out, magnitude);
        assert(out@ =~= before + int_text(x as int));
    } else {
        push_decimal(out, x as u64);
    }
}

impl Deque {
    /// The text of the container, as `repr_text` describes it.
    pub fn repr(&self) -> (r: String)
        ensures
            r@ == repr_text(self@, self.cap()),
    {
        let mut out = String::from_str("deque([");
        let items = self.to_vec();
        let mut i: usize = 0;
        while i < items.len()
            invariant
                0 <= i <= items@.len(),
                items@ == self@,
                out@ == "deque(["@ + items_text(items@.subrange(0, i as int)),
            decreases items@.len() - i,
        {
            let ghost before = out@;
            if i > 0 {
                out.append(", ");
                proof {
                    reveal_strlit(", ");
                }
            }
            push_int(&mut out, items[i]);
            proof {
                let s = items@.subrange(0, i + 1);
                assert(s.drop_last() =~= items@.subrange(0, i as int));
                if i == 0 {
                    assert(items@.subrange(0, 0) =~= Seq::<i64>::empty());
                }
                assert(out@ =~= "deque(["@ + items_text(s));
            }
            i = i + 1;
        }
        assert(items@.subrange(0, items@.len() as int) =~= self@);
        out.append("]");
        match self.maxlen() {
            Some(c) => {
                out.append(", maxlen=");
                push_decimal(&mut out, c as u64);
            },
            None => {},
        }
        out.append(")");
        assert(out@ =~= repr_text(self@, self.cap()));
        out
    }
}

} // verus!

use vstd::prelude::*;
use vstd::string::StrSliceExecFns;
use vstd::string::StringExecFns;

verus! {

/// `s` followed by trailing NUL characters up to a total of `size`
/// characters: the normal form in which the record stores its text fields.
pub open spec fn puffed_out(s: Seq<char>, size: nat) -> Seq<char>
    recommends
        s.len() <= size,
{
    s + Seq::new((size - s.len()) as nat, |i: int| '\u{0}')
}

/// Normalizes `s` to exactly `size` characters by appending NULs.
pub fn puffed_out_string(s: &str, size: usize) -> (r: String)
    requires
        s@.len() <= size as nat,
    ensures
        r@ == puffed_out(s@, size as nat),
        r@.len() == size as nat,
{
    let n: usize = s.unicode_len();
    let mut r: String = s.to_owned();
    let mut i: usize = n;
    proof {
        assert(r@ =~= s@ + Seq::new((i - n) as nat, |_j: int| '\u{0}'));
    }
    while i < size
        invariant
            n as nat == s@.len(),
            n <= i <= size,
            r@ == s@ + Seq::new((i - n) as nat, |_j: int| '\u{0}'),
        decreases size - i,
    {
        proof {
            reveal_strlit("\u{0}");
        }
        r.append("\u{0}");
        i = i + 1;
        proof {
            assert(r@ =~= s@ + Seq::new((i - n) as nat, |_j: int| '\u{0}'));
        }
    }
    proof {
        assert(r@ =~= puffed_out(s@, size as nat));
    }
    r
}

} // verus!

//! Character-level text utilities: extracting the characters of a string,
//! comparing character vectors, and splitting on whitespace.
use vstd::prelude::*;

verus! {

use vstd::string::StrSliceExecFns;

/// Whether `c` is a whitespace character (the Unicode `White_Space` set,
/// which is what splitting a document value on whitespace goes by).
pub open spec fn is_space(c: char) -> bool {
    let u = c as u32;
    u == 0x20 || u == 0x09 || u == 0x0a || u == 0x0d || u == 0x0b || u == 0x0c || u == 0x85
        || u == 0xa0 || u == 0x1680 || (0x2000 <= u && u <= 0x200a) || u == 0x2028 || u == 0x2029
        || u == 0x202f || u == 0x205f || u == 0x3000
}

/// Executable test for [`is_space`].
pub fn is_space_char(c: char) -> (r: bool)
    ensures
        r == is_space(c),
{
    let u = c as u32;
    u == 0x20 || u == 0x09 || u == 0x0a || u == 0x0d || u == 0x0b || u == 0x0c || u == 0x85
        || u == 0xa0 || u == 0x1680 || (0x2000 <= u && u <= 0x200a) || u == 0x2028 || u == 0x2029
        || u == 0x202f || u == 0x205f || u == 0x3000
}

/// The whitespace-separated tokens of `s`, given the token collected so far:
/// a space closes the current token, any other character extends it.
pub open spec fn split_acc(s: Seq<char>, cur: Seq<char>) -> Seq<Seq<char>>
    decreases s.len(),
{
    if s.len() == 0 {
        if cur.len() == 0 {
            Seq::empty()
        } else {
            seq![cur]
        }
    } else if is_space(s[0]) {
        if cur.len() == 0 {
            split_acc(s.skip(1), Seq::empty())
        } else {
            seq![cur] + split_acc(s.skip(1), Seq::empty())
        }
    } else {
        split_acc(s.skip(1), cur.push(s[0]))
    }
}

/// The maximal runs of non-whitespace characters of `s`, in order.
pub open spec fn tokens(s: Seq<char>) -> Seq<Seq<char>> {
    split_acc(s, Seq::empty())
}

/// The view of each vector in `r`, in order.
pub open spec fn views_of(r: Seq<Vec<char>>) -> Seq<Seq<char>> {
    r.map_values(|t: Vec<char>| t@)
}

/// The characters of `s`, in order, as a vector.
pub fn chars_of(s: &str) -> (r: Vec<char>)
    ensures
        r@ == s@,
{
    let n = s.unicode_len();
    let mut r: Vec<char> = Vec::new();
    let mut i: usize = 0;
    while i < n
        invariant
            i <= n,
            n == s@.len(),
            r@ == s@.take(i as int),
        decreases n - i,
    {
        r.push(s.get_char(i));
        i = i + 1;
        proof {
            assert(r@ =~= s@.take(i as int));
        }
    }
    proof {
        assert(s@.take(n as int) =~= s@);
    }
    r
}

/// Whether two character vectors hold the same characters.
pub fn char_vecs_eq(a: &Vec<char>, b: &Vec<char>) -> (r: bool)
    ensures
        r == (a@ == b@),
{
    if a.len() != b.len() {
        return false;
    }
    let mut i: usize = 0;
    while i < a.len()
        invariant
            i <= a@.len(),
            a@.len() == b@.len(),
            forall|j: int| 0 <= j < i ==> a@[j] == b@[j],
        decreases a@.len() - i,
    {
        if a[i] != b[i] {
            return false;
        }
        i = i + 1;
    }
    proof {
        assert(a@ =~= b@);
    }
    true
}

/// Splits `s` into its maximal runs of non-whitespace characters, in order.
pub fn split_whitespace_chars(s: &Vec<char>) -> (r: Vec<Vec<char>>)
    ensures
        views_of(r@) == tokens(s@),
{
    let mut out: Vec<Vec<char>> = Vec::new();
    let mut cur: Vec<char> = Vec::new();
    let mut i: usize = 0;
    proof {
        assert(views_of(out@) =~= Seq::<Seq<char>>::empty());
        assert(s@.skip(0) =~= s@);
        assert(views_of(out@) + split_acc(s@, Seq::empty()) =~= tokens(s@));
    }
    while i < s.len()
        invariant
            i <= s@.len(),
            tokens(s@) == views_of(out@) + split_acc(s@.skip(i as int), cur@),
        decreases s@.len() - i,
    {
        let ghost rest = s@.skip(i as int);
        proof {
            assert(rest.len() > 0);
            assert(rest[0] == s@[i as int]);
            assert(rest.skip(1) =~= s@.skip(i as int + 1));
        }
        let ghost prev_out = out@;
        let ghost prev_cur = cur@;
        let c = s[i];
        if is_space_char(c) {
            if cur.len() > 0 {
                out.push(cur);
                cur = Vec::new();
                proof {
                    assert(split_acc(rest, prev_cur) == seq![prev_cur] + split_acc(
                        rest.skip(1),
                        Seq::empty(),
                    ));
                    assert(views_of(out@) =~= views_of(prev_out).push(prev_cur));
                    assert(views_of(prev_out) + (seq![prev_cur] + split_acc(
                        s@.skip(i as int + 1),
                        Seq::empty(),
                    )) =~= views_of(out@) + split_acc(s@.skip(i as int + 1), cur@));
                    assert(tokens(s@) == views_of(out@) + split_acc(s@.skip(i as int + 1), cur@));
                }
            } else {
                proof {
                    assert(prev_cur =~= Seq::<char>::empty());
                    assert(split_acc(rest, prev_cur) == split_acc(rest.skip(1), Seq::empty()));
                    assert(tokens(s@) == views_of(out@) + split_acc(s@.skip(i as int + 1), cur@));
                }
            }
        } else {
            cur.push(c);
            proof {
                assert(split_acc(rest, prev_cur) == split_acc(rest.skip(1), prev_cur.push(rest[0])));
                assert(cur@ == prev_cur.push(rest[0]));
                assert(tokens(s@) == views_of(out@) + split_acc(s@.skip(i as int + 1), cur@));
            }
        }
        i = i + 1;
    }
    proof {
        assert(s@.skip(i as int) =~= Seq::<char>::empty());
    }
    if cur.len() > 0 {
        let ghost prev_out = out@;
        let ghost prev_cur = cur@;
        proof {
            assert(split_acc(Seq::<char>::empty(), prev_cur) == seq![prev_cur]);
        }
        out.push(cur);
        proof {
            assert(views_of(out@) =~= views_of(prev_out).push(prev_cur));
            assert(views_of(prev_out) + seq![prev_cur] =~= views_of(out@));
        }
    } else {
        proof {
            assert(split_acc(Seq::<char>::empty(), cur@) == Seq::<Seq<char>>::empty());
            assert(views_of(out@) + Seq::<Seq<char>>::empty() =~= views_of(out@));
        }
    }
    out
}

} // verus!

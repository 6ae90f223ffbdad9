//! Deriving a texture key from a resource path: the path's extension is
//! replaced with the texture resource extension `tex`.
use vstd::prelude::*;

verus! {

/// Where the file name of `p` starts: just after the last `/`, or 0.
pub open spec fn file_start(p: Seq<char>) -> int
    decreases p.len(),
{
    if p.len() == 0 {
        0
    } else if p[p.len() - 1] == '/' {
        p.len() as int
    } else {
        file_start(p.take(p.len() - 1))
    }
}

/// The position of the last `.` strictly after `f` in `p`, or -1 if none.
/// A dot at `f` itself names a hidden file, not an extension.
pub open spec fn last_dot_after(p: Seq<char>, f: int) -> int
    decreases p.len(),
{
    if p.len() == 0 || p.len() <= f + 1 {
        -1
    } else if p[p.len() - 1] == '.' {
        p.len() - 1
    } else {
        last_dot_after(p.take(p.len() - 1), f)
    }
}

/// The texture extension, with its separating dot.
pub open spec fn tex_suffix() -> Seq<char> {
    seq!['.', 't', 'e', 'x']
}

/// `p` with its extension replaced by `tex`: everything from the last dot of
/// the file name on is dropped and `.tex` appended. A file name without an
/// extension gets `.tex` appended; an empty file name, or one that is only
/// `.` or `..`, leaves the path unchanged.
pub open spec fn with_tex_ext(p: Seq<char>) -> Seq<char> {
    let f = file_start(p);
    if f == p.len() {
        p
    } else if p.skip(f) == seq!['.'] || p.skip(f) == seq!['.', '.'] {
        p
    } else {
        let d = last_dot_after(p, f);
        if d >= 0 {
            p.take(d) + tex_suffix()
        } else {
            p + tex_suffix()
        }
    }
}

/// Replaces the extension of the path `p` with `tex`, as [`with_tex_ext`]
/// says.
pub fn with_tex_ext_chars(p: &Vec<char>) -> (r: Vec<char>)
    ensures
        r@ == with_tex_ext(p@),
{
    let n = p.len();
    // find the file name start
    let mut f: usize = n;
    proof {
        assert(p@.take(n as int) =~= p@);
    }
    while f > 0 && p[f - 1] != '/'
        invariant
            f <= n == p@.len(),
            file_start(p@) == file_start(p@.take(f as int)),
        decreases f,
    {
        proof {
            assert(p@.take(f as int)[f - 1] == p@[f - 1]);
            assert(p@.take(f as int).take(f - 1) =~= p@.take(f - 1));
        }
        f = f - 1;
    }
    proof {
        if f > 0 {
            assert(p@.take(f as int)[f - 1] == p@[f - 1]);
        }
        assert(file_start(p@) == f as int);
    }
    if f == n {
        return copy_chars(p, n);
    }
    let m = n - f;
    if (m == 1 && p[f] == '.') || (m == 2 && p[f] == '.' && p[f + 1] == '.') {
        proof {
            if m == 1 {
                assert(p@.skip(f as int) =~= seq!['.']);
            } else {
                assert(p@.skip(f as int)[0] == p@[f as int]);
                assert(p@.skip(f as int)[1] == p@[f as int + 1]);
                assert(p@.skip(f as int) =~= seq!['.', '.']);
            }
        }
        return copy_chars(p, n);
    }
    proof {
        assert(p@.skip(f as int).len() == m);
        if m == 1 && p@.skip(f as int) == seq!['.'] {
            assert(p@.skip(f as int)[0] == p@[f as int]);
            assert(false);
        }
        if m == 2 && p@.skip(f as int) == seq!['.', '.'] {
            assert(p@.skip(f as int)[0] == p@[f as int]);
            assert(p@.skip(f as int)[1] == p@[f as int + 1]);
            assert(false);
        }
    }
    // find the last dot of the file name
    let mut q: usize = n;
    let mut d: usize = 0;
    let mut found = false;
    proof {
        assert(p@.take(n as int) =~= p@);
    }
    while q > f + 1 && !found
        invariant
            f + 1 <= q <= n == p@.len() || (q <= n && found),
            !found ==> last_dot_after(p@, f as int) == last_dot_after(p@.take(q as int), f as int),
            found ==> (f as int) < (d as int) && (d as int) < n && p@[d as int] == '.' && d + 1 == q
                && last_dot_after(p@, f as int) == last_dot_after(p@.take(q as int), f as int)
                && last_dot_after(p@.take(q as int), f as int) == d as int,
        decreases q, (if found { 0int } else { 1int }),
    {
        proof {
            assert(p@.take(q as int)[q - 1] == p@[q - 1]);
            assert(p@.take(q as int).take(q - 1) =~= p@.take(q - 1));
        }
        if p[q - 1] == '.' {
            d = q - 1;
            found = true;
        } else {
            q = q - 1;
        }
    }
    proof {
        if !found {
            assert(p@.take(q as int).len() <= f + 1);
            assert(last_dot_after(p@, f as int) == -1);
        } else {
            assert(last_dot_after(p@, f as int) == d as int);
        }
    }
    let keep = if found {
        d
    } else {
        n
    };
    let mut r = copy_chars(p, keep);
    r.push('.');
    r.push('t');
    r.push('e');
    r.push('x');
    proof {
        if found {
            assert(r@ =~= p@.take(d as int) + tex_suffix());
        } else {
            assert(p@.take(n as int) =~= p@);
            assert(r@ =~= p@ + tex_suffix());
        }
    }
    r
}

/// The first `k` characters of `p`, as a new vector.
fn copy_chars(p: &Vec<char>, k: usize) -> (r: Vec<char>)
    requires
        k <= p@.len(),
    ensures
        r@ == p@.take(k as int),
{
    let mut r: Vec<char> = Vec::new();
    let mut i: usize = 0;
    while i < k
        invariant
            i <= k <= p@.len(),
            r@ == p@.take(i as int),
        decreases k - i,
    {
        r.push(p[i]);
        i = i + 1;
        proof {
            assert(r@ =~= p@.take(i as int));
        }
    }
    r
}

} // verus!

//! The scalar-or-string vector encoding of document values, and its parser.
//!
//! A `Vectors` value is either a single scalar (carried as the bit pattern of
//! a 64-bit IEEE-754 value) or a string of whitespace-separated numeric
//! tokens. Parsing yields one component per token; a single malformed token
//! makes the whole value unparseable.
use vstd::prelude::*;

verus! {

use crate::text::tokens;
use crate::text::views_of;
use crate::text::chars_of;
use crate::text::split_whitespace_chars;

/// Whether `c` is an ASCII decimal digit.
pub open spec fn is_digit(c: char) -> bool {
    48 <= c as u32 && c as u32 <= 57
}

/// The code of `c` with an ASCII upper-case letter folded to lower case.
pub open spec fn lower_u(c: char) -> u32 {
    let u = c as u32;
    if 65 <= u && u <= 90 {
        (u + 32) as u32
    } else {
        u
    }
}

/// Whether `s` equals the (lower-case) word `w` up to ASCII case.
pub open spec fn eq_lower(s: Seq<char>, w: Seq<char>) -> bool {
    s.len() == w.len() && forall|j: int| 0 <= j < s.len() ==> lower_u(s[j]) == w[j] as u32
}

/// The non-finite spellings a numeric token may use, up to ASCII case.
pub open spec fn is_inf_nan(b: Seq<char>) -> bool {
    eq_lower(b, seq!['i', 'n', 'f']) || eq_lower(b, seq!['i', 'n', 'f', 'i', 'n', 'i', 't', 'y'])
        || eq_lower(b, seq!['n', 'a', 'n'])
}

/// `s` with one leading `+` or `-` removed, if present.
pub open spec fn strip_sign(s: Seq<char>) -> Seq<char> {
    if s.len() > 0 && (s[0] == '+' || s[0] == '-') {
        s.skip(1)
    } else {
        s
    }
}

pub open spec fn all_digits(s: Seq<char>) -> bool {
    forall|i: int| 0 <= i < s.len() ==> is_digit(s[i])
}

pub open spec fn has_digit(s: Seq<char>) -> bool {
    exists|i: int| 0 <= i < s.len() && is_digit(s[i])
}

/// A mantissa: digits with at most one decimal point and at least one digit.
pub open spec fn is_mantissa(m: Seq<char>) -> bool {
    has_digit(m) && (all_digits(m) || exists|d: int|
        0 <= d < m.len() && m[d] == '.' && all_digits(m.take(d)) && all_digits(m.skip(d + 1)))
}

/// Whether `c` marks the start of an exponent part.
pub open spec fn is_exp_mark(c: char) -> bool {
    c == 'e' || c == 'E'
}

/// An exponent part: the marker, an optional sign, then at least one digit.
pub open spec fn is_exponent(x: Seq<char>) -> bool {
    x.len() >= 1 && is_exp_mark(x[0]) && strip_sign(x.skip(1)).len() >= 1 && all_digits(
        strip_sign(x.skip(1)),
    )
}

/// A finite number: a mantissa followed by an optional exponent part.
pub open spec fn is_decimal(b: Seq<char>) -> bool {
    exists|i: int|
        0 <= i <= b.len() && is_mantissa(b.take(i)) && (i == b.len() || is_exponent(b.skip(i)))
}

/// Whether the characters `s` form a numeric token: an optional sign, then
/// `inf`, `infinity` or `nan` in any ASCII case, or a finite number. This is
/// the grammar that parsing a token as a 64-bit float accepts.
pub open spec fn is_numeric(s: Seq<char>) -> bool {
    is_inf_nan(strip_sign(s)) || is_decimal(strip_sign(s))
}

/// Every character of a mantissa is a digit or the decimal point.
proof fn lemma_mantissa_chars(m: Seq<char>, j: int)
    requires
        is_mantissa(m),
        0 <= j < m.len(),
    ensures
        is_digit(m[j]) || m[j] == '.',
{
    if all_digits(m) {
    } else {
        let d = choose|d: int|
            0 <= d < m.len() && m[d] == '.' && all_digits(m.take(d)) && all_digits(m.skip(d + 1));
        if j < d {
            assert(m.take(d)[j] == m[j]);
            assert(is_digit(m.take(d)[j]));
        } else if j > d {
            assert(m.skip(d + 1)[j - d - 1] == m[j]);
            assert(is_digit(m.skip(d + 1)[j - d - 1]));
        }
    }
}

/// Executable test for [`is_digit`].
pub fn is_digit_char(c: char) -> (r: bool)
    ensures
        r == is_digit(c),
{
    let u = c as u32;
    48 <= u && u <= 57
}

/// Executable form of [`lower_u`].
pub fn lower_of(c: char) -> (r: u32)
    ensures
        r == lower_u(c),
{
    let u = c as u32;
    if 65 <= u && u <= 90 {
        u + 32
    } else {
        u
    }
}

/// Whether `t@.skip(start)` spells `inf`, `infinity` or `nan` up to case.
fn check_special(t: &Vec<char>, start: usize) -> (r: bool)
    requires
        start <= t@.len(),
    ensures
        r == is_inf_nan(t@.skip(start as int)),
{
    let ghost b = t@.skip(start as int);
    proof {
        assert forall|j: int| 0 <= j < b.len() implies b[j] == t@[start as int + j] by {}
    }
    let n = t.len();
    let m = n - start;
    if m == 3 {
        let a0 = lower_of(t[start]);
        let a1 = lower_of(t[start + 1]);
        let a2 = lower_of(t[start + 2]);
        (a0 == 105 && a1 == 110 && a2 == 102) || (a0 == 110 && a1 == 97 && a2 == 110)
    } else if m == 8 {
        lower_of(t[start]) == 105 && lower_of(t[start + 1]) == 110 && lower_of(t[start + 2]) == 102
            && lower_of(t[start + 3]) == 105 && lower_of(t[start + 4]) == 110 && lower_of(
            t[start + 5],
        ) == 105 && lower_of(t[start + 6]) == 116 && lower_of(t[start + 7]) == 121
    } else {
        false
    }
}

/// The position of the first exponent marker at or after `start`, or the
/// length of `t` if there is none.
fn find_exp(t: &Vec<char>, start: usize) -> (e_pos: usize)
    requires
        start <= t@.len(),
    ensures
        start <= e_pos <= t@.len(),
        e_pos < t@.len() ==> is_exp_mark(t@[e_pos as int]),
        forall|k: int| start <= k < e_pos ==> !is_exp_mark(t@[k]),
{
    let n = t.len();
    let mut j: usize = start;
    while j < n
        invariant
            start <= j <= n == t@.len(),
            forall|k: int| start <= k < j ==> !is_exp_mark(t@[k]),
        decreases n - j,
    {
        let c = t[j];
        if c == 'e' || c == 'E' {
            return j;
        }
        j = j + 1;
    }
    n
}

/// Whether `t@.subrange(start, end)` is a mantissa.
fn check_mantissa(t: &Vec<char>, start: usize, end: usize) -> (r: bool)
    requires
        start <= end <= t@.len(),
    ensures
        r == is_mantissa(t@.subrange(start as int, end as int)),
{
    let ghost m_seq = t@.subrange(start as int, end as int);
    let mut dot: usize = end;
    let mut digits: bool = false;
    let mut ok: bool = true;
    let mut k: usize = start;
    while k < end
        invariant
            start <= k <= end <= t@.len(),
            m_seq == t@.subrange(start as int, end as int),
            dot == end || (start <= dot < k && t@[dot as int] == '.'),
            ok ==> forall|q: int| start <= q < k ==> (is_digit(t@[q]) || q == dot as int),
            !ok ==> !is_mantissa(m_seq),
            digits == exists|q: int| start <= q < k && is_digit(t@[q]),
        decreases end - k,
    {
        let c = t[k];
        if is_digit_char(c) {
            digits = true;
            proof {
                assert(start <= k < k + 1 && is_digit(t@[k as int]));
            }
        } else if c == '.' {
            if dot == end {
                dot = k;
            } else {
                proof {
                    lemma_no_mantissa_two_dots(m_seq, dot as int - start, k as int - start);
                }
                ok = false;
            }
        } else {
            proof {
                assert(m_seq[k as int - start] == t@[k as int]);
                lemma_no_mantissa_bad_char(m_seq, k as int - start);
            }
            ok = false;
        }
        k = k + 1;
    }
    proof {
        assert((ok && digits) == is_mantissa(m_seq)) by {
            if ok && digits {
                let q0 = choose|q: int| start <= q < end && is_digit(t@[q]);
                assert(m_seq[q0 - start] == t@[q0]);
                assert(has_digit(m_seq));
                if dot == end {
                    assert forall|i: int| 0 <= i < m_seq.len() implies is_digit(m_seq[i]) by {
                        assert(m_seq[i] == t@[start as int + i]);
                    }
                    assert(all_digits(m_seq));
                } else {
                    let d = dot as int - start;
                    assert(m_seq[d] == '.');
                    assert forall|i: int| 0 <= i < m_seq.take(d).len() implies is_digit(
                        #[trigger] m_seq.take(d)[i],
                    ) by {
                        assert(m_seq.take(d)[i] == t@[start as int + i]);
                    }
                    assert forall|i: int| 0 <= i < m_seq.skip(d + 1).len() implies is_digit(
                        #[trigger] m_seq.skip(d + 1)[i],
                    ) by {
                        assert(m_seq.skip(d + 1)[i] == t@[start as int + d + 1 + i]);
                    }
                    assert(all_digits(m_seq.take(d)) && all_digits(m_seq.skip(d + 1)));
                }
            } else if ok && !digits {
                if has_digit(m_seq) {
                    let i0 = choose|i: int| 0 <= i < m_seq.len() && is_digit(m_seq[i]);
                    assert(m_seq[i0] == t@[start as int + i0]);
                    assert(false);
                }
            }
        }
    }
    ok && digits
}

/// Whether `t@.skip(e_pos)` is an exponent part.
fn check_exponent(t: &Vec<char>, e_pos: usize) -> (r: bool)
    requires
        e_pos < t@.len(),
    ensures
        r == is_exponent(t@.skip(e_pos as int)),
{
    let ghost x = t@.skip(e_pos as int);
    proof {
        assert(x[0] == t@[e_pos as int]);
        assert(x.skip(1) =~= t@.skip(e_pos as int + 1));
    }
    let n = t.len();
    let c0 = t[e_pos];
    if !(c0 == 'e' || c0 == 'E') {
        return false;
    }
    let mut es: usize = e_pos + 1;
    if es < n && (t[es] == '+' || t[es] == '-') {
        es = es + 1;
    }
    let ghost y = strip_sign(t@.skip(e_pos as int + 1));
    proof {
        assert(t@.skip(e_pos as int + 1).len() == n - e_pos - 1);
        if t@.skip(e_pos as int + 1).len() > 0 {
            assert(t@.skip(e_pos as int + 1)[0] == t@[e_pos as int + 1]);
        }
        assert(y =~= t@.skip(es as int));
        assert forall|p: int| 0 <= p < y.len() implies y[p] == t@[es as int + p] by {}
    }
    let mut all: bool = true;
    let mut q: usize = es;
    while q < n
        invariant
            es <= q <= n == t@.len(),
            all == forall|p: int| es <= p < q ==> is_digit(t@[p]),
        decreases n - q,
    {
        if !is_digit_char(t[q]) {
            all = false;
        }
        q = q + 1;
    }
    let exp_ok = all && es < n;
    proof {
        assert(exp_ok == is_exponent(x)) by {
            assert(y.len() == n - es);
            if exp_ok {
                assert forall|p: int| 0 <= p < y.len() implies is_digit(y[p]) by {
                    assert(y[p] == t@[es as int + p]);
                }
            }
            if is_exponent(x) {
                assert(strip_sign(x.skip(1)) == y);
                if !all {
                    let p0 = choose|p: int| es <= p < n && !is_digit(t@[p]);
                    assert(y[p0 - es] == t@[p0]);
                    assert(false);
                }
            }
        }
    }
    exp_ok
}

/// A finite number splits only at its first exponent marker: with `i0` that
/// marker's position (or the length if there is none), `b` is a finite number
/// exactly when the part before `i0` is a mantissa and the part from `i0` on,
/// if any, is an exponent part.
proof fn lemma_decimal_split(b: Seq<char>, i0: int)
    requires
        0 <= i0 <= b.len(),
        forall|k: int| 0 <= k < i0 ==> !is_exp_mark(b[k]),
        i0 == b.len() || is_exp_mark(b[i0]),
    ensures
        is_decimal(b) == (is_mantissa(b.take(i0)) && (i0 == b.len() || is_exponent(b.skip(i0)))),
{
    if is_mantissa(b.take(i0)) && (i0 == b.len() || is_exponent(b.skip(i0))) {
        assert(is_decimal(b));
    }
    if is_decimal(b) {
        let i = choose|i: int|
            0 <= i <= b.len() && is_mantissa(b.take(i)) && (i == b.len() || is_exponent(b.skip(i)));
        if i < i0 {
            assert(i < b.len());
            assert(is_exp_mark(b.skip(i)[0]));
            assert(b.skip(i)[0] == b[i]);
            assert(false);
        } else if i > i0 {
            assert(b.take(i)[i0] == b[i0]);
            lemma_mantissa_chars(b.take(i), i0);
            assert(false);
        }
        assert(i == i0);
    }
}

/// Executable test for [`is_numeric`]: whether a token is numeric.
pub fn check_numeric(t: &Vec<char>) -> (r: bool)
    ensures
        r == is_numeric(t@),
{
    let n = t.len();
    let start: usize = if n > 0 && (t[0] == '+' || t[0] == '-') {
        1
    } else {
        0
    };
    let ghost b = strip_sign(t@);
    proof {
        assert(b =~= t@.skip(start as int));
        assert forall|j: int| 0 <= j < b.len() implies b[j] == t@[start as int + j] by {}
    }
    if check_special(t, start) {
        return true;
    }
    let e_pos = find_exp(t, start);
    let mant_ok = check_mantissa(t, start, e_pos);
    let exp_ok = if e_pos < n {
        check_exponent(t, e_pos)
    } else {
        false
    };
    let r = mant_ok && (e_pos == n || exp_ok);
    proof {
        let i0 = e_pos as int - start;
        assert(b.take(i0) =~= t@.subrange(start as int, e_pos as int));
        assert(b.skip(i0) =~= t@.skip(e_pos as int));
        assert forall|k: int| 0 <= k < i0 implies !is_exp_mark(b[k]) by {
            assert(b[k] == t@[start as int + k]);
        }
        lemma_decimal_split(b, i0);
        assert(r == is_decimal(b));
    }
    r
}

/// A sequence with two decimal points is no mantissa.
proof fn lemma_no_mantissa_two_dots(m: Seq<char>, d1: int, d2: int)
    requires
        0 <= d1 < d2 < m.len(),
        m[d1] == '.',
        m[d2] == '.',
    ensures
        !is_mantissa(m),
{
    if is_mantissa(m) {
        lemma_mantissa_chars(m, d1);
        if all_digits(m) {
            assert(false);
        } else {
            let d = choose|d: int|
                0 <= d < m.len() && m[d] == '.' && all_digits(m.take(d)) && all_digits(
                    m.skip(d + 1),
                );
            if d1 < d {
                assert(m.take(d)[d1] == m[d1]);
                assert(false);
            } else if d1 > d {
                assert(m.skip(d + 1)[d1 - d - 1] == m[d1]);
                assert(false);
            } else {
                assert(m.skip(d + 1)[d2 - d - 1] == m[d2]);
                assert(false);
            }
        }
    }
}

/// A sequence with a character that is neither digit nor point is no mantissa.
proof fn lemma_no_mantissa_bad_char(m: Seq<char>, j: int)
    requires
        0 <= j < m.len(),
        !is_digit(m[j]),
        m[j] != '.',
    ensures
        !is_mantissa(m),
{
    if is_mantissa(m) {
        lemma_mantissa_chars(m, j);
    }
}

/// One component of a parsed `Vectors` value: a scalar carried as the bit
/// pattern of a 64-bit IEEE-754 value, or a numeric token kept as its
/// characters. Evaluating a token is left to the host around the library.
#[derive(Debug, PartialEq, Eq)]
pub enum Component {
    Num(u64),
    Tok(Vec<char>),
}

/// The mathematical value of a [`Component`].
pub enum ComponentV {
    Num(u64),
    Tok(Seq<char>),
}

impl View for Component {
    type V = ComponentV;

    open spec fn view(&self) -> ComponentV {
        match self {
            Component::Num(b) => ComponentV::Num(*b),
            Component::Tok(t) => ComponentV::Tok(t@),
        }
    }
}

impl Component {
    /// An equal copy of the component.
    pub fn duplicate(&self) -> (r: Component)
        ensures
            r@ == self@,
    {
        match self {
            Component::Num(b) => Component::Num(*b),
            Component::Tok(t) => Component::Tok(vstd::slice::slice_to_vec(t.as_slice())),
        }
    }
}

/// A document value that is either a single scalar (the bit pattern of a
/// 64-bit IEEE-754 value) or a string of whitespace-separated components.
#[derive(Debug, PartialEq, Eq)]
pub enum Vectors {
    Scaler(u64),
    Vectors(String),
}

/// The mathematical value of a [`Vectors`].
pub enum VectorsV {
    Scaler(u64),
    Vectors(Seq<char>),
}

impl View for Vectors {
    type V = VectorsV;

    open spec fn view(&self) -> VectorsV {
        match self {
            Vectors::Scaler(b) => VectorsV::Scaler(*b),
            Vectors::Vectors(s) => VectorsV::Vectors(s@),
        }
    }
}

impl Default for Vectors {
    /// The default value is the scalar zero (all bits clear).
    fn default() -> (r: Self)
        ensures
            r == Vectors::Scaler(0),
    {
        Vectors::Scaler(0)
    }
}

/// What parsing a `Vectors` value yields: a scalar gives exactly the one
/// component `[s]`; a string gives one component per whitespace-separated
/// token, in order, or nothing if any token is not numeric.
pub open spec fn parse_spec(v: VectorsV) -> Option<Seq<ComponentV>> {
    match v {
        VectorsV::Scaler(s) => Some(seq![ComponentV::Num(s)]),
        VectorsV::Vectors(s) => if forall|i: int|
            0 <= i < tokens(s).len() ==> is_numeric(#[trigger] tokens(s)[i]) {
            Some(Seq::new(tokens(s).len(), |i: int| ComponentV::Tok(tokens(s)[i])))
        } else {
            None
        },
    }
}

/// The view of each component in `cs`, in order.
pub open spec fn component_views(cs: Seq<Component>) -> Seq<ComponentV> {
    cs.map_values(|c: Component| c@)
}

impl Vectors {
    /// Decodes the value into its numeric components, as [`parse_spec`] says;
    /// a single malformed token yields nothing, never a partial vector.
    pub fn parse(&self) -> (r: Option<Vec<Component>>)
        ensures
            r matches Some(cs) ==> parse_spec(self@) == Some(component_views(cs@)),
            r is None <==> parse_spec(self@) is None,
    {
        match self {
            Vectors::Scaler(s) => {
                let mut cs: Vec<Component> = Vec::new();
                cs.push(Component::Num(*s));
                proof {
                    assert(component_views(cs@) =~= seq![ComponentV::Num(*s)]);
                }
                Some(cs)
            },
            Vectors::Vectors(s) => {
                let chars = chars_of(s.as_str());
                let toks = split_whitespace_chars(&chars);
                let mut cs: Vec<Component> = Vec::new();
                let mut i: usize = 0;
                while i < toks.len()
                    invariant
                        self@ == VectorsV::Vectors(s@),
                        i <= toks@.len(),
                        views_of(toks@) == tokens(s@),
                        cs@.len() == i as int,
                        forall|j: int| 0 <= j < i ==> is_numeric(#[trigger] tokens(s@)[j]),
                        forall|j: int| 0 <= j < i ==> cs@[j]@ == ComponentV::Tok(tokens(s@)[j]),
                    decreases toks@.len() - i,
                {
                    let tk: &Vec<char> = &toks[i];
                    proof {
                        assert(views_of(toks@)[i as int] == toks@[i as int]@);
                    }
                    if !check_numeric(tk) {
                        proof {
                            assert(!is_numeric(tokens(s@)[i as int]));
                        }
                        return None;
                    }
                    let nv = vstd::slice::slice_to_vec(tk.as_slice());
                    cs.push(Component::Tok(nv));
                    i = i + 1;
                }
                proof {
                    assert(tokens(s@).len() == toks@.len());
                    assert(component_views(cs@) =~= Seq::new(
                        tokens(s@).len(),
                        |j: int| ComponentV::Tok(tokens(s@)[j]),
                    ));
                }
                Some(cs)
            },
        }
    }
}

/// Law: parsing a scalar yields exactly that one component.
pub proof fn lemma_parse_scalar(s: u64)
    ensures
        parse_spec(VectorsV::Scaler(s)) == Some(seq![ComponentV::Num(s)]),
{
}

/// Law: when every whitespace-separated token of `s` is numeric, parsing
/// yields exactly one component per token, in token order.
pub proof fn lemma_parse_well_formed(s: Seq<char>)
    requires
        forall|i: int| 0 <= i < tokens(s).len() ==> is_numeric(#[trigger] tokens(s)[i]),
    ensures
        parse_spec(VectorsV::Vectors(s)) matches Some(cs) && cs.len() == tokens(s).len()
            && forall|i: int|
            0 <= i < tokens(s).len() ==> cs[i] == ComponentV::Tok(tokens(s)[i]),
{
}

/// Law: a single non-numeric token makes the whole value unparseable.
pub proof fn lemma_parse_bad_token(s: Seq<char>, i: int)
    requires
        0 <= i < tokens(s).len(),
        !is_numeric(tokens(s)[i]),
    ensures
        parse_spec(VectorsV::Vectors(s)) is None,
{
}

} // verus!

//! White space and the words between it.

use crate::text::{characters, copy};
use vstd::prelude::*;
use vstd::string::*;

verus! {

/// Whether a character has the Unicode property `White_Space`.
pub open spec fn is_space(c: char) -> bool {
    ||| '\u{9}' <= c <= '\u{d}'
    ||| c == ' '
    ||| c == '\u{85}'
    ||| c == '\u{a0}'
    ||| c == '\u{1680}'
    ||| '\u{2000}' <= c <= '\u{200a}'
    ||| c == '\u{2028}'
    ||| c == '\u{2029}'
    ||| c == '\u{202f}'
    ||| c == '\u{205f}'
    ||| c == '\u{3000}'
}

/// Whether a character has the Unicode property `White_Space`.
pub fn space(c: char) -> (r: bool)
    ensures
        r == is_space(c),
{
    ('\u{9}' <= c && c <= '\u{d}') || c == ' ' || c == '\u{85}' || c == '\u{a0}' || c == '\u{1680}'
        || ('\u{2000}' <= c && c <= '\u{200a}') || c == '\u{2028}' || c == '\u{2029}'
        || c == '\u{202f}' || c == '\u{205f}' || c == '\u{3000}'
}

/// How many characters of white space `s` begins with.
pub open spec fn leading_space(s: Seq<char>) -> nat
    decreases s.len(),
{
    if s.len() > 0 && is_space(s[0]) {
        1 + leading_space(s.skip(1))
    } else {
        0
    }
}

/// How many characters of `s`, from the start, are no white space.
pub open spec fn leading_word(s: Seq<char>) -> nat
    decreases s.len(),
{
    if s.len() > 0 && !is_space(s[0]) {
        1 + leading_word(s.skip(1))
    } else {
        0
    }
}

/// How many characters of white space `s` ends with.
pub open spec fn trailing_space(s: Seq<char>) -> nat
    decreases s.len(),
{
    if s.len() > 0 && is_space(s.last()) {
        1 + trailing_space(s.drop_last())
    } else {
        0
    }
}

/// `s` without the white space at both ends.
pub open spec fn trimmed(s: Seq<char>) -> Seq<char> {
    let t = s.skip(leading_space(s) as int);
    t.take(t.len() - trailing_space(t))
}

/// The first of the words that white space separates, if there is one.
pub open spec fn first_word(s: Seq<char>) -> Option<Seq<char>> {
    let t = s.skip(leading_space(s) as int);
    if t.len() == 0 {
        None
    } else {
        Some(t.take(leading_word(t) as int))
    }
}

/// A run of white space is as long as it is until the first other character.
pub proof fn leading_space_is(s: Seq<char>, n: nat)
    requires
        n <= s.len(),
        forall|i: int| 0 <= i < n ==> is_space(#[trigger] s[i]),
        n < s.len() ==> !is_space(s[n as int]),
    ensures
        leading_space(s) == n,
    decreases n,
{
    if n > 0 {
        assert(forall|i: int| 0 <= i < n - 1 ==> (#[trigger] s.skip(1)[i]) == s[i + 1]);
        leading_space_is(s.skip(1), (n - 1) as nat);
    }
}

/// A word is as long as it is until the first white space.
pub proof fn leading_word_is(s: Seq<char>, n: nat)
    requires
        n <= s.len(),
        forall|i: int| 0 <= i < n ==> !is_space(#[trigger] s[i]),
        n < s.len() ==> is_space(s[n as int]),
    ensures
        leading_word(s) == n,
    decreases n,
{
    if n > 0 {
        assert(forall|i: int| 0 <= i < n - 1 ==> (#[trigger] s.skip(1)[i]) == s[i + 1]);
        leading_word_is(s.skip(1), (n - 1) as nat);
    }
}

/// The white space at the end reaches back to the last other character.
pub proof fn trailing_space_is(s: Seq<char>, n: nat)
    requires
        n <= s.len(),
        forall|i: int| s.len() - n <= i < s.len() ==> is_space(#[trigger] s[i]),
        n < s.len() ==> !is_space(s[s.len() - n - 1]),
    ensures
        trailing_space(s) == n,
    decreases n,
{
    if n > 0 {
        trailing_space_is(s.drop_last(), (n - 1) as nat);
    }
}

/// Without white space at its ends, a string is its own trimmed form.
pub proof fn trimmed_of_bare(s: Seq<char>)
    requires
        s.len() > 0 ==> !is_space(s[0]) && !is_space(s.last()),
    ensures
        trimmed(s) == s,
{
    assert(s.skip(0) =~= s);
    assert(s.take(s.len() as int) =~= s);
}

/// `s` without the white space at both ends.
pub fn trim(s: &str) -> (r: String)
    ensures
        r@ == trimmed(s@),
{
    let v: Vec<char> = characters(s);
    let n: usize = v.len();
    let mut a: usize = 0;
    while a < n && space(v[a])
        invariant
            n == v@.len(),
            a <= n,
            forall|i: int| 0 <= i < a ==> is_space(#[trigger] v@[i]),
        decreases n - a,
    {
        a = a + 1;
    }
    let mut b: usize = n;
    while a < b && space(v[b - 1])
        invariant
            n == v@.len(),
            a <= b <= n,
            forall|i: int| b <= i < n ==> is_space(#[trigger] v@[i]),
        decreases b,
    {
        b = b - 1;
    }
    proof {
        leading_space_is(s@, a as nat);
        let t = s@.skip(a as int);
        assert forall|i: int| t.len() - (n - b) <= i < t.len() implies is_space(#[trigger] t[i]) by {
            assert(t[i] == v@[a + i]);
        }
        if b > a {
            assert(t[b - a - 1] == v@[b - 1]);
        }
        trailing_space_is(t, (n - b) as nat);
        assert(t.take(t.len() - (n - b)) =~= s@.subrange(a as int, b as int));
    }
    copy(s.substring_char(a, b))
}

/// The first word of `s`, or `s` itself where it holds none.
pub open spec fn first_word_or_all(s: Seq<char>) -> Seq<char> {
    match first_word(s) {
        Some(w) => w,
        None => s,
    }
}

/// The first word of `s`, or `s` itself where it holds none.
pub fn head_word(s: &str) -> (r: String)
    ensures
        r@ == first_word_or_all(s@),
{
    let v: Vec<char> = characters(s);
    let n: usize = v.len();
    let mut a: usize = 0;
    while a < n && space(v[a])
        invariant
            n == v@.len(),
            a <= n,
            forall|i: int| 0 <= i < a ==> is_space(#[trigger] v@[i]),
        decreases n - a,
    {
        a = a + 1;
    }
    proof {
        leading_space_is(s@, a as nat);
    }
    if a == n {
        return copy(s);
    }
    let mut b: usize = a;
    while b < n && !space(v[b])
        invariant
            n == v@.len(),
            a <= b <= n,
            forall|i: int| a <= i < b ==> !is_space(#[trigger] v@[i]),
        decreases n - b,
    {
        b = b + 1;
    }
    proof {
        let t = s@.skip(a as int);
        assert forall|i: int| 0 <= i < b - a implies !is_space(#[trigger] t[i]) by {
            assert(t[i] == v@[a + i]);
        }
        leading_word_is(t, (b - a) as nat);
        assert(t.take(b - a) =~= s@.subrange(a as int, b as int));
    }
    copy(s.substring_char(a, b))
}

/// Whether every character is white space.
pub open spec fn blank(s: Seq<char>) -> bool {
    forall|i: int| 0 <= i < s.len() ==> is_space(#[trigger] s[i])
}

/// Trimming takes white space off both ends and nothing else: what is left
/// neither begins nor ends with any.
pub proof fn trimming_takes_white_space_off_the_ends(a: Seq<char>, s: Seq<char>, b: Seq<char>)
    requires
        blank(a),
        blank(b),
        s.len() > 0 ==> !is_space(s[0]) && !is_space(s.last()),
    ensures
        trimmed(a + s + b) == s,
{
    let all = a + s + b;
    if s.len() == 0 {
        assert forall|i: int| 0 <= i < all.len() implies is_space(#[trigger] all[i]) by {
            if i < a.len() {
                assert(all[i] == a[i]);
            } else {
                assert(all[i] == b[i - a.len()]);
            }
        }
        leading_space_is(all, all.len());
        assert(all.skip(all.len() as int) =~= Seq::empty());
        assert(trimmed(all) =~= s);
    } else {
        assert forall|i: int| 0 <= i < a.len() implies is_space(#[trigger] all[i]) by {
            assert(all[i] == a[i]);
        }
        assert(all[a.len() as int] == s[0]);
        leading_space_is(all, a.len());
        let t = all.skip(a.len() as int);
        assert(t =~= s + b);
        assert forall|i: int| t.len() - b.len() <= i < t.len() implies is_space(
            #[trigger] t[i],
        ) by {
            assert(t[i] == b[i - s.len()]);
        }
        assert(t[t.len() - b.len() - 1] == s.last());
        trailing_space_is(t, b.len());
        assert(trimmed(all) =~= s);
    }
}

/// The first word is what stands between the white space at the beginning, if
/// any, and the next; a text of white space alone has none and stands for
/// itself.
pub proof fn the_first_word_ends_at_white_space(a: Seq<char>, w: Seq<char>, b: Seq<char>)
    requires
        blank(a),
        forall|i: int| 0 <= i < w.len() ==> !is_space(#[trigger] w[i]),
        b.len() > 0 ==> is_space(b[0]),
        w.len() == 0 ==> b.len() == 0,
    ensures
        w.len() > 0 ==> first_word_or_all(a + w + b) == w,
        w.len() == 0 ==> first_word_or_all(a + w + b) == a,
{
    let all = a + w + b;
    assert forall|i: int| 0 <= i < a.len() implies is_space(#[trigger] all[i]) by {
        assert(all[i] == a[i]);
    }
    if w.len() > 0 {
        assert(all[a.len() as int] == w[0]);
        leading_space_is(all, a.len());
        let t = all.skip(a.len() as int);
        assert(t =~= w + b);
        leading_word_is(t, w.len());
        assert(t.take(w.len() as int) =~= w);
    } else {
        assert(all =~= a);
        leading_space_is(all, a.len());
        assert(all.skip(a.len() as int) =~= Seq::empty());
    }
}

/// White space is what Unicode calls so: twenty-five characters.
pub proof fn white_space_is_what_unicode_calls_so(c: char)
    ensures
        is_space(c) <==> seq![
            '\u{9}',
            '\u{a}',
            '\u{b}',
            '\u{c}',
            '\u{d}',
            ' ',
            '\u{85}',
            '\u{a0}',
            '\u{1680}',
            '\u{2000}',
            '\u{2001}',
            '\u{2002}',
            '\u{2003}',
            '\u{2004}',
            '\u{2005}',
            '\u{2006}',
            '\u{2007}',
            '\u{2008}',
            '\u{2009}',
            '\u{200a}',
            '\u{2028}',
            '\u{2029}',
            '\u{202f}',
            '\u{205f}',
            '\u{3000}',
        ].contains(c),
{
    let all = seq![
        '\u{9}',
        '\u{a}',
        '\u{b}',
        '\u{c}',
        '\u{d}',
        ' ',
        '\u{85}',
        '\u{a0}',
        '\u{1680}',
        '\u{2000}',
        '\u{2001}',
        '\u{2002}',
        '\u{2003}',
        '\u{2004}',
        '\u{2005}',
        '\u{2006}',
        '\u{2007}',
        '\u{2008}',
        '\u{2009}',
        '\u{200a}',
        '\u{2028}',
        '\u{2029}',
        '\u{202f}',
        '\u{205f}',
        '\u{3000}',
    ];
    if is_space(c) {
        let k = if c <= '\u{d}' {
            c as int - 9
        } else if c == ' ' {
            5
        } else if c == '\u{85}' {
            6
        } else if c == '\u{a0}' {
            7
        } else if c == '\u{1680}' {
            8
        } else if c <= '\u{200a}' {
            c as int - 0x2000 + 9
        } else if c == '\u{2028}' {
            20
        } else if c == '\u{2029}' {
            21
        } else if c == '\u{202f}' {
            22
        } else if c == '\u{205f}' {
            23
        } else {
            24
        };
        assert(all[k] == c);
    }
}

} // verus!

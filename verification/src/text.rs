//! Small verified helpers over strings, shared by the other modules.

use vstd::prelude::*;
use vstd::string::{StrSliceExecFns, StringExecFns};

verus! {

/// Relies on `String::push`, which appends the given character to the
/// end of the string.
#[verifier::external_body]
pub fn push_char(s: &mut String, c: char)
    ensures
        final(s)@ == old(s)@.push(c),
{
    s.push(c);
}

/// Character-by-character string equality.
pub fn str_eq(a: &str, b: &str) -> (r: bool)
    ensures
        r == (a@ == b@),
{
    let na = a.unicode_len();
    let nb = b.unicode_len();
    if na != nb {
        proof {
            assert(a@ != b@);
        }
        return false;
    }
    let mut i: usize = 0;
    while i < na
        invariant
            na == a@.len(),
            na == b@.len(),
            i <= na,
            forall|j: int| 0 <= j < i ==> a@[j] == b@[j],
        decreases na - i,
    {
        if a.get_char(i) != b.get_char(i) {
            return false;
        }
        i = i + 1;
    }
    proof {
        assert(a@ =~= b@);
    }
    true
}

/// `base` and `name` joined with a single separator.
pub fn path_join(base: &str, name: &str) -> (r: String)
    ensures
        r@ == base@ + "/"@ + name@,
{
    let mut s = base.to_owned();
    s.append("/");
    s.append(name);
    s
}

/// The string with every backslash turned into a forward slash.
pub open spec fn slashed(s: Seq<char>) -> Seq<char> {
    s.map_values(
        |c: char|
            if c == '\\' {
                '/'
            } else {
                c
            },
    )
}

/// Normalize path separators to forward slashes.
pub fn replace_backslashes(s: &str) -> (r: String)
    ensures
        r@ == slashed(s@),
{
    let n = s.unicode_len();
    let mut out = String::new();
    let mut i: usize = 0;
    while i < n
        invariant
            n == s@.len(),
            i <= n,
            out@ == slashed(s@.subrange(0, i as int)),
        decreases n - i,
    {
        let c = s.get_char(i);
        if c == '\\' {
            push_char(&mut out, '/');
        } else {
            push_char(&mut out, c);
        }
        proof {
            assert(slashed(s@.subrange(0, i + 1 as int)) =~= slashed(
                s@.subrange(0, i as int),
            ).push(
                if s@[i as int] == '\\' {
                    '/'
                } else {
                    s@[i as int]
                },
            ));
        }
        i = i + 1;
    }
    proof {
        assert(s@.subrange(0, n as int) =~= s@);
    }
    out
}

/// The text between the first and the last backtick of `s`, when `s`
/// holds at least two backticks. This is how a field name is recovered
/// from an interpreter diagnostic of the shape
/// "error converting ... missing field \`name\`".
pub fn backtick_field(s: &str) -> (r: Option<String>)
    ensures
        match r {
            Some(name) => exists|f: int, l: int|
                {
                    &&& 0 <= f < l < s@.len()
                    &&& s@[f] == '`'
                    &&& s@[l] == '`'
                    &&& (forall|m: int| 0 <= m < f ==> s@[m] != '`')
                    &&& (forall|m: int| l < m < s@.len() ==> s@[m] != '`')
                    &&& name@ == s@.subrange(f + 1, l)
                },
            None => forall|i: int, j: int|
                0 <= i < j < s@.len() ==> !(s@[i] == '`' && s@[j] == '`'),
        },
{
    let n = s.unicode_len();
    let mut first: Option<usize> = None;
    let mut last: Option<usize> = None;
    let mut i: usize = 0;
    while i < n
        invariant
            n == s@.len(),
            i <= n,
            match first {
                Some(f) => {
                    &&& f < i
                    &&& s@[f as int] == '`'
                    &&& (forall|m: int| 0 <= m < f ==> s@[m] != '`')
                    &&& match last {
                        Some(l) => {
                            &&& f < l < i
                            &&& s@[l as int] == '`'
                            &&& (forall|m: int| l < m < i ==> s@[m] != '`')
                        },
                        None => forall|m: int| f < m < i ==> s@[m] != '`',
                    }
                },
                None => {
                    &&& last is None
                    &&& (forall|m: int| 0 <= m < i ==> s@[m] != '`')
                },
            },
        decreases n - i,
    {
        if s.get_char(i) == '`' {
            if first.is_none() {
                first = Some(i);
            } else {
                last = Some(i);
            }
        }
        i = i + 1;
    }
    match (first, last) {
        (Some(f), Some(l)) => {
            let name = s.substring_char(f + 1, l);
            let r = Some(name.to_owned());
            proof {
                assert({
                    let ff = f as int;
                    let ll = l as int;
                    &&& 0 <= ff < ll < s@.len()
                    &&& s@[ff] == '`'
                    &&& s@[ll] == '`'
                    &&& (forall|m: int| 0 <= m < ff ==> s@[m] != '`')
                    &&& (forall|m: int| ll < m < s@.len() ==> s@[m] != '`')
                    &&& name@ == s@.subrange(ff + 1, ll)
                });
            }
            r
        },
        _ => None,
    }
}

} // verus!

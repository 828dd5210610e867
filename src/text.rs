use vstd::prelude::*;

verus! {

/// Relies on String::push: the character is appended at the end.
pub assume_specification[ String::push ](s: &mut String, ch: char)
    ensures
        final(s)@ == old(s)@.push(ch),
;

/// Character-wise equality of two string slices.
pub fn same_word(a: &str, b: &str) -> (r: bool)
    ensures
        r == (a@ == b@),
{
    let n = a.unicode_len();
    let m = b.unicode_len();
    if n != m {
        return false;
    }
    let mut i: usize = 0;
    while i < n
        invariant
            n == a@.len(),
            m == b@.len(),
            n == m,
            i <= n,
            a@.subrange(0, i as int) == b@.subrange(0, i as int),
        decreases n - i,
    {
        if a.get_char(i) != b.get_char(i) {
            assert(a@[i as int] != b@[i as int]);
            return false;
        }
        assert(a@.subrange(0, i + 1) =~= a@.subrange(0, i as int).push(a@[i as int]));
        assert(b@.subrange(0, i + 1) =~= b@.subrange(0, i as int).push(b@[i as int]));
        i = i + 1;
    }
    assert(a@ =~= a@.subrange(0, n as int));
    assert(b@ =~= b@.subrange(0, n as int));
    true
}

/// The first `n` words of `args`.
pub fn leading_words<'a>(args: &[&'a str], n: usize) -> (r: Vec<&'a str>)
    requires
        n <= args@.len(),
    ensures
        r@ == args@.take(n as int),
{
    let mut out: Vec<&'a str> = Vec::new();
    let mut i: usize = 0;
    while i < n
        invariant
            i <= n,
            n <= args@.len(),
            out@ == args@.take(i as int),
        decreases n - i,
    {
        out.push(args[i]);
        i = i + 1;
        assert(out@ =~= args@.take(i as int));
    }
    out
}

/// The words of `args` from position `n` on.
pub fn trailing_words<'a>(args: &[&'a str], n: usize) -> (r: Vec<&'a str>)
    requires
        n <= args@.len(),
    ensures
        r@ == args@.skip(n as int),
{
    let mut out: Vec<&'a str> = Vec::new();
    let mut i: usize = n;
    while i < args.len()
        invariant
            n <= i <= args@.len(),
            out@ == args@.subrange(n as int, i as int),
        decreases args@.len() - i,
    {
        out.push(args[i]);
        i = i + 1;
        assert(out@ =~= args@.subrange(n as int, i as int));
    }
    assert(args@.subrange(n as int, args@.len() as int) =~= args@.skip(n as int));
    out
}

} // verus!

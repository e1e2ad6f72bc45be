use vstd::prelude::*;

verus! {

/// `s` with every trailing `/` removed.
pub open spec fn trim_slashes(s: Seq<char>) -> Seq<char>
    decreases s.len(),
{
    if s.len() > 0 && s.last() == '/' {
        trim_slashes(s.drop_last())
    } else {
        s
    }
}

/// The path that a relative path `rel` denotes below `prefix`.
pub open spec fn join(prefix: Seq<char>, rel: Seq<char>) -> Seq<char> {
    trim_slashes(prefix + seq!['/'] + rel)
}

/// A path that can stand as one layer of a scope: not empty, no trailing `/`.
pub open spec fn is_segment(s: Seq<char>) -> bool {
    s.len() > 0 && s.last() != '/'
}

/// Trimming leaves a path that is empty or ends in something other than `/`.
pub proof fn lemma_trim_shape(s: Seq<char>)
    ensures
        trim_slashes(s).len() <= s.len(),
        trim_slashes(s).len() == 0 || trim_slashes(s).last() != '/',
        trim_slashes(s) == s.subrange(0, trim_slashes(s).len() as int),
    decreases s.len(),
{
    if s.len() > 0 && s.last() == '/' {
        lemma_trim_shape(s.drop_last());
        assert(s.drop_last().subrange(0, trim_slashes(s).len() as int) =~= s.subrange(
            0,
            trim_slashes(s).len() as int,
        ));
    } else {
        assert(s.subrange(0, s.len() as int) =~= s);
    }
}

/// Trimming the tail of a path before or after appending it to `x` gives
/// the same result.
pub proof fn lemma_trim_inner(x: Seq<char>, y: Seq<char>)
    ensures
        trim_slashes(x + trim_slashes(y)) == trim_slashes(x + y),
    decreases y.len(),
{
    if y.len() > 0 && y.last() == '/' {
        lemma_trim_inner(x, y.drop_last());
        assert((x + y).drop_last() =~= x + y.drop_last());
    } else {
        assert(trim_slashes(y) == y);
    }
}

/// Joining an empty relative path yields the prefix with its trailing
/// slashes removed.
pub proof fn lemma_join_empty(prefix: Seq<char>)
    ensures
        join(prefix, Seq::empty()) == trim_slashes(prefix),
        is_segment(prefix) ==> join(prefix, Seq::empty()) == prefix,
{
    let s = prefix + seq!['/'] + Seq::<char>::empty();
    assert(s.drop_last() =~= prefix);
}

/// Nesting scopes is associative: scoping by `a`, then by a segment `b`,
/// reaches the same path as scoping once by `a` joined with `b`.
pub proof fn lemma_join_nested(a: Seq<char>, b: Seq<char>, rel: Seq<char>)
    requires
        is_segment(b),
    ensures
        join(join(a, b), rel) == join(a, join(b, rel)),
        join(a, b) == a + seq!['/'] + b,
{
    let ab = a + seq!['/'] + b;
    assert(ab.last() == b.last());
    assert(trim_slashes(ab) == ab);
    lemma_trim_inner(a + seq!['/'], b + seq!['/'] + rel);
    assert(ab + seq!['/'] + rel =~= (a + seq!['/']) + (b + seq!['/'] + rel));
}

/// `s` with every trailing `/` removed.
pub fn trim_trailing_slashes(s: &str) -> (r: String)
    ensures
        r@ == trim_slashes(s@),
{
    let mut n: usize = s.unicode_len();
    assert(s@.subrange(0, n as int) =~= s@);
    while n > 0 && s.get_char(n - 1) == '/'
        invariant
            n <= s@.len(),
            trim_slashes(s@.subrange(0, n as int)) == trim_slashes(s@),
        decreases n,
    {
        let ghost t = s@.subrange(0, n as int);
        assert(t.drop_last() =~= s@.subrange(0, n - 1));
        n = n - 1;
    }
    assert(s@.subrange(0, n as int).len() == 0 || s@.subrange(0, n as int).last() != '/');
    s.substring_char(0, n).to_string()
}

/// The path that `rel` denotes below `prefix`: `prefix/rel` with trailing
/// slashes removed.
pub fn join_path(prefix: &str, rel: &str) -> (r: String)
    ensures
        r@ == join(prefix@, rel@),
{
    let mut full = prefix.to_owned();
    full.append("/");
    full.append(rel);
    proof {
        reveal_strlit("/");
    }
    assert(full@ =~= prefix@ + seq!['/'] + rel@);
    trim_trailing_slashes(full.as_str())
}

} // verus!

use vstd::prelude::*;

verus! {

/// The characters of `s` in order, with every `"` left out.
pub open spec fn without_quotes(s: Seq<char>) -> Seq<char>
    decreases s.len(),
{
    if s.len() == 0 {
        s
    } else {
        let rest = without_quotes(s.drop_last());
        if s.last() == '"' {
            rest
        } else {
            rest.push(s.last())
        }
    }
}

/// Removes every double-quote character from `s`, keeping the rest in order.
pub fn strip_quotes(s: &str) -> (r: String)
    ensures
        r@ == without_quotes(s@),
        !r@.contains('"'),
{
    let n = s.unicode_len();
    let mut r = String::new();
    let mut i: usize = 0;
    while i < n
        invariant
            n == s@.len(),
            i <= n,
            r@ == without_quotes(s@.subrange(0, i as int)),
        decreases n - i,
    {
        let c = s.get_char(i);
        proof {
            assert(s@.subrange(0, i + 1).drop_last() =~= s@.subrange(0, i as int));
        }
        if c != '"' {
            let piece = s.substring_char(i, i + 1);
            r.append(piece);
            assert(r@ =~= without_quotes(s@.subrange(0, i as int)).push(c));
        }
        i = i + 1;
    }
    assert(s@.subrange(0, n as int) =~= s@);
    proof {
        lemma_no_quotes_remain(s@);
    }
    r
}

/// No double quote survives the stripping.
pub proof fn lemma_no_quotes_remain(s: Seq<char>)
    ensures
        !without_quotes(s).contains('"'),
    decreases s.len(),
{
    if s.len() > 0 {
        lemma_no_quotes_remain(s.drop_last());
        let rest = without_quotes(s.drop_last());
        if s.last() != '"' {
            assert forall|i: int| 0 <= i < rest.push(s.last()).len() implies rest.push(
                s.last(),
            )[i] != '"' by {
                if i < rest.len() {
                    assert(rest[i] != '"');
                }
            }
        }
    }
}

/// A value that holds no double quote comes back unchanged.
pub proof fn lemma_unquoted_unchanged(s: Seq<char>)
    requires
        !s.contains('"'),
    ensures
        without_quotes(s) == s,
    decreases s.len(),
{
    if s.len() > 0 {
        assert(!s.drop_last().contains('"')) by {
            if s.drop_last().contains('"') {
                let i = choose|i: int| 0 <= i < s.drop_last().len() && s.drop_last()[i] == '"';
                assert(s[i] == '"');
            }
        }
        lemma_unquoted_unchanged(s.drop_last());
        assert(s[s.len() - 1] != '"');
        assert(s.drop_last().push(s.last()) =~= s);
    }
}

/// Stripping a concatenation strips each part.
pub proof fn lemma_without_quotes_concat(a: Seq<char>, b: Seq<char>)
    ensures
        without_quotes(a + b) == without_quotes(a) + without_quotes(b),
    decreases b.len(),
{
    if b.len() == 0 {
        assert(a + b =~= a);
        assert(without_quotes(a) + without_quotes(b) =~= without_quotes(a));
    } else {
        assert((a + b).drop_last() =~= a + b.drop_last());
        lemma_without_quotes_concat(a, b.drop_last());
        if b.last() != '"' {
            assert(without_quotes(a) + without_quotes(b.drop_last()).push(b.last()) =~= (
            without_quotes(a) + without_quotes(b.drop_last())).push(b.last()));
        }
    }
}

/// A text without quotes, put in quotes, comes back as it was.
pub proof fn lemma_strip_quoted(s: Seq<char>)
    requires
        !s.contains('"'),
    ensures
        without_quotes(seq!['"'] + s + seq!['"']) == s,
{
    let q = seq!['"'];
    lemma_without_quotes_concat(q + s, q);
    lemma_without_quotes_concat(q, s);
    lemma_unquoted_unchanged(s);
    assert(q.drop_last() =~= Seq::<char>::empty());
    assert(without_quotes(Seq::<char>::empty()) == Seq::<char>::empty());
    assert(q.last() == '"');
    assert(without_quotes(q) =~= Seq::<char>::empty());
    assert(Seq::<char>::empty() + s =~= s);
    assert(s + Seq::<char>::empty() =~= s);
}

} // verus!

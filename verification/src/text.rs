//! Small verified string utilities shared by the statement renderers and the
//! error normalizer: quote stripping and character-wise string comparison.

use vstd::prelude::*;
use vstd::string::StrSliceExecFns;

verus! {

/// The characters of `s` with every double-quote character removed.
pub open spec fn without_quotes(s: Seq<char>) -> Seq<char>
    decreases s.len(),
{
    if s.len() == 0 {
        Seq::empty()
    } else if s.last() == '"' {
        without_quotes(s.drop_last())
    } else {
        without_quotes(s.drop_last()).push(s.last())
    }
}

/// Removing quotes from one more character extends the result by that
/// character exactly when it is not a double quote.
pub proof fn lemma_without_quotes_push(s: Seq<char>, c: char)
    ensures
        without_quotes(s.push(c)) == if c == '"' {
            without_quotes(s)
        } else {
            without_quotes(s).push(c)
        },
{
    assert(s.push(c).drop_last() =~= s);
    assert(s.push(c).last() == c);
}

/// No double quote survives the stripping.
pub proof fn lemma_without_quotes_no_quote(s: Seq<char>)
    ensures
        forall|i: int| 0 <= i < without_quotes(s).len() ==> without_quotes(s)[i] != '"',
    decreases s.len(),
{
    if s.len() > 0 {
        lemma_without_quotes_no_quote(s.drop_last());
        let w = without_quotes(s);
        let wd = without_quotes(s.drop_last());
        assert forall|i: int| 0 <= i < w.len() implies w[i] != '"' by {
            if s.last() != '"' {
                assert(w == wd.push(s.last()));
                if i < wd.len() {
                    assert(w[i] == wd[i]);
                }
            }
        }
    }
}

/// Relies on std's String::push: appends exactly one character at the end.
#[verifier::external_body]
pub(crate) fn push_char(s: &mut String, c: char)
    ensures
        final(s)@ == old(s)@.push(c),
{
    s.push(c);
}

/// Copy of `s` with every double-quote character removed.
pub fn strip_quotes(s: &str) -> (r: String)
    ensures
        r@ == without_quotes(s@),
{
    let len = s.unicode_len();
    let mut r = String::new();
    let mut i: usize = 0;
    while i < len
        invariant
            len == s@.len(),
            i <= len,
            r@ == without_quotes(s@.subrange(0, i as int)),
        decreases len - i,
    {
        let c = s.get_char(i);
        if c != '"' {
            push_char(&mut r, c);
        }
        proof {
            assert(s@.subrange(0, i + 1) =~= s@.subrange(0, i as int).push(s@[i as int]));
            lemma_without_quotes_push(s@.subrange(0, i as int), s@[i as int]);
        }
        i = i + 1;
    }
    proof {
        assert(s@.subrange(0, len as int) =~= s@);
    }
    r
}

/// True exactly when the two strings have the same characters.
pub fn str_eq(a: &str, b: &str) -> (r: bool)
    ensures
        r == (a@ == b@),
{
    let a_len = a.unicode_len();
    let b_len = b.unicode_len();
    if a_len != b_len {
        return false;
    }
    let mut i: usize = 0;
    while i < a_len
        invariant
            a_len == a@.len(),
            b_len == b@.len(),
            a_len == b_len,
            i <= a_len,
            forall|j: int| 0 <= j < i ==> a@[j] == b@[j],
        decreases a_len - i,
    {
        if a.get_char(i) != b.get_char(i) {
            return false;
        }
        i = i + 1;
    }
    proof {
        assert(a@ =~= b@);
    }
    true
}

} // verus!

//! Quoting of SQL identifiers.
//!
//! Every table and column name that ends up in generated SQL passes through
//! [`quote_identifier`], so that a name is always read back by the engine as
//! the single identifier it was given as, whatever characters it holds.

use vstd::prelude::*;

verus! {

/// The characters of `name` with every double quote written twice.
pub open spec fn escaped(name: Seq<char>) -> Seq<char>
    decreases name.len(),
{
    if name.len() == 0 {
        Seq::empty()
    } else if name.last() == '"' {
        escaped(name.drop_last()) + "\"\""@
    } else {
        escaped(name.drop_last()).push(name.last())
    }
}

/// `name` as a quoted SQL identifier: its escaped characters between two
/// double quotes.
pub open spec fn quoted(name: Seq<char>) -> Seq<char> {
    "\""@ + escaped(name) + "\""@
}

/// Writes `name` as a quoted SQL identifier.
pub fn quote_identifier(name: &str) -> (text: String)
    ensures
        text@ == quoted(name@),
{
    let n = name.unicode_len();
    let mut text = String::from_str("\"");
    let mut i: usize = 0;
    while i < n
        invariant
            i <= n,
            n == name@.len(),
            text@ == "\""@ + escaped(name@.take(i as int)),
        decreases n - i,
    {
        let c = name.get_char(i);
        proof {
            assert(name@.take(i + 1).drop_last() == name@.take(i as int));
        }
        if c == '"' {
            text.append("\"\"");
        } else {
            text.append(name.substring_char(i, i + 1));
        }
        i += 1;
    }
    assert(name@.take(n as int) == name@);
    text.append("\"");
    text
}

proof fn lemma_escaped_is_injective(a: Seq<char>, b: Seq<char>)
    requires
        escaped(a) == escaped(b),
    ensures
        a == b,
    decreases a.len(),
{
    reveal_strlit("\"\"");
    if a.len() == 0 || b.len() == 0 {
        if a.len() > 0 {
            assert(escaped(a).len() > 0);
        }
        if b.len() > 0 {
            assert(escaped(b).len() > 0);
        }
    } else {
        let front_a = escaped(a.drop_last());
        let front_b = escaped(b.drop_last());
        if a.last() == '"' {
            assert(escaped(a).last() == '"');
            assert(front_a =~= escaped(a).subrange(0, escaped(a).len() - 2));
            assert(front_b =~= escaped(b).subrange(0, escaped(b).len() - 2));
        } else {
            assert(escaped(a).last() == a.last());
            assert(front_a =~= escaped(a).drop_last());
            assert(front_b =~= escaped(b).drop_last());
        }
        lemma_escaped_is_injective(a.drop_last(), b.drop_last());
        assert(b =~= b.drop_last().push(b.last()));
    }
}

/// Quoting loses nothing: names that are written as the same identifier
/// are the same name.
pub proof fn lemma_quoting_is_injective(a: Seq<char>, b: Seq<char>)
    requires
        quoted(a) == quoted(b),
    ensures
        a == b,
{
    reveal_strlit("\"");
    assert(escaped(a) =~= quoted(a).subrange(1, quoted(a).len() - 1));
    assert(escaped(b) =~= quoted(b).subrange(1, quoted(b).len() - 1));
    lemma_escaped_is_injective(a, b);
}

} // verus!

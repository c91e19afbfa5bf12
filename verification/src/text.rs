//! Splitting and joining text on a separator character.
//!
//! The memo of a mint request is split on newlines into its fields, and
//! the fields are joined with `/` into the path of the media URI.

use vstd::prelude::*;
use vstd::string::StrSliceExecFns;
use vstd::string::StringExecFns;

verus! {

/// The fields of `s` split on the separator `sep`: always at least one
/// field; one more field than there are separator characters.
pub open spec fn split_char(s: Seq<char>, sep: char) -> Seq<Seq<char>>
    decreases s.len(),
{
    if s.len() == 0 {
        seq![Seq::<char>::empty()]
    } else {
        let prev = split_char(s.drop_last(), sep);
        if s.last() == sep {
            prev.push(Seq::<char>::empty())
        } else {
            prev.update(prev.len() - 1, prev.last().push(s.last()))
        }
    }
}

/// The fields joined with the separator `sep` between each two of them.
pub open spec fn join_char(parts: Seq<Seq<char>>, sep: char) -> Seq<char>
    decreases parts.len(),
{
    if parts.len() == 0 {
        Seq::<char>::empty()
    } else if parts.len() == 1 {
        parts[0]
    } else {
        join_char(parts.drop_last(), sep).push(sep) + parts.last()
    }
}

/// Splitting always yields at least one field.
pub proof fn lemma_split_char_nonempty(s: Seq<char>, sep: char)
    ensures
        split_char(s, sep).len() >= 1,
    decreases s.len(),
{
    if s.len() > 0 {
        lemma_split_char_nonempty(s.drop_last(), sep);
    }
}

/// Splits `s` on newline characters.
pub fn split_on_newlines(s: &str) -> (r: Vec<String>)
    ensures
        r.deep_view() == split_char(s@, '\n'),
{
    let n = s.unicode_len();
    let mut parts: Vec<String> = Vec::new();
    let mut start: usize = 0;
    let mut i: usize = 0;
    proof {
        assert(s@.take(0) =~= Seq::<char>::empty());
        assert(parts.deep_view().push(s@.subrange(0, 0)) =~= split_char(s@.take(0), '\n'));
    }
    while i < n
        invariant
            n == s@.len(),
            0 <= start <= i <= n,
            split_char(s@.take(i as int), '\n') == parts.deep_view().push(
                s@.subrange(start as int, i as int),
            ),
        decreases n - i,
    {
        let ghost t = s@.take(i as int);
        let ghost cur = s@.subrange(start as int, i as int);
        let c = s.get_char(i);
        proof {
            assert(s@.take(i + 1).drop_last() =~= t);
            assert(s@.take(i + 1).last() == c);
            lemma_split_char_nonempty(t, '\n');
        }
        if c == '\n' {
            let field = s.substring_char(start, i);
            let owned = field.to_owned();
            parts.push(owned);
            start = i + 1;
            proof {
                assert(split_char(s@.take(i + 1), '\n') =~= split_char(t, '\n').push(
                    Seq::<char>::empty(),
                ));
                assert(parts.deep_view() =~= split_char(t, '\n'));
                assert(s@.subrange(start as int, i + 1) =~= Seq::<char>::empty());
            }
        } else {
            proof {
                let prev = split_char(t, '\n');
                assert(split_char(s@.take(i + 1), '\n') == prev.update(
                    prev.len() - 1,
                    prev.last().push(c),
                ));
                assert(prev.last() == cur);
                assert(prev.update(prev.len() - 1, cur.push(c)) =~= parts.deep_view().push(
                    cur.push(c),
                ));
                assert(s@.subrange(start as int, i + 1) =~= cur.push(c));
            }
        }
        i = i + 1;
    }
    let last = s.substring_char(start, n);
    let owned = last.to_owned();
    parts.push(owned);
    proof {
        assert(s@.take(n as int) =~= s@);
        assert(parts.deep_view() =~= split_char(s@, '\n'));
    }
    parts
}

/// Joins the fields with `/` between each two of them.
pub fn join_with_slash(parts: &Vec<String>) -> (r: String)
    ensures
        r@ == join_char(parts.deep_view(), '/'),
{
    let mut r = String::new();
    let mut i: usize = 0;
    proof {
        assert(parts.deep_view().take(0) =~= Seq::<Seq<char>>::empty());
    }
    while i < parts.len()
        invariant
            0 <= i <= parts.len(),
            r@ == join_char(parts.deep_view().take(i as int), '/'),
        decreases parts.len() - i,
    {
        let ghost d = parts.deep_view();
        proof {
            reveal_strlit("/");
            assert(d.take(i + 1).drop_last() =~= d.take(i as int));
            assert(d.take(i + 1).last() == d[i as int]);
        }
        if i > 0 {
            r.append("/");
        }
        r.append(parts[i].as_str());
        proof {
            if i == 0 {
                assert(join_char(d.take(1), '/') == d[0]);
                assert(r@ =~= d[0]);
            } else {
                assert(join_char(d.take(i + 1), '/') == join_char(d.take(i as int), '/').push('/')
                    + d[i as int]);
                assert(("/")@ =~= seq!['/']);
                assert(r@ =~= join_char(d.take(i as int), '/').push('/') + d[i as int]);
            }
        }
        i = i + 1;
    }
    proof {
        assert(parts.deep_view().take(parts.deep_view().len() as int) =~= parts.deep_view());
    }
    r
}

} // verus!

//! Building blocks for the text that the library renders.

use vstd::prelude::*;
use vstd::string::StringExecFns;

verus! {

/// The characters of each slice in `names`.
pub open spec fn views(names: Seq<&str>) -> Seq<Seq<char>> {
    Seq::new(names.len(), |i: int| names[i]@)
}

/// The characters of an optional slice.
pub open spec fn opt_view(s: Option<&str>) -> Option<Seq<char>> {
    match s {
        Some(s) => Some(s@),
        None => None,
    }
}

/// The characters of each slice in an optional list.
pub open spec fn opt_views(names: Option<Vec<&str>>) -> Option<Seq<Seq<char>>> {
    match names {
        Some(v) => Some(views(v@)),
        None => None,
    }
}

/// The characters of each slice in an optional borrowed list.
pub open spec fn slice_views(names: Option<&[&str]>) -> Option<Seq<Seq<char>>> {
    match names {
        Some(v) => Some(views(v@)),
        None => None,
    }
}

/// `list`, or nothing where it is empty.
pub open spec fn non_empty(list: Option<Seq<Seq<char>>>) -> Option<Seq<Seq<char>>> {
    match list {
        Some(l) => if l.len() > 0 { Some(l) } else { None },
        None => None,
    }
}

/// `parts` written one after another with `sep` between neighbours.
pub open spec fn join(parts: Seq<Seq<char>>, sep: Seq<char>) -> Seq<char>
    decreases parts.len(),
{
    if parts.len() == 0 {
        Seq::empty()
    } else if parts.len() == 1 {
        parts[0]
    } else {
        join(parts.drop_last(), sep) + sep + parts.last()
    }
}

/// `name` between angle brackets.
pub open spec fn bracketed(name: Seq<char>) -> Seq<char> {
    seq!['<'] + name + seq!['>']
}

/// The mark of an argument that may be given several times.
pub open spec fn ellipsis() -> Seq<char> {
    seq!['.', '.', '.']
}

/// Each of `names` between angle brackets, a space between neighbours.
pub open spec fn names_usage(names: Seq<Seq<char>>) -> Seq<char> {
    join(Seq::new(names.len(), |i: int| bracketed(names[i])), seq![' '])
}

/// `name` between angle brackets, `count` times, a space between neighbours.
pub open spec fn repeated_usage(name: Seq<char>, count: nat) -> Seq<char> {
    join(Seq::new(count, |i: int| bracketed(name)), seq![' '])
}

/// One name shows between its brackets; each further name follows the ones
/// before it behind a space.
pub proof fn lemma_names_usage(names: Seq<Seq<char>>, name: Seq<char>)
    ensures
        names_usage(Seq::empty()) == Seq::<char>::empty(),
        names_usage(seq![name]) == bracketed(name),
        names.len() > 0 ==> names_usage(names.push(name)) == names_usage(names) + seq![' ']
            + bracketed(name),
{
    let one = Seq::new(1, |i: int| bracketed(seq![name][i]));
    assert(one[0] == bracketed(name));
    if names.len() > 0 {
        let longer = names.push(name);
        let marked = Seq::new(longer.len(), |i: int| bracketed(longer[i]));
        assert(marked.drop_last() =~= Seq::new(names.len(), |i: int| bracketed(names[i])));
        assert(marked.last() == bracketed(name));
    }
}

/// `std::string::String::push`: the string afterwards is the string before
/// with `c` as one more character at its end.
#[verifier::external_body]
pub(crate) fn push_char(out: &mut String, c: char)
    ensures
        final(out)@ == old(out)@.push(c),
{
    out.push(c)
}

/// A list of names of its own, equal to `names` item by item.
pub fn copy_names<'a>(names: &Option<Vec<&'a str>>) -> (copy: Option<Vec<&'a str>>)
    ensures
        copy is Some <==> names is Some,
        copy is Some ==> copy->0@ == names->0@,
        opt_views(copy) == opt_views(*names),
{
    match names {
        Some(v) => {
            let mut out: Vec<&'a str> = Vec::new();
            let mut i: usize = 0;
            while i < v.len()
                invariant
                    i <= v.len(),
                    out@ == v@.take(i as int),
                decreases v.len() - i,
            {
                out.push(v[i]);
                proof {
                    assert(v@.take(i + 1) =~= v@.take(i as int).push(v@[i as int]));
                }
                i += 1;
            }
            proof {
                assert(v@.take(i as int) =~= v@);
            }
            Some(out)
        },
        None => None,
    }
}

/// The list behind `names`, unless it is absent or empty.
pub fn listed<'s, 'a: 's>(names: &'s Option<Vec<&'a str>>) -> (list: Option<&'s [&'a str]>)
    ensures
        slice_views(list) == non_empty(opt_views(*names)),
        list is Some ==> list->0@ == names->0@,
{
    match names {
        Some(v) => if v.len() > 0 {
            Some(v.as_slice())
        } else {
            None
        },
        None => None,
    }
}

/// Appends `name` between angle brackets to `out`.
pub fn push_bracketed(out: &mut String, name: &str)
    ensures
        final(out)@ == old(out)@ + bracketed(name@),
{
    push_char(out, '<');
    out.append(name);
    push_char(out, '>');
    proof {
        assert(out@ =~= old(out)@ + bracketed(name@));
    }
}

/// Appends the mark of a repeatable argument to `out`.
pub fn push_ellipsis(out: &mut String)
    ensures
        final(out)@ == old(out)@ + ellipsis(),
{
    push_char(out, '.');
    push_char(out, '.');
    push_char(out, '.');
    proof {
        assert(out@ =~= old(out)@ + ellipsis());
    }
}

/// Appends to `out` each of `names` between angle brackets, a space between
/// neighbours.
pub fn push_names(out: &mut String, names: &Vec<&str>)
    ensures
        final(out)@ == old(out)@ + names_usage(views(names@)),
{
    let ghost all = Seq::new(names@.len(), |i: int| bracketed(names@[i]@));
    let ghost sep = seq![' '];
    let mut i: usize = 0;
    while i < names.len()
        invariant
            i <= names.len(),
            all == Seq::new(names@.len(), |i: int| bracketed(names@[i]@)),
            sep == seq![' '],
            out@ == old(out)@ + join(all.take(i as int), sep),
        decreases names.len() - i,
    {
        if i > 0 {
            push_char(out, ' ');
        }
        push_bracketed(out, names[i]);
        proof {
            assert(all.take(i + 1).drop_last() =~= all.take(i as int));
            assert(all.take(i + 1).last() == bracketed(names@[i as int]@));
            if i > 0 {
                assert(out@ =~= old(out)@ + (join(all.take(i as int), sep) + sep + bracketed(
                    names@[i as int]@,
                )));
            } else {
                assert(out@ =~= old(out)@ + bracketed(names@[i as int]@));
            }
        }
        i += 1;
    }
    proof {
        assert(all.take(i as int) =~= all);
        assert(all =~= Seq::new(
            views(names@).len(),
            |i: int| bracketed(views(names@)[i]),
        ));
    }
}

/// Appends `name` between angle brackets to `out`, `count` times, a space
/// between neighbours.
pub fn push_repeated(out: &mut String, name: &str, count: u64)
    ensures
        final(out)@ == old(out)@ + repeated_usage(name@, count as nat),
{
    let ghost all = Seq::new(count as nat, |i: int| bracketed(name@));
    let ghost sep = seq![' '];
    let mut i: u64 = 0;
    while i < count
        invariant
            i <= count,
            all == Seq::new(count as nat, |i: int| bracketed(name@)),
            sep == seq![' '],
            out@ == old(out)@ + join(all.take(i as int), sep),
        decreases count - i,
    {
        if i > 0 {
            push_char(out, ' ');
        }
        push_bracketed(out, name);
        proof {
            assert(all.take(i + 1).drop_last() =~= all.take(i as int));
            assert(all.take(i + 1).last() == bracketed(name@));
            if i > 0 {
                assert(out@ =~= old(out)@ + (join(all.take(i as int), sep) + sep + bracketed(
                    name@,
                )));
            } else {
                assert(out@ =~= old(out)@ + bracketed(name@));
            }
        }
        i += 1;
    }
    proof {
        assert(all.take(i as int) =~= all);
    }
}

/// Writes the strings of `parts` one after another, `sep` between neighbours.
pub fn join_strings(parts: &Vec<String>, sep: &str) -> (out: String)
    ensures
        out@ == join(parts.deep_view(), sep@),
{
    let mut out = String::new();
    let mut i: usize = 0;
    while i < parts.len()
        invariant
            i <= parts.len(),
            out@ == join(parts.deep_view().take(i as int), sep@),
        decreases parts.len() - i,
    {
        if i > 0 {
            out.append(sep);
        }
        out.append(parts[i].as_str());
        proof {
            let all = parts.deep_view();
            assert(all.take(i + 1).drop_last() =~= all.take(i as int));
            assert(all.take(i + 1).last() == parts[i as int]@);
        }
        i += 1;
    }
    proof {
        assert(parts.deep_view().take(i as int) =~= parts.deep_view());
    }
    out
}

} // verus!

//! Paths of Unix systems, byte by byte.

use crate::text;
use vstd::prelude::*;
use vstd::string::*;
use vstd::utf8::*;

verus! {

/// The byte that separates the components of a path.
pub const SEPARATOR: u8 = 47;

/// The byte of a full stop.
pub const DOT: u8 = 46;

/// `rest` inside the directory `base`; an absolute `rest` stands for itself.
pub open spec fn joined(base: Seq<u8>, rest: Seq<u8>) -> Seq<u8> {
    if rest.len() > 0 && rest[0] == SEPARATOR {
        rest
    } else if base.len() == 0 || base.last() == SEPARATOR {
        base + rest
    } else {
        base + seq![SEPARATOR] + rest
    }
}

/// Whether a component of a path names something: it is not empty and not the current directory.
pub open spec fn names_something(component: Seq<u8>) -> bool {
    component.len() > 0 && component != seq![DOT]
}

/// The last of `components` that names something, if there is one.
pub open spec fn last_named(components: Seq<Seq<u8>>) -> Option<Seq<u8>>
    decreases components.len(),
{
    if components.len() == 0 {
        None
    } else if names_something(components.last()) {
        Some(components.last())
    } else {
        last_named(components.drop_last())
    }
}

/// The name of the file or directory that a path leads to. There is none for the root, for the
/// current directory and for a path that ends with a parent directory.
pub open spec fn file_name_of(path: Seq<u8>) -> Option<Seq<u8>> {
    match last_named(text::split(path, SEPARATOR)) {
        Some(name) => if name == seq![DOT, DOT] {
            None
        } else {
            Some(name)
        },
        None => None,
    }
}

/// `second` behind `first`.
pub fn appended(first: &[u8], second: &[u8]) -> (bytes: Vec<u8>)
    ensures
        bytes@ == first@ + second@,
{
    let mut bytes = vstd::slice::slice_to_vec(first);
    bytes.extend_from_slice(second);
    assert(bytes@ =~= first@ + second@);
    bytes
}

/// `rest` inside the directory `base`; an absolute `rest` stands for itself.
pub fn join(base: &[u8], rest: &[u8]) -> (path: Vec<u8>)
    ensures
        path@ == joined(base@, rest@),
{
    if rest.len() > 0 && rest[0] == SEPARATOR {
        return vstd::slice::slice_to_vec(rest);
    }
    if base.len() == 0 || base[base.len() - 1] == SEPARATOR {
        return appended(base, rest);
    }
    let mut path = vstd::slice::slice_to_vec(base);
    path.push(SEPARATOR);
    appended(path.as_slice(), rest)
}

/// `name` inside the directory `base`.
pub fn join_text(base: &[u8], name: &str) -> (path: Vec<u8>)
    ensures
        path@ == joined(base@, encode_utf8(name@)),
{
    join(base, name.as_bytes())
}

/// Whether `bytes` start with `prefix`.
pub fn starts_with(bytes: &[u8], prefix: &[u8]) -> (starts: bool)
    ensures
        starts == prefix@.is_prefix_of(bytes@),
{
    if bytes.len() < prefix.len() {
        return false;
    }
    text::same_bytes(vstd::slice::slice_subrange(bytes, 0, prefix.len()), prefix)
}

/// Whether `bytes` end with `suffix`.
pub fn ends_with(bytes: &[u8], suffix: &[u8]) -> (ends: bool)
    ensures
        ends == suffix@.is_suffix_of(bytes@),
{
    if bytes.len() < suffix.len() {
        return false;
    }
    text::same_bytes(
        vstd::slice::slice_subrange(bytes, bytes.len() - suffix.len(), bytes.len()),
        suffix,
    )
}

/// The name of the file or directory that `path` leads to.
pub fn file_name(path: &[u8]) -> (name: Option<Vec<u8>>)
    ensures
        match name {
            Some(name) => file_name_of(path@) == Some(name@),
            None => file_name_of(path@) is None,
        },
{
    let ghost pieces = text::split(path@, SEPARATOR);
    let mut end: usize = path.len();
    let ghost mut left = pieces;
    proof {
        assert(path@.take(end as int) =~= path@);
    }
    loop
        invariant
            end <= path@.len(),
            pieces == text::split(path@, SEPARATOR),
            left == text::split(path@.take(end as int), SEPARATOR),
            last_named(pieces) == last_named(left),
        decreases end,
    {
        let mut start: usize = end;
        while start > 0 && path[start - 1] != SEPARATOR
            invariant
                start <= end <= path@.len(),
                forall|k: int| start <= k < end ==> path@[k] != SEPARATOR,
            decreases start,
        {
            start -= 1;
        }
        proof {
            lemma_split_last(path@.take(end as int), start as int);
        }
        let component = vstd::slice::slice_subrange(path, start, end);
        assert(component@ =~= left.last());
        assert(component@.len() == 1 && component@[0] == DOT ==> component@ =~= seq![DOT]);
        assert(component@.len() == 2 && component@[0] == DOT && component@[1] == DOT
            ==> component@ =~= seq![DOT, DOT]);
        if component.len() > 0 && !(component.len() == 1 && component[0] == DOT) {
            if component.len() == 2 && component[0] == DOT && component[1] == DOT {
                return None;
            }
            return Some(vstd::slice::slice_to_vec(component));
        }
        if start == 0 {
            assert(last_named(left.drop_last()) is None);
            return None;
        }
        proof {
            left = left.drop_last();
            assert(path@.take(end as int).take(start - 1) =~= path@.take(start - 1));
        }
        end = start - 1;
    }
}

/// The last piece of `path` starts where no separator follows and one stands in front.
proof fn lemma_split_last(path: Seq<u8>, start: int)
    requires
        0 <= start <= path.len(),
        forall|k: int| start <= k < path.len() ==> path[k] != SEPARATOR,
        start == 0 || path[start - 1] == SEPARATOR,
    ensures
        text::split(path, SEPARATOR).len() > 0,
        text::split(path, SEPARATOR).last() == path.subrange(start, path.len() as int),
        start == 0 ==> text::split(path, SEPARATOR).len() == 1,
        start > 0 ==> text::split(path, SEPARATOR).drop_last() == text::split(
            path.take(start - 1),
            SEPARATOR,
        ),
    decreases path.len(),
{
    text::lemma_split_len(path, SEPARATOR);
    if path.len() == 0 {
        assert(path.subrange(start, path.len() as int) =~= seq![]);
    } else if start == path.len() {
        assert(path.drop_last() =~= path.take(start - 1));
        assert(text::split(path, SEPARATOR).drop_last() =~= text::split(
            path.take(start - 1),
            SEPARATOR,
        ));
        assert(path.subrange(start, path.len() as int) =~= seq![]);
    } else {
        let front = path.drop_last();
        lemma_split_last(front, start);
        assert(front.subrange(start, front.len() as int).push(path.last()) =~= path.subrange(
            start,
            path.len() as int,
        ));
        if start > 0 {
            assert(front.take(start - 1) =~= path.take(start - 1));
            assert(text::split(path, SEPARATOR).drop_last() =~= text::split(
                front,
                SEPARATOR,
            ).drop_last());
        }
    }
}

/// What is put into a directory is below it and ends with what was put there: nothing but one
/// separator is added, and that only where there is none. An absolute path stays what it is.
pub proof fn law_joined_path_has_both_parts(base: Seq<u8>, rest: Seq<u8>)
    ensures
        rest.is_suffix_of(joined(base, rest)),
        rest.len() > 0 && rest[0] == 47 ==> joined(base, rest) == rest,
        rest.len() == 0 || rest[0] != 47 ==> base.is_prefix_of(joined(base, rest)),
        rest.len() == 0 || rest[0] != 47 ==> joined(base, rest).len() == base.len() + rest.len()
            + if base.len() == 0 || base.last() == 47 {
            0int
        } else {
            1int
        },
        rest.len() == 0 || rest[0] != 47 ==> (base.len() > 0 ==> joined(base, rest)[joined(
            base,
            rest,
        ).len() - rest.len() - 1] == 47),
{
    let path = joined(base, rest);
    assert(path.subrange(path.len() - rest.len(), path.len() as int) =~= rest);
    if rest.len() == 0 || rest[0] != 47 {
        assert(path.subrange(0, base.len() as int) =~= base);
    }
}

/// The name of a file in a directory is that name. Separators behind it, and the current
/// directory, make no difference; a path to a parent directory has no name.
pub proof fn law_file_has_its_name(base: Seq<u8>, name: Seq<u8>, path: Seq<u8>)
    requires
        name.len() > 0,
        !name.contains(47u8),
        name != seq![46u8],
    ensures
        file_name_of(joined(base, name)) == if name == seq![46u8, 46u8] {
            None
        } else {
            Some(name)
        },
        file_name_of(path.push(47u8)) == file_name_of(path),
        file_name_of(path.push(47u8).push(46u8)) == file_name_of(path),
        file_name_of(seq![]) is None,
{
    let whole = joined(base, name);
    let start = whole.len() - name.len();
    assert(name.contains(name[0]));
    assert forall|k: int| start <= k < whole.len() implies whole[k] != SEPARATOR by {
        assert(whole[k] == name[k - start]);
        assert(name.contains(name[k - start]));
    }
    lemma_split_last(whole, start);
    assert(whole.subrange(start, whole.len() as int) =~= name);
    let pieces = text::split(path, SEPARATOR);
    text::lemma_split_len(path, SEPARATOR);
    assert(path.push(47u8).drop_last() =~= path);
    let longer = text::split(path.push(47u8), SEPARATOR);
    assert(longer.drop_last() =~= pieces);
    assert(path.push(47u8).push(46u8).drop_last() =~= path.push(47u8));
    let here = text::split(path.push(47u8).push(46u8), SEPARATOR);
    assert(here.drop_last() =~= pieces);
    assert(here.last() =~= seq![46u8]);
    let nothing: Seq<Seq<u8>> = text::split(seq![], SEPARATOR);
    assert(nothing.drop_last() =~= seq![]);
    reveal_with_fuel(last_named, 2);
}

} // verus!

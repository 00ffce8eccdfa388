//! Paths with `/` between their components.

use vstd::prelude::*;

use crate::text::{segments, split, str_eq, views};

verus! {

/// The components among `pieces`: those that are not empty, and of the pieces `.` only one that
/// stands at the very beginning.
pub open spec fn kept_pieces(pieces: Seq<Seq<char>>) -> Seq<Seq<char>>
    decreases pieces.len(),
{
    if pieces.len() == 0 {
        Seq::empty()
    } else {
        let before = kept_pieces(pieces.drop_last());
        let last = pieces.last();
        if last.len() == 0 || (last == "."@ && pieces.len() > 1) {
            before
        } else {
            before.push(last)
        }
    }
}

/// The components of a path.
pub open spec fn components(path: Seq<char>) -> Seq<Seq<char>> {
    kept_pieces(segments(path, '/'))
}

/// The path begins at the root.
pub open spec fn absolute(path: Seq<char>) -> bool {
    path.len() > 0 && path[0] == '/'
}

/// A component of the path leads upwards.
pub open spec fn climbs(path: Seq<char>) -> bool {
    components(path).contains(".."@)
}

/// The last component, if it is a name.
pub open spec fn base_name(path: Seq<char>) -> Option<Seq<char>> {
    let parts = components(path);
    if parts.len() == 0 || parts.last() == "."@ || parts.last() == ".."@ {
        None
    } else {
        Some(parts.last())
    }
}

/// `inner` is `outer` or lies below it, component by component.
pub open spec fn lies_within(inner: Seq<char>, outer: Seq<char>) -> bool {
    absolute(inner) == absolute(outer) && components(outer).is_prefix_of(components(inner))
}

/// The components of a path.
pub fn components_of(path: &str) -> (parts: Vec<String>)
    ensures
        views(parts@) == components(path@),
{
    let pieces = split(path, '/');
    let ghost all = views(pieces@);
    let mut parts: Vec<String> = Vec::new();
    let mut i: usize = 0;
    proof {
        assert(all.take(0) =~= Seq::<Seq<char>>::empty());
        assert(views(parts@) =~= Seq::<Seq<char>>::empty());
    }
    while i < pieces.len()
        invariant
            i <= pieces@.len(),
            all == views(pieces@),
            views(parts@) == kept_pieces(all.take(i as int)),
        decreases pieces.len() - i,
    {
        proof {
            assert(all.take(i + 1).drop_last() =~= all.take(i as int));
            assert(all.take(i + 1).last() == pieces@[i as int]@);
        }
        let ghost before = views(parts@);
        if !(pieces[i].as_str().is_empty() || (i > 0 && str_eq(pieces[i].as_str(), "."))) {
            let piece = pieces[i].clone();
            parts.push(piece);
            assert(views(parts@) =~= before.push(pieces@[i as int]@));
        }
        i += 1;
    }
    assert(all.take(all.len() as int) =~= all);
    parts
}

/// Whether the path begins at the root.
pub fn is_absolute(path: &str) -> (r: bool)
    ensures
        r == absolute(path@),
{
    !path.is_empty() && path.get_char(0) == '/'
}

/// Whether a component of the path leads upwards.
pub fn has_parent_component(path: &str) -> (r: bool)
    ensures
        r == climbs(path@),
{
    let parts = components_of(path);
    let mut i: usize = 0;
    while i < parts.len()
        invariant
            i <= parts@.len(),
            views(parts@) == components(path@),
            forall|k: int| 0 <= k < i ==> parts@[k]@ != ".."@,
        decreases parts.len() - i,
    {
        if str_eq(parts[i].as_str(), "..") {
            assert(views(parts@)[i as int] == ".."@);
            return true;
        }
        i += 1;
    }
    assert forall|k: int| 0 <= k < views(parts@).len() implies views(parts@)[k] != ".."@ by {}
    false
}

/// The last component, if it is a name.
pub fn file_name(path: &str) -> (name: Option<String>)
    ensures
        match name {
            Some(text) => base_name(path@) == Some(text@),
            None => base_name(path@) is None,
        },
{
    let parts = components_of(path);
    if parts.len() == 0 {
        return None;
    }
    let last = parts[parts.len() - 1].clone();
    assert(views(parts@).last() == last@);
    if str_eq(last.as_str(), ".") || str_eq(last.as_str(), "..") {
        None
    } else {
        Some(last)
    }
}

/// Whether `inner` is `outer` or lies below it.
pub fn is_within(inner: &str, outer: &str) -> (r: bool)
    ensures
        r == lies_within(inner@, outer@),
{
    let a = components_of(inner);
    let b = components_of(outer);
    if is_absolute(inner) != is_absolute(outer) || b.len() > a.len() {
        return false;
    }
    let mut i: usize = 0;
    while i < b.len()
        invariant
            i <= b@.len() <= a@.len(),
            views(a@) == components(inner@),
            views(b@) == components(outer@),
            forall|k: int| 0 <= k < i ==> a@[k]@ == b@[k]@,
        decreases b.len() - i,
    {
        if !str_eq(a[i].as_str(), b[i].as_str()) {
            proof {
                let x = views(a@).subrange(0, b@.len() as int);
                assert(x[i as int] != views(b@)[i as int]);
            }
            return false;
        }
        i += 1;
    }
    assert(views(b@) =~= views(a@).subrange(0, b@.len() as int));
    true
}

/// A path lies within itself, and whatever lies within something that lies within `outer` lies
/// within `outer`.
pub proof fn law_within_is_transitive(a: Seq<char>, b: Seq<char>, outer: Seq<char>)
    requires
        lies_within(a, b),
        lies_within(b, outer),
    ensures
        lies_within(a, outer),
        lies_within(a, a),
{
    assert(components(outer) =~= components(a).subrange(0, components(outer).len() as int));
    assert(components(a) =~= components(a).subrange(0, components(a).len() as int));
}

} // verus!

//! The order of texts and paths, and lists kept in it.

use vstd::prelude::*;
use vstd::utf8::{char_is_scalar, char_u32_cast};

use crate::names::{keyed_at, keys_distinct, lemma_pair, pairs_as_map};
use crate::paths::{absolute, components, components_of, is_absolute};
use crate::text::{chars_of, str_eq, views};

verus! {

/// `a` comes before `b` in the order of words.
pub open spec fn lex_less(a: Seq<u32>, b: Seq<u32>) -> bool
    decreases a.len(),
{
    if b.len() == 0 {
        false
    } else if a.len() == 0 {
        true
    } else {
        a[0] < b[0] || (a[0] == b[0] && lex_less(a.drop_first(), b.drop_first()))
    }
}

/// The order is transitive.
pub proof fn lemma_lex_transitive(a: Seq<u32>, b: Seq<u32>, c: Seq<u32>)
    requires
        lex_less(a, b),
        lex_less(b, c),
    ensures
        lex_less(a, c),
    decreases a.len(),
{
    if a.len() > 0 && a[0] == b[0] && b[0] == c[0] {
        lemma_lex_transitive(a.drop_first(), b.drop_first(), c.drop_first());
    }
}

/// Of two words exactly one comes first, unless they are the same.
pub proof fn lemma_lex_total(a: Seq<u32>, b: Seq<u32>)
    ensures
        lex_less(a, b) || lex_less(b, a) || a == b,
        !(lex_less(a, b) && lex_less(b, a)),
        a == b ==> !lex_less(a, b),
    decreases a.len(),
{
    if a.len() > 0 && b.len() > 0 {
        lemma_lex_total(a.drop_first(), b.drop_first());
        if a[0] == b[0] && a.drop_first() == b.drop_first() {
            assert(a =~= seq![a[0]] + a.drop_first());
            assert(b =~= seq![b[0]] + b.drop_first());
        }
    } else if a.len() == 0 && b.len() == 0 {
        assert(a =~= b);
    }
}

/// Whether `a` comes before `b`.
fn comes_before(a: &Vec<u32>, b: &Vec<u32>) -> (r: bool)
    ensures
        r == lex_less(a@, b@),
{
    let mut i: usize = 0;
    proof {
        assert(a@.skip(0) =~= a@);
        assert(b@.skip(0) =~= b@);
    }
    while i < a.len() && i < b.len()
        invariant
            i <= a@.len(),
            i <= b@.len(),
            lex_less(a@, b@) == lex_less(a@.skip(i as int), b@.skip(i as int)),
        decreases a.len() - i,
    {
        proof {
            assert(a@.skip(i as int)[0] == a@[i as int]);
            assert(b@.skip(i as int)[0] == b@[i as int]);
            assert(a@.skip(i as int).drop_first() =~= a@.skip(i + 1));
            assert(b@.skip(i as int).drop_first() =~= b@.skip(i + 1));
        }
        if a[i] < b[i] {
            return true;
        }
        if a[i] > b[i] {
            return false;
        }
        i += 1;
    }
    i < b.len()
}

/// The word by which a text is ordered.
pub open spec fn text_word(s: Seq<char>) -> Seq<u32> {
    Seq::new(s.len(), |i: int| s[i] as u32)
}

/// The word by which a text is ordered.
fn word_of(s: &str) -> (word: Vec<u32>)
    ensures
        word@ == text_word(s@),
{
    let chars = chars_of(s);
    let mut word: Vec<u32> = Vec::new();
    let mut i: usize = 0;
    while i < chars.len()
        invariant
            i <= chars@.len(),
            chars@ == s@,
            word@.len() == i,
            forall|k: int| 0 <= k < i ==> word@[k] == s@[k] as u32,
        decreases chars.len() - i,
    {
        word.push(chars[i] as u32);
        i += 1;
    }
    assert(word@ =~= text_word(s@));
    word
}

/// Different texts have different words.
pub proof fn lemma_text_word(a: Seq<char>, b: Seq<char>)
    requires
        text_word(a) == text_word(b),
    ensures
        a == b,
{
    assert(a.len() == text_word(a).len());
    assert(b.len() == text_word(b).len());
    assert forall|i: int| 0 <= i < a.len() implies a[i] == b[i] by {
        let x: char = a[i];
        let y: char = b[i];
        assert(text_word(a)[i] == x as u32);
        assert(text_word(b)[i] == y as u32);
        char_u32_cast(x, x as u32);
        char_u32_cast(y, y as u32);
    }
    assert(a =~= b);
}

/// The pairs stand in the order of their keys, each key once.
pub open spec fn pairs_ordered(pairs: Seq<(String, String)>) -> bool {
    forall|i: int, j: int|
        0 <= i < j < pairs.len() ==> lex_less(
            text_word((#[trigger] pairs[i]).0@),
            text_word((#[trigger] pairs[j]).0@),
        )
}

/// Ordered pairs have distinct keys.
pub proof fn lemma_ordered_distinct(pairs: Seq<(String, String)>)
    requires
        pairs_ordered(pairs),
    ensures
        keys_distinct(pairs),
{
    assert forall|i: int, j: int|
        0 <= i < pairs.len() && 0 <= j < pairs.len() && i != j implies (#[trigger] pairs[i]).0@ != (
    #[trigger] pairs[j]).0@ by {
        if i < j {
            lemma_lex_total(text_word(pairs[i].0@), text_word(pairs[j].0@));
        } else {
            lemma_lex_total(text_word(pairs[j].0@), text_word(pairs[i].0@));
        }
    }
}

/// Puts a value under a key, in place of what was there, and keeps the order.
pub fn put_ordered(pairs: &mut Vec<(String, String)>, key: String, value: String)
    requires
        pairs_ordered(old(pairs)@),
    ensures
        pairs_ordered(final(pairs)@),
        pairs_as_map(final(pairs)@) == pairs_as_map(old(pairs)@).insert(key@, value),
{
    let ghost before = pairs@;
    let word = word_of(key.as_str());
    let mut at: usize = 0;
    while at < pairs.len() && comes_before(&word_of(pairs[at].0.as_str()), &word)
        invariant
            at <= pairs@.len(),
            word@ == text_word(key@),
            forall|i: int|
                0 <= i < at ==> lex_less(text_word((#[trigger] pairs@[i]).0@), text_word(key@)),
        decreases pairs.len() - at,
    {
        at += 1;
    }
    proof {
        lemma_ordered_distinct(before);
    }
    if at < pairs.len() && str_eq(pairs[at].0.as_str(), key.as_str()) {
        proof {
            let after = before.update(at as int, (key, value));
            assert forall|i: int, j: int| 0 <= i < j < after.len() implies lex_less(
                text_word((#[trigger] after[i]).0@),
                text_word((#[trigger] after[j]).0@),
            ) by {
                assert(lex_less(text_word(before[i].0@), text_word(before[j].0@)));
            }
            lemma_ordered_distinct(after);
            lemma_put(before, after, key, value, at as int, true);
        }
        pairs.set(at, (key, value));
    } else {
        proof {
            let w = text_word(key@);
            assert forall|i: int| at <= i < before.len() implies lex_less(
                w,
                text_word((#[trigger] before[i]).0@),
            ) by {
                lemma_lex_total(w, text_word(before[at as int].0@));
                if w == text_word(before[at as int].0@) {
                    lemma_text_word(key@, before[at as int].0@);
                }
                if i > at {
                    assert(lex_less(text_word(before[at as int].0@), text_word(before[i].0@)));
                    lemma_lex_transitive(
                        w,
                        text_word(before[at as int].0@),
                        text_word(before[i].0@),
                    );
                }
            }
            let after = before.insert(at as int, (key, value));
            assert forall|i: int, j: int| 0 <= i < j < after.len() implies lex_less(
                text_word((#[trigger] after[i]).0@),
                text_word((#[trigger] after[j]).0@),
            ) by {
                if i != at && j != at {
                    let x = if i < at { i } else { i - 1 };
                    let y = if j < at { j } else { j - 1 };
                    assert(lex_less(text_word(before[x].0@), text_word(before[y].0@)));
                } else if i == at {
                    assert(after[j] == before[j - 1]);
                } else {
                    assert(after[i] == before[i]);
                }
            }
            lemma_ordered_distinct(after);
            lemma_put(before, after, key, value, at as int, false);
        }
        pairs.insert(at, (key, value));
    }
}

/// A changed or inserted pair changes the map at its key alone.
proof fn lemma_put(
    before: Seq<(String, String)>,
    after: Seq<(String, String)>,
    key: String,
    value: String,
    at: int,
    replaced: bool,
)
    requires
        keys_distinct(before),
        keys_distinct(after),
        replaced ==> 0 <= at < before.len() && before[at].0@ == key@ && after == before.update(
            at,
            (key, value),
        ),
        !replaced ==> 0 <= at <= before.len() && after == before.insert(at, (key, value)),
    ensures
        pairs_as_map(after) == pairs_as_map(before).insert(key@, value),
{
    let wider = pairs_as_map(before).insert(key@, value);
    lemma_pair(after, at);
    assert forall|k: Seq<char>|
        #![trigger pairs_as_map(after).dom().contains(k)]
        #![trigger wider.dom().contains(k)]
        pairs_as_map(after).dom().contains(k) == wider.dom().contains(k) && (pairs_as_map(
            after,
        ).dom().contains(k) ==> pairs_as_map(after)[k] == wider[k]) by {
        if pairs_as_map(after).dom().contains(k) && k != key@ {
            let i = choose|i: int| keyed_at(after, k, i);
            assert(keyed_at(after, k, i));
            lemma_pair(after, i);
            let x = if replaced || i < at { i } else { i - 1 };
            assert(i != at);
            assert(before[x] == after[i]);
            lemma_pair(before, x);
        }
        if pairs_as_map(before).dom().contains(k) && k != key@ {
            let x = choose|x: int| keyed_at(before, k, x);
            assert(keyed_at(before, k, x));
            let i = if replaced || x < at { x } else { x + 1 };
            assert(after[i] == before[x]) by {
                if replaced {
                    assert(x != at);
                }
            }
            assert(keyed_at(after, k, i));
        }
    }
    assert(pairs_as_map(after) =~= wider);
}

/// The word of a component: what kind it is, its characters, and an end mark that comes before
/// every character.
pub open spec fn component_word(part: Seq<char>) -> Seq<u32> {
    let kind: u32 = if part == "."@ {
        0
    } else if part == ".."@ {
        1
    } else {
        2
    };
    seq![kind] + Seq::new(part.len(), |i: int| (part[i] as u32 + 1) as u32) + seq![0u32]
}

/// The words of components one after the other.
pub open spec fn component_words(parts: Seq<Seq<char>>) -> Seq<u32>
    decreases parts.len(),
{
    if parts.len() == 0 {
        Seq::empty()
    } else {
        component_words(parts.drop_last()) + component_word(parts.last())
    }
}

/// The word by which a path is ordered: component by component, paths from the root first.
#[verifier::opaque]
pub open spec fn path_word(path: Seq<char>) -> Seq<u32> {
    seq![if absolute(path) { 0u32 } else { 1u32 }] + component_words(components(path))
}

/// The word by which a path is ordered.
fn path_word_of(path: &str) -> (word: Vec<u32>)
    ensures
        word@ == path_word(path@),
{
    let parts = components_of(path);
    let ghost all = views(parts@);
    let root: u32 = if is_absolute(path) {
        0
    } else {
        1
    };
    let mut word: Vec<u32> = Vec::new();
    word.push(root);
    let mut i: usize = 0;
    assert(all.take(0) =~= Seq::<Seq<char>>::empty());
    assert(word@ =~= seq![root] + component_words(all.take(0)));
    while i < parts.len()
        invariant
            i <= parts@.len(),
            all == views(parts@),
            word@ == seq![root] + component_words(all.take(i as int)),
        decreases parts.len() - i,
    {
        let ghost before = word@;
        let part = parts[i].as_str();
        let kind: u32 = if str_eq(part, ".") {
            0
        } else if str_eq(part, "..") {
            1
        } else {
            2
        };
        word.push(kind);
        let chars = chars_of(part);
        let mut j: usize = 0;
        while j < chars.len()
            invariant
                j <= chars@.len(),
                chars@ == part@,
                word@ == before + seq![kind] + Seq::new(
                    j as nat,
                    |k: int| (part@[k] as u32 + 1) as u32,
                ),
            decreases chars.len() - j,
        {
            let code: u32 = chars[j] as u32;
            proof {
                char_is_scalar(part@[j as int]);
            }
            word.push(code + 1);
            assert(word@ =~= before + seq![kind] + Seq::new(
                (j + 1) as nat,
                |k: int| (part@[k] as u32 + 1) as u32,
            ));
            j += 1;
        }
        word.push(0);
        proof {
            assert(all.take(i + 1).drop_last() =~= all.take(i as int));
            assert(all.take(i + 1).last() == part@);
            assert(word@ =~= before + component_word(part@));
            assert(word@ =~= seq![root] + component_words(all.take(i + 1)));
        }
        i += 1;
    }
    assert(all.take(all.len() as int) =~= all);
    reveal(path_word);
    word
}

/// The paths stand in order, each once.
pub open spec fn paths_ordered(paths: Seq<String>) -> bool {
    forall|i: int, j: int|
        0 <= i < j < paths.len() ==> lex_less(
            path_word((#[trigger] paths[i])@),
            path_word((#[trigger] paths[j])@),
        )
}

/// One of the paths has this word.
pub open spec fn has_word(paths: Seq<String>, word: Seq<u32>) -> bool {
    exists|j: int| 0 <= j < paths.len() && path_word((#[trigger] paths[j])@) == word
}

/// `ordered` are the paths `paths` in order, those that name the same place once.
pub open spec fn sorted_once(ordered: Seq<String>, paths: Seq<String>) -> bool {
    &&& paths_ordered(ordered)
    &&& forall|i: int| 0 <= i < ordered.len() ==> paths.contains(#[trigger] ordered[i])
    &&& forall|i: int|
        0 <= i < paths.len() ==> has_word(ordered, path_word((#[trigger] paths[i])@))
}

/// Puts the paths in order and leaves out those that name the same place as another.
pub fn sort_paths(paths: &Vec<String>) -> (ordered: Vec<String>)
    ensures
        sorted_once(ordered@, paths@),
{
    let mut ordered: Vec<String> = Vec::new();
    let mut i: usize = 0;
    assert(paths@.take(0) =~= Seq::<String>::empty());
    while i < paths.len()
        invariant
            i <= paths@.len(),
            sorted_once(ordered@, paths@.take(i as int)),
        decreases paths.len() - i,
    {
        proof {
            assert(paths@.take(i + 1) =~= paths@.take(i as int).push(paths@[i as int]));
        }
        put_path(&mut ordered, &paths[i], Ghost(paths@.take(i as int)));
        i += 1;
    }
    assert(paths@.take(paths@.len() as int) =~= paths@);
    ordered
}

/// Puts one more path in its place.
fn put_path(ordered: &mut Vec<String>, path: &String, seen: Ghost<Seq<String>>)
    requires
        sorted_once(old(ordered)@, seen@),
    ensures
        sorted_once(final(ordered)@, seen@.push(*path)),
{
    let ghost before = ordered@;
    let word = path_word_of(path.as_str());
    let mut at: usize = 0;
    while at < ordered.len() && comes_before(&path_word_of(ordered[at].as_str()), &word)
        invariant
            at <= ordered@.len(),
            word@ == path_word(path@),
            forall|i: int|
                0 <= i < at ==> lex_less(path_word((#[trigger] ordered@[i])@), path_word(path@)),
        decreases ordered.len() - at,
    {
        at += 1;
    }
    let there: bool = at < ordered.len() && !comes_before(
        &word,
        &path_word_of(ordered[at].as_str()),
    );
    if there {
        proof {
            lemma_lex_total(path_word(path@), path_word(before[at as int]@));
            lemma_path_there(before, *path, at as int, seen@);
        }
    } else {
        ordered.insert(at, path.clone());
        proof {
            lemma_path_put(before, *path, at as int, seen@);
        }
    }
}

/// A path that names the same place as one in the list adds nothing to it.
proof fn lemma_path_there(before: Seq<String>, path: String, at: int, seen: Seq<String>)
    requires
        sorted_once(before, seen),
        0 <= at < before.len(),
        path_word(before[at]@) == path_word(path@),
    ensures
        sorted_once(before, seen.push(path)),
{
    let all = seen.push(path);
    assert forall|i: int| 0 <= i < before.len() implies all.contains(#[trigger] before[i]) by {
        let k = choose|k: int| 0 <= k < seen.len() && seen[k] == before[i];
        assert(all[k] == before[i]);
    }
    assert forall|i: int| 0 <= i < all.len() implies has_word(
        before,
        path_word((#[trigger] all[i])@),
    ) by {
        if i < seen.len() {
            assert(all[i] == seen[i]);
        } else {
            assert(path_word(before[at]@) == path_word(all[i]@));
        }
    }
}

/// A path put in its place keeps the order.
#[verifier::spinoff_prover]
proof fn lemma_path_put(before: Seq<String>, path: String, at: int, seen: Seq<String>)
    requires
        sorted_once(before, seen),
        0 <= at <= before.len(),
        forall|i: int| 0 <= i < at ==> lex_less(path_word((#[trigger] before[i])@), path_word(path@)),
        at < before.len() ==> lex_less(path_word(path@), path_word(before[at]@)),
    ensures
        sorted_once(before.insert(at, path), seen.push(path)),
{
    let all = seen.push(path);
    let after = before.insert(at, path);
    let w = path_word(path@);
    assert forall|i: int| at <= i < before.len() implies lex_less(
        w,
        path_word((#[trigger] before[i])@),
    ) by {
        if i > at {
            assert(lex_less(path_word(before[at]@), path_word(before[i]@)));
            lemma_lex_transitive(w, path_word(before[at]@), path_word(before[i]@));
        }
    }
    assert forall|i: int, j: int| 0 <= i < j < after.len() implies lex_less(
        path_word((#[trigger] after[i])@),
        path_word((#[trigger] after[j])@),
    ) by {
        if i != at && j != at {
            let x = if i < at { i } else { i - 1 };
            let y = if j < at { j } else { j - 1 };
            assert(lex_less(path_word(before[x]@), path_word(before[y]@)));
        } else if i == at {
            assert(after[j] == before[j - 1]);
        } else {
            assert(after[i] == before[i]);
        }
    }
    assert forall|i: int| 0 <= i < after.len() implies all.contains(#[trigger] after[i]) by {
        if i == at {
            assert(all[seen.len() as int] == after[i]);
        } else {
            let x = if i < at { i } else { i - 1 };
            assert(after[i] == before[x]);
            assert(seen.contains(before[x]));
            let k = choose|k: int| 0 <= k < seen.len() && seen[k] == before[x];
            assert(all[k] == after[i]);
        }
    }
    assert forall|i: int| 0 <= i < all.len() implies has_word(
        after,
        path_word((#[trigger] all[i])@),
    ) by {
        if i < seen.len() {
            assert(all[i] == seen[i]);
            assert(has_word(before, path_word(seen[i]@)));
            let j = choose|j: int|
                0 <= j < before.len() && path_word((#[trigger] before[j])@) == path_word(seen[i]@);
            let k = if j < at { j } else { j + 1 };
            assert(after[k] == before[j]);
        } else {
            assert(after[at] == all[i]);
        }
    }
}

} // verus!

//! What holds of texts, numbers and paths across the calls that take them apart and put them
//! together.

use vstd::prelude::*;

use crate::digits::{lemma_value_push, value_of};
use crate::numbers::{
    all_digits, decimal, digit_value, digit_values, parse_number, parsed, show, unsigned,
};
use crate::names::pairs_as_map;
use crate::order::{
    has_word, lemma_lex_total, lemma_ordered_distinct, lex_less, path_word, put_ordered, sort_paths,
};
use crate::paths::{
    components, components_of, file_name, has_parent_component, is_absolute, is_within,
    kept_pieces,
};
use crate::text::{
    ascii_lower, ascii_lowered, chars_of, concat2, concat3, contains_char, contains_string, contains_text,
    eq_ignore_ascii_case, join, joined, lemma_segments_nonempty, lower, occurs_at, opt_eq,
    rsplit_once, segments, split, split_last, starts_with, str_eq, strip_prefix, views,
};

verus! {

/// Splitting a text gives pieces without the separator that make the text again when they are put
/// together with it.
pub proof fn law_pieces_make_the_text(
    s: &str,
    sep: char,
    parts: Vec<String>,
    between: &str,
    again: String,
    i: int,
)
    requires
        call_ensures(split, (s, sep), parts),
        between@ == seq![sep],
        call_ensures(join, (&parts, between), again),
        0 <= i < parts@.len(),
    ensures
        parts@.len() > 0,
        again@ == s@,
        !parts@[i]@.contains(sep),
{
    lemma_pieces(s@, sep);
    assert(views(parts@)[i] == parts@[i]@);
    assert(!segments(s@, sep)[i].contains(sep));
}

/// The pieces of a text hold no separator and make the text again.
pub proof fn lemma_pieces(s: Seq<char>, sep: char)
    ensures
        segments(s, sep).len() > 0,
        joined(segments(s, sep), seq![sep]) == s,
        forall|i: int|
            0 <= i < segments(s, sep).len() ==> !(#[trigger] segments(s, sep)[i]).contains(sep),
    decreases s.len(),
{
    if s.len() > 0 {
        let rest = s.drop_last();
        let before = segments(rest, sep);
        let all = segments(s, sep);
        lemma_pieces(rest, sep);
        if s.last() == sep {
            assert(all.drop_last() =~= before);
            assert(joined(all, seq![sep]) =~= s);
        } else {
            let grown = before.last().push(s.last());
            assert(!before[before.len() - 1].contains(sep));
            assert(!grown.contains(sep)) by {
                if grown.contains(sep) {
                    let k = choose|k: int| 0 <= k < grown.len() && grown[k] == sep;
                    assert(before.last()[k] == sep);
                }
            }
            assert(all.drop_last() =~= before.drop_last());
            assert(rest.push(s.last()) =~= s);
            if before.len() == 1 {
                assert(joined(all, seq![sep]) =~= s);
            } else {
                let head = joined(before.drop_last(), seq![sep]);
                assert(rest == head + seq![sep] + before.last());
                assert(all.last() == grown);
                assert(head + seq![sep] + grown =~= rest.push(s.last()));
            }
            assert forall|i: int| 0 <= i < all.len() implies !(#[trigger] all[i]).contains(sep) by {
                if i < all.len() - 1 {
                    assert(all[i] == before[i]);
                }
            }
        }
    } else {
        assert(segments(s, sep)[0].len() == 0);
        assert(joined(segments(s, sep), seq![sep]) =~= s);
    }
}

/// Texts that are put together stand one after the other with the separator between neighbours: one
/// more text adds the separator and itself.
pub proof fn law_joining_adds_at_the_end(
    parts: &Vec<String>,
    more: &Vec<String>,
    last: String,
    sep: &str,
    a: String,
    b: String,
)
    requires
        parts@.len() > 0,
        more@ == parts@.push(last),
        call_ensures(join, (parts, sep), a),
        call_ensures(join, (more, sep), b),
    ensures
        b@ == a@ + sep@ + last@,
        parts@.len() == 1 ==> a@ == parts@[0]@,
{
    let words = views(more@);
    assert(words.drop_last() =~= views(parts@));
    assert(words.last() == last@);
    assert(views(parts@)[0] == parts@[0]@);
}

/// A text is split at its last separator: what comes after has none, and what comes before, the
/// separator and what comes after are the text. A text without a separator is not split.
pub proof fn law_split_at_the_last(
    s: &str,
    sep: char,
    r: Option<(String, String)>,
)
    requires
        call_ensures(rsplit_once, (s, sep), r),
    ensures
        r is Some <==> s@.contains(sep),
        r is Some ==> s@ == r->Some_0.0@ + seq![sep] + r->Some_0.1@ && !r->Some_0.1@.contains(sep),
{
    lemma_split_last(s@, sep);
    if r is Some {
        let at = r->Some_0.0@.len() as int;
        assert(s@[at] == sep);
    }
}

/// The two halves at the last separator make the text, and the second holds no separator.
pub proof fn lemma_split_last(s: Seq<char>, sep: char)
    ensures
        s.contains(sep) <==> split_last(s, sep) is Some,
        split_last(s, sep) is Some ==> {
            let (a, b) = split_last(s, sep)->Some_0;
            s == a + seq![sep] + b && !b.contains(sep)
        },
    decreases s.len(),
{
    if s.len() > 0 {
        let rest = s.drop_last();
        lemma_split_last(rest, sep);
        if s.last() == sep {
            assert(s[s.len() - 1] == sep);
            assert(s =~= rest + seq![sep] + Seq::<char>::empty());
        } else {
            if s.contains(sep) {
                let k = choose|k: int| 0 <= k < s.len() && s[k] == sep;
                assert(rest[k] == sep);
            }
            if rest.contains(sep) {
                let k = choose|k: int| 0 <= k < rest.len() && rest[k] == sep;
                assert(s[k] == sep);
                let (a, b) = split_last(rest, sep)->Some_0;
                let more = b.push(s.last());
                assert(!more.contains(sep)) by {
                    if more.contains(sep) {
                        let m = choose|m: int| 0 <= m < more.len() && more[m] == sep;
                        assert(b[m] == sep);
                    }
                }
                assert(rest.push(s.last()) =~= s);
                assert(rest.push(s.last()) =~= a + seq![sep] + more);
            }
        }
    }
}

/// Where the second half holds no separator, the text is split between the two halves.
pub proof fn lemma_split_between(a: Seq<char>, sep: char, b: Seq<char>)
    requires
        !b.contains(sep),
    ensures
        split_last(a + seq![sep] + b, sep) == Some((a, b)),
    decreases b.len(),
{
    let s = a + seq![sep] + b;
    if b.len() == 0 {
        assert(s.last() == sep);
        assert(s.drop_last() =~= a);
        assert(b =~= Seq::empty());
    } else {
        let shorter = b.drop_last();
        assert(!shorter.contains(sep)) by {
            if shorter.contains(sep) {
                let k = choose|k: int| 0 <= k < shorter.len() && shorter[k] == sep;
                assert(b[k] == sep);
            }
        }
        assert(b[b.len() - 1] != sep);
        assert(s.last() == b.last());
        assert(s.drop_last() =~= a + seq![sep] + shorter);
        lemma_split_between(a, sep, shorter);
        assert(shorter.push(b.last()) =~= b);
    }
}

/// Two texts are the same but for the case exactly if they are equally long and differ nowhere but
/// in the case of an ASCII letter.
pub proof fn law_case_is_ignored(a: &str, b: &str, same: bool)
    requires
        call_ensures(eq_ignore_ascii_case, (a, b), same),
    ensures
        same <==> a@.len() == b@.len() && forall|i: int|
            0 <= i < a@.len() ==> {
                let x = (#[trigger] a@[i]) as int;
                let y = b@[i] as int;
                x == y || (65 <= x <= 90 && y == x + 32) || (97 <= x <= 122 && x == y + 32)
            },
{
    let la = ascii_lowered(a@);
    let lb = ascii_lowered(b@);
    if same {
        assert(la.len() == lb.len());
        assert forall|i: int| 0 <= i < a@.len() implies {
            let x = (#[trigger] a@[i]) as int;
            let y = b@[i] as int;
            x == y || (65 <= x <= 90 && y == x + 32) || (97 <= x <= 122 && x == y + 32)
        } by {
            assert(la[i] == lb[i]);
            lemma_lower(a@[i]);
            lemma_lower(b@[i]);
        }
    } else if a@.len() == b@.len() && forall|i: int|
        0 <= i < a@.len() ==> {
            let x = (#[trigger] a@[i]) as int;
            let y = b@[i] as int;
            x == y || (65 <= x <= 90 && y == x + 32) || (97 <= x <= 122 && x == y + 32)
        } {
        assert forall|i: int| 0 <= i < la.len() implies la[i] == lb[i] by {
            let x = a@[i] as int;
            let y = b@[i] as int;
            assert(x == y || (65 <= x <= 90 && y == x + 32) || (97 <= x <= 122 && x == y + 32));
            lemma_lower(a@[i]);
            lemma_lower(b@[i]);
        }
        assert(la =~= lb);
    }
}

/// The lower-case form of an ASCII letter stands thirty-two places further on.
pub proof fn lemma_lower(c: char)
    ensures
        65 <= c as int <= 90 ==> ascii_lower(c) as int == c as int + 32,
        !(65 <= c as int <= 90) ==> ascii_lower(c) == c,
{
}

/// The lower-case form is itself in lower case.
pub proof fn law_lowering_twice(c: char, once: char, twice: char)
    requires
        call_ensures(lower, (c,), once),
        call_ensures(lower, (once,), twice),
    ensures
        twice == once,
        65 <= c as int <= 90 ==> once as int == c as int + 32,
        !(65 <= c as int <= 90) ==> once == c,
{
    lemma_lower(c);
    lemma_lower(once);
}

/// A text holds another exactly if it is made of something, the other text and something more.
pub proof fn law_holding_a_text(hay: &str, needle: &str, found: bool, a: Seq<char>, b: Seq<char>)
    requires
        call_ensures(contains_text, (hay, needle), found),
    ensures
        hay@ == a + needle@ + b ==> found,
        found ==> exists|x: Seq<char>, y: Seq<char>| hay@ == #[trigger] (x + needle@ + y),
{
    if hay@ == a + needle@ + b {
        assert(hay@.subrange(a.len() as int, a.len() as int + needle@.len()) =~= needle@);
        assert(occurs_at(hay@, needle@, a.len() as int));
    }
    if found {
        let at = choose|at: int| occurs_at(hay@, needle@, at);
        let x = hay@.take(at);
        let y = hay@.skip(at + needle@.len());
        assert(hay@ =~= x + needle@ + y);
    }
}

/// What a text begins with can be taken away from it and put back.
pub proof fn law_stripping_a_beginning(
    s: &str,
    prefix: &str,
    begins: bool,
    rest: Option<String>,
    tail: Seq<char>,
)
    requires
        call_ensures(starts_with, (s, prefix), begins),
        call_ensures(strip_prefix, (s, prefix), rest),
    ensures
        s@ == prefix@ + tail ==> begins && rest is Some && rest->Some_0@ == tail,
        begins <==> rest is Some,
        rest is Some ==> s@ == prefix@ + rest->Some_0@,
{
    if s@ == prefix@ + tail {
        assert(prefix@.is_prefix_of(prefix@ + tail));
        assert(rest->Some_0@ =~= (prefix@ + rest->Some_0@).skip(prefix@.len() as int));
        assert(tail =~= (prefix@ + tail).skip(prefix@.len() as int));
    }
}

/// Comparing and searching texts tells what the texts are.
pub proof fn law_comparing_texts(
    a: &str,
    b: &str,
    c: char,
    list: &Vec<String>,
    same: bool,
    found: bool,
    listed: bool,
    i: int,
)
    requires
        call_ensures(str_eq, (a, b), same),
        call_ensures(contains_char, (a, c), found),
        call_ensures(contains_string, (list, a), listed),
    ensures
        same <==> a@ == b@,
        found <==> exists|k: int| 0 <= k < a@.len() && #[trigger] a@[k] == c,
        0 <= i < list@.len() && list@[i]@ == a@ ==> listed,
        listed ==> exists|k: int| 0 <= k < list@.len() && (#[trigger] list@[k])@ == a@,
{
    if 0 <= i < list@.len() && list@[i]@ == a@ {
        assert(views(list@)[i] == a@);
    }
    if listed {
        let k = choose|k: int| 0 <= k < views(list@).len() && views(list@)[k] == a@;
        assert(list@[k]@ == a@);
    }
}

/// Optional texts are the same if both are missing or both are there and the same.
pub proof fn law_comparing_optional_texts(a: &Option<String>, b: &Option<String>, same: bool)
    requires
        call_ensures(opt_eq, (a, b), same),
    ensures
        *a is None && *b is None ==> same,
        *a is Some && *b is None ==> !same,
        *a is None && *b is Some ==> !same,
        *a is Some && *b is Some ==> (same <==> a->Some_0@ == b->Some_0@),
{
}

/// A number that is written out is read back as the same number; a sign of plus before it changes
/// nothing.
pub proof fn law_numbers_read_back(
    n: u64,
    max: u64,
    text: String,
    s: &str,
    signed: &str,
    r: Option<u64>,
    plus: Option<u64>,
)
    requires
        call_ensures(show, (n,), text),
        s@ == text@,
        signed@ == seq!['+'] + text@,
        call_ensures(parse_number, (s, 10u64, max), r),
        call_ensures(parse_number, (signed, 10u64, max), plus),
    ensures
        n <= max ==> r == Some(n) && plus == Some(n),
        n > max ==> r is None && plus is None,
        text@.len() > 0,
{
    lemma_decimal(n as nat);
    assert(unsigned(s@) == s@);
    assert(signed@.skip(1) =~= s@);
}

/// The digits of a number, written out, are its value; none of them is a sign.
pub proof fn lemma_decimal(n: nat)
    ensures
        decimal(n).len() > 0,
        all_digits(decimal(n), 10),
        value_of(digit_values(decimal(n), 10), 10) == n,
        decimal(n)[0] != '+',
        !decimal(n).contains(':'),
        forall|i: int| 0 <= i < decimal(n).len() ==> 48 <= (#[trigger] decimal(n)[i]) as int <= 57,
    decreases n,
{
    let text = decimal(n);
    let values = digit_values(text, 10);
    if n < 10 {
        assert(text.len() == 1);
        assert(text[0] as int == 48 + n);
        assert(digit_value(text[0], 10) == Some(n as int));
        assert(values =~= seq![n as int]);
        assert(values.drop_last() =~= Seq::<int>::empty());
        assert(value_of(values.drop_last(), 10) == 0);
    } else {
        let head = decimal(n / 10);
        let d = (n % 10) as int;
        lemma_decimal(n / 10);
        assert(text.last() as int == 48 + d);
        assert(digit_value(text.last(), 10) == Some(d));
        assert forall|i: int| 0 <= i < text.len() implies 48 <= (#[trigger] text[i]) as int <= 57 by {
            if i < head.len() {
                assert(text[i] == head[i]);
            }
        }
        assert forall|i: int| 0 <= i < text.len() implies digit_value(
            #[trigger] text[i],
            10,
        ) is Some by {
            if i < head.len() {
                assert(text[i] == head[i]);
            }
        }
        assert(values =~= digit_values(head, 10).push(d));
        lemma_value_push(digit_values(head, 10), d, 10);
        assert(text[0] == head[0]);
    }
    assert(!text.contains(':')) by {
        if text.contains(':') {
            let k = choose|k: int| 0 <= k < text.len() && text[k] == ':';
            assert(48 <= text[k] as int <= 57);
        }
    }
}

/// Nothing but digits is a number, and no digits at all is none.
pub proof fn law_only_digits_are_numbers(s: &str, max: u64, r: Option<u64>, i: int)
    requires
        call_ensures(parse_number, (s, 10u64, max), r),
        r is Some,
        0 < i < s@.len(),
    ensures
        48 <= s@[i] as int <= 57,
        48 <= s@[0] as int <= 57 || s@[0] == '+',
        r->Some_0 <= max,
{
    let body = unsigned(s@);
    if s@[0] == '+' {
        assert(body[i - 1] == s@[i]);
        assert(digit_value(body[i - 1], 10) is Some);
    } else {
        assert(digit_value(body[i], 10) is Some);
        assert(digit_value(body[0], 10) is Some);
    }
}

/// The pieces of two texts with a separator between them are the pieces of the one and then those of
/// the other.
pub proof fn lemma_segments_between(a: Seq<char>, sep: char, b: Seq<char>)
    ensures
        segments(a + seq![sep] + b, sep) == segments(a, sep) + segments(b, sep),
    decreases b.len(),
{
    let s = a + seq![sep] + b;
    lemma_segments_nonempty(b, sep);
    if b.len() == 0 {
        assert(s.last() == sep);
        assert(s.drop_last() =~= a);
        assert(segments(a, sep).push(Seq::empty()) =~= segments(a, sep) + segments(b, sep));
    } else {
        let rest = b.drop_last();
        lemma_segments_between(a, sep, rest);
        lemma_segments_nonempty(rest, sep);
        assert(s.drop_last() =~= a + seq![sep] + rest);
        assert(s.last() == b.last());
        let left = segments(a, sep);
        let before = left + segments(rest, sep);
        if b.last() == sep {
            assert(before.push(Seq::empty()) =~= left + segments(b, sep));
        } else {
            assert(before.last() == segments(rest, sep).last());
            assert(before.drop_last().push(before.last().push(s.last())) =~= left + segments(
                b,
                sep,
            ));
        }
    }
}

/// A text without the separator is its only piece.
pub proof fn lemma_one_piece(s: Seq<char>, sep: char)
    requires
        !s.contains(sep),
    ensures
        segments(s, sep) == seq![s],
    decreases s.len(),
{
    if s.len() > 0 {
        let rest = s.drop_last();
        assert(!rest.contains(sep)) by {
            if rest.contains(sep) {
                let k = choose|k: int| 0 <= k < rest.len() && rest[k] == sep;
                assert(s[k] == sep);
            }
        }
        lemma_one_piece(rest, sep);
        assert(s[s.len() - 1] != sep);
        assert(rest.push(s.last()) =~= s);
        assert(segments(s, sep) =~= seq![s]);
    } else {
        assert(s =~= Seq::<char>::empty());
        assert(segments(s, sep) =~= seq![s]);
    }
}

/// A name in a directory is the last component of its path.
pub proof fn lemma_name_in_directory(dir: Seq<char>, name: Seq<char>)
    requires
        name.len() > 0,
        name != "."@,
        !name.contains('/'),
    ensures
        components(dir + seq!['/'] + name) == components(dir).push(name),
{
    lemma_segments_between(dir, '/', name);
    lemma_one_piece(name, '/');
    let left = segments(dir, '/');
    let all = segments(dir + seq!['/'] + name, '/');
    assert(all =~= left.push(name));
    assert(all.drop_last() =~= left);
}

/// The file name of a path is what stands after its last slash; a path whose last step is up has
/// none. What lies in a directory lies within it, and within every directory that this lies in.
pub proof fn law_names_in_directories(
    path: &str,
    dir: &str,
    name: Seq<char>,
    file: Option<String>,
    within: bool,
    climbs_out: bool,
    outer: &str,
    above: bool,
    both: bool,
)
    requires
        path@ == dir@ + seq!['/'] + name,
        dir@.len() > 0,
        name.len() > 0,
        name != "."@,
        !name.contains('/'),
        call_ensures(file_name, (path,), file),
        call_ensures(is_within, (path, dir), within),
        call_ensures(has_parent_component, (path,), climbs_out),
        call_ensures(is_within, (dir, outer), above),
        call_ensures(is_within, (path, outer), both),
    ensures
        name != ".."@ ==> file is Some && file->Some_0@ == name,
        name == ".."@ ==> file is None && climbs_out,
        within,
        above ==> both,
{
    lemma_name_in_directory(dir@, name);
    let inner = components(path@);
    assert(inner.last() == name);
    assert(inner[inner.len() - 1] == name);
    assert(components(dir@).is_prefix_of(inner));
    assert(path@[0] == dir@[0]);
    if above {
        assert(components(outer@).is_prefix_of(inner));
    }
}

/// A path that begins with a slash is absolute, and no other is. A path without a dot does not
/// climb.
pub proof fn law_absolute_paths(path: &str, r: bool, climbs_out: bool)
    requires
        call_ensures(is_absolute, (path,), r),
        call_ensures(has_parent_component, (path,), climbs_out),
    ensures
        r <==> path@.len() > 0 && path@[0] == '/',
        !path@.contains('.') ==> !climbs_out,
{
    if !path@.contains('.') && climbs_out {
        reveal_strlit("..");
        let parts = components(path@);
        let k = choose|k: int| 0 <= k < parts.len() && parts[k] == ".."@;
        lemma_kept_are_pieces(segments(path@, '/'), parts[k]);
        let pieces = segments(path@, '/');
        let j = choose|j: int| 0 <= j < pieces.len() && pieces[j] == parts[k];
        assert(pieces[j][0] == '.');
        lemma_characters_of_pieces(path@, '/', j, '.');
    }
}

/// What is kept of the pieces is among them.
proof fn lemma_kept_are_pieces(pieces: Seq<Seq<char>>, part: Seq<char>)
    requires
        kept_pieces(pieces).contains(part),
    ensures
        pieces.contains(part),
    decreases pieces.len(),
{
    if pieces.len() > 0 {
        let kept = kept_pieces(pieces);
        let before = kept_pieces(pieces.drop_last());
        let k = choose|k: int| 0 <= k < kept.len() && kept[k] == part;
        if k < before.len() {
            assert(before[k] == part);
            assert(before.contains(part));
            lemma_kept_are_pieces(pieces.drop_last(), part);
            let j = choose|j: int|
                0 <= j < pieces.drop_last().len() && pieces.drop_last()[j] == part;
            assert(pieces[j] == part);
        } else {
            assert(pieces[pieces.len() - 1] == part);
        }
    }
}

/// The characters of the pieces are characters of the text.
proof fn lemma_characters_of_pieces(s: Seq<char>, sep: char, j: int, c: char)
    requires
        0 <= j < segments(s, sep).len(),
        segments(s, sep)[j].contains(c),
    ensures
        s.contains(c),
    decreases s.len(),
{
    if s.len() > 0 {
        let rest = s.drop_last();
        let before = segments(rest, sep);
        let all = segments(s, sep);
        lemma_segments_nonempty(rest, sep);
        let k = choose|k: int| 0 <= k < all[j].len() && all[j][k] == c;
        if s.last() == sep {
            if j < before.len() {
                assert(all[j] == before[j]);
                lemma_characters_of_pieces(rest, sep, j, c);
                let m = choose|m: int| 0 <= m < rest.len() && rest[m] == c;
                assert(s[m] == c);
            }
        } else if j < before.len() - 1 {
            assert(all[j] == before[j]);
            lemma_characters_of_pieces(rest, sep, j, c);
            let m = choose|m: int| 0 <= m < rest.len() && rest[m] == c;
            assert(s[m] == c);
        } else if k < before.last().len() {
            assert(before[j][k] == c);
            assert(before[j].contains(c));
            lemma_characters_of_pieces(rest, sep, j, c);
            let m = choose|m: int| 0 <= m < rest.len() && rest[m] == c;
            assert(s[m] == c);
        } else {
            assert(s[s.len() - 1] == c);
        }
    }
}

/// Texts are put one after the other.
pub proof fn law_texts_one_after_the_other(
    a: &str,
    b: &str,
    c: &str,
    two: String,
    three: String,
    chars: Vec<char>,
)
    requires
        call_ensures(concat2, (a, b), two),
        call_ensures(concat3, (a, b, c), three),
        call_ensures(chars_of, (a,), chars),
    ensures
        two@ == a@ + b@,
        three@ == two@ + c@,
        chars@ == a@,
{
}

/// Words come one before the other by the first place where they differ, and a word comes before
/// every longer one that begins with it.
pub proof fn law_order_of_words(a: Seq<u32>, b: Seq<u32>, k: int)
    ensures
        0 <= k < a.len() && k < b.len() && a.take(k) == b.take(k) && a[k] < b[k] ==> lex_less(a, b),
        k == a.len() && k < b.len() && b.take(k) == a ==> lex_less(a, b),
        !lex_less(a, a),
        lex_less(a, b) ==> !lex_less(b, a),
    decreases a.len(),
{
    lemma_lex_total(a, b);
    lemma_lex_total(a, a);
    if a.len() > 0 && b.len() > 0 && k > 0 {
        let x = a.drop_first();
        let y = b.drop_first();
        law_order_of_words(x, y, k - 1);
        if k <= a.len() && k <= b.len() && a.take(k) == b.take(k) {
            assert(a.take(k)[0] == a[0] && b.take(k)[0] == b[0]);
            assert(x.take(k - 1) =~= a.take(k).drop_first());
            assert(y.take(k - 1) =~= b.take(k).drop_first());
            if k < a.len() && k < b.len() {
                assert(x[k - 1] == a[k] && y[k - 1] == b[k]);
            }
        }
        if k == a.len() && k < b.len() && b.take(k) == a {
            assert(b.take(k)[0] == b[0]);
            assert(y.take(k - 1) =~= a.drop_first());
        }
    }
}

/// A pair that is put into an ordered list replaces the one of its key and leaves the others; the
/// list stays ordered, and no key comes twice.
pub proof fn law_putting_a_pair(
    pairs: &mut Vec<(String, String)>,
    key: String,
    value: String,
    other: Seq<char>,
    i: int,
    j: int,
)
    requires
        call_ensures(put_ordered, (pairs, key, value), ()),
        other != key@,
    ensures
        pairs_as_map(final(pairs)@).contains_key(key@),
        pairs_as_map(final(pairs)@)[key@] == value,
        pairs_as_map(old(pairs)@).contains_key(other) <==> pairs_as_map(
            final(pairs)@,
        ).contains_key(other),
        pairs_as_map(old(pairs)@).contains_key(other) ==> pairs_as_map(final(pairs)@)[other]
            == pairs_as_map(old(pairs)@)[other],
        0 <= i < j < final(pairs)@.len() ==> final(pairs)@[i].0@ != final(pairs)@[j].0@,
{
    if 0 <= i < j < final(pairs)@.len() {
        lemma_ordered_distinct(final(pairs)@);
    }
}

/// Paths that are sorted are the paths that were given: each of those is there, under its own name
/// or another of the same place, and nothing else is.
pub proof fn law_sorting_paths(paths: &Vec<String>, ordered: Vec<String>, i: int)
    requires
        call_ensures(sort_paths, (paths,), ordered),
    ensures
        0 <= i < ordered@.len() ==> paths@.contains(ordered@[i]),
        0 <= i < paths@.len() ==> exists|j: int|
            0 <= j < ordered@.len() && path_word((#[trigger] ordered@[j])@) == path_word(
                paths@[i]@,
            ),
        ordered@.len() == 0 <==> paths@.len() == 0,
{
    if 0 <= i < paths@.len() {
        assert(has_word(ordered@, path_word(paths@[i]@)));
    }
    if paths@.len() > 0 {
        assert(has_word(ordered@, path_word(paths@[0]@)));
    }
    if ordered@.len() > 0 {
        assert(paths@.contains(ordered@[0]));
    }
}

/// The components of a path in a directory are those of the directory and then the name.
pub proof fn law_components_in_a_directory(
    path: &str,
    dir: &str,
    name: Seq<char>,
    parts: Vec<String>,
    before: Vec<String>,
)
    requires
        path@ == dir@ + seq!['/'] + name,
        name.len() > 0 && name != "."@ && !name.contains('/'),
        call_ensures(components_of, (path,), parts),
        call_ensures(components_of, (dir,), before),
    ensures
        parts@.len() == before@.len() + 1,
        parts@[parts@.len() - 1]@ == name,
{
    lemma_name_in_directory(dir@, name);
    let all = views(parts@);
    assert(all == views(before@).push(name));
    assert(all.len() == parts@.len());
    assert(views(before@).len() == before@.len());
    assert(all[parts@.len() - 1] == parts@[parts@.len() - 1]@);
}

} // verus!

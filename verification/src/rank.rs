//! Ordering the lines an outside search printed by their distance to the
//! query, and the pattern handed to that search.

use vstd::prelude::*;
use crate::fuzzy::FuzzySearch;
use crate::levenshtein::{levenshtein, levenshtein_spec};
use crate::text::{chars_of, push_char, views};

verus! {

/// How many result lines are shown at most.
pub const MAX_SHOWN: usize = 300;

/// Ranking order of line `i` with distance `si` against line `j` with
/// distance `sj`: the nearer first, and of equally near ones the earlier.
pub open spec fn ranks_before(si: int, i: int, sj: int, j: int) -> bool {
    si < sj || (si == sj && i < j)
}

/// `order` lists the positions of `lines` from nearest to `query` to
/// farthest, equally near lines keeping their order: each position once.
pub open spec fn is_ranking(query: Seq<char>, lines: Seq<Seq<char>>, order: Seq<int>) -> bool {
    &&& order.len() == lines.len()
    &&& forall|k: int| 0 <= k < order.len() ==> 0 <= #[trigger] order[k] < lines.len()
    &&& forall|k: int, l: int|
        0 <= k < l < order.len() ==> ranks_before(
            levenshtein_spec(query, lines[#[trigger] order[k]]),
            order[k],
            levenshtein_spec(query, lines[#[trigger] order[l]]),
            order[l],
        )
}

/// The lines ordered by their distance to `query`, nearest first; equally
/// near lines keep their order.
pub fn rank_lines(query: &str, lines: &Vec<String>) -> (r: Vec<String>)
    ensures
        exists|order: Seq<int>|
            is_ranking(query@, views(lines@), order) && views(r@) == order.map_values(
                |i: int| lines@[i]@,
            ),
{
    let ghost ls = views(lines@);
    let mut ranked: Vec<(usize, usize)> = Vec::new();
    let mut i: usize = 0;
    while i < lines.len()
        invariant
            ls == views(lines@),
            i <= lines@.len(),
            ranked@.len() == i,
            forall|k: int|
                0 <= k < ranked@.len() ==> {
                    &&& 0 <= (#[trigger] ranked@[k]).1 < i
                    &&& ranked@[k].0 == levenshtein_spec(query@, ls[ranked@[k].1 as int])
                },
            forall|k: int, l: int|
                0 <= k < l < ranked@.len() ==> ranks_before(
                    (#[trigger] ranked@[k]).0 as int,
                    ranked@[k].1 as int,
                    (#[trigger] ranked@[l]).0 as int,
                    ranked@[l].1 as int,
                ),
        decreases lines.len() - i,
    {
        let score = levenshtein(query, lines[i].as_str());
        let mut q: usize = 0;
        while q < ranked.len() && ranked[q].0 <= score
            invariant
                q <= ranked@.len(),
                forall|k: int| 0 <= k < q ==> (#[trigger] ranked@[k]).0 <= score,
            decreases ranked.len() - q,
        {
            q += 1;
        }
        let ghost before = ranked@;
        ranked.insert(q, (score, i));
        proof {
            assert forall|k: int, l: int| 0 <= k < l < ranked@.len() implies ranks_before(
                (#[trigger] ranked@[k]).0 as int,
                ranked@[k].1 as int,
                (#[trigger] ranked@[l]).0 as int,
                ranked@[l].1 as int,
            ) by {
                if k < q && l == q {
                    assert(ranked@[k] == before[k]);
                } else if k < q && l > q {
                    assert(ranked@[k] == before[k]);
                    assert(ranked@[l] == before[l - 1]);
                } else if k == q {
                    assert(ranked@[l] == before[l - 1]);
                    assert(before[q as int].0 > score);
                    if l - 1 > q {
                        assert(ranks_before(
                            before[q as int].0 as int,
                            before[q as int].1 as int,
                            before[l - 1].0 as int,
                            before[l - 1].1 as int,
                        ));
                    }
                } else if k > q {
                    assert(ranked@[k] == before[k - 1]);
                    assert(ranked@[l] == before[l - 1]);
                } else {
                    assert(ranked@[k] == before[k]);
                    assert(ranked@[l] == before[l]);
                }
            }
            assert forall|k: int| 0 <= k < ranked@.len() implies {
                &&& 0 <= (#[trigger] ranked@[k]).1 < i + 1
                &&& ranked@[k].0 == levenshtein_spec(query@, ls[ranked@[k].1 as int])
            } by {
                if k < q {
                    assert(ranked@[k] == before[k]);
                } else if k > q {
                    assert(ranked@[k] == before[k - 1]);
                }
            }
        }
        i += 1;
    }
    let mut out: Vec<String> = Vec::new();
    let mut k: usize = 0;
    let ghost order = ranked@.map_values(|p: (usize, usize)| p.1 as int);
    while k < ranked.len()
        invariant
            ls == views(lines@),
            ranked@.len() == lines@.len(),
            order == ranked@.map_values(|p: (usize, usize)| p.1 as int),
            forall|m: int| 0 <= m < ranked@.len() ==> 0 <= (#[trigger] ranked@[m]).1 < lines@.len(),
            k <= ranked@.len(),
            views(out@) == order.take(k as int).map_values(|i: int| lines@[i]@),
        decreases ranked.len() - k,
    {
        let ghost before = out@;
        let line = lines[ranked[k].1].clone();
        out.push(line);
        proof {
            assert(order[k as int] == ranked@[k as int].1 as int);
            assert(order.take(k + 1) =~= order.take(k as int).push(order[k as int]));
            assert(views(out@) =~= views(before).push(line@));
            assert(views(out@) =~= order.take(k + 1).map_values(|i: int| lines@[i]@));
        }
        k += 1;
    }
    proof {
        assert(order.take(order.len() as int) =~= order);
        assert(is_ranking(query@, ls, order)) by {
            assert forall|a: int, b: int| 0 <= a < b < order.len() implies ranks_before(
                levenshtein_spec(query@, ls[#[trigger] order[a]]),
                order[a],
                levenshtein_spec(query@, ls[#[trigger] order[b]]),
                order[b],
            ) by {
                assert(ranks_before(
                    ranked@[a].0 as int,
                    ranked@[a].1 as int,
                    ranked@[b].0 as int,
                    ranked@[b].1 as int,
                ));
            }
        }
        assert(views(out@) =~= order.map_values(|i: int| lines@[i]@));
    }
    out
}

/// How many of `count` result lines are shown.
pub fn shown_count(count: usize) -> (r: usize)
    ensures
        r == if count < MAX_SHOWN {
            count
        } else {
            MAX_SHOWN
        },
{
    if MAX_SHOWN <= count {
        MAX_SHOWN
    } else {
        count
    }
}

/// The lines shown for `query`: the first `MAX_SHOWN` of the lines ranked
/// by their distance to it (see `rank_lines`).
pub fn best_lines(query: &str, lines: &Vec<String>) -> (r: Vec<String>)
    ensures
        exists|order: Seq<int>|
            is_ranking(query@, views(lines@), order) && views(r@) == order.map_values(
                |i: int| lines@[i]@,
            ).take(
                if lines@.len() < MAX_SHOWN {
                    lines@.len() as int
                } else {
                    MAX_SHOWN as int
                },
            ),
{
    let ranked = rank_lines(query, lines);
    let ghost order = choose|order: Seq<int>|
        is_ranking(query@, views(lines@), order) && views(ranked@) == order.map_values(
            |i: int| lines@[i]@,
        );
    let n = shown_count(ranked.len());
    let mut out: Vec<String> = Vec::new();
    let mut k: usize = 0;
    while k < n
        invariant
            n <= ranked@.len(),
            k <= n,
            views(out@) == views(ranked@).take(k as int),
        decreases n - k,
    {
        let ghost before = out@;
        let line = ranked[k].clone();
        out.push(line);
        assert(views(out@) =~= views(before).push(line@));
        assert(views(out@) =~= views(ranked@).take(k + 1));
        k += 1;
    }
    proof {
        assert(views(ranked@).len() == lines@.len());
    }
    out
}

/// A query with `/` and `.` escaped by a backslash, for use in a pattern.
pub open spec fn escaped(query: Seq<char>) -> Seq<char>
    decreases query.len(),
{
    if query.len() == 0 {
        seq![]
    } else {
        let c = query.last();
        escaped(query.drop_last()) + if c == '/' || c == '.' {
            seq!['\\', c]
        } else {
            seq![c]
        }
    }
}

/// How one character of a query stands in a pattern: `/` and `.` behind a
/// backslash, any other character as it is.
pub open spec fn escape_char(c: char) -> Seq<char> {
    if c == '/' || c == '.' {
        seq!['\\', c]
    } else {
        seq![c]
    }
}

/// Escaping works character by character: the escaped query is each of its
/// characters escaped on its own, one after the other, so every `/` and
/// every `.` of the query stands behind a backslash; and escaping two texts
/// one after the other is escaping them joined.
pub proof fn law_escaped_every_separator(query: Seq<char>, a: Seq<char>, b: Seq<char>)
    ensures
        escaped(query) == query.flat_map(|c: char| escape_char(c)),
        escaped(a + b) == escaped(a) + escaped(b),
    decreases query.len() + b.len(),
{
    if query.len() > 0 {
        law_escaped_every_separator(query.drop_last(), a, seq![]);
        let f = |c: char| escape_char(c);
        query.drop_last().lemma_flat_map_push(f, query.last());
        assert(query.drop_last().push(query.last()) =~= query);
    } else {
        assert(query.flat_map(|c: char| escape_char(c)) =~= Seq::<char>::empty());
    }
    if b.len() > 0 {
        law_escaped_every_separator(seq![], a, b.drop_last());
        assert((a + b).drop_last() =~= a + b.drop_last());
        assert((a + b).last() == b.last());
        assert(escaped(b) =~= escaped(b.drop_last()) + escape_char(b.last()));
        assert(escaped(a + b) =~= escaped(a + b.drop_last()) + escape_char(b.last()));
    } else {
        assert(a + b =~= a);
        assert(escaped(b) =~= Seq::<char>::empty());
    }
}

/// Whether `char::is_lowercase` holds for a character (the Unicode
/// `Lowercase` property).
pub uninterp spec fn lowercase_property(c: char) -> bool;

/// What `char::to_uppercase` yields for a character (the Unicode uppercase
/// mapping; one to three characters).
pub uninterp spec fn uppercase_mapping(c: char) -> Seq<char>;

/// `char::is_lowercase`: whether `c` has the Unicode `Lowercase` property.
/// The result is named, not described.
#[verifier::external_body]
fn char_is_lowercase(c: char) -> (r: bool)
    ensures
        r == lowercase_property(c),
{
    c.is_lowercase()
}

/// `char::to_uppercase`: the uppercase mapping of `c`, collected into a
/// string. The result is named, not described.
#[verifier::external_body]
fn char_to_uppercase(c: char) -> (r: String)
    ensures
        r@ == uppercase_mapping(c),
{
    c.to_uppercase().collect()
}

/// A character of the escaped query and, for a lowercase one, its
/// uppercase form.
pub open spec fn classified(c: char) -> (char, Option<Seq<char>>) {
    (c, if lowercase_property(c) {
        Some(uppercase_mapping(c))
    } else {
        None
    })
}

/// The view of a classified character.
pub open spec fn class_view(x: (char, Option<String>)) -> (char, Option<Seq<char>>) {
    (x.0, match x.1 {
        Some(u) => Some(u@),
        None => None,
    })
}

/// The pattern built from classified characters: `.*`, then for each
/// character either `[` its uppercase form, itself `]` (a lowercase one
/// matches either case) or itself, followed by `.*` unless it is a
/// backslash.
pub open spec fn pattern_of(classes: Seq<(char, Option<Seq<char>>)>) -> Seq<char>
    decreases classes.len(),
{
    if classes.len() == 0 {
        seq!['.', '*']
    } else {
        let (c, upper) = classes.last();
        let piece = match upper {
            Some(u) => seq!['['] + u + seq![c, ']'],
            None => seq![c],
        };
        pattern_of(classes.drop_last()) + piece + if c != '\\' {
            seq!['.', '*']
        } else {
            seq![]
        }
    }
}

/// The pattern built from classified characters (see `pattern_of`).
pub fn pattern_from_classes(classes: &Vec<(char, Option<String>)>) -> (r: String)
    ensures
        r@ == pattern_of(classes@.map_values(|x: (char, Option<String>)| class_view(x))),
{
    let ghost cv = classes@.map_values(|x: (char, Option<String>)| class_view(x));
    let mut r = String::new();
    push_char(&mut r, '.');
    push_char(&mut r, '*');
    let mut i: usize = 0;
    while i < classes.len()
        invariant
            cv == classes@.map_values(|x: (char, Option<String>)| class_view(x)),
            i <= classes@.len(),
            r@ == pattern_of(cv.take(i as int)),
        decreases classes.len() - i,
    {
        assert(cv.take(i + 1).drop_last() =~= cv.take(i as int));
        let c = classes[i].0;
        match &classes[i].1 {
            Some(upper) => {
                push_char(&mut r, '[');
                r.append(upper.as_str());
                push_char(&mut r, c);
                push_char(&mut r, ']');
            },
            None => {
                push_char(&mut r, c);
            },
        }
        if c != '\\' {
            push_char(&mut r, '.');
            push_char(&mut r, '*');
        }
        assert(r@ =~= pattern_of(cv.take(i + 1)));
        i += 1;
    }
    assert(cv.take(classes@.len() as int) =~= cv);
    r
}

/// The query escaped, each character classified.
fn classify(query: &str) -> (r: Vec<(char, Option<String>)>)
    ensures
        r@.map_values(|x: (char, Option<String>)| class_view(x)) == escaped(query@).map_values(
            |c: char| classified(c),
        ),
{
    let chars = chars_of(query);
    let mut out: Vec<(char, Option<String>)> = Vec::new();
    let mut i: usize = 0;
    while i < chars.len()
        invariant
            chars@ == query@,
            i <= chars@.len(),
            out@.map_values(|x: (char, Option<String>)| class_view(x)) == escaped(
                query@.take(i as int),
            ).map_values(|c: char| classified(c)),
        decreases chars.len() - i,
    {
        let ghost before = out@.map_values(|x: (char, Option<String>)| class_view(x));
        let c = chars[i];
        let ghost piece = if c == '/' || c == '.' {
            seq!['\\', c]
        } else {
            seq![c]
        };
        if c == '/' || c == '.' {
            let e = ('\\', classify_char('\\'));
            out.push(e);
            assert(out@.map_values(|x: (char, Option<String>)| class_view(x)) =~= before.push(
                classified('\\'),
            ));
        }
        let ghost mid = out@.map_values(|x: (char, Option<String>)| class_view(x));
        let e = (c, classify_char(c));
        out.push(e);
        proof {
            assert(out@.map_values(|x: (char, Option<String>)| class_view(x)) =~= mid.push(
                classified(c),
            ));
            assert(query@.take(i + 1).drop_last() =~= query@.take(i as int));
            assert(query@.take(i + 1).last() == c);
            assert(escaped(query@.take(i + 1)) =~= escaped(query@.take(i as int)) + piece);
            assert((escaped(query@.take(i as int)) + piece).map_values(|c: char| classified(c))
                =~= escaped(query@.take(i as int)).map_values(|c: char| classified(c))
                + piece.map_values(|c: char| classified(c)));
            assert(out@.map_values(|x: (char, Option<String>)| class_view(x)) =~= escaped(
                query@.take(i + 1),
            ).map_values(|c: char| classified(c)));
        }
        i += 1;
    }
    assert(query@.take(chars@.len() as int) =~= query@);
    out
}

fn classify_char(c: char) -> (r: Option<String>)
    ensures
        class_view((c, r)) == classified(c),
{
    if char_is_lowercase(c) {
        Some(char_to_uppercase(c))
    } else {
        None
    }
}

/// The pattern an outside search gets for a query: the query escaped, every
/// character allowed to be followed by anything, lowercase letters matching
/// either case.
pub fn fuzzy_pattern(query: &str) -> (r: String)
    ensures
        r@ == pattern_of(escaped(query@).map_values(|c: char| classified(c))),
{
    let classes = classify(query);
    pattern_from_classes(&classes)
}

/// The arguments that select by pattern: directories are matched on their
/// full path.
pub fn search_pattern_args(search_type: FuzzySearch, pattern: String) -> (r: Vec<String>)
    ensures
        search_type is Directories ==> views(r@) == seq!["--full-path"@, pattern@],
        !(search_type is Directories) ==> views(r@) == seq![pattern@],
{
    let mut r: Vec<String> = Vec::new();
    if search_type == FuzzySearch::Directories {
        r.push("--full-path".to_owned());
    }
    let ghost p = pattern@;
    r.push(pattern);
    assert(search_type is Directories ==> views(r@) =~= seq!["--full-path"@, p]);
    assert(!(search_type is Directories) ==> views(r@) =~= seq![p]);
    r
}

} // verus!

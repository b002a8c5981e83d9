//! The file of recently used directories: one directory per line, kept
//! sorted and without repeats, at most `HISTORY_COUNT` of them.

use vstd::prelude::*;
use crate::fuzzy::LineOut;
use crate::text::{
    chars_of, chars_starts_with, has_prefix, lemma_seq_lt_asymmetric,
    lemma_seq_lt_irreflexive, lemma_seq_lt_total, lemma_seq_lt_transitive, lines_of, seq_lt,
    split_lines, str_less, string_from_range, views,
};

verus! {

/// Name of the file, in the editor's data directory.
pub const RECENT_DIR_FILE: &'static str = "recent_directories.txt";

/// How many directories the file keeps.
pub const HISTORY_COUNT: usize = 30;

/// Lines joined with `'\n'` between them (none after the last).
pub open spec fn joined(ls: Seq<Seq<char>>) -> Seq<char>
    decreases ls.len(),
{
    if ls.len() == 0 {
        seq![]
    } else if ls.len() == 1 {
        ls[0]
    } else {
        joined(ls.drop_last()) + seq!['\n'] + ls.last()
    }
}

/// Lines each followed by `'\n'`.
pub open spec fn terminated(ls: Seq<Seq<char>>) -> Seq<char>
    decreases ls.len(),
{
    if ls.len() == 0 {
        seq![]
    } else {
        terminated(ls.drop_last()) + ls.last() + seq!['\n']
    }
}

/// Strictly increasing in lexicographic order (so without repeats).
pub open spec fn strictly_sorted(s: Seq<Seq<char>>) -> bool {
    forall|i: int, j: int| 0 <= i < j < s.len() ==> seq_lt(#[trigger] s[i], #[trigger] s[j])
}

/// Joins lines with `'\n'` between them.
pub fn join_lines(lines: &Vec<String>) -> (r: String)
    ensures
        r@ == joined(views(lines@)),
{
    let mut r = String::new();
    let mut i: usize = 0;
    while i < lines.len()
        invariant
            i <= lines@.len(),
            r@ == joined(views(lines@.take(i as int))),
        decreases lines.len() - i,
    {
        let ghost prev = views(lines@.take(i as int));
        assert(views(lines@.take(i + 1)).drop_last() =~= prev);
        if i != 0 {
            crate::text::push_char(&mut r, '\n');
        }
        r.append(lines[i].as_str());
        assert(views(lines@.take(i + 1)).last() == lines@[i as int]@);
        assert(r@ =~= joined(views(lines@.take(i + 1))));
        i += 1;
    }
    assert(lines@.take(lines@.len() as int) =~= lines@);
    r
}

/// Writes lines each followed by `'\n'`.
pub fn terminate_lines(lines: &Vec<String>, count: usize) -> (r: String)
    requires
        count <= lines@.len(),
    ensures
        r@ == terminated(views(lines@.take(count as int))),
{
    let mut r = String::new();
    let mut i: usize = 0;
    while i < count
        invariant
            count <= lines@.len(),
            i <= count,
            r@ == terminated(views(lines@.take(i as int))),
        decreases count - i,
    {
        assert(views(lines@.take(i + 1)).drop_last() =~= views(lines@.take(i as int)));
        assert(views(lines@.take(i + 1)).last() == lines@[i as int]@);
        r.append(lines[i].as_str());
        crate::text::push_char(&mut r, '\n');
        assert(r@ =~= terminated(views(lines@.take(i + 1))));
        i += 1;
    }
    r
}

/// The file's text once the line at `index` is removed: the other lines,
/// in order, joined with `'\n'`; an index past the last line removes
/// nothing.
pub fn remove_recent_line(contents: &str, index: usize) -> (r: String)
    ensures
        r@ == joined(
            if index < lines_of(contents@).len() {
                lines_of(contents@).remove(index as int)
            } else {
                lines_of(contents@)
            },
        ),
{
    let lines = split_lines(contents);
    let mut kept: Vec<String> = Vec::new();
    let mut i: usize = 0;
    let ghost all = views(lines@);
    while i < lines.len()
        invariant
            all == views(lines@),
            i <= lines@.len(),
            views(kept@) == if index < i {
                all.take(i as int).remove(index as int)
            } else {
                all.take(i as int)
            },
        decreases lines.len() - i,
    {
        let ghost before = kept@;
        if i != index {
            kept.push(lines[i].clone());
        }
        proof {
            if i != index {
                assert(views(kept@) =~= views(before).push(all[i as int]));
            }
            if index < i + 1 {
                assert(all.take(i + 1).remove(index as int) =~= if index < i {
                    all.take(i as int).remove(index as int).push(all[i as int])
                } else {
                    all.take(i as int)
                });
            } else {
                assert(all.take(i + 1) =~= all.take(i as int).push(all[i as int]));
            }
        }
        i += 1;
    }
    assert(all.take(lines@.len() as int) =~= all);
    join_lines(&kept)
}

/// Inserts `x` into a strictly sorted list, unless it is already there.
fn insert_sorted_unique(v: &mut Vec<String>, x: String)
    requires
        strictly_sorted(views(old(v)@)),
    ensures
        strictly_sorted(views(final(v)@)),
        views(final(v)@).to_set() == views(old(v)@).to_set().insert(x@),
{
    let mut p: usize = 0;
    let ghost s = views(v@);
    while p < v.len() && str_less(v[p].as_str(), x.as_str())
        invariant
            s == views(v@),
            p <= v@.len(),
            forall|k: int| 0 <= k < p ==> seq_lt(#[trigger] s[k], x@),
        decreases v.len() - p,
    {
        p += 1;
    }
    if p < v.len() && !str_less(x.as_str(), v[p].as_str()) {
        proof {
            assert(s[p as int] == v@[p as int]@);
            if s[p as int] != x@ {
                lemma_seq_lt_total(s[p as int], x@);
            }
            assert(s.to_set().contains(s[p as int]));
            assert(s.to_set().insert(x@) =~= s.to_set());
        }
        return;
    }
    proof {
        assert forall|k: int| p <= k < s.len() implies seq_lt(x@, #[trigger] s[k]) by {
            assert(seq_lt(x@, s[p as int]));
            if k > p {
                lemma_seq_lt_transitive(x@, s[p as int], s[k]);
            }
        }
    }
    v.insert(p, x);
    proof {
        let t = views(v@);
        assert(t =~= s.insert(p as int, x@));
        assert forall|a: int, b: int| 0 <= a < b < t.len() implies seq_lt(
            #[trigger] t[a],
            #[trigger] t[b],
        ) by {
            if a < p && b > p {
                assert(t[b] == s[b - 1]);
                lemma_seq_lt_transitive(s[a], x@, s[b - 1]);
            } else if a > p {
                assert(t[a] == s[a - 1]);
                assert(t[b] == s[b - 1]);
            } else if b > p {
                assert(t[b] == s[b - 1]);
            }
        }
        assert(t.to_set() =~= s.to_set().insert(x@)) by {
            assert forall|e: Seq<char>| t.to_set().contains(e) <==> s.to_set().insert(x@).contains(e) by {
                if t.to_set().contains(e) {
                    let k = choose|k: int| 0 <= k < t.len() && t[k] == e;
                    if k > p {
                        assert(s[k - 1] == e);
                    } else if k < p {
                        assert(s[k] == e);
                    }
                }
                if s.to_set().contains(e) {
                    let k = choose|k: int| 0 <= k < s.len() && s[k] == e;
                    if k >= p {
                        assert(t[k + 1] == e);
                    } else {
                        assert(t[k] == e);
                    }
                }
                if e == x@ {
                    assert(t[p as int] == e);
                }
            }
        }
    }
}

/// All directories the file will list once `new_dir` is recorded: the new
/// one and the ones already there, sorted, each once.
pub fn history_lines(contents: &str, new_dir: &str) -> (r: Vec<String>)
    ensures
        strictly_sorted(views(r@)),
        views(r@).to_set() == lines_of(contents@).to_set().insert(new_dir@),
{
    let mut list: Vec<String> = Vec::new();
    list.push(new_dir.to_owned());
    let lines = split_lines(contents);
    let ghost all = views(lines@);
    assert(all.take(0) =~= Seq::<Seq<char>>::empty());
    proof {
        all.take(0).lemma_push_to_set_commute(new_dir@);
    }
    assert(views(list@) =~= all.take(0).push(new_dir@));
    assert(views(list@).to_set() =~= all.take(0).to_set().insert(new_dir@));
    let mut i: usize = 0;
    while i < lines.len()
        invariant
            all == views(lines@),
            all == lines_of(contents@),
            i <= lines@.len(),
            strictly_sorted(views(list@)),
            views(list@).to_set() == all.take(i as int).to_set().insert(new_dir@),
        decreases lines.len() - i,
    {
        insert_sorted_unique(&mut list, lines[i].clone());
        assert(all.take(i + 1) =~= all.take(i as int).push(all[i as int]));
        proof {
            all.take(i as int).lemma_push_to_set_commute(all[i as int]);
        }
        assert(all.take(i + 1).to_set() =~= all.take(i as int).to_set().insert(all[i as int]));
        assert(views(list@).to_set() =~= all.take(i + 1).to_set().insert(new_dir@));
        i += 1;
    }
    assert(all.take(lines@.len() as int) =~= all);
    list
}

/// How many of `n` directories the file keeps.
pub open spec fn kept_count(n: nat) -> int {
    if n < HISTORY_COUNT {
        n as int
    } else {
        HISTORY_COUNT as int
    }
}

/// `out` is the file's text once `new_dir` is recorded in a file holding
/// `contents`: the directories already listed and the new one, sorted and
/// each once, of which the first `HISTORY_COUNT` are written each on a line
/// of its own.
pub open spec fn stores(contents: Seq<char>, new_dir: Seq<char>, out: Seq<char>) -> bool {
    exists|all: Seq<Seq<char>>|
        {
            &&& strictly_sorted(all)
            &&& #[trigger] all.to_set() == lines_of(contents).to_set().insert(new_dir)
            &&& out == terminated(all.take(kept_count(all.len())))
        }
}

/// The file's text once `new_dir` is recorded (see `stores`).
pub fn store_directory(contents: &str, new_dir: &str) -> (r: String)
    ensures
        stores(contents@, new_dir@, r@),
{
    let list = history_lines(contents, new_dir);
    let count = if list.len() < HISTORY_COUNT {
        list.len()
    } else {
        HISTORY_COUNT
    };
    let r = terminate_lines(&list, count);
    assert(views(list@.take(count as int)) =~= views(list@).take(count as int));
    assert(views(list@).to_set() == lines_of(contents@).to_set().insert(new_dir@));
    r
}

/// A text on one line: no line feed and no carriage return.
pub open spec fn single_line(s: Seq<char>) -> bool {
    forall|i: int| 0 <= i < s.len() ==> s[i] != '\n' && s[i] != '\r'
}

proof fn lemma_newline_index_free(s: Seq<char>)
    ensures
        crate::text::newline_index(s) <= s.len(),
        forall|k: int| 0 <= k < crate::text::newline_index(s) ==> s[k] != '\n',
        crate::text::newline_index(s) < s.len() ==> s[crate::text::newline_index(s) as int]
            == '\n',
    decreases s.len(),
{
    if s.len() > 0 && s[0] != '\n' {
        lemma_newline_index_free(s.drop_first());
        assert forall|k: int| 0 <= k < crate::text::newline_index(s) implies s[k] != '\n' by {
            if k > 0 {
                assert(s[k] == s.drop_first()[k - 1]);
            }
        }
    }
}

/// The lines of a text without carriage returns are each on one line.
proof fn lemma_lines_single(s: Seq<char>)
    requires
        forall|i: int| 0 <= i < s.len() ==> s[i] != '\r',
    ensures
        forall|k: int| 0 <= k < lines_of(s).len() ==> single_line(#[trigger] lines_of(s)[k]),
    decreases s.len(),
{
    if s.len() > 0 {
        let p = crate::text::newline_index(s);
        lemma_newline_index_free(s);
        if p < s.len() {
            let rest = s.skip(p + 1int);
            lemma_lines_single(rest);
            let head = crate::text::strip_cr(s.take(p as int));
            assert(single_line(head));
            assert forall|k: int| 0 <= k < lines_of(s).len() implies single_line(
                #[trigger] lines_of(s)[k],
            ) by {
                if k > 0 {
                    assert(lines_of(s)[k] == lines_of(rest)[k - 1]);
                }
            }
        }
    }
}

/// Lines each written with a line feed after it are read back as they
/// were, when each is on one line.
proof fn lemma_lines_of_terminated(ls: Seq<Seq<char>>)
    requires
        forall|k: int| 0 <= k < ls.len() ==> single_line(#[trigger] ls[k]),
    ensures
        lines_of(terminated(ls)) == ls,
    decreases ls.len(),
{
    if ls.len() == 0 {
        assert(lines_of(Seq::<char>::empty()) =~= Seq::<Seq<char>>::empty());
    } else {
        let front = ls.drop_last();
        assert forall|k: int| 0 <= k < front.len() implies single_line(#[trigger] front[k]) by {
            assert(front[k] == ls[k]);
        }
        lemma_lines_of_terminated(front);
        let last = ls.last();
        assert(single_line(ls[ls.len() - 1]));
        let prefix = terminated(front);
        assert(prefix.len() == 0 || prefix.last() == '\n') by {
            if front.len() > 0 {
                assert(prefix == terminated(front.drop_last()) + front.last() + seq!['\n']);
            }
        }
        crate::debug::law_log_appends_line(prefix, last);
        assert(terminated(ls) =~= prefix + last.push('\n'));
        assert(ls =~= front.push(last));
    }
}

/// Lines joined with line feeds between them, and one more line feed, are
/// the lines each followed by a line feed.
proof fn lemma_joined_push_newline(ls: Seq<Seq<char>>)
    requires
        ls.len() > 0,
    ensures
        joined(ls).push('\n') == terminated(ls),
    decreases ls.len(),
{
    if ls.len() == 1 {
        assert(terminated(ls.drop_last()) =~= Seq::<char>::empty());
        assert(joined(ls).push('\n') =~= terminated(ls));
    } else {
        lemma_joined_push_newline(ls.drop_last());
        assert(joined(ls).push('\n') =~= terminated(ls));
    }
}

/// A text that ends in a character other than a line feed or a carriage
/// return reads the same with a line feed after it.
proof fn lemma_lines_of_push_newline(x: Seq<char>)
    requires
        x.len() > 0,
        x.last() != '\n',
        x.last() != '\r',
    ensures
        lines_of(x.push('\n')) == lines_of(x),
    decreases x.len(),
{
    let y = x.push('\n');
    lemma_newline_index_free(x);
    let p = crate::text::newline_index(x) as int;
    if p >= x.len() {
        assert(y.skip(0) =~= y);
        crate::text::lemma_newline_index(y, 0, x.len() as int);
        assert(y.take(x.len() as int) =~= x);
        assert(y.skip(x.len() + 1int) =~= Seq::<char>::empty());
        assert(lines_of(Seq::<char>::empty()) =~= Seq::<Seq<char>>::empty());
        assert(lines_of(y) =~= seq![x]);
    } else {
        assert(y.skip(0) =~= y);
        crate::text::lemma_newline_index(y, 0, p);
        assert(y.take(p) =~= x.take(p));
        let rest = x.skip(p + 1);
        assert(y.skip(p + 1) =~= rest.push('\n'));
        assert(p < x.len() - 1);
        assert(rest.last() == x.last());
        lemma_lines_of_push_newline(rest);
    }
}

/// The file read back after a line is removed lists the other lines, in
/// order, when its lines are each on one line and none is empty.
pub proof fn law_remove_reads_back(contents: Seq<char>, index: int)
    requires
        forall|i: int| 0 <= i < contents.len() ==> contents[i] != '\r',
        forall|k: int| 0 <= k < lines_of(contents).len() ==> (#[trigger] lines_of(contents)[k]).len() > 0,
        0 <= index < lines_of(contents).len(),
    ensures
        lines_of(joined(lines_of(contents).remove(index))) == lines_of(contents).remove(index),
{
    let kept = lines_of(contents).remove(index);
    lemma_lines_single(contents);
    if kept.len() == 0 {
        assert(lines_of(Seq::<char>::empty()) =~= Seq::<Seq<char>>::empty());
    } else {
        assert forall|k: int| 0 <= k < kept.len() implies single_line(#[trigger] kept[k]) && kept[k].len() > 0 by {
            if k < index {
                assert(kept[k] == lines_of(contents)[k]);
            } else {
                assert(kept[k] == lines_of(contents)[k + 1]);
            }
        }
        let last = kept[kept.len() - 1];
        assert(single_line(last) && last.len() > 0);
        lemma_joined_push_newline(kept);
        lemma_lines_of_terminated(kept);
        let text = joined(kept);
        assert(text.len() > 0 && text.last() == last.last()) by {
            if kept.len() > 1 {
                assert(text == joined(kept.drop_last()) + seq!['\n'] + kept.last());
            }
        }
        assert(last[last.len() - 1] != '\n' && last[last.len() - 1] != '\r');
        lemma_lines_of_push_newline(text);
    }
}

/// The first `n` elements of a strictly sorted sequence are strictly
/// sorted.
proof fn lemma_sorted_take(all: Seq<Seq<char>>, n: int)
    requires
        strictly_sorted(all),
        0 <= n <= all.len(),
    ensures
        strictly_sorted(all.take(n)),
{
    assert forall|i: int, j: int| 0 <= i < j < all.take(n).len() implies seq_lt(
        #[trigger] all.take(n)[i],
        #[trigger] all.take(n)[j],
    ) by {
        assert(all.take(n)[i] == all[i]);
        assert(all.take(n)[j] == all[j]);
    }
}

/// Recording the same directory twice writes what recording it once
/// wrote, for a file without carriage returns and a directory on one line.
pub proof fn law_store_idempotent(
    contents: Seq<char>,
    new_dir: Seq<char>,
    once: Seq<char>,
    twice: Seq<char>,
)
    requires
        forall|i: int| 0 <= i < contents.len() ==> contents[i] != '\r',
        single_line(new_dir),
        stores(contents, new_dir, once),
        stores(once, new_dir, twice),
    ensures
        twice == once,
{
    let all1 = choose|all: Seq<Seq<char>>|
        {
            &&& strictly_sorted(all)
            &&& #[trigger] all.to_set() == lines_of(contents).to_set().insert(new_dir)
            &&& once == terminated(all.take(kept_count(all.len())))
        };
    let n1 = kept_count(all1.len());
    let t1 = all1.take(n1);
    lemma_lines_single(contents);
    assert forall|k: int| 0 <= k < t1.len() implies single_line(#[trigger] t1[k]) by {
        let x = t1[k];
        assert(x == all1[k]);
        assert(all1.to_set().contains(x));
        if x != new_dir {
            assert(lines_of(contents).to_set().contains(x));
            let m = choose|m: int| 0 <= m < lines_of(contents).len() && lines_of(contents)[m] == x;
            assert(single_line(lines_of(contents)[m]));
        }
    }
    lemma_lines_of_terminated(t1);
    assert(lines_of(once) == t1);
    lemma_sorted_take(all1, n1);

    let all2 = choose|all: Seq<Seq<char>>|
        {
            &&& strictly_sorted(all)
            &&& #[trigger] all.to_set() == lines_of(once).to_set().insert(new_dir)
            &&& twice == terminated(all.take(kept_count(all.len())))
        };
    if t1.contains(new_dir) {
        assert(t1.to_set().insert(new_dir) =~= t1.to_set());
        law_sorted_listing_unique(all2, t1);
        assert(all2.take(kept_count(all2.len())) =~= t1);
    } else {
        assert(all1.to_set().contains(new_dir));
        let j = choose|j: int| 0 <= j < all1.len() && all1[j] == new_dir;
        assert(j >= n1) by {
            if j < n1 {
                assert(t1[j] == new_dir);
            }
        }
        assert(n1 == HISTORY_COUNT);
        let t2 = t1.push(new_dir);
        assert(strictly_sorted(t2)) by {
            assert forall|a: int, b: int| 0 <= a < b < t2.len() implies seq_lt(
                #[trigger] t2[a],
                #[trigger] t2[b],
            ) by {
                assert(t2[a] == all1[a]);
                if b < t1.len() {
                    assert(t2[b] == all1[b]);
                } else {
                    assert(t2[b] == all1[j]);
                }
            }
        }
        t1.lemma_push_to_set_commute(new_dir);
        law_sorted_listing_unique(all2, t2);
        assert(all2.take(kept_count(all2.len())) =~= t1);
    }
}

/// A strictly sorted sequence is determined by its elements: two of them
/// holding the same elements are equal.
pub proof fn law_sorted_listing_unique(a: Seq<Seq<char>>, b: Seq<Seq<char>>)
    requires
        strictly_sorted(a),
        strictly_sorted(b),
        a.to_set() == b.to_set(),
    ensures
        a == b,
    decreases a.len(),
{
    if a.len() == 0 {
        if b.len() > 0 {
            assert(b.to_set().contains(b[0]));
        }
        assert(a =~= b);
    } else if b.len() == 0 {
        assert(a.to_set().contains(a[0]));
    } else {
        assert(b.to_set().contains(a[0]));
        assert(a.to_set().contains(b[0]));
        let j = choose|j: int| 0 <= j < b.len() && b[j] == a[0];
        let k = choose|k: int| 0 <= k < a.len() && a[k] == b[0];
        if j > 0 {
            if k > 0 {
                lemma_seq_lt_transitive(a[0], a[k], b[j]);
                lemma_seq_lt_irreflexive(a[0]);
            } else {
                lemma_seq_lt_irreflexive(b[0]);
            }
        }
        assert(a[0] == b[0]);
        let a1 = a.drop_first();
        let b1 = b.drop_first();
        assert(a1.to_set() =~= b1.to_set()) by {
            assert forall|e: Seq<char>| a1.to_set().contains(e) implies b1.to_set().contains(e) by {
                let i = choose|i: int| 0 <= i < a1.len() && a1[i] == e;
                assert(a.to_set().contains(e));
                let m = choose|m: int| 0 <= m < b.len() && b[m] == e;
                if m == 0 {
                    assert(seq_lt(a[0], a[i + 1]));
                    lemma_seq_lt_irreflexive(e);
                }
                assert(b1[m - 1] == e);
            }
            assert forall|e: Seq<char>| b1.to_set().contains(e) implies a1.to_set().contains(e) by {
                let i = choose|i: int| 0 <= i < b1.len() && b1[i] == e;
                assert(b.to_set().contains(e));
                let m = choose|m: int| 0 <= m < a.len() && a[m] == e;
                if m == 0 {
                    assert(seq_lt(b[0], b[i + 1]));
                    lemma_seq_lt_irreflexive(e);
                }
                assert(a1[m - 1] == e);
            }
        }
        law_sorted_listing_unique(a1, b1);
        assert(a =~= seq![a[0]] + a1);
        assert(b =~= seq![b[0]] + b1);
    }
}

/// The directories a recent-directories file lists below `home`: each line
/// starting with `home` and a `/`, without that start; other lines are
/// left out.
pub open spec fn recent_entries(lines: Seq<Seq<char>>, root: Seq<char>) -> Seq<Seq<char>>
    decreases lines.len(),
{
    if lines.len() == 0 {
        seq![]
    } else {
        let rest = recent_entries(lines.drop_last(), root);
        if has_prefix(lines.last(), root) {
            rest.push(lines.last().skip(root.len() as int))
        } else {
            rest
        }
    }
}

/// The result lines for a recent-directories file: one directory line for
/// each entry below `home` (see `recent_entries`).
pub fn recent_directory_lines(contents: &str, home: &str) -> (r: Vec<LineOut>)
    ensures
        r@.len() == recent_entries(lines_of(contents@), home@.push('/')).len(),
        forall|i: int|
            0 <= i < r@.len() ==> {
                &&& (#[trigger] r@[i]).text@ == recent_entries(
                    lines_of(contents@),
                    home@.push('/'),
                )[i]
                &&& r@[i].icon@.len() == 0
                &&& r@[i].hl_group@ == "Directory"@
                &&& r@[i].git_root@.len() == 0
            },
{
    let mut root = home.to_owned();
    crate::text::push_char(&mut root, '/');
    let croot = chars_of(root.as_str());
    let lines = split_lines(contents);
    let ghost all = views(lines@);
    let mut out: Vec<LineOut> = Vec::new();
    let mut i: usize = 0;
    while i < lines.len()
        invariant
            all == views(lines@),
            all == lines_of(contents@),
            croot@ == home@.push('/'),
            i <= lines@.len(),
            out@.len() == recent_entries(all.take(i as int), croot@).len(),
            forall|k: int|
                0 <= k < out@.len() ==> {
                    &&& (#[trigger] out@[k]).text@ == recent_entries(all.take(i as int), croot@)[k]
                    &&& out@[k].icon@.len() == 0
                    &&& out@[k].hl_group@ == "Directory"@
                    &&& out@[k].git_root@.len() == 0
                },
        decreases lines.len() - i,
    {
        let cl = chars_of(lines[i].as_str());
        assert(all.take(i + 1).drop_last() =~= all.take(i as int));
        assert(all.take(i + 1).last() == all[i as int]);
        if chars_starts_with(&cl, &croot) {
            let rest = string_from_range(&cl, croot.len(), cl.len());
            assert(rest@ =~= all[i as int].skip(croot@.len() as int));
            out.push(LineOut::directory(rest.as_str()));
        }
        i += 1;
    }
    assert(all.take(lines@.len() as int) =~= all);
    out
}

} // verus!

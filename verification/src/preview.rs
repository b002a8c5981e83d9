//! What the preview window shows for the selected result: a directory
//! listing or the lines of a file.

use vstd::prelude::*;
use crate::fuzzy::{BINARY_FILE, EMPTY_DIRECTORY};
use crate::path::{extension_of, path_extension};
use crate::text::{
    lemma_seq_lt_asymmetric, lemma_seq_lt_transitive, lines_of, seq_lt, split_lines, str_eq,
    str_ends_with_char, str_less, views,
};

verus! {

broadcast use vstd::seq_lib::group_to_multiset_ensures;

/// Builds previews; the reading of files and directories is left to the
/// caller, which hands the contents in.
pub struct Preview;

/// File extensions whose files are not shown.
pub open spec fn binary_extensions() -> Seq<Seq<char>> {
    seq![
        "bin"@,
        "so"@,
        "mkv"@,
        "mp4"@,
        "blend"@,
        "jpg"@,
        "png"@,
        "jpeg"@,
        "webp"@,
    ]
}

/// Whether a file is binary, judged by its extension.
pub open spec fn is_binary_spec(path: Seq<char>) -> bool {
    match extension_of(path) {
        Some(ext) => binary_extensions().contains(ext),
        None => false,
    }
}

/// A file is binary exactly when its extension is `bin`, `so`, `mkv`,
/// `mp4`, `blend`, `jpg`, `png`, `jpeg` or `webp`.
pub proof fn law_binary_extensions(path: Seq<char>)
    ensures
        is_binary_spec(path) <==> (extension_of(path) matches Some(e) && (e == "bin"@ || e == "so"@
            || e == "mkv"@ || e == "mp4"@ || e == "blend"@ || e == "jpg"@ || e == "png"@ || e
            == "jpeg"@ || e == "webp"@)),
{
    let b = binary_extensions();
    if let Some(e) = extension_of(path) {
        if b.contains(e) {
            let i = choose|i: int| 0 <= i < b.len() && b[i] == e;
            assert(0 <= i < 9);
        }
        if e == "bin"@ { assert(b[0] == e); }
        if e == "so"@ { assert(b[1] == e); }
        if e == "mkv"@ { assert(b[2] == e); }
        if e == "mp4"@ { assert(b[3] == e); }
        if e == "blend"@ { assert(b[4] == e); }
        if e == "jpg"@ { assert(b[5] == e); }
        if e == "png"@ { assert(b[6] == e); }
        if e == "jpeg"@ { assert(b[7] == e); }
        if e == "webp"@ { assert(b[8] == e); }
    }
}

/// Whether the file at `path` is binary, judged by its extension.
pub fn is_binary(path: &str) -> (r: bool)
    ensures
        r == is_binary_spec(path@),
{
    let binaries: Vec<&str> = vec!["bin", "so", "mkv", "mp4", "blend", "jpg", "png", "jpeg", "webp"];
    let ghost bins = binary_extensions();
    assert(binaries@.map_values(|s: &str| s@) =~= bins);
    match path_extension(path) {
        None => false,
        Some(ext) => {
            assert(extension_of(path@) == Some(ext@));
            let mut i: usize = 0;
            while i < binaries.len()
                invariant
                    i <= binaries@.len(),
                    binaries@.map_values(|s: &str| s@) == bins,
                    forall|k: int| 0 <= k < i ==> bins[k] != ext@,
                    extension_of(path@) == Some(ext@),
                    bins == binary_extensions(),
                decreases binaries.len() - i,
            {
                assert(binaries@[i as int]@ == bins[i as int]);
                if str_eq(binaries[i], ext.as_str()) {
                    assert(bins[i as int] == ext@);
                    assert(bins.contains(ext@));
                    return true;
                }
                i += 1;
            }
            false
        },
    }
}

/// Whether a listing entry is a directory (it ends in `/`).
pub open spec fn is_dir_item(a: Seq<char>) -> bool {
    a.len() > 0 && a.last() == '/'
}

/// Listing order: directories before files, and alphabetical within each.
pub open spec fn item_before(a: Seq<char>, b: Seq<char>) -> bool {
    if is_dir_item(a) == is_dir_item(b) {
        seq_lt(a, b)
    } else {
        is_dir_item(a)
    }
}

proof fn lemma_item_before_transitive(a: Seq<char>, b: Seq<char>, c: Seq<char>)
    requires
        item_before(a, b),
        item_before(b, c),
    ensures
        item_before(a, c),
{
    if is_dir_item(a) == is_dir_item(b) && is_dir_item(b) == is_dir_item(c) {
        lemma_seq_lt_transitive(a, b, c);
    }
}

proof fn lemma_item_before_asymmetric(a: Seq<char>, b: Seq<char>)
    requires
        item_before(a, b),
    ensures
        !item_before(b, a),
{
    if is_dir_item(a) == is_dir_item(b) {
        lemma_seq_lt_asymmetric(a, b);
    }
}

/// `s` is in listing order.
pub open spec fn in_listing_order(s: Seq<Seq<char>>) -> bool {
    forall|i: int, j: int| 0 <= i < j < s.len() ==> !item_before(#[trigger] s[j], #[trigger] s[i])
}

/// Whether `a` comes before `b` in listing order.
fn listing_before(a: &str, b: &str) -> (r: bool)
    ensures
        r == item_before(a@, b@),
{
    let da = str_ends_with_char(a, '/');
    let db = str_ends_with_char(b, '/');
    if da == db {
        str_less(a, b)
    } else {
        da
    }
}

/// Sorts listing entries: directories first, each group alphabetically;
/// equal entries keep their order.
pub fn sort_listing(items: Vec<String>) -> (r: Vec<String>)
    ensures
        in_listing_order(views(r@)),
        views(r@).to_multiset() == views(items@).to_multiset(),
{
    let mut out: Vec<String> = Vec::new();
    let mut i: usize = 0;
    let n = items.len();
    let mut items = items;
    let ghost unsorted = items@;
    while i < n
        invariant
            n == unsorted.len(),
            items@ == unsorted,
            i <= n,
            in_listing_order(views(out@)),
            views(out@).to_multiset() == views(unsorted.take(i as int)).to_multiset(),
        decreases n - i,
    {
        let x = items[i].clone();
        let mut p: usize = 0;
        while p < out.len() && !listing_before(x.as_str(), out[p].as_str())
            invariant
                p <= out@.len(),
                forall|k: int| 0 <= k < p ==> !item_before(x@, #[trigger] out@[k]@),
            decreases out.len() - p,
        {
            p += 1;
        }
        let ghost before = views(out@);
        proof {
            assert forall|k: int| p <= k < before.len() implies !item_before(
                #[trigger] before[k],
                x@,
            ) by {
                assert(item_before(x@, before[p as int]));
                if k == p {
                    lemma_item_before_asymmetric(x@, before[p as int]);
                } else if item_before(before[k], x@) {
                    lemma_item_before_transitive(before[k], x@, before[p as int]);
                    assert(!item_before(before[k], before[p as int]));
                }
            }
        }
        out.insert(p, x);
        proof {
            assert(views(out@) =~= before.insert(p as int, x@));
            assert(unsorted.take(i + 1) =~= unsorted.take(i as int).push(unsorted[i as int]));
            assert(views(unsorted.take(i + 1)) =~= views(unsorted.take(i as int)).push(x@));
            vstd::seq_lib::to_multiset_insert(before, p as int, x@);
            vstd::seq_lib::to_multiset_build(views(unsorted.take(i as int)), x@);
            let after = views(out@);
            assert forall|a: int, b: int| 0 <= a < b < after.len() implies !item_before(
                #[trigger] after[b],
                #[trigger] after[a],
            ) by {
                if a < p && b < p {
                } else if a < p && b == p {
                } else if a < p && b > p {
                    assert(after[b] == before[b - 1]);
                } else if a == p {
                    assert(after[b] == before[b - 1]);
                } else {
                    assert(after[a] == before[a - 1]);
                    assert(after[b] == before[b - 1]);
                }
            }
        }
        i += 1;
    }
    proof {
        assert(unsorted.take(n as int) =~= unsorted);
    }
    out
}

/// The preview of a directory whose entries are given with whether each is a
/// directory: directory names get a trailing `/`, directories come first,
/// each group in alphabetical order, and an empty directory shows a notice.
pub open spec fn listing_names(entries: Seq<(String, bool)>) -> Seq<Seq<char>> {
    entries.map_values(|e: (String, bool)| if e.1 {
        e.0@.push('/')
    } else {
        e.0@
    })
}

impl Preview {
    /// The lines previewing a directory with the given entries.
    pub fn directory_lines(entries: &Vec<(String, bool)>) -> (r: Vec<String>)
        ensures
            entries@.len() == 0 ==> views(r@) == seq![EMPTY_DIRECTORY@],
            entries@.len() > 0 ==> in_listing_order(views(r@)) && views(r@).to_multiset()
                == listing_names(entries@).to_multiset(),
    {
        let mut items: Vec<String> = Vec::new();
        let mut i: usize = 0;
        while i < entries.len()
            invariant
                i <= entries@.len(),
                views(items@) == listing_names(entries@.take(i as int)),
            decreases entries.len() - i,
        {
            let ghost e = entries@[i as int];
            let mut name = entries[i].0.clone();
            if entries[i].1 {
                crate::text::push_char(&mut name, '/');
            }
            assert(name@ == (if e.1 {
                e.0@.push('/')
            } else {
                e.0@
            }));
            let ghost before = items@;
            items.push(name);
            proof {
                assert(items@ =~= before.push(name));
                assert(views(items@) =~= views(before).push(name@));
                assert(entries@.take(i + 1) =~= entries@.take(i as int).push(e));
                assert(listing_names(entries@.take(i + 1)) =~= listing_names(
                    entries@.take(i as int),
                ).push(name@));
            }
            i += 1;
        }
        proof {
            assert(entries@.take(entries@.len() as int) =~= entries@);
        }
        let ghost names = views(items@);
        let mut sorted = sort_listing(items);
        proof {
            vstd::seq_lib::to_multiset_len(names);
            vstd::seq_lib::to_multiset_len(views(sorted@));
            assert(names.len() == entries@.len());
        }
        if sorted.len() == 0 {
            sorted.push(EMPTY_DIRECTORY.to_owned());
            assert(views(sorted@) =~= seq![EMPTY_DIRECTORY@]);
        }
        sorted
    }

    /// The lines previewing a text file with the given contents.
    pub fn file_lines(contents: &str) -> (r: Vec<String>)
        ensures
            views(r@) == lines_of(contents@),
    {
        split_lines(contents)
    }

    /// The preview of a binary file: a single notice.
    pub fn binary_lines() -> (r: Vec<String>)
        ensures
            views(r@) == seq![BINARY_FILE@],
    {
        let mut r: Vec<String> = Vec::new();
        r.push(BINARY_FILE.to_owned());
        assert(views(r@) =~= seq![BINARY_FILE@]);
        r
    }
}

} // verus!

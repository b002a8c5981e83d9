//! File icons: which icon and highlight group a path is shown with.

use vstd::prelude::*;
use crate::path::{extension_of, opt_view, path_extension};
use crate::text::str_eq;

verus! {

/// An icon, the color it is drawn in and the name of its highlight group
/// (without the `DevIcon` prefix).
#[derive(Clone, Copy)]
pub struct DevIcon {
    pub icon: &'static str,
    pub color: &'static str,
    pub name: &'static str,
}

/// The icon found for a path and its highlight group.
pub struct IconResult {
    pub icon: &'static str,
    pub highlight: String,
}

/// The icon tables, keyed by whole file name, by extension, and by the
/// names of operating systems, desktop environments and window managers.
/// A key listed more than once takes its last entry.
pub struct IconTable {
    pub from_file_name: Vec<(&'static str, DevIcon)>,
    pub from_extension: Vec<(&'static str, DevIcon)>,
    pub from_os: Vec<(&'static str, DevIcon)>,
    pub from_de: Vec<(&'static str, DevIcon)>,
    pub from_wm: Vec<(&'static str, DevIcon)>,
}

/// The icon a table gives `key`: that of its last entry with this key.
pub open spec fn lookup(entries: Seq<(&'static str, DevIcon)>, key: Seq<char>) -> Option<DevIcon>
    decreases entries.len(),
{
    if entries.len() == 0 {
        None
    } else if entries.last().0@ == key {
        Some(entries.last().1)
    } else {
        lookup(entries.drop_last(), key)
    }
}

/// The icon of a path: by its whole text among file names, else by its
/// extension, else by its whole text among operating systems, desktop
/// environments and window managers, else the icon of `txt` files.
pub open spec fn icon_for(t: IconTable, path: Seq<char>) -> Option<DevIcon> {
    if lookup(t.from_file_name@, path) is Some {
        lookup(t.from_file_name@, path)
    } else if extension_of(path) is Some && lookup(
        t.from_extension@,
        extension_of(path).unwrap(),
    ) is Some {
        lookup(t.from_extension@, extension_of(path).unwrap())
    } else if lookup(t.from_os@, path) is Some {
        lookup(t.from_os@, path)
    } else if lookup(t.from_de@, path) is Some {
        lookup(t.from_de@, path)
    } else if lookup(t.from_wm@, path) is Some {
        lookup(t.from_wm@, path)
    } else {
        lookup(t.from_extension@, "txt"@)
    }
}

/// A table gives a key the icon of the last entry listed with that key.
pub proof fn law_lookup_last_entry(entries: Seq<(&'static str, DevIcon)>, key: Seq<char>, i: int)
    requires
        0 <= i < entries.len(),
        entries[i].0@ == key,
        forall|j: int| i < j < entries.len() ==> (#[trigger] entries[j]).0@ != key,
    ensures
        lookup(entries, key) == Some(entries[i].1),
    decreases entries.len(),
{
    if i < entries.len() - 1 {
        assert(entries.last() == entries[entries.len() - 1]);
        law_lookup_last_entry(entries.drop_last(), key, i);
    }
}

/// A path listed among file names is shown with that icon, whatever its
/// extension and the other tables give; only a path with no such entry is
/// shown with the icon of its extension, when that has one; a path no table
/// knows is shown with the icon of `txt` files.
pub proof fn law_file_name_first(
    t: IconTable,
    path: Seq<char>,
    named: DevIcon,
    ext: Seq<char>,
    by_ext: DevIcon,
)
    ensures
        lookup(t.from_file_name@, path) == Some(named) ==> icon_for(t, path) == Some(named),
        lookup(t.from_file_name@, path) is None && extension_of(path) == Some(ext) && lookup(
            t.from_extension@,
            ext,
        ) == Some(by_ext) ==> icon_for(t, path) == Some(by_ext),
        lookup(t.from_file_name@, path) is None && (extension_of(path) is None || lookup(
            t.from_extension@,
            extension_of(path).unwrap(),
        ) is None) && lookup(t.from_os@, path) is None && lookup(t.from_de@, path) is None
            && lookup(t.from_wm@, path) is None ==> icon_for(t, path) == lookup(
            t.from_extension@,
            "txt"@,
        ),
{
}

/// Looks `key` up in one table (see `lookup`).
pub fn find_icon(entries: &Vec<(&'static str, DevIcon)>, key: &str) -> (r: Option<DevIcon>)
    ensures
        r == lookup(entries@, key@),
{
    let mut i = entries.len();
    assert(entries@.take(i as int) =~= entries@);
    while i > 0
        invariant
            i <= entries@.len(),
            lookup(entries@, key@) == lookup(entries@.take(i as int), key@),
        decreases i,
    {
        let ghost prefix = entries@.take(i as int);
        assert(prefix.drop_last() =~= entries@.take(i - 1));
        if str_eq(entries[i - 1].0, key) {
            return Some(entries[i - 1].1);
        }
        i -= 1;
    }
    None
}

impl DevIcon {
    /// The highlight group of the icon: `DevIcon` followed by its name.
    pub fn highlight_group(&self) -> (r: String)
        ensures
            r@ == "DevIcon"@ + self.name@,
    {
        let mut s = "DevIcon".to_owned();
        s.append(self.name);
        s
    }

    /// The icon and highlight group for `path` (see `icon_for`).
    pub fn get_icon(table: &IconTable, path: &str) -> (r: IconResult)
        requires
            lookup(table.from_extension@, "txt"@) is Some,
        ensures
            r.icon@ == icon_for(*table, path@).unwrap().icon@,
            r.highlight@ == "DevIcon"@ + icon_for(*table, path@).unwrap().name@,
    {
        let found = match find_icon(&table.from_file_name, path) {
            Some(icon) => icon,
            None => {
                let by_extension = match path_extension(path) {
                    Some(ext) => find_icon(&table.from_extension, ext.as_str()),
                    None => None,
                };
                match by_extension {
                    Some(icon) => icon,
                    None => match find_icon(&table.from_os, path) {
                        Some(icon) => icon,
                        None => match find_icon(&table.from_de, path) {
                            Some(icon) => icon,
                            None => match find_icon(&table.from_wm, path) {
                                Some(icon) => icon,
                                None => find_icon(&table.from_extension, "txt").unwrap(),
                            },
                        },
                    },
                }
            },
        };
        IconResult { icon: found.icon, highlight: found.highlight_group() }
    }
}

} // verus!

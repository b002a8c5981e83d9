//! The SQL the result store runs: the tables, the queries, and the text
//! built for a search or an insertion. Running it is left to the caller.

use vstd::prelude::*;
use crate::text::push_char;

verus! {

/// The in-memory table of search results.
pub const CREATE_ALL_LINES: &'static str = "CREATE TABLE all_lines (
                icon        TEXT NOT NULL,
                hl_group    TEXT NOT NULL,
                path_prefix TEXT NOT NULL,
                path_suffix TEXT PRIMARY KEY,
                line_nr     INTEGER
            )";

/// The table of recently used directories.
pub const CREATE_RECENT_DIRECTORIES: &'static str = "CREATE TABLE IF NOT EXISTS recent_directories (
                path_prefix    TEXT NOT NULL,
                path_suffix    TEXT NOT NULL UNIQUE
            )";

/// The table of settings.
pub const CREATE_SETTINGS: &'static str = "CREATE TABLE IF NOT EXISTS settings (
                directory_tab INTEGER NOT NULL
            )";

/// Counts the stored results.
pub const COUNT_ALL_LINES: &'static str = "SELECT COUNT(*) FROM all_lines";

/// The best matching results: bound to a `LIKE` pattern and the query.
pub const SEARCH_LINES: &'static str = "
            SELECT 
                *
            FROM 
                all_lines 
            WHERE path_suffix like ?
            ORDER BY fuzzy_score(?, path_suffix) LIMIT 300
            ";

/// The best matching results below one prefix: bound to the prefix, a
/// `LIKE` pattern and the query.
pub const SEARCH_PROJECT_LINES: &'static str = "
            SELECT 
                *
            FROM 
                all_lines 
            WHERE path_prefix = ? AND path_suffix like ? 
            ORDER BY fuzzy_score(?, path_suffix) LIMIT 300
            ";

/// Remembers a directory: bound to its prefix and suffix.
pub const INSERT_RECENT_DIRECTORY: &'static str = "INSERT OR IGNORE INTO recent_directories (path_prefix, path_suffix) 
                VALUES (?, ?)";

/// The best matching recent directories: bound to a `LIKE` pattern and the
/// query.
pub const SEARCH_RECENT_DIRECTORIES: &'static str = "
            SELECT 
                *
            FROM 
                recent_directories 
            WHERE path_suffix like ? 
            ORDER BY fuzzy_score(?, path_suffix) LIMIT 300
            ";

/// Forgets a recent directory: bound to its suffix.
pub const DELETE_RECENT_DIRECTORY: &'static str = "DELETE FROM recent_directories WHERE path_suffix = ?";

/// Empties the result table.
pub const DELETE_ALL_LINES: &'static str = "DELETE FROM all_lines";

/// How many results one insertion statement carries at most.
pub const INSERT_CHUNK: usize = 1000;

/// The `LIKE` pattern of a query: its characters in order, with `%` before,
/// between and after them, so that any text holding them in order matches.
pub open spec fn like_pattern_spec(query: Seq<char>) -> Seq<char>
    decreases query.len(),
{
    if query.len() == 0 {
        seq!['%']
    } else {
        like_pattern_spec(query.drop_last()) + seq![query.last(), '%']
    }
}

/// The `LIKE` pattern of a search query (see `like_pattern_spec`).
pub fn like_pattern(search_query: &str) -> (r: String)
    ensures
        r@ == like_pattern_spec(search_query@),
{
    let chars = crate::text::chars_of(search_query);
    let mut r = String::new();
    push_char(&mut r, '%');
    let mut i: usize = 0;
    while i < chars.len()
        invariant
            chars@ == search_query@,
            i <= chars@.len(),
            r@ == like_pattern_spec(search_query@.take(i as int)),
        decreases chars.len() - i,
    {
        assert(search_query@.take(i + 1).drop_last() =~= search_query@.take(i as int));
        push_char(&mut r, chars[i]);
        push_char(&mut r, '%');
        assert(r@ =~= like_pattern_spec(search_query@.take(i + 1)));
        i += 1;
    }
    assert(search_query@.take(chars@.len() as int) =~= search_query@);
    r
}

/// Start of the statement inserting results.
pub const INSERT_ALL_LINES: &'static str = "INSERT INTO all_lines (icon, hl_group, path_prefix, path_suffix, line_nr) VALUES";

/// The placeholders of one inserted row.
pub const ROW_PLACEHOLDERS: &'static str = "(?, ?, ?, ?, ?)";

/// The statement inserting `rows` results: the start, then the row
/// placeholders separated by `, `.
pub open spec fn insert_statement_spec(rows: nat) -> Seq<char>
    decreases rows,
{
    if rows == 0 {
        INSERT_ALL_LINES@
    } else if rows == 1 {
        INSERT_ALL_LINES@ + ROW_PLACEHOLDERS@
    } else {
        insert_statement_spec((rows - 1) as nat) + ", "@ + ROW_PLACEHOLDERS@
    }
}

/// The statement inserting `rows` results at once.
pub fn insert_statement(rows: usize) -> (r: String)
    ensures
        r@ == insert_statement_spec(rows as nat),
{
    let mut r = INSERT_ALL_LINES.to_owned();
    let mut i: usize = 0;
    while i < rows
        invariant
            i <= rows,
            r@ == insert_statement_spec(i as nat),
        decreases rows - i,
    {
        if i == 0 {
            r.append(ROW_PLACEHOLDERS);
        } else {
            r.append(", ");
            r.append(ROW_PLACEHOLDERS);
        }
        i += 1;
        assert(r@ =~= insert_statement_spec(i as nat));
    }
    r
}

/// The chunks in which `count` results are inserted: consecutive ranges of
/// `INSERT_CHUNK` results, the last one possibly shorter.
pub fn insert_chunks(count: usize) -> (r: Vec<(usize, usize)>)
    ensures
        r@.len() == (count + INSERT_CHUNK - 1) / INSERT_CHUNK as int,
        forall|i: int|
            0 <= i < r@.len() ==> {
                &&& (#[trigger] r@[i]).0 == i * INSERT_CHUNK
                &&& r@[i].1 == if (i + 1) * INSERT_CHUNK < count {
                    (i + 1) * INSERT_CHUNK
                } else {
                    count as int
                }
            },
{
    let mut r: Vec<(usize, usize)> = Vec::new();
    let mut start: usize = 0;
    while start < count
        invariant
            start <= count,
            start == if r@.len() * INSERT_CHUNK < count {
                r@.len() * INSERT_CHUNK
            } else {
                count as int
            },
            r@.len() > 0 ==> (r@.len() - 1) * INSERT_CHUNK < count,
            forall|i: int|
                0 <= i < r@.len() ==> {
                    &&& (#[trigger] r@[i]).0 == i * INSERT_CHUNK
                    &&& r@[i].1 == if (i + 1) * INSERT_CHUNK < count {
                        (i + 1) * INSERT_CHUNK
                    } else {
                        count as int
                    }
                },
        decreases count - start,
    {
        let end = if count - start > INSERT_CHUNK {
            start + INSERT_CHUNK
        } else {
            count
        };
        r.push((start, end));
        start = end;
    }
    assert(r@.len() == (count + INSERT_CHUNK - 1) / INSERT_CHUNK as int) by (nonlinear_arith)
        requires
            r@.len() * 1000 >= count,
            (r@.len() - 1) * 1000 < count || r@.len() == 0,
            r@.len() == 0 ==> count == 0,
            INSERT_CHUNK == 1000,
    ;
    r
}

} // verus!

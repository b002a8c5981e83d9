//! The debug log: where it is kept and what is written to it.

use vstd::prelude::*;
use crate::path::{join_of, path_join};
use crate::text::{lines_of, push_char, split_lines, views};

verus! {

/// Directory of the log, in the temporary directory.
pub const LOG_DIR: &'static str = "neo-api-log";

/// Name of the log file.
pub const LOG_FILE: &'static str = "debug.log";

/// Works out the debug log's place and contents; writing and reading the
/// file is left to the caller.
pub struct NeoDebug;

impl NeoDebug {
    /// The log directory inside the temporary directory `temp_dir`.
    pub fn log_dir(temp_dir: &str) -> (r: String)
        ensures
            r@ == join_of(temp_dir@, LOG_DIR@),
    {
        path_join(temp_dir, LOG_DIR)
    }

    /// The log file inside the temporary directory `temp_dir`.
    pub fn log_file(temp_dir: &str) -> (r: String)
        ensures
            r@ == join_of(join_of(temp_dir@, LOG_DIR@), LOG_FILE@),
    {
        let dir = Self::log_dir(temp_dir);
        path_join(dir.as_str(), LOG_FILE)
    }

    /// What logging `message` appends to the log: the message on a line of
    /// its own.
    pub fn entry(message: &str) -> (r: String)
        ensures
            r@ == message@.push('\n'),
    {
        let mut r = message.to_owned();
        push_char(&mut r, '\n');
        r
    }

    /// The lines shown when the log is displayed.
    pub fn display_lines(log: &str) -> (r: Vec<String>)
        ensures
            views(r@) == lines_of(log@),
    {
        split_lines(log)
    }
}

/// Logging appends one line: the log read back after an entry was added to a
/// log whose text ends each line with `'\n'` shows the old lines and then the
/// message, when the message itself holds no line break.
pub proof fn law_log_appends_line(log: Seq<char>, message: Seq<char>)
    requires
        log.len() == 0 || log.last() == '\n',
        forall|i: int| 0 <= i < message.len() ==> message[i] != '\n',
        message.len() == 0 || message.last() != '\r',
    ensures
        lines_of(log + message.push('\n')) == lines_of(log).push(message),
    decreases log.len(),
{
    lemma_lines_of_single(message);
    if log.len() > 0 {
        let p = crate::text::newline_index(log) as int;
        lemma_newline_index_bound(log);
        let whole = log + message.push('\n');
        lemma_newline_index_prefix(log, message.push('\n'));
        assert(whole.take(p as int) =~= log.take(p as int));
        let x = crate::text::strip_cr(log.take(p));
        assert(lines_of(whole) == seq![x] + lines_of(whole.skip(p + 1)));
        assert(lines_of(log) == seq![x] + lines_of(log.skip(p + 1)));
        if p + 1 < log.len() {
            assert(whole.skip(p + 1) =~= log.skip(p + 1) + message.push('\n'));
            assert(log.skip(p + 1).last() == '\n');
            law_log_appends_line(log.skip(p + 1), message);
            assert(seq![x] + lines_of(log.skip(p + 1)).push(message) =~= (seq![x] + lines_of(
                log.skip(p + 1),
            )).push(message));
        } else {
            assert(whole.skip(p + 1) =~= message.push('\n'));
            assert(log.skip(p + 1) =~= Seq::<char>::empty());
            assert(lines_of(Seq::<char>::empty()) =~= Seq::<Seq<char>>::empty());
            assert(seq![x] + seq![message] =~= (seq![x] + Seq::<Seq<char>>::empty()).push(message));
        }
    } else {
        assert(log + message.push('\n') =~= message.push('\n'));
    }
}

proof fn lemma_newline_index_bound(s: Seq<char>)
    requires
        s.len() > 0,
        s.last() == '\n',
    ensures
        crate::text::newline_index(s) < s.len(),
        s[crate::text::newline_index(s) as int] == '\n',
    decreases s.len(),
{
    if s[0] != '\n' {
        lemma_newline_index_bound(s.drop_first());
    }
}

proof fn lemma_newline_index_prefix(a: Seq<char>, b: Seq<char>)
    requires
        crate::text::newline_index(a) < a.len(),
    ensures
        crate::text::newline_index(a + b) == crate::text::newline_index(a),
    decreases a.len(),
{
    if a[0] != '\n' {
        assert((a + b).drop_first() =~= a.drop_first() + b);
        lemma_newline_index_prefix(a.drop_first(), b);
    }
}

proof fn lemma_lines_of_single(message: Seq<char>)
    requires
        forall|i: int| 0 <= i < message.len() ==> message[i] != '\n',
        message.len() == 0 || message.last() != '\r',
    ensures
        lines_of(message.push('\n')) == seq![message],
{
    let s = message.push('\n');
    lemma_newline_index_all(s, message.len() as int);
    assert(s.take(message.len() as int) =~= message);
    assert(crate::text::strip_cr(message) == message);
    assert(s.skip(message.len() + 1 as int) =~= Seq::<char>::empty());
    assert(lines_of(Seq::<char>::empty()) =~= Seq::<Seq<char>>::empty());
    assert(lines_of(s) == seq![crate::text::strip_cr(s.take(message.len() as int))] + lines_of(
        s.skip(message.len() + 1 as int),
    ));
    assert(seq![message] + Seq::<Seq<char>>::empty() =~= seq![message]);
}

proof fn lemma_newline_index_all(s: Seq<char>, p: int)
    requires
        0 <= p < s.len(),
        forall|i: int| 0 <= i < p ==> s[i] != '\n',
        s[p] == '\n',
    ensures
        crate::text::newline_index(s) == p,
    decreases p,
{
    if p > 0 {
        lemma_newline_index_all(s.drop_first(), p - 1);
    }
}

} // verus!

//! Text fed to a subprocess's stdin, one item per line.

use vstd::prelude::*;
use crate::text::{join_lines, joined};
use vstd::string::*;

verus! {

/// Stdin carrying the items one per line, each line ended by `\n`; no stdin
/// at all when there is no item.
pub open spec fn lines_input(items: Seq<Seq<char>>) -> Option<Seq<char>> {
    if items.len() == 0 {
        None
    } else {
        Some(joined(items, "\n"@) + "\n"@)
    }
}

/// Stdin for a bounded REPL session: the prompts one per line, then `/exit`.
pub open spec fn repl_input(prompts: Seq<Seq<char>>) -> Seq<char> {
    let body = joined(prompts, "\n"@);
    if body.len() == 0 {
        "/exit\n"@
    } else {
        body + "\n"@ + "/exit\n"@
    }
}

/// The stdin text for a list of items: see [`lines_input`].
pub fn lines_stdin(items: &Vec<String>) -> (stdin: Option<String>)
    ensures
        stdin.deep_view() == lines_input(items.deep_view()),
{
    if items.len() == 0 {
        None
    } else {
        let mut s = join_lines(items);
        s.append("\n");
        Some(s)
    }
}

/// The stdin text for a REPL session: see [`repl_input`].
pub fn repl_stdin(prompts: &Vec<String>) -> (stdin: String)
    ensures
        stdin@ == repl_input(prompts.deep_view()),
{
    let mut s = join_lines(prompts);
    if s.as_str().unicode_len() != 0 {
        s.append("\n");
    }
    s.append("/exit\n");
    s
}

/// Appends every value, in order.
pub fn push_all(argv: &mut crate::argv::ArgList, values: &Vec<String>)
    ensures
        final(argv)@ == old(argv)@ + values.deep_view(),
{
    let ghost before = argv@;
    let ghost all = values.deep_view();
    let mut k: usize = 0;
    while k < values.len()
        invariant
            k <= values.len(),
            all == values.deep_view(),
            argv@ == before + all.take(k as int),
        decreases values.len() - k,
    {
        crate::argv::push_text(argv, values[k].clone());
        proof {
            assert(all.take(k + 1) =~= all.take(k as int).push(all[k as int]));
        }
        k = k + 1;
    }
    assert(all.take(k as int) =~= all);
}

} // verus!

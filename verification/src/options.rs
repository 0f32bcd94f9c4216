//! What it means for an option to be on a command line: a flag followed by
//! its value, or a switch on its own, anywhere in the argument list. These
//! predicates say nothing of how the list was built, so laws stated with
//! them hold of any builder that gets the arguments right.

use vstd::prelude::*;
use crate::argv::{opt_bool, opt_flag, opt_number, opt_text, repeated};
use crate::text::{bool_text, decimal};

verus! {

/// `flag` stands at position `i` and `value` right after it.
pub open spec fn option_at(args: Seq<Seq<char>>, i: int, flag: Seq<char>, value: Seq<char>) -> bool {
    0 <= i && i + 1 < args.len() && args[i] == flag && args[i + 1] == value
}

/// The argument list holds `flag value` as two neighbouring arguments.
pub open spec fn has_option(args: Seq<Seq<char>>, flag: Seq<char>, value: Seq<char>) -> bool {
    exists|i: int| #[trigger] option_at(args, i, flag, value)
}

/// `flag` stands at position `i`.
pub open spec fn switch_at(args: Seq<Seq<char>>, i: int, flag: Seq<char>) -> bool {
    0 <= i < args.len() && args[i] == flag
}

/// The argument list holds the switch `flag`.
pub open spec fn has_switch(args: Seq<Seq<char>>, flag: Seq<char>) -> bool {
    exists|i: int| #[trigger] switch_at(args, i, flag)
}

/// The argument list ends with `tail`.
pub open spec fn ends_with(args: Seq<Seq<char>>, tail: Seq<Seq<char>>) -> bool {
    tail.len() <= args.len() && args.subrange(args.len() - tail.len(), args.len() as int) == tail
}

/// A list ends with what was appended last.
pub broadcast proof fn lemma_ends_with_concat(head: Seq<Seq<char>>, tail: Seq<Seq<char>>)
    ensures
        #[trigger] ends_with(head + tail, tail),
{
    assert((head + tail).subrange(head.len() as int, (head + tail).len() as int) =~= tail);
}

/// An option on either part of a list is on the whole list.
pub broadcast proof fn lemma_has_option_concat(
    a: Seq<Seq<char>>,
    b: Seq<Seq<char>>,
    flag: Seq<char>,
    value: Seq<char>,
)
    ensures
        has_option(a, flag, value) || has_option(b, flag, value) ==> #[trigger] has_option(
            a + b,
            flag,
            value,
        ),
{
    if has_option(a, flag, value) {
        let i = choose|i: int| #[trigger] option_at(a, i, flag, value);
        assert(option_at(a + b, i, flag, value));
    } else if has_option(b, flag, value) {
        let j = choose|j: int| #[trigger] option_at(b, j, flag, value);
        assert(option_at(a + b, a.len() + j, flag, value));
    }
}

/// An option at some position of a list stays there when more arguments
/// follow.
pub broadcast proof fn lemma_option_at_prefix(
    a: Seq<Seq<char>>,
    b: Seq<Seq<char>>,
    i: int,
    flag: Seq<char>,
    value: Seq<char>,
)
    ensures
        option_at(a, i, flag, value) ==> #[trigger] option_at(a + b, i, flag, value),
{
}

/// A switch at some position of a list stays there when more arguments
/// follow.
pub broadcast proof fn lemma_switch_at_prefix(a: Seq<Seq<char>>, b: Seq<Seq<char>>, i: int, flag: Seq<char>)
    ensures
        switch_at(a, i, flag) ==> #[trigger] switch_at(a + b, i, flag),
{
}

/// A switch on either part of a list is on the whole list.
pub broadcast proof fn lemma_has_switch_concat(a: Seq<Seq<char>>, b: Seq<Seq<char>>, flag: Seq<char>)
    ensures
        has_switch(a, flag) || has_switch(b, flag) ==> #[trigger] has_switch(a + b, flag),
{
    if has_switch(a, flag) {
        let i = choose|i: int| #[trigger] switch_at(a, i, flag);
        assert(switch_at(a + b, i, flag));
    } else if has_switch(b, flag) {
        let j = choose|j: int| #[trigger] switch_at(b, j, flag);
        assert(switch_at(a + b, a.len() + j, flag));
    }
}

/// A set valued option contributes `flag value`.
pub broadcast proof fn lemma_opt_text_has_option(flag: Seq<char>, value: Seq<char>)
    ensures
        #[trigger] has_option(opt_text(flag, Some(value)), flag, value),
{
    assert(option_at(opt_text(flag, Some(value)), 0, flag, value));
}

/// A set number contributes `flag digits`.
pub broadcast proof fn lemma_opt_number_has_option(flag: Seq<char>, n: nat)
    ensures
        #[trigger] has_option(opt_number(flag, Some(n)), flag, decimal(n)),
{
    assert(option_at(opt_number(flag, Some(n)), 0, flag, decimal(n)));
}

/// A set boolean contributes `flag true` or `flag false`.
pub broadcast proof fn lemma_opt_bool_has_option(flag: Seq<char>, b: bool)
    ensures
        #[trigger] has_option(opt_bool(flag, Some(b)), flag, bool_text(b)),
{
    assert(option_at(opt_bool(flag, Some(b)), 0, flag, bool_text(b)));
}

/// A switch set to `true` contributes the flag.
pub broadcast proof fn lemma_opt_flag_has_switch(flag: Seq<char>)
    ensures
        #[trigger] has_switch(opt_flag(flag, Some(true)), flag),
{
    assert(switch_at(opt_flag(flag, Some(true)), 0, flag));
}

/// Every value of a repeated option is on the list, after its flag.
pub proof fn lemma_repeated_has_option(flag: Seq<char>, values: Seq<Seq<char>>, k: int)
    requires
        0 <= k < values.len(),
    ensures
        has_option(repeated(flag, values), flag, values[k]),
    decreases values.len(),
{
    let prefix = repeated(flag, values.drop_last());
    if k == values.len() - 1 {
        assert(option_at(seq![flag, values.last()], 0, flag, values[k]));
        lemma_has_option_concat(prefix, seq![flag, values.last()], flag, values[k]);
    } else {
        lemma_repeated_has_option(flag, values.drop_last(), k);
        lemma_has_option_concat(prefix, seq![flag, values.last()], flag, values[k]);
    }
}

pub broadcast group group_options {
    lemma_has_option_concat,
    lemma_ends_with_concat,
    lemma_has_switch_concat,
    lemma_opt_text_has_option,
    lemma_opt_number_has_option,
    lemma_opt_bool_has_option,
    lemma_opt_flag_has_switch,
}

} // verus!

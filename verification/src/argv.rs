//! Building argument vectors: what each optional parameter contributes to
//! the command line, and the functions that append those contributions.

use vstd::prelude::*;
use crate::text::{bool_text, bool_to_text, decimal, lit, u64_text};

verus! {

/// The contribution of an optional valued option: `flag value`, or nothing.
pub open spec fn opt_text(flag: Seq<char>, value: Option<Seq<char>>) -> Seq<Seq<char>> {
    match value {
        Some(v) => seq![flag, v],
        None => Seq::empty(),
    }
}

/// The contribution of an optional switch: the flag alone when set to `true`.
pub open spec fn opt_flag(flag: Seq<char>, value: Option<bool>) -> Seq<Seq<char>> {
    if value == Some(true) {
        seq![flag]
    } else {
        Seq::empty()
    }
}

/// The contribution of an optional explicit boolean: `flag true` or `flag false`.
pub open spec fn opt_bool(flag: Seq<char>, value: Option<bool>) -> Seq<Seq<char>> {
    match value {
        Some(b) => seq![flag, bool_text(b)],
        None => Seq::empty(),
    }
}

/// The contribution of an optional number: `flag digits`.
pub open spec fn opt_number(flag: Seq<char>, value: Option<nat>) -> Seq<Seq<char>> {
    match value {
        Some(n) => seq![flag, decimal(n)],
        None => Seq::empty(),
    }
}

/// An optional unsigned 64-bit number as a natural number.
pub open spec fn nat_of_u64(value: Option<u64>) -> Option<nat> {
    match value {
        Some(n) => Some(n as nat),
        None => None,
    }
}

/// An optional unsigned 32-bit number as a natural number.
pub open spec fn nat_of_u32(value: Option<u32>) -> Option<nat> {
    match value {
        Some(n) => Some(n as nat),
        None => None,
    }
}

/// The contribution of an optional positional argument.
pub open spec fn opt_arg(value: Option<Seq<char>>) -> Seq<Seq<char>> {
    match value {
        Some(v) => seq![v],
        None => Seq::empty(),
    }
}

/// The contribution of a repeated option: `flag v` for each value, in order.
pub open spec fn repeated(flag: Seq<char>, values: Seq<Seq<char>>) -> Seq<Seq<char>>
    decreases values.len(),
{
    if values.len() == 0 {
        Seq::empty()
    } else {
        repeated(flag, values.drop_last()) + seq![flag, values.last()]
    }
}

/// An argument list under construction.
pub struct ArgList {
    items: Vec<String>,
}

impl View for ArgList {
    type V = Seq<Seq<char>>;

    closed spec fn view(&self) -> Seq<Seq<char>> {
        self.items.deep_view()
    }
}

impl ArgList {
    /// An empty list.
    pub fn new() -> (r: ArgList)
        ensures
            r@ == Seq::<Seq<char>>::empty(),
    {
        let r = ArgList { items: Vec::new() };
        assert(r@ =~= Seq::<Seq<char>>::empty());
        r
    }

    /// A list of one argument.
    pub fn one(a: String) -> (r: ArgList)
        ensures
            r@ == seq![a@],
    {
        let mut r = ArgList::new();
        push_text(&mut r, a);
        r
    }

    /// A list of two arguments.
    pub fn two(a: String, b: String) -> (r: ArgList)
        ensures
            r@ == seq![a@, b@],
    {
        let mut r = ArgList::new();
        push_text(&mut r, a);
        push_text(&mut r, b);
        assert(r@ =~= seq![a@, b@]);
        r
    }

    /// A list of three arguments.
    pub fn three(a: String, b: String, c: String) -> (r: ArgList)
        ensures
            r@ == seq![a@, b@, c@],
    {
        let mut r = ArgList::new();
        push_text(&mut r, a);
        push_text(&mut r, b);
        push_text(&mut r, c);
        assert(r@ =~= seq![a@, b@, c@]);
        r
    }

    /// A list of four arguments.
    pub fn four(a: String, b: String, c: String, d: String) -> (r: ArgList)
        ensures
            r@ == seq![a@, b@, c@, d@],
    {
        let mut r = ArgList::new();
        push_text(&mut r, a);
        push_text(&mut r, b);
        push_text(&mut r, c);
        push_text(&mut r, d);
        assert(r@ =~= seq![a@, b@, c@, d@]);
        r
    }

    /// A list of five arguments.
    pub fn five(a: String, b: String, c: String, d: String, e: String) -> (r: ArgList)
        ensures
            r@ == seq![a@, b@, c@, d@, e@],
    {
        let mut r = ArgList::new();
        push_text(&mut r, a);
        push_text(&mut r, b);
        push_text(&mut r, c);
        push_text(&mut r, d);
        push_text(&mut r, e);
        assert(r@ =~= seq![a@, b@, c@, d@, e@]);
        r
    }

    /// The arguments, in order.
    pub fn into_vec(self) -> (v: Vec<String>)
        ensures
            v.deep_view() == self@,
    {
        self.items
    }
}

/// Appends one argument.
pub fn push_text(argv: &mut ArgList, s: String)
    ensures
        final(argv)@ == old(argv)@.push(s@),
{
    let ghost before = argv@;
    argv.items.push(s);
    assert(argv@ =~= before.push(s@));
}

/// Appends all arguments of another list.
pub fn push_list(argv: &mut ArgList, other: ArgList)
    ensures
        final(argv)@ == old(argv)@ + other@,
{
    let ghost before = argv@;
    let values = other.into_vec();
    let ghost all = values.deep_view();
    let mut k: usize = 0;
    while k < values.len()
        invariant
            k <= values.len(),
            all == values.deep_view(),
            argv@ == before + all.take(k as int),
        decreases values.len() - k,
    {
        push_text(argv, values[k].clone());
        proof {
            assert(all.take(k + 1) =~= all.take(k as int).push(all[k as int]));
        }
        k = k + 1;
    }
    assert(all.take(k as int) =~= all);
}

/// Appends two arguments.
pub fn push_pair(argv: &mut ArgList, a: String, b: String)
    ensures
        final(argv)@ == old(argv)@ + seq![a@, b@],
{
    let ghost before = argv@;
    push_text(argv, a);
    push_text(argv, b);
    assert(argv@ =~= before + seq![a@, b@]);
}

/// Appends a positional argument when present.
pub fn push_opt_arg(argv: &mut ArgList, value: Option<String>)
    ensures
        final(argv)@ == old(argv)@ + opt_arg(value.deep_view()),
{
    let ghost before = argv@;
    if let Some(value) = value {
        push_text(argv, value);
        assert(argv@ =~= before + opt_arg(Some(value@)));
    } else {
        assert(argv@ =~= before + opt_arg(None));
    }
}

/// Appends `flag value` when a value is present.
pub fn push_opt_value(argv: &mut ArgList, flag: &str, value: Option<String>)
    ensures
        final(argv)@ == old(argv)@ + opt_text(flag@, value.deep_view()),
{
    let ghost before = argv@;
    if let Some(value) = value {
        push_text(argv, lit(flag));
        push_text(argv, value);
        assert(argv@ =~= before + opt_text(flag@, Some(value@)));
    } else {
        assert(argv@ =~= before + opt_text(flag@, None));
    }
}

/// Appends `flag true` or `flag false` when a boolean is present.
pub fn push_opt_bool(argv: &mut ArgList, flag: &str, value: Option<bool>)
    ensures
        final(argv)@ == old(argv)@ + opt_bool(flag@, value),
{
    let ghost before = argv@;
    if let Some(value) = value {
        push_text(argv, lit(flag));
        push_text(argv, bool_to_text(value));
        assert(argv@ =~= before + opt_bool(flag@, Some(value)));
    } else {
        assert(argv@ =~= before + opt_bool(flag@, None));
    }
}

/// Appends the bare flag when the switch is set to `true`.
pub fn push_opt_flag(argv: &mut ArgList, flag: &str, value: Option<bool>)
    ensures
        final(argv)@ == old(argv)@ + opt_flag(flag@, value),
{
    let ghost before = argv@;
    let set = match value {
        Some(b) => b,
        None => false,
    };
    if set {
        push_text(argv, lit(flag));
        assert(argv@ =~= before + opt_flag(flag@, value));
    } else {
        assert(argv@ =~= before + opt_flag(flag@, value));
    }
}

/// Appends `flag n` when a 32-bit number is present.
pub fn push_opt_u32(argv: &mut ArgList, flag: &str, value: Option<u32>)
    ensures
        final(argv)@ == old(argv)@ + opt_number(flag@, nat_of_u32(value)),
{
    let ghost before = argv@;
    if let Some(n) = value {
        push_text(argv, lit(flag));
        push_text(argv, u64_text(n as u64));
        assert(argv@ =~= before + opt_number(flag@, nat_of_u32(value)));
    } else {
        assert(argv@ =~= before + opt_number(flag@, nat_of_u32(value)));
    }
}

/// Appends `flag n` when a 64-bit number is present.
pub fn push_opt_u64(argv: &mut ArgList, flag: &str, value: Option<u64>)
    ensures
        final(argv)@ == old(argv)@ + opt_number(flag@, nat_of_u64(value)),
{
    let ghost before = argv@;
    if let Some(n) = value {
        push_text(argv, lit(flag));
        push_text(argv, u64_text(n));
        assert(argv@ =~= before + opt_number(flag@, nat_of_u64(value)));
    } else {
        assert(argv@ =~= before + opt_number(flag@, nat_of_u64(value)));
    }
}

/// Appends `flag v` for every value, in order.
pub fn push_repeated_value(argv: &mut ArgList, flag: &str, values: Vec<String>)
    ensures
        final(argv)@ == old(argv)@ + repeated(flag@, values.deep_view()),
{
    let ghost before = argv@;
    let ghost all = values.deep_view();
    let mut k: usize = 0;
    while k < values.len()
        invariant
            k <= values.len(),
            all == values.deep_view(),
            argv@ == before + repeated(flag@, all.take(k as int)),
        decreases values.len() - k,
    {
        push_text(argv, lit(flag));
        push_text(argv, values[k].clone());
        proof {
            assert(all.take(k + 1).drop_last() =~= all.take(k as int));
            assert(all.take(k + 1).last() == all[k as int]);
        }
        k = k + 1;
        proof {
            let prev = repeated(flag@, all.take(k - 1));
            assert(argv@ =~= before + prev + seq![flag@, all.take(k as int).last()]);
        }
    }
    assert(all.take(k as int) =~= all);
}

} // verus!

//! Default display names: a prefix followed by a number in decimal.

use vstd::prelude::*;
use vstd::string::StringExecFns;

verus! {

/// The decimal digit for `d`, which is below ten.
pub open spec fn digit(d: nat) -> char {
    if d == 0 {
        '0'
    } else if d == 1 {
        '1'
    } else if d == 2 {
        '2'
    } else if d == 3 {
        '3'
    } else if d == 4 {
        '4'
    } else if d == 5 {
        '5'
    } else if d == 6 {
        '6'
    } else if d == 7 {
        '7'
    } else if d == 8 {
        '8'
    } else {
        '9'
    }
}

/// The decimal notation of `n`, without leading zeros.
pub open spec fn decimal(n: nat) -> Seq<char>
    decreases n,
{
    if n < 10 {
        seq![digit(n)]
    } else {
        decimal(n / 10).push(digit(n % 10))
    }
}

/// The default name of the joint that stands for the node `index`.
pub open spec fn joint_label(index: nat) -> Seq<char> {
    seq!['J', 'o', 'i', 'n', 't', '-'] + decimal(index)
}

/// The default name of the node that was the `id`-th to be created.
pub open spec fn node_label(id: nat) -> Seq<char> {
    seq!['N', 'o', 'd', 'e', '-'] + decimal(id)
}

fn digit_str(d: usize) -> (s: &'static str)
    requires
        d < 10,
    ensures
        s@ == seq![digit(d as nat)],
{
    proof {
        reveal_strlit("0");
        reveal_strlit("1");
        reveal_strlit("2");
        reveal_strlit("3");
        reveal_strlit("4");
        reveal_strlit("5");
        reveal_strlit("6");
        reveal_strlit("7");
        reveal_strlit("8");
        reveal_strlit("9");
    }
    let s = if d == 0 {
        "0"
    } else if d == 1 {
        "1"
    } else if d == 2 {
        "2"
    } else if d == 3 {
        "3"
    } else if d == 4 {
        "4"
    } else if d == 5 {
        "5"
    } else if d == 6 {
        "6"
    } else if d == 7 {
        "7"
    } else if d == 8 {
        "8"
    } else {
        "9"
    };
    s
}

/// Appends the decimal notation of `n` to `text`.
fn push_decimal(text: &mut String, n: usize)
    ensures
        final(text)@ == old(text)@ + decimal(n as nat),
    decreases n,
{
    if n >= 10 {
        push_decimal(text, n / 10);
    }
    text.append(digit_str(n % 10));
}

/// The name `Joint-` followed by `index` in decimal.
pub fn make_joint_label(index: usize) -> (name: String)
    ensures
        name@ == joint_label(index as nat),
{
    proof {
        reveal_strlit("Joint-");
    }
    let mut name = String::from_str("Joint-");
    push_decimal(&mut name, index);
    name
}

/// The name `Node-` followed by `id` in decimal.
pub fn make_node_label(id: usize) -> (name: String)
    ensures
        name@ == node_label(id as nat),
{
    proof {
        reveal_strlit("Node-");
    }
    let mut name = String::from_str("Node-");
    push_decimal(&mut name, id);
    name
}

} // verus!

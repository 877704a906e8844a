use vstd::prelude::*;
use vstd::string::*;

use crate::numbers::digit_char;

verus! {

/// The label of work item `i`: a fixed prefix followed by the six-digit
/// zero-padded decimal rendering of the index. Labels are synthesized
/// deterministically so that a batch is reproducible.
pub open spec fn label_seq(i: int) -> Seq<char> {
    "password_"@ + seq![
        digit_char(i / 100000 % 10),
        digit_char(i / 10000 % 10),
        digit_char(i / 1000 % 10),
        digit_char(i / 100 % 10),
        digit_char(i / 10 % 10),
        digit_char(i % 10),
    ]
}

fn digit_str(d: usize) -> (r: &'static str)
    requires
        d < 10,
    ensures
        r@ == seq![digit_char(d as int)],
{
    proof {
        reveal_strlit("0");
        reveal_strlit("1");
        reveal_strlit("2");
        reveal_strlit("3");
        reveal_strlit("4");
        reveal_strlit("5");
        reveal_strlit("6");
        reveal_strlit("7");
        reveal_strlit("8");
        reveal_strlit("9");
    }
    let r: &'static str = if d == 0 {
        "0"
    } else if d == 1 {
        "1"
    } else if d == 2 {
        "2"
    } else if d == 3 {
        "3"
    } else if d == 4 {
        "4"
    } else if d == 5 {
        "5"
    } else if d == 6 {
        "6"
    } else if d == 7 {
        "7"
    } else if d == 8 {
        "8"
    } else {
        "9"
    };
    proof {
        assert(r@ =~= seq![digit_char(d as int)]);
    }
    r
}

/// Builds the label of work item `i`.
pub fn work_item_label(i: usize) -> (r: String)
    requires
        i < 1000000,
    ensures
        r@ == label_seq(i as int),
{
    let mut label = String::from_str("password_");
    label.append(digit_str(i / 100000 % 10));
    label.append(digit_str(i / 10000 % 10));
    label.append(digit_str(i / 1000 % 10));
    label.append(digit_str(i / 100 % 10));
    label.append(digit_str(i / 10 % 10));
    label.append(digit_str(i % 10));
    proof {
        assert(label@ =~= label_seq(i as int));
    }
    label
}

/// Synthesizes the whole batch: the labels of items 0 through `count - 1`,
/// in index order.
pub fn build_work_items(count: usize) -> (r: Vec<String>)
    requires
        count <= 1000000,
    ensures
        r@.len() == count,
        forall|j: int| 0 <= j < count ==> #[trigger] r@[j]@ == label_seq(j),
{
    let mut items: Vec<String> = Vec::new();
    let mut i: usize = 0;
    while i < count
        invariant
            i <= count,
            count <= 1000000,
            items@.len() == i,
            forall|j: int| 0 <= j < i ==> #[trigger] items@[j]@ == label_seq(j),
        decreases count - i,
    {
        items.push(work_item_label(i));
        i = i + 1;
    }
    items
}

} // verus!

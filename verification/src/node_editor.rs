use vstd::prelude::*;

verus! {

/// The kind of value that flows through a pin of the node editor.
#[derive(Clone, Copy, Debug, PartialEq, Eq, Structural)]
pub enum PinType {
    Integer,
}

/// The text of decimal digit `d` (`0 <= d < 10`).
pub open spec fn digit_char(d: int) -> char {
    if d == 0 { '0' }
    else if d == 1 { '1' }
    else if d == 2 { '2' }
    else if d == 3 { '3' }
    else if d == 4 { '4' }
    else if d == 5 { '5' }
    else if d == 6 { '6' }
    else if d == 7 { '7' }
    else if d == 8 { '8' }
    else { '9' }
}

/// Decimal text of `n`, most significant digit first, without leading zeros.
pub open spec fn decimal(n: nat) -> Seq<char>
    decreases n,
{
    if n < 10 {
        seq![digit_char(n as int)]
    } else {
        decimal(n / 10).push(digit_char((n % 10) as int))
    }
}

/// The title given to a node added when `existing` nodes are already present:
/// `"New Node "` followed by the 1-based number of the new node.
pub open spec fn node_title_text(existing: nat) -> Seq<char> {
    seq!['N', 'e', 'w', ' ', 'N', 'o', 'd', 'e', ' '] + decimal(existing + 1)
}

/// The value of a decimal digit character (`'0'` to `'9'`).
pub open spec fn digit_value(c: char) -> int {
    c as int - '0' as int
}

/// The number that a string of decimal digits denotes, most significant
/// digit first.
pub open spec fn value_of(digits: Seq<char>) -> int
    decreases digits.len(),
{
    if digits.len() == 0 {
        0
    } else {
        value_of(digits.drop_last()) * 10 + digit_value(digits.last())
    }
}

/// Every character of `digits` is one of `'0'` to `'9'`.
pub open spec fn all_digits(digits: Seq<char>) -> bool {
    forall|i: int| 0 <= i < digits.len() ==> '0' <= #[trigger] digits[i] <= '9'
}

proof fn lemma_digit_char_value(d: int)
    requires
        0 <= d < 10,
    ensures
        digit_value(digit_char(d)) == d,
        '0' <= digit_char(d) <= '9',
{
    assert('0' as int == 48 && '1' as int == 49 && '2' as int == 50 && '3' as int == 51 && '4' as int == 52);
    assert('5' as int == 53 && '6' as int == 54 && '7' as int == 55 && '8' as int == 56 && '9' as int == 57);
}

/// The decimal text of `n` is made of digits, is not empty, and denotes `n`.
pub proof fn lemma_decimal_denotes(n: nat)
    ensures
        value_of(decimal(n)) == n,
        all_digits(decimal(n)),
        decimal(n).len() >= 1,
    decreases n,
{
    if n < 10 {
        lemma_digit_char_value(n as int);
        assert(decimal(n).drop_last() =~= Seq::<char>::empty());
        assert(value_of(Seq::<char>::empty()) == 0);
        assert(value_of(decimal(n)) == value_of(decimal(n).drop_last()) * 10 + digit_value(decimal(n).last()));
    } else {
        lemma_digit_char_value((n % 10) as int);
        lemma_decimal_denotes(n / 10);
        assert(decimal(n).drop_last() =~= decimal(n / 10));
        assert(decimal(n).last() == digit_char((n % 10) as int));
        assert(value_of(decimal(n)) == value_of(decimal(n / 10)) * 10 + (n % 10));
        assert((n / 10) * 10 + n % 10 == n);
    }
}

/// A node title is `"New Node "` followed by decimal digits that denote the
/// number of the new node, one more than the number of nodes already present;
/// so different node counts give different titles.
pub proof fn lemma_node_title_numbers_new_node(existing: nat, other: nat)
    ensures
        node_title_text(existing).take(9) == "New Node "@,
        all_digits(node_title_text(existing).skip(9)),
        node_title_text(existing).len() > 9,
        value_of(node_title_text(existing).skip(9)) == existing + 1,
        existing != other ==> node_title_text(existing) != node_title_text(other),
{
    reveal_strlit("New Node ");
    let prefix = seq!['N', 'e', 'w', ' ', 'N', 'o', 'd', 'e', ' '];
    lemma_decimal_denotes(existing + 1);
    lemma_decimal_denotes(other + 1);
    assert(node_title_text(existing).take(9) =~= prefix);
    assert(node_title_text(existing).skip(9) =~= decimal(existing + 1));
    assert(node_title_text(other).skip(9) =~= decimal(other + 1));
}

fn digit_text(d: usize) -> (s: &'static str)
    requires
        d < 10,
    ensures
        s@ == seq![digit_char(d as int)],
{
    if d == 0 {
        proof { reveal_strlit("0"); }
        "0"
    } else if d == 1 {
        proof { reveal_strlit("1"); }
        "1"
    } else if d == 2 {
        proof { reveal_strlit("2"); }
        "2"
    } else if d == 3 {
        proof { reveal_strlit("3"); }
        "3"
    } else if d == 4 {
        proof { reveal_strlit("4"); }
        "4"
    } else if d == 5 {
        proof { reveal_strlit("5"); }
        "5"
    } else if d == 6 {
        proof { reveal_strlit("6"); }
        "6"
    } else if d == 7 {
        proof { reveal_strlit("7"); }
        "7"
    } else if d == 8 {
        proof { reveal_strlit("8"); }
        "8"
    } else {
        proof { reveal_strlit("9"); }
        "9"
    }
}

fn push_decimal(text: &mut String, n: usize)
    ensures
        final(text)@ == old(text)@ + decimal(n as nat),
    decreases n,
{
    if n >= 10 {
        push_decimal(text, n / 10);
    }
    text.append(digit_text(n % 10));
    proof {
        if n >= 10 {
            assert(decimal(n as nat) == decimal((n / 10) as nat).push(digit_char((n % 10) as int)));
        }
    }
}

/// Title of the node created by the "Add Node" button when the editor already
/// holds `existing` nodes.
pub fn node_title(existing: usize) -> (title: String)
    requires
        existing < usize::MAX,
    ensures
        title@ == node_title_text(existing as nat),
        title@.take(9) == "New Node "@,
        all_digits(title@.skip(9)),
        value_of(title@.skip(9)) == existing + 1,
{
    proof {
        reveal_strlit("New Node ");
        lemma_node_title_numbers_new_node(existing as nat, existing as nat);
    }
    let mut title = String::from_str("New Node ");
    push_decimal(&mut title, existing + 1);
    title
}

} // verus!

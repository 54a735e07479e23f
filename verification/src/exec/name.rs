//! The names of threads.

use vstd::prelude::*;

verus! {

/// The text for a digit.
pub open spec fn digit(d: nat) -> char {
    if d == 0 {
        '0'
    } else if d == 1 {
        '1'
    } else if d == 2 {
        '2'
    } else if d == 3 {
        '3'
    } else if d == 4 {
        '4'
    } else if d == 5 {
        '5'
    } else if d == 6 {
        '6'
    } else if d == 7 {
        '7'
    } else if d == 8 {
        '8'
    } else {
        '9'
    }
}

/// The decimal digits of a number.
pub open spec fn decimal(n: nat) -> Seq<char>
    decreases n,
{
    if n < 10 {
        seq![digit(n)]
    } else {
        decimal(n / 10).push(digit(n % 10))
    }
}

/// The name of the thread with the given number.
pub open spec fn name_of(base: Seq<char>, index: nat) -> Seq<char> {
    base + seq!['-'] + decimal(index)
}

fn append_digit(text: &mut String, d: usize)
    requires
        d < 10,
    ensures
        final(text)@ == old(text)@.push(digit(d as nat)),
{
    proof {
        reveal_strlit("0");
        reveal_strlit("1");
        reveal_strlit("2");
        reveal_strlit("3");
        reveal_strlit("4");
        reveal_strlit("5");
        reveal_strlit("6");
        reveal_strlit("7");
        reveal_strlit("8");
        reveal_strlit("9");
    }
    let shown: &str = match d {
        0 => "0",
        1 => "1",
        2 => "2",
        3 => "3",
        4 => "4",
        5 => "5",
        6 => "6",
        7 => "7",
        8 => "8",
        _ => "9",
    };
    assert(shown@ =~= seq![digit(d as nat)]);
    text.append(shown);
    assert(text@ =~= old(text)@.push(digit(d as nat)));
}

fn append_decimal(text: &mut String, n: usize)
    ensures
        final(text)@ == old(text)@ + decimal(n as nat),
    decreases n,
{
    if n >= 10 {
        append_decimal(text, n / 10);
    }
    append_digit(text, n % 10);
    assert(text@ =~= old(text)@ + decimal(n as nat));
}

/// The name of the thread with the given number.
pub fn thread_name(base: &str, index: usize) -> (name: String)
    ensures
        name@ == name_of(base@, index as nat),
{
    let mut name = base.to_owned();
    proof {
        reveal_strlit("-");
    }
    name.append("-");
    assert(name@ =~= base@ + seq!['-']);
    append_decimal(&mut name, index);
    name
}

/// Digits tell numbers apart.
pub proof fn law_decimal_injective(a: nat, b: nat)
    requires
        decimal(a) == decimal(b),
    ensures
        a == b,
    decreases a,
{
    assert(decimal(a).last() == digit(a % 10));
    assert(decimal(b).last() == digit(b % 10));
    assert(a % 10 == b % 10);
    if a >= 10 && b >= 10 {
        assert(decimal(a).drop_last() =~= decimal(a / 10));
        assert(decimal(b).drop_last() =~= decimal(b / 10));
        law_decimal_injective(a / 10, b / 10);
    } else if a >= 10 {
        lemma_decimal_len(a / 10);
        assert(decimal(a).len() > 1);
        assert(decimal(b).len() == 1);
    } else if b >= 10 {
        lemma_decimal_len(b / 10);
        assert(decimal(b).len() > 1);
        assert(decimal(a).len() == 1);
    }
}

proof fn lemma_decimal_len(n: nat)
    ensures
        decimal(n).len() > 0,
    decreases n,
{
    if n >= 10 {
        lemma_decimal_len(n / 10);
    }
}

/// Threads with different numbers have different names.
pub proof fn law_names_distinct(base: Seq<char>, a: nat, b: nat)
    requires
        a != b,
    ensures
        name_of(base, a) != name_of(base, b),
{
    if name_of(base, a) == name_of(base, b) {
        let k = (base + seq!['-']).len() as int;
        assert(name_of(base, a).skip(k) =~= decimal(a));
        assert(name_of(base, b).skip(k) =~= decimal(b));
        law_decimal_injective(a, b);
    }
}

/// The number that decimal digits stand for.
pub open spec fn value_of(text: Seq<char>) -> int
    decreases text.len(),
{
    if text.len() == 0 {
        0
    } else {
        10 * value_of(text.drop_last()) + (text.last() as int - '0' as int)
    }
}

/// The digits of a number stand for that number, and there is no zero before them.
pub proof fn law_decimal_value(n: nat)
    ensures
        value_of(decimal(n)) == n,
        decimal(n).len() > 0,
        forall|i: int|
            0 <= i < decimal(n).len() ==> '0' as int <= #[trigger] decimal(n)[i] as int <= '9' as int,
        n > 0 ==> decimal(n)[0] != '0',
    decreases n,
{
    if n < 10 {
        assert(decimal(n).drop_last() =~= Seq::<char>::empty());
        assert(value_of(decimal(n).drop_last()) == 0);
    } else {
        law_decimal_value(n / 10);
        assert(decimal(n).drop_last() =~= decimal(n / 10));
    }
}

/// The name of a thread begins with what it is to begin with, and ends with its number.
pub proof fn law_thread_name(base: &str, index: usize, name: String)
    requires
        call_ensures(thread_name, (base, index), name),
    ensures
        name@.len() > base@.len() + 1,
        name@.take(base@.len() as int) == base@,
        name@[base@.len() as int] == '-',
        value_of(name@.skip(base@.len() as int + 1)) == index,
{
    law_decimal_value(index as nat);
    assert(name@.take(base@.len() as int) =~= base@);
    assert(name@.skip(base@.len() as int + 1) =~= decimal(index as nat));
}

} // verus!

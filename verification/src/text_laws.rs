//! Reading back what was written: switches and numbers.
use crate::text;
use vstd::prelude::*;

verus! {

/// A switch is shown by the word for it.
pub proof fn switches_are_words(value: bool, word: &'static str)
    requires
        call_ensures(text::show_bool, (value,), word),
    ensures
        value ==> word@ == "true"@,
        !value ==> word@ == "false"@,
{
}

/// The number that decimal digits make.
pub open spec fn number_of(digits: Seq<char>) -> int
    decreases digits.len(),
{
    if digits.len() == 0 {
        0
    } else {
        10 * number_of(digits.drop_last()) + (digits.last() as int - '0' as int)
    }
}

/// Digits and nothing else, the first of them a zero only where it is the only
/// one.
pub open spec fn is_decimal(digits: Seq<char>) -> bool {
    &&& digits.len() > 0
    &&& forall|i: int| 0 <= i < digits.len() ==> '0' <= #[trigger] digits[i] <= '9'
    &&& digits.len() > 1 ==> digits[0] != '0'
}

proof fn lemma_digit(digit: nat)
    requires
        digit < 10,
    ensures
        text::digit_text(digit).len() == 1,
        text::digit_text(digit)[0] as int == '0' as int + digit,
{
    reveal_strlit("0");
    reveal_strlit("1");
    reveal_strlit("2");
    reveal_strlit("3");
    reveal_strlit("4");
    reveal_strlit("5");
    reveal_strlit("6");
    reveal_strlit("7");
    reveal_strlit("8");
    reveal_strlit("9");
}

/// A number in decimal reads back as that number.
pub proof fn decimal_reads_back(value: nat)
    ensures
        is_decimal(text::decimal_text(value)),
        number_of(text::decimal_text(value)) == value,
        text::decimal_text(value)[0] == '0' <==> value == 0,
    decreases value,
{
    reveal_with_fuel(number_of, 2);
    let digits = text::decimal_text(value);
    if value < 10 {
        lemma_digit(value);
        assert(digits.drop_last() =~= Seq::<char>::empty());
    } else {
        let head = text::decimal_text(value / 10);
        let tail = text::digit_text(value % 10);
        decimal_reads_back(value / 10);
        lemma_digit(value % 10);
        assert(digits == head + tail);
        assert(digits.drop_last() =~= head);
        assert(digits.last() == tail[0]);
        assert forall|i: int| 0 <= i < digits.len() implies '0' <= #[trigger] digits[i] <= '9' by {
            if i < head.len() {
                assert(digits[i] == head[i]);
            }
        }
        assert(digits[0] == head[0]);
    }
}

/// A shown number reads back as that number.
pub proof fn shown_number_reads_back(value: u64, shown: String)
    requires
        call_ensures(text::show_decimal, (value,), shown),
    ensures
        is_decimal(shown@),
        number_of(shown@) == value,
{
    decimal_reads_back(value as nat);
}

/// A number with a sign in decimal reads back as that number: the sign is there
/// exactly if the number is negative, and the digits are those of its size.
pub proof fn signed_reads_back(value: int)
    ensures
        value >= 0 ==> is_decimal(text::signed_text(value)) && number_of(text::signed_text(value))
            == value,
        value < 0 ==> {
            let digits = text::signed_text(value).drop_first();
            &&& text::signed_text(value)[0] == '-'
            &&& is_decimal(digits)
            &&& number_of(digits) == -value
        },
{
    if value < 0 {
        reveal_strlit("-");
        decimal_reads_back((-value) as nat);
        assert(text::signed_text(value).drop_first() =~= text::decimal_text((-value) as nat));
    } else {
        decimal_reads_back(value as nat);
    }
}

/// A shown number with a sign reads back as that number.
pub proof fn shown_signed_reads_back(value: i32, shown: String)
    requires
        call_ensures(text::show_signed, (value,), shown),
    ensures
        value >= 0 ==> is_decimal(shown@) && number_of(shown@) == value,
        value < 0 ==> {
            &&& shown@[0] == '-'
            &&& is_decimal(shown@.drop_first())
            &&& number_of(shown@.drop_first()) == -value
        },
{
    signed_reads_back(value as int);
}

/// The line that two pieces make starts with the first and goes on with the
/// second.
pub proof fn pieces_are_joined_in_order(head: &str, tail: &str, line: String)
    requires
        call_ensures(text::joined, (head, tail), line),
    ensures
        line@.len() == head@.len() + tail@.len(),
        line@.take(head@.len() as int) == head@,
        line@.skip(head@.len() as int) == tail@,
{
    assert(line@.take(head@.len() as int) =~= head@);
    assert(line@.skip(head@.len() as int) =~= tail@);
}

} // verus!

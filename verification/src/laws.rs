//! Laws of the translator and the relay, stated and proved once for all
//! inputs.

use vstd::prelude::*;
use crate::decimal::{dec_digits, digit_char, is_dec_digit, money_chars, nonneg_money_chars};
use crate::relay::{relay_model, OutcomeModel};
use crate::translator::{system_prompt_chars, translate_model, QueryModel};

verus! {

/// Whether `t` occurs in `s` as a contiguous run.
pub open spec fn occurs_in(t: Seq<char>, s: Seq<char>) -> bool {
    exists|i: int|
        0 <= i && i + t.len() <= s.len() && #[trigger] s.subrange(i, i + t.len() as int) == t
}

/// Every character of a decimal rendering is a decimal digit.
pub proof fn lemma_dec_digits_all_digits(n: int)
    ensures
        forall|j: int| 0 <= j < dec_digits(n).len() ==> is_dec_digit(#[trigger] dec_digits(n)[j]),
    decreases (if n < 10 { 0int } else { n }),
{
    if n < 10 {
        assert(is_dec_digit(digit_char(n)));
    } else {
        lemma_dec_digits_all_digits(n / 10);
        assert forall|j: int| 0 <= j < dec_digits(n).len() implies is_dec_digit(
            dec_digits(n)[j],
        ) by {
            if j < dec_digits(n).len() - 1 {
                assert(dec_digits(n)[j] == dec_digits(n / 10)[j]);
            } else {
                assert(dec_digits(n)[j] == digit_char(n % 10));
            }
        }
    }
}

/// Money text always ends in a decimal point followed by exactly two decimal
/// digits, and holds no other decimal point.
pub proof fn lemma_money_two_decimals(cents: int)
    ensures
        money_chars(cents).len() >= 4,
        money_chars(cents)[money_chars(cents).len() - 3] == '.',
        is_dec_digit(money_chars(cents)[money_chars(cents).len() - 2]),
        is_dec_digit(money_chars(cents)[money_chars(cents).len() - 1]),
        forall|j: int|
            0 <= j < money_chars(cents).len() - 3 ==> #[trigger] money_chars(cents)[j] != '.',
{
    let mag = if cents < 0 {
        -cents
    } else {
        cents
    };
    lemma_dec_digits_all_digits(mag / 100);
    assert(is_dec_digit(digit_char((mag % 100) / 10)));
    assert(is_dec_digit(digit_char(mag % 100 % 10)));
    assert(nonneg_money_chars(mag).len() == dec_digits(mag / 100).len() + 3);
    assert forall|j: int| 0 <= j < money_chars(cents).len() - 3 implies #[trigger] money_chars(
        cents,
    )[j] != '.' by {
        if cents < 0 {
            if j >= 1 {
                assert(money_chars(cents)[j] == dec_digits(mag / 100)[j - 1]);
                assert(is_dec_digit(dec_digits(mag / 100)[j - 1]));
            }
        } else {
            assert(money_chars(cents)[j] == dec_digits(mag / 100)[j]);
            assert(is_dec_digit(dec_digits(mag / 100)[j]));
        }
    }
}

/// The system instruction contains each of the three totals, written as
/// dollars with two decimal digits, as a contiguous run.
pub proof fn lemma_prompt_contains_totals(food: int, rent: int, ent: int)
    ensures
        occurs_in(money_chars(food), system_prompt_chars(food, rent, ent)),
        occurs_in(money_chars(rent), system_prompt_chars(food, rent, ent)),
        occurs_in(money_chars(ent), system_prompt_chars(food, rent, ent)),
{
    let s = system_prompt_chars(food, rent, ent);
    let lead =
        "You are a personal finance assistant. You have access to the user's spending data: Food: $"@;
    let mid_rent = ", Rent: $"@;
    let mid_ent = ", Entertainment: $"@;
    let mf = money_chars(food);
    let mr = money_chars(rent);
    let me = money_chars(ent);
    let food_at: int = lead.len() as int;
    let rent_at: int = food_at + mf.len() + mid_rent.len();
    let ent_at: int = rent_at + mr.len() + mid_ent.len();
    assert(s.subrange(food_at, food_at + mf.len() as int) =~= mf);
    assert(s.subrange(rent_at, rent_at + mr.len() as int) =~= mr);
    assert(s.subrange(ent_at, ent_at + me.len() as int) =~= me);
}

/// A transport-layer failure always completes with an answer that is the
/// transport-error indicator followed by the transport's description; in
/// particular the indicator occurs in the answer.
pub proof fn lemma_transport_failure_answer(description: Seq<char>)
    ensures
        relay_model(OutcomeModel::TransportError { description }) == "Request error: "@
            + description,
        occurs_in("Request error"@, relay_model(OutcomeModel::TransportError { description })),
{
    let a = relay_model(OutcomeModel::TransportError { description });
    reveal_strlit("Request error: ");
    reveal_strlit("Request error");
    let t = "Request error"@;
    assert(a.subrange(0, 0 + t.len() as int) =~= t);
}

/// Idempotence: the pipeline is a function of its inputs, so two runs on an
/// identical query and an identical upstream outcome produce an identical
/// upstream request and an identical answer.
pub proof fn lemma_pipeline_idempotent(
    q1: QueryModel,
    o1: OutcomeModel,
    q2: QueryModel,
    o2: OutcomeModel,
)
    requires
        q1 == q2,
        o1 == o2,
    ensures
        translate_model(q1) == translate_model(q2),
        relay_model(o1) == relay_model(o2),
{
}

} // verus!

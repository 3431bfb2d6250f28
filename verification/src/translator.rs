//! The request translator.
//!
//! Turns an incoming question plus three spending totals into the upstream
//! chat-completion request: a system message that embeds the three totals
//! written as dollars with two decimal digits, the caller's question as a
//! user message, and fixed generation parameters.

use vstd::prelude::*;
use crate::decimal::{fmt_cents, money_chars};

verus! {

/// The upper bound on the upstream answer length, in output tokens.
pub const MAX_OUTPUT_TOKENS: u64 = 500;

/// The fixed sampling temperature handed to the upstream model, in
/// hundredths (seventy hundredths, balancing determinism and tone).
pub const TEMPERATURE_HUNDREDTHS: u64 = 70;

/// One inbound request: the caller's question and three spending totals,
/// each total a signed number of cents.
pub struct IncomingQuery {
    pub question: String,
    pub food_total_cents: i64,
    pub rent_total_cents: i64,
    pub entertainment_total_cents: i64,
}

/// The mathematical content of an [`IncomingQuery`].
pub struct QueryModel {
    pub question: Seq<char>,
    pub food_total_cents: int,
    pub rent_total_cents: int,
    pub entertainment_total_cents: int,
}

impl View for IncomingQuery {
    type V = QueryModel;

    open spec fn view(&self) -> QueryModel {
        QueryModel {
            question: self.question@,
            food_total_cents: self.food_total_cents as int,
            rent_total_cents: self.rent_total_cents as int,
            entertainment_total_cents: self.entertainment_total_cents as int,
        }
    }
}

/// One chat message of the upstream request.
pub struct Message {
    pub role: String,
    pub content: String,
}

/// The mathematical content of a [`Message`].
#[verifier::ext_equal]
pub struct MessageModel {
    pub role: Seq<char>,
    pub content: Seq<char>,
}

impl View for Message {
    type V = MessageModel;

    open spec fn view(&self) -> MessageModel {
        MessageModel { role: self.role@, content: self.content@ }
    }
}

/// The request sent to the upstream chat-completion service.
pub struct UpstreamRequest {
    pub model: String,
    pub messages: Vec<Message>,
    pub max_output_tokens: u64,
    pub temperature_hundredths: u64,
}

/// The mathematical content of an [`UpstreamRequest`].
#[verifier::ext_equal]
pub struct RequestModel {
    pub model: Seq<char>,
    pub messages: Seq<MessageModel>,
    pub max_output_tokens: int,
    pub temperature_hundredths: int,
}

impl View for UpstreamRequest {
    type V = RequestModel;

    open spec fn view(&self) -> RequestModel {
        RequestModel {
            model: self.model@,
            messages: self.messages@.map_values(|m: Message| m@),
            max_output_tokens: self.max_output_tokens as int,
            temperature_hundredths: self.temperature_hundredths as int,
        }
    }
}

/// The system instruction: fixed text around the three totals, each written
/// as dollars with exactly two decimal digits.
pub open spec fn system_prompt_chars(food: int, rent: int, ent: int) -> Seq<char> {
    "You are a personal finance assistant. You have access to the user's spending data: Food: $"@
        + money_chars(food) + ", Rent: $"@ + money_chars(rent) + ", Entertainment: $"@
        + money_chars(ent)
        + ". Use this information to provide personalized advice when relevant. Be conversational and helpful."@
}

/// What the translator produces from a query: a system message embedding the
/// totals, the question as a user message, and the fixed parameters.
pub open spec fn translate_model(q: QueryModel) -> RequestModel {
    RequestModel {
        model: "gpt-4o-mini"@,
        messages: seq![
            MessageModel {
                role: "system"@,
                content: system_prompt_chars(
                    q.food_total_cents,
                    q.rent_total_cents,
                    q.entertainment_total_cents,
                ),
            },
            MessageModel { role: "user"@, content: q.question },
        ],
        max_output_tokens: MAX_OUTPUT_TOKENS as int,
        temperature_hundredths: TEMPERATURE_HUNDREDTHS as int,
    }
}

/// Build the system instruction text for the three totals.
pub fn build_system_prompt(food: i64, rent: i64, ent: i64) -> (s: String)
    ensures
        s@ == system_prompt_chars(food as int, rent as int, ent as int),
{
    let mut s =
        "You are a personal finance assistant. You have access to the user's spending data: Food: $".to_owned();
    s.append(fmt_cents(food).as_str());
    s.append(", Rent: $");
    s.append(fmt_cents(rent).as_str());
    s.append(", Entertainment: $");
    s.append(fmt_cents(ent).as_str());
    s.append(
        ". Use this information to provide personalized advice when relevant. Be conversational and helpful.",
    );
    proof {
        assert(s@ =~= system_prompt_chars(food as int, rent as int, ent as int));
    }
    s
}

/// The request translator: pure, total, and deterministic. The produced
/// request is exactly `translate_model` of the query; in particular its
/// output-token budget and temperature are the fixed constants, whatever
/// the query holds.
pub fn translate(q: &IncomingQuery) -> (r: UpstreamRequest)
    ensures
        r@ == translate_model(q@),
        r.max_output_tokens == MAX_OUTPUT_TOKENS,
        r.temperature_hundredths == TEMPERATURE_HUNDREDTHS,
{
    let system = Message {
        role: "system".to_owned(),
        content: build_system_prompt(
            q.food_total_cents,
            q.rent_total_cents,
            q.entertainment_total_cents,
        ),
    };
    let user = Message { role: "user".to_owned(), content: q.question.clone() };
    let messages: Vec<Message> = vec![system, user];
    let r = UpstreamRequest {
        model: "gpt-4o-mini".to_owned(),
        messages,
        max_output_tokens: MAX_OUTPUT_TOKENS,
        temperature_hundredths: TEMPERATURE_HUNDREDTHS,
    };
    proof {
        assert(r@.messages =~= translate_model(q@).messages);
        assert(r@ =~~= translate_model(q@));
    }
    r
}

} // verus!

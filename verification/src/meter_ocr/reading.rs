//! What the two rows of a pump display mean: the combined reading, and what looks wrong about it
//! beside the last confirmed one.
use vstd::prelude::*;
use vstd::string::*;

use crate::json::{no_members, texts_view, Json, JsonObject, JsonView};
use crate::text::{
    all_digits, digits_value, is_digit, join3, parse_i64, same_text, trimmed, written_i64,
};

verus! {

/// The rollover ceiling of sale counters where neither the company nor the configuration sets
/// one: pump displays wrap somewhere in the range of four to five digits.
pub const DEFAULT_SALE_NUMBER_ROLLOVER_CEILING: i64 = 99999;

/// The two rows of a display exactly as they are shown, with nothing combined or computed.
#[derive(Debug, PartialEq)]
pub struct MeterReadingTokens {
    /// The digits of the SALE row, such as "0009". Empty where the row is illegible.
    pub sale_token: String,
    /// The digits and the decimal point of the LITERS row, such as "7530.22". Empty where the
    /// row is illegible.
    pub liters_token: String,
    /// "high", "medium" or "low".
    pub confidence: String,
    /// A note on which digits were ambiguous.
    pub uncertain_digits: String,
}

/// The sale number that a SALE row shows. Zeros in front are dropped: "0009" is 9.
pub fn parse_sale_token(token: &str) -> (number: Option<i64>)
    ensures
        number == written_i64(trimmed(token@)),
{
    let t = token.trim();
    if t.is_empty() {
        None
    } else {
        parse_i64(t)
    }
}

/// The text of a LITERS row that is to be read as a number.
pub open spec fn liters_text_of(token: Seq<char>) -> Option<Seq<char>> {
    if trimmed(token).len() == 0 {
        None
    } else {
        Some(trimmed(token))
    }
}

/// The text of a LITERS row that is to be read as a number: the row without the white space
/// round it, where anything is left.
pub fn liters_text(token: &str) -> (text: Option<String>)
    ensures
        text is Some <==> liters_text_of(token@) is Some,
        text matches Some(t) ==> liters_text_of(token@) == Some(t@),
{
    let t = token.trim();
    if t.is_empty() {
        None
    } else {
        Some(t.to_owned())
    }
}

/// The text of the combined reading: the last digit of the SALE row in front of the LITERS row
/// exactly as it is shown. A SALE row that does not end in a digit gives none.
pub open spec fn reading_text_of(sale_token: Seq<char>, liters_token: Seq<char>) -> Option<
    Seq<char>,
> {
    let sale = trimmed(sale_token);
    if sale.len() > 0 && is_digit(sale.last()) {
        Some(seq![sale.last()] + liters_token)
    } else {
        None
    }
}

/// The text of the combined reading: SALE "00012" and LITERS "4567.89" give "24567.89". Only
/// the last digit of the counter is pasted, because LITERS carries what overflows beyond it.
pub fn reading_text(sale_token: &str, liters_token: &str) -> (text: Option<String>)
    ensures
        text is Some <==> reading_text_of(sale_token@, liters_token@) is Some,
        text matches Some(t) ==> reading_text_of(sale_token@, liters_token@) == Some(t@),
{
    let sale = sale_token.trim();
    let len = sale.unicode_len();
    if len == 0 {
        return None;
    }
    let last = sale.get_char(len - 1);
    if last < '0' || last > '9' {
        return None;
    }
    let digit = sale.substring_char(len - 1, len);
    assert(digit@ =~= seq![sale@.last()]);
    let pasted = join3("", digit, liters_token);
    proof {
        reveal_strlit("");
        assert(""@ + digit@ + liters_token@ =~= seq![sale@.last()] + liters_token@);
    }
    Some(pasted)
}

/// Zeros in front of the digits of a SALE row, however many, do not change the sale number.
pub proof fn leading_zeros_do_not_count(zeros: Seq<char>, digits: Seq<char>)
    requires
        forall|i: int| 0 <= i < zeros.len() ==> zeros[i] == '0',
        digits.len() > 0,
        all_digits(digits),
    ensures
        written_i64(zeros + digits) == written_i64(digits),
{
    lemma_zeros_in_front(zeros, digits);
    let padded = zeros + digits;
    assert forall|i: int| 0 <= i < padded.len() implies is_digit(#[trigger] padded[i]) by {
        if i >= zeros.len() {
            assert(padded[i] == digits[i - zeros.len()]);
        }
    }
    assert(is_digit(padded[0]));
    assert(is_digit(digits[0]));
}

proof fn lemma_zeros_in_front(zeros: Seq<char>, digits: Seq<char>)
    requires
        forall|i: int| 0 <= i < zeros.len() ==> zeros[i] == '0',
    ensures
        digits_value(zeros + digits) == digits_value(digits),
    decreases zeros.len() + digits.len(),
{
    let padded = zeros + digits;
    if digits.len() > 0 {
        assert(padded.drop_last() =~= zeros + digits.drop_last());
        lemma_zeros_in_front(zeros, digits.drop_last());
    } else if zeros.len() > 0 {
        assert(padded.drop_last() =~= zeros.drop_last() + digits);
        lemma_zeros_in_front(zeros.drop_last(), digits);
        assert(padded.last() == '0');
    } else {
        assert(padded =~= digits);
    }
}

/// Of the SALE row only the last digit enters the combined reading: two rows that end in the same
/// character are combined alike, however they begin.
pub proof fn only_the_last_digit_is_pasted(
    sale_token: Seq<char>,
    other_token: Seq<char>,
    liters_token: Seq<char>,
)
    requires
        trimmed(sale_token).len() > 0,
        trimmed(other_token).len() > 0,
        trimmed(sale_token).last() == trimmed(other_token).last(),
    ensures
        reading_text_of(sale_token, liters_token) == reading_text_of(other_token, liters_token),
        reading_text_of(sale_token, liters_token) matches Some(text) ==> text.len()
            == liters_token.len() + 1,
{
}

/// The setting that is in force: the company's own, else the configured one, else the default.
pub open spec fn in_force<T>(company: Option<T>, configured: Option<T>, default_value: T) -> T {
    match company {
        Some(value) => value,
        None => match configured {
            Some(value) => value,
            None => default_value,
        },
    }
}

/// The setting that is in force: the company's own, else the configured one, else the default.
pub fn effective<T>(company: Option<T>, configured: Option<T>, default_value: T) -> (value: T)
    ensures
        value == in_force(company, configured, default_value),
{
    match company {
        Some(value) => value,
        None => match configured {
            Some(value) => value,
            None => default_value,
        },
    }
}

/// The integer that a configuration variable sets, where it is set and writes one.
pub open spec fn configured_i64(variable: Option<String>) -> Option<i64> {
    match variable {
        Some(text) => written_i64(text@),
        None => None,
    }
}

/// The integer that a configuration variable sets.
pub fn configured_integer(variable: &Option<String>) -> (value: Option<i64>)
    ensures
        value == configured_i64(*variable),
{
    match variable {
        Some(text) => parse_i64(text.as_str()),
        None => None,
    }
}

/// Whether a sale number is lower than the last one by too little for a rollover: by less than
/// nine tenths of the ceiling.
pub open spec fn is_regression(sale_number: int, last_sale_number: int, ceiling: int) -> bool {
    sale_number < last_sale_number && 10 * (last_sale_number - sale_number) < 9 * ceiling
}

/// Whether a lower sale number than last time looks like bad data. A counter that wrapped near
/// its ceiling drops by nearly the whole ceiling; a misread drops by less. Where in doubt the
/// answer is yes: a needless second look is safe.
pub fn sale_number_regression(
    sale_number: i64,
    last_sale_number: i64,
    rollover_ceiling: i64,
) -> (regression: bool)
    ensures
        regression == is_regression(
            sale_number as int,
            last_sale_number as int,
            rollover_ceiling as int,
        ),
        regression <==> sale_number < last_sale_number && 10 * (last_sale_number - sale_number) < 9
            * rollover_ceiling,
{
    if sale_number >= last_sale_number {
        return false;
    }
    let drop: i128 = last_sale_number as i128 - sale_number as i128;
    let looks_like_rollover = 10 * drop >= 9 * rollover_ceiling as i128;
    !looks_like_rollover
}

/// A sale number that did not fall is never taken for a regression, whatever the ceiling.
pub proof fn no_fall_is_no_regression(sale_number: int, last_sale_number: int, ceiling: int)
    requires
        sale_number >= last_sale_number,
    ensures
        !is_regression(sale_number, last_sale_number, ceiling),
{
}

/// The further a sale number falls, the less it looks like bad data: where one fall is taken for
/// a rollover, so is every deeper one from the same number.
pub proof fn deeper_falls_are_rollovers_too(
    sale_number: int,
    lower_sale_number: int,
    last_sale_number: int,
    ceiling: int,
)
    requires
        lower_sale_number <= sale_number < last_sale_number,
        !is_regression(sale_number, last_sale_number, ceiling),
    ensures
        !is_regression(lower_sale_number, last_sale_number, ceiling),
{
}

/// What is known of the litres of a reading, measured against the last confirmed ones.
#[derive(Debug, PartialEq)]
pub struct LitersFacts {
    /// The litres, where the LITERS row is a number.
    pub liters: Option<Json>,
    /// The number that the combined text writes, where there is one.
    pub pasted: Option<Json>,
    /// The last confirmed litres, where there are any.
    pub last_liters: Option<Json>,
    /// Whether the litres are less than the last confirmed ones.
    pub decreased: bool,
    /// Whether the litres exceed the last confirmed ones by more than a shift may move.
    pub too_large: bool,
}

pub open spec fn optional_view(value: Option<Json>) -> JsonView {
    match value {
        Some(document) => document@,
        None => JsonView::Null,
    }
}

fn optional_document(value: Option<Json>) -> (document: Json)
    ensures
        document@ == optional_view(value),
{
    match value {
        Some(document) => document,
        None => Json::Null,
    }
}

impl LitersFacts {
    /// Whether there are litres on both sides to compare.
    pub open spec fn comparable(self) -> bool {
        self.liters is Some && self.last_liters is Some
    }
}

/// Whether the sale number of a display is a regression beside the last confirmed one.
pub open spec fn sale_regressed(sale: Option<i64>, last_sale: Option<i64>, ceiling: i64) -> bool {
    match (sale, last_sale) {
        (Some(n), Some(last)) => is_regression(n as int, last as int, ceiling as int),
        _ => false,
    }
}

/// What looks wrong about a reading, in the order in which it is reported.
pub open spec fn anomalies_of(
    facts: LitersFacts,
    sale: Option<i64>,
    last_sale: Option<i64>,
    ceiling: i64,
) -> Seq<Seq<char>> {
    let a = if facts.comparable() && facts.decreased {
        Seq::<Seq<char>>::empty().push("liters_decreased"@)
    } else {
        Seq::<Seq<char>>::empty()
    };
    let b = if facts.comparable() && facts.too_large {
        a.push("delta_too_large"@)
    } else {
        a
    };
    if sale_regressed(sale, last_sale, ceiling) {
        b.push("sale_number_regression"@)
    } else {
        b
    }
}

/// The texts of a list of strings.
pub open spec fn texts_of(values: Seq<String>) -> Seq<Seq<char>> {
    Seq::new(values.len(), |i: int| values[i]@)
}

/// What looks wrong about a reading.
pub fn anomalies(
    facts: &LitersFacts,
    sale: Option<i64>,
    last_sale: Option<i64>,
    ceiling: i64,
) -> (found: Vec<String>)
    ensures
        texts_of(found@) == anomalies_of(*facts, sale, last_sale, ceiling),
{
    let mut found: Vec<String> = Vec::new();
    assert(texts_of(found@) =~= Seq::<Seq<char>>::empty());
    if facts.liters.is_some() && facts.last_liters.is_some() {
        if facts.decreased {
            push_text(&mut found, "liters_decreased");
        }
        if facts.too_large {
            push_text(&mut found, "delta_too_large");
        }
    }
    match (sale, last_sale) {
        (Some(n), Some(last)) => {
            if sale_number_regression(n, last, ceiling) {
                push_text(&mut found, "sale_number_regression");
            }
        },
        _ => {},
    }
    found
}

fn push_text(values: &mut Vec<String>, text: &str)
    ensures
        texts_of(final(values)@) == texts_of(old(values)@).push(text@),
{
    values.push(text.to_owned());
    assert(texts_of(values@) =~= texts_of(old(values)@).push(text@));
}

/// Whether an attendant has to look at a reading again: the model was not sure, something looks
/// wrong, or a row could not be read.
pub open spec fn review_needed(
    tokens: MeterReadingTokens,
    facts: LitersFacts,
    last_sale: Option<i64>,
    ceiling: i64,
) -> bool {
    let sale = written_i64(trimmed(tokens.sale_token@));
    ||| tokens.confidence@ == "low"@
    ||| anomalies_of(facts, sale, last_sale, ceiling).len() > 0
    ||| sale is None
    ||| facts.liters is None
}

/// A reading that passes without a second look is one that the model was sure of, in which both
/// rows are numbers and nothing looks wrong.
pub proof fn passed_readings_are_sound(
    tokens: MeterReadingTokens,
    facts: LitersFacts,
    last_sale: Option<i64>,
    ceiling: i64,
)
    requires
        !review_needed(tokens, facts, last_sale, ceiling),
    ensures
        tokens.confidence@ != "low"@,
        written_i64(trimmed(tokens.sale_token@)) is Some,
        facts.liters is Some,
        facts.last_liters is Some ==> !facts.decreased && !facts.too_large,
        !sale_regressed(written_i64(trimmed(tokens.sale_token@)), last_sale, ceiling),
{
}

/// The combined reading: there is one only where the LITERS row is a number.
pub open spec fn combined_view(facts: LitersFacts) -> JsonView {
    if facts.liters is Some {
        optional_view(facts.pasted)
    } else {
        JsonView::Null
    }
}

/// The body that reports a successful reading.
pub open spec fn reading_view(
    tokens: MeterReadingTokens,
    facts: LitersFacts,
    last_sale: Option<i64>,
    ceiling: i64,
    model: Seq<char>,
) -> JsonView {
    let sale = written_i64(trimmed(tokens.sale_token@));
    let found = anomalies_of(facts, sale, last_sale, ceiling);
    JsonView::Object(
        no_members()
            .push(("success"@, JsonView::Bool(true)))
            .push(("sale_token"@, JsonView::Text(tokens.sale_token@)))
            .push(("liters_token"@, JsonView::Text(tokens.liters_token@)))
            .push(("sale_number"@, crate::json::optional_int(sale)))
            .push(("liters"@, optional_view(facts.liters)))
            .push(("reading"@, combined_view(facts)))
            .push(("confidence"@, JsonView::Text(tokens.confidence@)))
            .push(("uncertain_digits"@, JsonView::Text(tokens.uncertain_digits@)))
            .push(("anomalies"@, JsonView::List(Seq::new(found.len(), |i: int| JsonView::Text(found[i])))))
            .push(("needs_review"@, JsonView::Bool(review_needed(tokens, facts, last_sale, ceiling))))
            .push(("last_liters"@, optional_view(facts.last_liters)))
            .push(("last_sale_number"@, crate::json::optional_int(last_sale)))
            .push(("model"@, JsonView::Text(model))),
    )
}

/// The body that reports a successful reading: the rows as shown, what they mean, what looks
/// wrong, and the last confirmed values that they were measured against.
pub fn reading_body(
    tokens: &MeterReadingTokens,
    facts: LitersFacts,
    last_sale: Option<i64>,
    ceiling: i64,
    model: &str,
) -> (body: Json)
    ensures
        body@ == reading_view(*tokens, facts, last_sale, ceiling, model@),
{
    let sale = parse_sale_token(tokens.sale_token.as_str());
    let found = anomalies(&facts, sale, last_sale, ceiling);
    let needs_review = same_text(tokens.confidence.as_str(), "low") || found.len() > 0
        || sale.is_none() || facts.liters.is_none();
    let ghost texts = anomalies_of(facts, sale, last_sale, ceiling);
    proof {
        assert(texts.len() == found@.len());
        assert(texts_view(found@)->List_0 =~= Seq::new(
            texts.len(),
            |i: int| JsonView::Text(texts[i]),
        )) by {
            assert forall|i: int| 0 <= i < found@.len() implies texts[i] == found@[i]@ by {
                assert(texts_of(found@)[i] == found@[i]@);
            }
        }
    }
    let reading = if facts.liters.is_some() {
        optional_document(facts.pasted)
    } else {
        Json::Null
    };
    JsonObject::new()
        .with("success", Json::flag(true))
        .with("sale_token", Json::text(tokens.sale_token.as_str()))
        .with("liters_token", Json::text(tokens.liters_token.as_str()))
        .with("sale_number", Json::optional_int(sale))
        .with("liters", optional_document(facts.liters))
        .with("reading", reading)
        .with("confidence", Json::text(tokens.confidence.as_str()))
        .with("uncertain_digits", Json::text(tokens.uncertain_digits.as_str()))
        .with("anomalies", Json::texts(&found))
        .with("needs_review", Json::flag(needs_review))
        .with("last_liters", optional_document(facts.last_liters))
        .with("last_sale_number", Json::optional_int(last_sale))
        .with("model", Json::text(model))
        .build()
}

// ---------------------------------------------------------------------------
// Laws
// ---------------------------------------------------------------------------

/// The combined reading is the last digit of the SALE row, that very digit, with the LITERS row
/// behind it exactly as it is shown. A row that ends in anything but a digit is not combined.
pub proof fn the_last_digit_stands_before_the_litres(sale_token: Seq<char>, liters_token: Seq<char>)
    ensures
        reading_text_of(sale_token, liters_token) is Some <==> trimmed(sale_token).len() > 0 && '0'
            <= trimmed(sale_token).last() <= '9',
        reading_text_of(sale_token, liters_token) matches Some(text) ==> {
            &&& text.len() == liters_token.len() + 1
            &&& text[0] == trimmed(sale_token).last()
            &&& text.skip(1) == liters_token
        },
{
    if let Some(text) = reading_text_of(sale_token, liters_token) {
        assert(text.skip(1) =~= liters_token);
    }
}

/// The LITERS row is read as it is shown without the white space round it, unless nothing is left.
pub proof fn litres_are_read_as_shown(token: Seq<char>, text: Seq<char>)
    ensures
        liters_text_of(token) == Some(text) <==> text == trimmed(token) && text.len() > 0,
{
}

/// A sale number is a regression just where it fell by less than nine tenths of the ceiling,
/// whatever the numbers are: by how much it fell alone decides, and a fall by nine tenths or more
/// is a rollover.
pub proof fn falls_short_of_nine_tenths_are_regressions(last: int, drop: int, ceiling: int)
    ensures
        drop > 0 && 10 * drop < 9 * ceiling ==> is_regression(last - drop, last, ceiling),
        drop > 0 && 10 * drop >= 9 * ceiling ==> !is_regression(last - drop, last, ceiling),
        drop <= 0 ==> !is_regression(last - drop, last, ceiling),
        forall|other: int| #[trigger]
            is_regression(other - drop, other, ceiling) == is_regression(
                last - drop,
                last,
                ceiling,
            ),
{
}

/// The company's own setting comes before the configured one, and that before the default.
pub proof fn the_nearest_setting_is_in_force<T>(own: T, configured: Option<T>, set: T, default_: T)
    ensures
        in_force(Some(own), configured, default_) == own,
        in_force(None, Some(set), default_) == set,
        in_force(None, None, default_) == default_,
{
}

/// A configured integer is the one that the whole text of the variable writes.
pub proof fn configured_integers_are_read(text: String)
    ensures
        configured_i64(Some(text)) == written_i64(text@),
        configured_i64(None) is None,
{
}

/// What looks wrong is told by its name, and each just where it is so: litres that fell or jumped
/// where there are litres to compare with, and a sale number that fell by less than nine tenths of
/// the ceiling where there is one to compare with; in this order, and nothing else.
pub proof fn anomalies_are_what_looks_wrong(
    facts: LitersFacts,
    sale: Option<i64>,
    last_sale: Option<i64>,
    ceiling: i64,
)
    ensures
        ({
            let found = anomalies_of(facts, sale, last_sale, ceiling);
            let compared = facts.liters is Some && facts.last_liters is Some;
            let fell = compared && facts.decreased;
            let jumped = compared && facts.too_large;
            let regressed = sale is Some && last_sale is Some && sale->0 < last_sale->0 && 10 * (
            last_sale->0 - sale->0) < 9 * ceiling;
            let a: int = if fell {
                1
            } else {
                0
            };
            let b: int = if jumped {
                1
            } else {
                0
            };
            let c: int = if regressed {
                1
            } else {
                0
            };
            &&& found.len() == a + b + c
            &&& fell ==> found[0] == "liters_decreased"@
            &&& jumped ==> found[a] == "delta_too_large"@
            &&& regressed ==> found[a + b] == "sale_number_regression"@
        }),
{
}

/// A reading needs a second look just where the model was not sure, a row could not be read, the
/// litres fell or jumped, or the sale number fell by less than nine tenths of the ceiling.
pub proof fn doubtful_readings_are_reviewed(
    tokens: MeterReadingTokens,
    facts: LitersFacts,
    last_sale: Option<i64>,
    ceiling: i64,
)
    ensures
        ({
            let sale = written_i64(trimmed(tokens.sale_token@));
            review_needed(tokens, facts, last_sale, ceiling) <==> {
                ||| tokens.confidence@ == "low"@
                ||| sale is None
                ||| facts.liters is None
                ||| (facts.last_liters is Some && (facts.decreased || facts.too_large))
                ||| (last_sale is Some && sale->0 < last_sale->0 && 10 * (last_sale->0 - sale->0)
                    < 9 * ceiling)
            }
        }),
{
}

/// A value that is there is told as it is, and one that is not as nothing.
pub proof fn optional_values_are_told(document: Json)
    ensures
        optional_view(Some(document)) == document@,
        optional_view(None) == JsonView::Null,
{
}

/// A reading is reported in full: the rows and notes as the model gave them, the sale number that
/// the SALE row writes, the litres and the combined reading, what looks wrong, and the values that
/// it was measured against, each under its own name.
pub proof fn readings_are_reported_in_full(
    tokens: MeterReadingTokens,
    facts: LitersFacts,
    last_sale: Option<i64>,
    ceiling: i64,
    model: Seq<char>,
    i: int,
)
    ensures
        ({
            let body = reading_view(tokens, facts, last_sale, ceiling, model);
            let sale = written_i64(trimmed(tokens.sale_token@));
            let wrong = anomalies_of(facts, sale, last_sale, ceiling);
            let told = body->Object_0[8].1;
            &&& body.size() == 13
            &&& body.tells(0, "success"@, JsonView::Bool(true))
            &&& body.tells(1, "sale_token"@, JsonView::Text(tokens.sale_token@))
            &&& body.tells(2, "liters_token"@, JsonView::Text(tokens.liters_token@))
            &&& sale matches Some(n) ==> body.tells(3, "sale_number"@, JsonView::Int(n as int))
            &&& sale is None ==> body.tells(3, "sale_number"@, JsonView::Null)
            &&& facts.liters matches Some(liters) ==> body.tells(4, "liters"@, liters@)
            &&& facts.liters is None ==> body.tells(4, "liters"@, JsonView::Null) && body.tells(
                5,
                "reading"@,
                JsonView::Null,
            )
            &&& facts.liters is Some && facts.pasted is Some ==> body.tells(
                5,
                "reading"@,
                facts.pasted->0@,
            )
            &&& facts.pasted is None ==> body.tells(5, "reading"@, JsonView::Null)
            &&& body.tells(6, "confidence"@, JsonView::Text(tokens.confidence@))
            &&& body.tells(7, "uncertain_digits"@, JsonView::Text(tokens.uncertain_digits@))
            &&& body.tells(8, "anomalies"@, told)
            &&& told is List
            &&& told.size() == wrong.len()
            &&& 0 <= i < wrong.len() ==> told.lists(i, JsonView::Text(wrong[i]))
            &&& body.tells(
                9,
                "needs_review"@,
                JsonView::Bool(review_needed(tokens, facts, last_sale, ceiling)),
            )
            &&& facts.last_liters matches Some(liters) ==> body.tells(10, "last_liters"@, liters@)
            &&& facts.last_liters is None ==> body.tells(10, "last_liters"@, JsonView::Null)
            &&& last_sale matches Some(n) ==> body.tells(
                11,
                "last_sale_number"@,
                JsonView::Int(n as int),
            )
            &&& last_sale is None ==> body.tells(11, "last_sale_number"@, JsonView::Null)
            &&& body.tells(12, "model"@, JsonView::Text(model))
        }),
{
}

/// The texts of a list are those of its strings, each at its place.
pub proof fn texts_keep_their_places(values: Seq<String>, i: int)
    ensures
        texts_of(values).len() == values.len(),
        0 <= i < values.len() ==> texts_of(values)[i] == values[i]@,
{
}

} // verus!

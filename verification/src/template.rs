//! Texts with blanks that values are put into.
use vstd::prelude::*;

use crate::text::chars_of;
use crate::text::decimal_text;
use crate::text::push_decimal2;

verus! {

/// A template with each `{}` in turn replaced by one of the values. Blanks
/// that no value is left for stay as they are, and so do left values.
pub open spec fn filled(template: Seq<char>, values: Seq<Seq<char>>) -> Seq<char>
    decreases template.len(),
{
    if template.len() == 0 {
        Seq::empty()
    } else if template.len() >= 2 && template[0] == '{' && template[1] == '}' && values.len() > 0 {
        values[0] + filled(template.skip(2), values.skip(1))
    } else {
        seq![template[0]] + filled(template.skip(1), values)
    }
}

/// Values for the blanks of a template, in their order.
#[derive(Debug)]
pub struct Blanks {
    values: Vec<String>,
}

impl View for Blanks {
    type V = Seq<Seq<char>>;

    closed spec fn view(&self) -> Seq<Seq<char>> {
        self.values@.map_values(|value: String| value@)
    }
}

/// A number of hundredths with two digits behind the point.
pub open spec fn hundredths(bps: nat) -> Seq<char> {
    crate::text::decimal(bps / 100) + "."@ + crate::text::decimal2(bps % 100)
}

/// Writes a number of hundredths with two digits behind the point.
pub fn hundredths_text(bps: u64) -> (text: String)
    ensures
        text@ == hundredths(bps as nat),
{
    let mut text = decimal_text(bps / 100);
    text.append(".");
    push_decimal2(&mut text, bps % 100);
    text
}

impl Blanks {
    pub fn new() -> (blanks: Self)
        ensures
            blanks@ == Seq::<Seq<char>>::empty(),
    {
        let blanks = Blanks { values: Vec::new() };
        proof {
            assert(blanks@ =~= Seq::<Seq<char>>::empty());
        }
        blanks
    }

    /// Adds a text.
    pub fn text(self, value: &str) -> (blanks: Self)
        ensures
            blanks@ == self@.push(value@),
    {
        let ghost before = self@;
        let mut values = self.values;
        values.push(value.to_owned());
        let blanks = Blanks { values };
        proof {
            assert(blanks@ =~= before.push(value@));
        }
        blanks
    }

    /// Adds a number in decimal.
    pub fn number(self, value: u64) -> (blanks: Self)
        ensures
            blanks@ == self@.push(crate::text::decimal(value as nat)),
    {
        self.text(decimal_text(value).as_str())
    }

    /// Adds a number of hundredths with two digits behind the point.
    pub fn percent(self, bps: u64) -> (blanks: Self)
        ensures
            blanks@ == self@.push(hundredths(bps as nat)),
    {
        self.text(hundredths_text(bps).as_str())
    }
}

/// Puts values into the blanks of a template.
pub fn fill(template: &str, blanks: &Blanks) -> (text: String)
    ensures
        text@ == filled(template@, blanks@),
{
    let chars = chars_of(template);
    let mut text = String::new();
    let mut at: usize = 0;
    let mut next: usize = 0;
    proof {
        assert(template@.skip(0) =~= template@);
        assert(blanks@.skip(0) =~= blanks@);
        assert(text@ + filled(template@, blanks@) =~= filled(template@, blanks@));
    }
    while at < chars.len()
        invariant
            chars@ == template@,
            at <= chars.len(),
            next <= blanks.values.len(),
            blanks@.len() == blanks.values.len(),
            filled(template@, blanks@) == text@ + filled(
                template@.skip(at as int),
                blanks@.skip(next as int),
            ),
        decreases chars.len() - at,
    {
        let ghost rest = template@.skip(at as int);
        let ghost left = blanks@.skip(next as int);
        let ghost before = text@;
        if chars.len() - at >= 2 && chars[at] == '{' && chars[at + 1] == '}' && next
            < blanks.values.len() {
            text.append(blanks.values[next].as_str());
            proof {
                assert(left[0] == blanks.values@[next as int]@);
                assert(rest.skip(2) =~= template@.skip(at + 2));
                assert(left.skip(1) =~= blanks@.skip(next + 1));
                assert(before + (left[0] + filled(rest.skip(2), left.skip(1))) =~= text@ + filled(
                    rest.skip(2),
                    left.skip(1),
                ));
            }
            at = at + 2;
            next = next + 1;
        } else {
            text.push(chars[at]);
            proof {
                assert(rest.skip(1) =~= template@.skip(at + 1));
                assert(rest[0] == template@[at as int]);
                if rest.len() >= 2 {
                    assert(rest[1] == template@[at + 1]);
                }
                assert(before + (seq![rest[0]] + filled(rest.skip(1), left)) =~= text@ + filled(
                    rest.skip(1),
                    left,
                ));
            }
            at = at + 1;
        }
    }
    proof {
        assert(template@.skip(at as int).len() == 0);
        assert(text@ + Seq::<char>::empty() =~= text@);
    }
    text
}

/// A template without blanks stays as it is.
pub proof fn plain_text_stays(template: Seq<char>, values: Seq<Seq<char>>)
    requires
        forall|i: int| 0 <= i < template.len() ==> #[trigger] template[i] != '{',
    ensures
        filled(template, values) == template,
    decreases template.len(),
{
    if template.len() > 0 {
        plain_text_stays(template.skip(1), values);
        assert(seq![template[0]] + template.skip(1) =~= template);
    } else {
        assert(template =~= Seq::<char>::empty());
    }
}

/// The first blank is filled by the first value, and the text before it stays;
/// the rest of the text is filled by the rest of the values.
pub proof fn blanks_are_filled_in_order(
    plain: Seq<char>,
    rest: Seq<char>,
    value: Seq<char>,
    values: Seq<Seq<char>>,
)
    requires
        forall|i: int| 0 <= i < plain.len() ==> #[trigger] plain[i] != '{',
    ensures
        filled(plain + seq!['{', '}'] + rest, seq![value] + values) == plain + value + filled(
            rest,
            values,
        ),
    decreases plain.len(),
{
    let template = plain + seq!['{', '}'] + rest;
    let all = seq![value] + values;
    assert(all.skip(1) =~= values);
    if plain.len() == 0 {
        assert(template.skip(2) =~= rest);
        assert(template[0] == '{' && template[1] == '}');
        assert(plain + value + filled(rest, values) =~= value + filled(rest, values));
    } else {
        let fewer = plain.skip(1);
        assert(template[0] == plain[0]);
        assert(template.skip(1) =~= fewer + seq!['{', '}'] + rest);
        blanks_are_filled_in_order(fewer, rest, value, values);
        assert(seq![plain[0]] + (fewer + value + filled(rest, values)) =~= plain + value + filled(
            rest,
            values,
        ));
    }
}

/// Without values a template stays as it is.
pub proof fn unfilled_templates_stay(template: Seq<char>)
    ensures
        filled(template, Seq::empty()) == template,
    decreases template.len(),
{
    if template.len() > 0 {
        unfilled_templates_stay(template.skip(1));
        assert(seq![template[0]] + template.skip(1) =~= template);
    } else {
        assert(template =~= Seq::<char>::empty());
    }
}

/// Hundredths are written as whole ones, a point and two digits, and stand for
/// the same number.
pub proof fn hundredths_are_read_back(bps: nat)
    ensures
        ({
            let text = hundredths(bps);
            let n = text.len();
            &&& n >= 4
            &&& text[n - 3] == '.'
            &&& 100 * crate::text::number_read(text.take(n - 3)) + crate::text::number_read(
                text.skip(n - 2),
            ) == bps
        }),
{
    let text = hundredths(bps);
    let n = text.len();
    reveal_strlit(".");
    crate::text::numbers_are_read_back(bps / 100);
    crate::text::two_digits_are_read_back(bps % 100);
    assert(text.take(n - 3) =~= crate::text::decimal(bps / 100));
    assert(text.skip(n - 2) =~= crate::text::decimal2(bps % 100));
    assert(text[n - 3] == "."@[0]);
}

} // verus!

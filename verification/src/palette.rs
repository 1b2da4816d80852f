//! Colours, as the drawing crate holds them.
use vstd::prelude::*;

verus! {

/// `charts::Color`: a colour of the drawing crate. It is made from a name or a
/// hex code and keeps it.
#[verifier::external_type_specification]
#[verifier::external_body]
pub struct ExColor(charts::Color);

/// The name or hex code that a colour holds: the text that
/// `charts::Color::as_hex` hands out.
pub uninterp spec fn color_code(color: charts::Color) -> Seq<char>;

/// `charts::Color::from_vec_of_hex_strings`, called on the one text `code`:
/// it makes one colour for each text it is given, here one, and that colour
/// holds `code` as it stands.
#[verifier::external_body]
pub(crate) fn single_color(code: &str) -> (colors: Vec<charts::Color>)
    ensures
        colors@.len() == 1,
        color_code(colors@[0]) == code@,
{
    charts::Color::from_vec_of_hex_strings(vec![code])
}

/// `charts::Color::as_hex`: a copy of the text that the colour holds.
#[verifier::external_body]
pub(crate) fn code_of(color: &charts::Color) -> (code: String)
    ensures
        code@ == color_code(*color),
{
    color.as_hex()
}

/// The texts that the colours hold, in their order.
pub open spec fn color_codes(colors: Seq<charts::Color>) -> Seq<Seq<char>> {
    Seq::new(colors.len(), |i: int| color_code(colors[i]))
}

/// The texts that the colours hold, in their order.
pub fn codes_of(colors: &Vec<charts::Color>) -> (codes: Vec<String>)
    ensures
        codes@.len() == colors@.len(),
        forall|i: int| 0 <= i < colors@.len() ==> codes@[i]@ == color_code(colors@[i]),
{
    let mut codes: Vec<String> = Vec::new();
    let mut i: usize = 0;
    while i < colors.len()
        invariant
            0 <= i <= colors@.len(),
            codes@.len() == i,
            forall|j: int| 0 <= j < i ==> codes@[j]@ == color_code(colors@[j]),
        decreases colors@.len() - i,
    {
        codes.push(code_of(&colors[i]));
        i += 1;
    }
    codes
}

} // verus!

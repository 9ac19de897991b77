use vstd::prelude::*;

verus! {

/// Address of the problem archive; a problem's page is this path followed by `/<id>`.
pub const BASE_URL: &'static str = "https://eolymp.com/uk/problems";

/// The decimal digit character for `d < 10`.
pub open spec fn digit_char(d: nat) -> char {
    (('0' as u32) + d) as char
}

/// The decimal notation of `n`, without leading zeros.
pub open spec fn decimal(n: nat) -> Seq<char>
    decreases n,
{
    if n < 10 {
        seq![digit_char(n)]
    } else {
        decimal(n / 10).push(digit_char(n % 10))
    }
}

/// The address of problem `id`.
pub open spec fn problem_url(id: nat) -> Seq<char> {
    BASE_URL@ + "/"@ + decimal(id)
}

/// Relies on `u32::to_string` (its `Display` impl): the decimal notation, no sign or padding.
#[verifier::external_body]
fn decimal_string(n: u32) -> (r: String)
    ensures
        r@ == decimal(n as nat),
{
    n.to_string()
}

/// Builds the address of the page that describes problem `id`.
pub fn build_url(id: u32) -> (r: String)
    ensures
        r@ == problem_url(id as nat),
{
    let digits = decimal_string(id);
    let url = String::from_str(BASE_URL).concat("/");
    url.concat(digits.as_str())
}

} // verus!

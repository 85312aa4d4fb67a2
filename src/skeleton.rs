use vstd::prelude::*;

verus! {

/// The grid class for a span of `s` of twelve columns; twelve for anything
/// outside `1..=11`.
pub open spec fn numcols(s: u8) -> Seq<char> {
    if s == 1 {
        "one column"@
    } else if s == 2 {
        "two columns"@
    } else if s == 3 {
        "three columns"@
    } else if s == 4 {
        "four columns"@
    } else if s == 5 {
        "five columns"@
    } else if s == 6 {
        "six columns"@
    } else if s == 7 {
        "seven columns"@
    } else if s == 8 {
        "eight columns"@
    } else if s == 9 {
        "nine columns"@
    } else if s == 10 {
        "ten columns"@
    } else if s == 11 {
        "eleven columns"@
    } else {
        "twelve columns"@
    }
}

pub fn to_numcols(s: u8) -> (r: String)
    ensures
        r@ == numcols(s),
{
    let t: &str = match s {
        1 => "one column",
        2 => "two columns",
        3 => "three columns",
        4 => "four columns",
        5 => "five columns",
        6 => "six columns",
        7 => "seven columns",
        8 => "eight columns",
        9 => "nine columns",
        10 => "ten columns",
        11 => "eleven columns",
        _ => "twelve columns",
    };
    t.to_string()
}

} // verus!

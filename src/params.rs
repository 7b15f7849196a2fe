use vstd::prelude::*;

verus! {

/// Page size used when a listing request gives none, or none that parses.
pub const DEFAULT_COUNT: i32 = 10;

/// Page number used when a listing request gives none, or none that parses.
pub const DEFAULT_PAGE: i32 = 0;

pub open spec fn is_digit(c: char) -> bool {
    '0' <= c && c <= '9'
}

/// The value of a run of decimal digits.
pub open spec fn digits_value(s: Seq<char>) -> int
    decreases s.len(),
{
    if s.len() == 0 {
        0
    } else {
        digits_value(s.drop_last()) * 10 + (s.last() as int - '0' as int)
    }
}

pub open spec fn all_digits(s: Seq<char>) -> bool {
    forall|i: int| 0 <= i < s.len() ==> is_digit(#[trigger] s[i])
}

/// The integer that `s` writes in decimal: an optional `+` or `-`, then one or
/// more ASCII digits and nothing else.
pub open spec fn decimal_value(s: Seq<char>) -> Option<int> {
    let signed = s.len() > 0 && (s[0] == '-' || s[0] == '+');
    let body = if signed { s.subrange(1, s.len() as int) } else { s };
    if body.len() > 0 && all_digits(body) {
        if signed && s[0] == '-' {
            Some(-digits_value(body))
        } else {
            Some(digits_value(body))
        }
    } else {
        None
    }
}

/// `s` read as an `i32`: its decimal value where that fits.
pub open spec fn parsed_i32(s: Seq<char>) -> Option<i32> {
    match decimal_value(s) {
        Some(v) => if i32::MIN <= v && v <= i32::MAX {
            Some(v as i32)
        } else {
            None
        },
        None => None,
    }
}

/// Relies on `str::parse::<i32>` (the `FromStr` of `i32`): it accepts an
/// optional `+` or `-` followed by ASCII digits only, and fails on an empty
/// string, on any other character and on a value outside `i32`.
#[verifier::external_body]
fn parse_i32(s: &str) -> (r: Option<i32>)
    ensures
        r == parsed_i32(s@),
{
    s.parse::<i32>().ok()
}

/// What an optional query parameter reads as.
pub open spec fn param_value(raw: Option<String>) -> Option<i32> {
    match raw {
        Some(s) => parsed_i32(s@),
        None => None,
    }
}

/// Reads an optional query parameter as an integer; absent and unparseable
/// values both give `None`.
pub fn parse_param(raw: &Option<String>) -> (r: Option<i32>)
    ensures
        r == param_value(*raw),
{
    match raw {
        Some(s) => parse_i32(s.as_str()),
        None => None,
    }
}

/// The raw query parameters of a listing request.
pub struct ListQuery {
    pub page: Option<String>,
    pub count: Option<String>,
}

/// The rows a listing asks for: skip `offset` rows, newest first, then take
/// up to `limit`.
#[derive(Clone, Copy, Debug, PartialEq, Eq, Structural)]
pub struct PageWindow {
    pub limit: i32,
    pub offset: i64,
}

/// The window of page `page` with pages of `count` rows: the page size is
/// also the stride, so the offset is `count * page`.
pub open spec fn window_spec(page: Option<i32>, count: Option<i32>) -> PageWindow {
    let c: i32 = match count {
        Some(c) => c,
        None => DEFAULT_COUNT,
    };
    let p: i32 = match page {
        Some(p) => p,
        None => DEFAULT_PAGE,
    };
    PageWindow { limit: c, offset: (c * p) as i64 }
}

/// The window for an already parsed page number and page size, each falling
/// back to its default when absent.
pub fn page_window(page: Option<i32>, count: Option<i32>) -> (r: PageWindow)
    ensures
        r == window_spec(page, count),
        r.limit as int * match page {
            Some(p) => p as int,
            None => DEFAULT_PAGE as int,
        } == r.offset as int,
{
    let c: i32 = match count {
        Some(c) => c,
        None => DEFAULT_COUNT,
    };
    let p: i32 = match page {
        Some(p) => p,
        None => DEFAULT_PAGE,
    };
    assert(i32::MIN * i32::MAX <= c as int * p as int <= i32::MIN * i32::MIN) by (nonlinear_arith)
        requires
            i32::MIN <= c <= i32::MAX,
            i32::MIN <= p <= i32::MAX,
    ;
    let offset: i64 = (c as i64) * (p as i64);
    PageWindow { limit: c, offset }
}

/// The window a listing request asks for.
pub open spec fn query_window(q: ListQuery) -> PageWindow {
    window_spec(param_value(q.page), param_value(q.count))
}

impl ListQuery {
    /// Parses both parameters and derives the window; a parameter that is
    /// absent or does not parse as an integer takes its default.
    pub fn window(&self) -> (r: PageWindow)
        ensures
            r == query_window(*self),
    {
        let page = parse_param(&self.page);
        let count = parse_param(&self.count);
        page_window(page, count)
    }
}

} // verus!

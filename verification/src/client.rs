use vstd::prelude::*;

verus! {

/// The character of a decimal digit.
pub open spec fn digit_char(d: nat) -> char {
    (('0' as nat) + d) as char
}

/// The decimal numeral of a number: its digits, most significant first, with no leading zero.
pub open spec fn decimal_text(n: nat) -> Seq<char>
    decreases n,
{
    if n < 10 {
        seq![digit_char(n)]
    } else {
        decimal_text(n / 10).push(digit_char(n % 10))
    }
}

/// The text of one decimal digit.
fn digit_text(d: u32) -> (t: &'static str)
    requires
        d < 10,
    ensures
        t@ == seq![digit_char(d as nat)],
{
    proof {
        reveal_strlit("0");
        reveal_strlit("1");
        reveal_strlit("2");
        reveal_strlit("3");
        reveal_strlit("4");
        reveal_strlit("5");
        reveal_strlit("6");
        reveal_strlit("7");
        reveal_strlit("8");
        reveal_strlit("9");
    }
    match d {
        0 => "0",
        1 => "1",
        2 => "2",
        3 => "3",
        4 => "4",
        5 => "5",
        6 => "6",
        7 => "7",
        8 => "8",
        _ => "9",
    }
}

/// Appends the decimal numeral of `n` to `out`.
fn append_decimal(out: &mut String, n: u32)
    ensures
        final(out)@ == old(out)@ + decimal_text(n as nat),
    decreases n,
{
    if n < 10 {
        out.append(digit_text(n));
    } else {
        append_decimal(out, n / 10);
        out.append(digit_text(n % 10));
        proof {
            assert(decimal_text(n as nat) == decimal_text((n / 10) as nat).push(digit_char((n % 10) as nat)));
        }
    }
}

/// The address of the Gamma API.
pub open spec fn gamma_api_base_url() -> Seq<char> {
    "https://gamma-api.polymarket.com"@
}

/// The query that asks for active, open events, by descending volume.
pub open spec fn active_events_query() -> Seq<char> {
    "/events?active=true&closed=false&order=volume&ascending=false&limit="@
}

/// The address from which the `limit` most traded active events are fetched.
pub fn active_events_url(limit: u32) -> (url: String)
    ensures
        url@ == gamma_api_base_url() + active_events_query() + decimal_text(limit as nat),
{
    let mut url = "https://gamma-api.polymarket.com".to_owned();
    url.append("/events?active=true&closed=false&order=volume&ascending=false&limit=");
    append_decimal(&mut url, limit);
    url
}

} // verus!

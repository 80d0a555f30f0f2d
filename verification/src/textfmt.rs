//! Verified decimal rendering, and the URL shape of a payout link.

use vstd::prelude::*;
use vstd::string::StringExecFns;

verus! {

/// The character for one decimal digit.
pub open spec fn digit_char(d: nat) -> char {
    if d == 0 {
        '0'
    } else if d == 1 {
        '1'
    } else if d == 2 {
        '2'
    } else if d == 3 {
        '3'
    } else if d == 4 {
        '4'
    } else if d == 5 {
        '5'
    } else if d == 6 {
        '6'
    } else if d == 7 {
        '7'
    } else if d == 8 {
        '8'
    } else {
        '9'
    }
}

/// The decimal rendering of a number, most significant digit first, with no
/// leading zero except for zero itself.
pub open spec fn dec_rep(n: nat) -> Seq<char>
    decreases n,
{
    if n < 10 {
        seq![digit_char(n)]
    } else {
        dec_rep(n / 10).push(digit_char(n % 10))
    }
}

fn append_digit(s: &mut String, d: u64)
    requires
        d < 10,
    ensures
        final(s)@ == old(s)@.push(digit_char(d as nat)),
{
    proof {
        reveal_strlit("0");
        reveal_strlit("1");
        reveal_strlit("2");
        reveal_strlit("3");
        reveal_strlit("4");
        reveal_strlit("5");
        reveal_strlit("6");
        reveal_strlit("7");
        reveal_strlit("8");
        reveal_strlit("9");
    }
    match d {
        0 => s.append("0"),
        1 => s.append("1"),
        2 => s.append("2"),
        3 => s.append("3"),
        4 => s.append("4"),
        5 => s.append("5"),
        6 => s.append("6"),
        7 => s.append("7"),
        8 => s.append("8"),
        _ => s.append("9"),
    }
    proof {
        assert(final(s)@ =~= old(s)@.push(digit_char(d as nat)));
    }
}

/// Appends the decimal rendering of `n`.
pub fn append_dec(s: &mut String, n: u64)
    ensures
        final(s)@ == old(s)@ + dec_rep(n as nat),
    decreases n,
{
    if n >= 10 {
        proof {
            assert(n / 10 < n) by (nonlinear_arith)
                requires
                    n >= 10,
            ;
        }
        append_dec(s, n / 10);
        append_digit(s, n % 10);
        proof {
            assert(old(s)@ + dec_rep(n as nat) =~= (old(s)@ + dec_rep((n / 10) as nat)).push(
                digit_char((n % 10) as nat),
            ));
        }
    } else {
        append_digit(s, n);
        proof {
            assert(old(s)@ + dec_rep(n as nat) =~= old(s)@.push(digit_char(n as nat)));
        }
    }
}

/// The decimal rendering of `n` as an owned string.
pub fn u64_to_string(n: u64) -> (s: String)
    ensures
        s@ == dec_rep(n as nat),
{
    let mut s = String::new();
    append_dec(&mut s, n);
    proof {
        assert(s@ =~= dec_rep(n as nat));
    }
    s
}

/// The text of a payout link: base, the fixed path segment, then the
/// merchant and payout ids.
pub open spec fn payout_link_url_chars(base: Seq<char>, merchant_id: u64, payout_id: u64) -> Seq<
    char,
> {
    base + "/payout_link/"@ + dec_rep(merchant_id as nat) + "/"@ + dec_rep(payout_id as nat)
}

/// Renders the payout link URL under the given base.
pub fn render_payout_link_url(base: &str, merchant_id: u64, payout_id: u64) -> (s: String)
    ensures
        s@ == payout_link_url_chars(base@, merchant_id, payout_id),
{
    let mut s = String::from_str(base);
    s.append("/payout_link/");
    append_dec(&mut s, merchant_id);
    s.append("/");
    append_dec(&mut s, payout_id);
    proof {
        assert(s@ =~= payout_link_url_chars(base@, merchant_id, payout_id));
    }
    s
}

/// Prefixes a profile's own domain with the https scheme.
pub fn base_from_domain(domain: &str) -> (s: String)
    ensures
        s@ == "https://"@ + domain@,
{
    let mut s = String::from_str("https://");
    s.append(domain);
    s
}

/// Whether a text parses as an absolute URL.
pub uninterp spec fn is_absolute_url(s: Seq<char>) -> bool;

/// Relies on url::Url::parse: whether the text is accepted is a function of
/// the text alone.
#[verifier::external_body]
pub(crate) fn parses_as_absolute_url(s: &str) -> (r: bool)
    ensures
        r == is_absolute_url(s@),
{
    url::Url::parse(s).is_ok()
}

} // verus!

//! Contact values as they are stored: phone numbers in international form
//! without a plus sign.
use vstd::prelude::*;
use vstd::string::*;
use crate::text::same_text;

verus! {

/// `s` without a leading `+`.
pub open spec fn without_plus(s: Seq<char>) -> Seq<char> {
    if s.len() > 0 && s[0] == '+' {
        s.drop_first()
    } else {
        s
    }
}

/// A leading `0` replaced by the country prefix `62`.
pub open spec fn with_country_prefix(s: Seq<char>) -> Seq<char> {
    if s.len() > 0 && s[0] == '0' {
        "62"@ + s.drop_first()
    } else {
        s
    }
}

pub open spec fn canonical_phone_spec(v: Seq<char>) -> Seq<char> {
    with_country_prefix(without_plus(v))
}

/// A phone number as stored: a leading plus sign dropped, then a leading
/// `0` replaced by `62`.
pub fn canonical_phone(v: &str) -> (r: String)
    ensures
        r@ == canonical_phone_spec(v@),
{
    let n = v.unicode_len();
    let digits: &str = if n > 0 && v.get_char(0) == '+' {
        v.substring_char(1, n)
    } else {
        v
    };
    assert(digits@ =~= without_plus(v@));
    let m = digits.unicode_len();
    if m > 0 && digits.get_char(0) == '0' {
        let rest = digits.substring_char(1, m);
        let mut out = String::from_str("62");
        out.append(rest);
        assert(rest@ =~= digits@.drop_first());
        out
    } else {
        String::from_str(digits)
    }
}

/// The value stored for a contact channel: phone numbers of `whatsapp`
/// channels are canonical, other values are kept as given.
pub fn contact_value_for(channel: &str, v: &str) -> (r: String)
    ensures
        channel@ == "whatsapp"@ ==> r@ == canonical_phone_spec(v@),
        channel@ != "whatsapp"@ ==> r@ == v@,
{
    if same_text(channel, "whatsapp") {
        canonical_phone(v)
    } else {
        String::from_str(v)
    }
}

} // verus!

//! The attribute encoder: typed values to the text of a structural attribute.
//!
//! Numbers and booleans are put into their canonical text here; whether an
//! attribute is emitted at all is left to seed's own encoder, which every
//! value passes through on its way into a node.

use seed::virtual_dom::{AsAtValue, AtValue};
use vstd::prelude::*;
use vstd::string::StringExecFns;

verus! {

/// The character that stands for the decimal digit `d`.
pub open spec fn digit(d: int) -> char {
    if d == 0 {
        '0'
    } else if d == 1 {
        '1'
    } else if d == 2 {
        '2'
    } else if d == 3 {
        '3'
    } else if d == 4 {
        '4'
    } else if d == 5 {
        '5'
    } else if d == 6 {
        '6'
    } else if d == 7 {
        '7'
    } else if d == 8 {
        '8'
    } else {
        '9'
    }
}

/// The decimal digits of `n`, most significant first, without leading zeros.
pub open spec fn digits(n: nat) -> Seq<char>
    decreases n,
{
    if n < 10 {
        seq![digit(n as int)]
    } else {
        digits(n / 10).push(digit((n % 10) as int))
    }
}

/// The decimal text of an integer: a minus sign for a negative one, then its digits.
pub open spec fn decimal(n: int) -> Seq<char> {
    if n < 0 {
        seq!['-'] + digits((-n) as nat)
    } else {
        digits(n as nat)
    }
}

/// The text of a flag.
pub open spec fn truth(flag: bool) -> Seq<char> {
    if flag {
        "true"@
    } else {
        "false"@
    }
}

/// The characters of an optional text.
pub open spec fn text_view(text: Option<String>) -> Option<Seq<char>> {
    match text {
        Some(t) => Some(t@),
        None => None,
    }
}

/// What the encoder makes of an optional flag.
pub open spec fn optional_truth(flag: Option<bool>) -> Option<Seq<char>> {
    match flag {
        Some(b) => Some(truth(b)),
        None => None,
    }
}

/// What the encoder makes of an optional integer.
pub open spec fn optional_decimal(n: Option<i32>) -> Option<Seq<char>> {
    match n {
        Some(n) => Some(decimal(n as int)),
        None => None,
    }
}

/// How the host treats an attribute, as seed tells it apart.
pub enum AttributeValue {
    /// The attribute is left out of the node.
    Ignored,
    /// The attribute is present without a value.
    Bare,
    /// The attribute is present with this text.
    Text(String),
}

impl AttributeValue {
    /// The text that reaches the node: none for an ignored attribute, the
    /// empty text for a bare one.
    pub open spec fn rendered(self) -> Option<Seq<char>> {
        match self {
            AttributeValue::Ignored => None,
            AttributeValue::Bare => Some(Seq::empty()),
            AttributeValue::Text(t) => Some(t@),
        }
    }

    /// Turns the value into the text that reaches the node, if any does.
    pub fn into_text(self) -> (r: Option<String>)
        ensures
            text_view(r) == self.rendered(),
    {
        match self {
            AttributeValue::Ignored => None,
            AttributeValue::Bare => Some(String::new()),
            AttributeValue::Text(t) => Some(t),
        }
    }
}

/// Calls seed's `AsAtValue::as_at_value` on an optional text. Seed ignores the
/// attribute where the text is absent and keeps a present text as it is.
#[verifier::external_body]
fn optional_at_value(value: &Option<String>) -> (r: AttributeValue)
    ensures
        r.rendered() == text_view(*value),
        r !is Bare,
{
    match value.as_at_value() {
        AtValue::Ignored => AttributeValue::Ignored,
        AtValue::None => AttributeValue::Bare,
        AtValue::Some(text) => AttributeValue::Text(text),
    }
}

/// Calls seed's `AtValue::from` on a text. Seed always keeps the text as it is.
#[verifier::external_body]
fn required_at_value(value: &str) -> (r: AttributeValue)
    ensures
        r.rendered() == Some(value@),
        r is Text,
{
    match AtValue::from(value) {
        AtValue::Ignored => AttributeValue::Ignored,
        AtValue::None => AttributeValue::Bare,
        AtValue::Some(text) => AttributeValue::Text(text),
    }
}

/// The text of one decimal digit.
fn digit_text(d: u64) -> (r: &'static str)
    requires
        d < 10,
    ensures
        r@ == seq![digit(d as int)],
{
    proof {
        reveal_strlit("0");
        reveal_strlit("1");
        reveal_strlit("2");
        reveal_strlit("3");
        reveal_strlit("4");
        reveal_strlit("5");
        reveal_strlit("6");
        reveal_strlit("7");
        reveal_strlit("8");
        reveal_strlit("9");
    }
    let r: &'static str = if d == 0 {
        "0"
    } else if d == 1 {
        "1"
    } else if d == 2 {
        "2"
    } else if d == 3 {
        "3"
    } else if d == 4 {
        "4"
    } else if d == 5 {
        "5"
    } else if d == 6 {
        "6"
    } else if d == 7 {
        "7"
    } else if d == 8 {
        "8"
    } else {
        "9"
    };
    assert(r@ =~= seq![digit(d as int)]);
    r
}

/// Appends the decimal digits of `n`, most significant first.
fn append_digits(out: &mut String, n: u64)
    ensures
        final(out)@ == old(out)@ + digits(n as nat),
    decreases n,
{
    if n >= 10 {
        append_digits(out, n / 10);
    }
    out.append(digit_text(n % 10));
    assert(out@ =~= old(out)@ + digits(n as nat));
}

/// The decimal text of an unsigned count.
pub fn count_text(n: u32) -> (r: String)
    ensures
        r@ == decimal(n as int),
{
    let mut out = String::new();
    append_digits(&mut out, n as u64);
    assert(out@ =~= decimal(n as int));
    out
}

/// The decimal text of a signed integer.
pub fn int_text(n: i32) -> (r: String)
    ensures
        r@ == decimal(n as int),
{
    let mut out = String::new();
    if n < 0 {
        proof {
            reveal_strlit("-");
        }
        out.append("-");
        let magnitude: u64 = (-(n as i64)) as u64;
        append_digits(&mut out, magnitude);
    } else {
        append_digits(&mut out, n as u64);
    }
    assert(out@ =~= decimal(n as int));
    out
}

/// The text of a flag: `true` or `false`.
pub fn bool_text(flag: bool) -> (r: String)
    ensures
        r@ == truth(flag),
{
    if flag {
        "true".to_owned()
    } else {
        "false".to_owned()
    }
}

/// Encodes a value that is always set: the text itself, and never absent.
pub fn encode_required(value: &str) -> (r: Option<String>)
    ensures
        text_view(r) == Some(value@),
{
    required_at_value(value).into_text()
}

/// Encodes an optional text: absent stays absent, a present text is kept.
pub fn encode_text(value: &Option<String>) -> (r: Option<String>)
    ensures
        text_view(r) == text_view(*value),
{
    optional_at_value(value).into_text()
}

/// Encodes an optional flag: absent stays absent, `false` is as present as `true`.
pub fn encode_bool(value: Option<bool>) -> (r: Option<String>)
    ensures
        text_view(r) == optional_truth(value),
{
    let text: Option<String> = match value {
        Some(flag) => Some(bool_text(flag)),
        None => None,
    };
    optional_at_value(&text).into_text()
}

/// Encodes an optional integer: absent stays absent, a present one becomes its decimal text.
pub fn encode_int(value: Option<i32>) -> (r: Option<String>)
    ensures
        text_view(r) == optional_decimal(value),
{
    let text: Option<String> = match value {
        Some(n) => Some(int_text(n)),
        None => None,
    };
    optional_at_value(&text).into_text()
}

} // verus!

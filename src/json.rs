//! The JSON bodies that the backend reads: compact objects whose members
//! the bridge lays out itself, with strings and configuration documents
//! rendered by serde_json.

use vstd::prelude::*;

verus! {

/// The compact text of the JSON document `s`, or `None` where `s` is not JSON.
pub uninterp spec fn normalized_json(s: Seq<char>) -> Option<Seq<char>>;

/// The JSON string literal for `s`, quotes and escapes included.
pub uninterp spec fn json_quoted(s: Seq<char>) -> Seq<char>;

/// Relies on `serde_json::from_str::<serde_json::Value>` to parse `s`, and on
/// the compact `Display` of `serde_json::Value` to render what it parsed.
#[verifier::external_body]
fn reencode_json(s: &str) -> (r: Option<String>)
    ensures
        r is Some <==> normalized_json(s@) is Some,
        r matches Some(t) ==> normalized_json(s@) == Some(t@),
{
    match serde_json::from_str::<serde_json::Value>(s) {
        Ok(v) => Some(v.to_string()),
        Err(_) => None,
    }
}

/// Relies on the compact `Display` of `serde_json::Value::String`: the quoted
/// and escaped literal of `s`.
#[verifier::external_body]
pub(crate) fn quote_json(s: &str) -> (r: String)
    ensures
        r@ == json_quoted(s@),
{
    serde_json::Value::String(s.to_string()).to_string()
}

/// The value that a configuration string stands for in a body: the document
/// it holds, or `null` where it holds none.
pub open spec fn config_value(config: Seq<char>) -> Seq<char> {
    match normalized_json(config) {
        Some(t) => t,
        None => "null"@,
    }
}

/// Renders a configuration string as a JSON value; text that does not parse
/// becomes `null` and is left for the backend to reject.
pub fn config_json(config: &str) -> (r: String)
    ensures
        r@ == config_value(config@),
{
    match reencode_json(config) {
        Some(t) => t,
        None => String::from_str("null"),
    }
}

pub open spec fn digit_char(d: nat) -> char {
    if d == 0 { '0' }
    else if d == 1 { '1' }
    else if d == 2 { '2' }
    else if d == 3 { '3' }
    else if d == 4 { '4' }
    else if d == 5 { '5' }
    else if d == 6 { '6' }
    else if d == 7 { '7' }
    else if d == 8 { '8' }
    else { '9' }
}

/// The decimal digits of `n`, without sign or leading zeros.
pub open spec fn decimal(n: nat) -> Seq<char>
    decreases n,
{
    if n < 10 {
        seq![digit_char(n)]
    } else {
        decimal(n / 10) + seq![digit_char(n % 10)]
    }
}

fn digit_text(d: u32) -> (r: &'static str)
    requires
        d < 10,
    ensures
        r@ == seq![digit_char(d as nat)],
{
    proof {
        reveal_strlit("0");
        reveal_strlit("1");
        reveal_strlit("2");
        reveal_strlit("3");
        reveal_strlit("4");
        reveal_strlit("5");
        reveal_strlit("6");
        reveal_strlit("7");
        reveal_strlit("8");
        reveal_strlit("9");
    }
    if d == 0 { "0" }
    else if d == 1 { "1" }
    else if d == 2 { "2" }
    else if d == 3 { "3" }
    else if d == 4 { "4" }
    else if d == 5 { "5" }
    else if d == 6 { "6" }
    else if d == 7 { "7" }
    else if d == 8 { "8" }
    else { "9" }
}

/// The JSON number for `n`.
pub fn decimal_text(n: u32) -> (r: String)
    ensures
        r@ == decimal(n as nat),
    decreases n,
{
    if n < 10 {
        String::from_str(digit_text(n))
    } else {
        let mut r = decimal_text(n / 10);
        r.append(digit_text(n % 10));
        r
    }
}

/// One member of an object: the key in quotes, a colon, the value's text.
/// Keys are plain names that need no escaping.
pub open spec fn json_member(m: (Seq<char>, Seq<char>)) -> Seq<char> {
    "\""@ + m.0 + "\":"@ + m.1
}

pub open spec fn json_members(ms: Seq<(Seq<char>, Seq<char>)>) -> Seq<char>
    decreases ms.len(),
{
    if ms.len() == 0 {
        Seq::empty()
    } else if ms.len() == 1 {
        json_member(ms[0])
    } else {
        json_members(ms.drop_last()) + ","@ + json_member(ms.last())
    }
}

/// A compact JSON object with the given members, in the given order.
pub open spec fn json_object(ms: Seq<(Seq<char>, Seq<char>)>) -> Seq<char> {
    "{"@ + json_members(ms) + "}"@
}

/// The keys of a list of members.
pub open spec fn member_keys(ms: Seq<(Seq<char>, Seq<char>)>) -> Seq<Seq<char>> {
    ms.map_values(|m: (Seq<char>, Seq<char>)| m.0)
}

/// Writes a compact JSON object from keys and the rendered text of values.
pub fn write_object(members: &Vec<(&str, String)>) -> (r: String)
    ensures
        r@ == json_object(members.deep_view()),
{
    proof {
        reveal_strlit("{");
        reveal_strlit("}");
        reveal_strlit(",");
        reveal_strlit("\"");
        reveal_strlit("\":");
    }
    let mut r = String::from_str("{");
    let mut i: usize = 0;
    while i < members.len()
        invariant
            i <= members@.len(),
            r@ == "{"@ + json_members(members.deep_view().subrange(0, i as int)),
        decreases members@.len() - i,
    {
        if i > 0 {
            r.append(",");
        }
        r.append("\"");
        r.append(members[i].0);
        r.append("\":");
        r.append(members[i].1.as_str());
        i = i + 1;
        proof {
            let ms = members.deep_view().subrange(0, i as int);
            assert(ms.drop_last() =~= members.deep_view().subrange(0, i - 1));
            assert(ms.last() == members.deep_view()[i - 1]);
        }
    }
    r.append("}");
    assert(members.deep_view().subrange(0, members@.len() as int) =~= members.deep_view());
    r
}

} // verus!

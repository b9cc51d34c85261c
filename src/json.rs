//! The text of the documents the plugin emits: objects and arrays of
//! already rendered values, joined by commas.
use vstd::prelude::*;

verus! {

/// What `serde_json` writes for a string: the characters quoted and escaped.
pub uninterp spec fn quoted(s: Seq<char>) -> Seq<char>;

/// Whether no character of the text needs escaping in a JSON string: none
/// is a control character, a quote or a backslash.
pub open spec fn plain_text(s: Seq<char>) -> bool {
    forall|i: int| 0 <= i < s.len() ==> {
        &&& (#[trigger] s[i]) as u32 >= 0x20
        &&& s[i] != '"'
        &&& s[i] != '\\'
    }
}

/// Relies on `serde_json::to_string` on a `str`: it writes the string as a
/// JSON string literal, a function of the characters alone, between two
/// quotes, escaping only control characters, quotes and backslashes.
/// Writing into memory cannot fail, so the error arm is not reached.
#[verifier::external_body]
pub(crate) fn json_quote(s: &str) -> (r: String)
    ensures
        r@ == quoted(s@),
        r@.len() >= 2,
        r@[0] == '"',
        r@.last() == '"',
        plain_text(s@) ==> r@ == seq!['"'] + s@ + seq!['"'],
{
    match serde_json::to_string(s) {
        Ok(t) => t,
        Err(_) => String::new(),
    }
}

/// The items joined by commas.
pub open spec fn join(items: Seq<Seq<char>>) -> Seq<char>
    decreases items.len(),
{
    if items.len() == 0 {
        Seq::empty()
    } else if items.len() == 1 {
        items[0]
    } else {
        join(items.drop_last()) + seq![','] + items.last()
    }
}

/// An object whose members are already rendered.
pub open spec fn object_text(members: Seq<Seq<char>>) -> Seq<char> {
    seq!['{'] + join(members) + seq!['}']
}

/// An array whose items are already rendered.
pub open spec fn array_text(items: Seq<Seq<char>>) -> Seq<char> {
    seq!['['] + join(items) + seq![']']
}

/// A member: the key in quotes, a colon, and the rendered value.
pub open spec fn member_text(key: Seq<char>, value: Seq<char>) -> Seq<char> {
    seq!['"'] + key + seq!['"', ':'] + value
}

/// The views of a list of strings.
pub open spec fn texts(v: Seq<String>) -> Seq<Seq<char>> {
    v.map_values(|s: String| s@)
}

/// Renders one member. Keys are plain words and need no escaping.
pub fn member(key: &str, value: &str) -> (r: String)
    ensures
        r@ == member_text(key@, value@),
{
    let mut out = String::from_str("\"");
    out.append(key);
    out.append("\":");
    out.append(value);
    proof {
        reveal_strlit("\"");
        reveal_strlit("\":");
        assert(out@ =~= member_text(key@, value@));
    }
    out
}

/// The rendered items joined by commas.
pub fn join_texts(items: &Vec<String>) -> (r: String)
    ensures
        r@ == join(texts(items@)),
{
    let mut out = String::new();
    let mut i: usize = 0;
    while i < items.len()
        invariant
            i <= items.len(),
            out@ == join(texts(items@).take(i as int)),
        decreases items.len() - i,
    {
        let ghost prev = texts(items@).take(i as int);
        let ghost next = texts(items@).take(i as int + 1);
        assert(next.drop_last() =~= prev);
        assert(next.last() == items@[i as int]@);
        if i > 0 {
            out.append(",");
            proof {
                reveal_strlit(",");
            }
        }
        out.append(items[i].as_str());
        assert(out@ =~= join(next));
        i = i + 1;
    }
    assert(texts(items@).take(i as int) =~= texts(items@));
    out
}

/// Renders an object from its rendered members.
pub fn render_object(members: &Vec<String>) -> (r: String)
    ensures
        r@ == object_text(texts(members@)),
{
    let mut out = String::from_str("{");
    let body = join_texts(members);
    out.append(body.as_str());
    out.append("}");
    proof {
        reveal_strlit("{");
        reveal_strlit("}");
        assert(out@ =~= object_text(texts(members@)));
    }
    out
}

/// Renders an array from its rendered items.
pub fn render_array(items: &Vec<String>) -> (r: String)
    ensures
        r@ == array_text(texts(items@)),
{
    let mut out = String::from_str("[");
    let body = join_texts(items);
    out.append(body.as_str());
    out.append("]");
    proof {
        reveal_strlit("[");
        reveal_strlit("]");
        assert(out@ =~= array_text(texts(items@)));
    }
    out
}

/// The character of a decimal digit.
pub open spec fn digit_char(d: nat) -> char {
    if d == 0 { '0' }
    else if d == 1 { '1' }
    else if d == 2 { '2' }
    else if d == 3 { '3' }
    else if d == 4 { '4' }
    else if d == 5 { '5' }
    else if d == 6 { '6' }
    else if d == 7 { '7' }
    else if d == 8 { '8' }
    else { '9' }
}

/// The decimal digits of a number, without leading zeros.
pub open spec fn decimal(n: nat) -> Seq<char>
    decreases n,
{
    if n < 10 {
        seq![digit_char(n)]
    } else {
        decimal(n / 10).push(digit_char(n % 10))
    }
}

fn digit_str(d: u64) -> (r: &'static str)
    requires
        d < 10,
    ensures
        r@ == seq![digit_char(d as nat)],
{
    proof {
        reveal_strlit("0");
        reveal_strlit("1");
        reveal_strlit("2");
        reveal_strlit("3");
        reveal_strlit("4");
        reveal_strlit("5");
        reveal_strlit("6");
        reveal_strlit("7");
        reveal_strlit("8");
        reveal_strlit("9");
    }
    if d == 0 { "0" }
    else if d == 1 { "1" }
    else if d == 2 { "2" }
    else if d == 3 { "3" }
    else if d == 4 { "4" }
    else if d == 5 { "5" }
    else if d == 6 { "6" }
    else if d == 7 { "7" }
    else if d == 8 { "8" }
    else { "9" }
}

/// Writes a number in decimal.
pub fn decimal_string(n: u64) -> (r: String)
    ensures
        r@ == decimal(n as nat),
    decreases n,
{
    if n < 10 {
        String::from_str(digit_str(n))
    } else {
        let mut s = decimal_string(n / 10);
        s.append(digit_str(n % 10));
        s
    }
}

} // verus!

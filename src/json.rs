use vstd::prelude::*;

verus! {

/// The text that serde_json writes for a string: the string quoted and escaped.
pub uninterp spec fn json_quoted(s: Seq<char>) -> Seq<char>;

/// One decimal digit.
pub open spec fn digit_char(d: nat) -> char
    recommends
        d < 10,
{
    seq!['0', '1', '2', '3', '4', '5', '6', '7', '8', '9'][d as int]
}

/// The decimal notation of `n`, without sign or leading zeros.
pub open spec fn decimal(n: nat) -> Seq<char>
    decreases n,
{
    if n < 10 {
        seq![digit_char(n)]
    } else {
        decimal(n / 10).push(digit_char(n % 10))
    }
}

/// The JSON literal of a boolean.
pub open spec fn bool_literal(b: bool) -> Seq<char> {
    if b {
        seq!['t', 'r', 'u', 'e']
    } else {
        seq!['f', 'a', 'l', 's', 'e']
    }
}

/// The items joined by commas, in order.
pub open spec fn comma_joined(items: Seq<Seq<char>>) -> Seq<char>
    decreases items.len(),
{
    if items.len() == 0 {
        Seq::empty()
    } else if items.len() == 1 {
        items[0]
    } else {
        comma_joined(items.drop_last()) + seq![','] + items.last()
    }
}

/// A JSON array whose elements are the given texts, in order.
pub open spec fn json_array(items: Seq<Seq<char>>) -> Seq<char> {
    seq!['['] + comma_joined(items) + seq![']']
}

/// The views of a vector of strings.
pub open spec fn texts_of(v: Seq<String>) -> Seq<Seq<char>> {
    v.map_values(|s: String| s@)
}

/// Relies on serde_json::to_string on a `&str`: the JSON string literal of the
/// text, which cannot fail for a string.
#[verifier::external_body]
pub(crate) fn quote_json(s: &str) -> (r: String)
    ensures
        r@ == json_quoted(s@),
{
    serde_json::to_string(s).unwrap_or_default()
}

/// Relies on serde_json::to_string on a `u64`: numbers are written in decimal.
#[verifier::external_body]
pub(crate) fn number_json(n: u64) -> (r: String)
    ensures
        r@ == decimal(n as nat),
{
    serde_json::to_string(&n).unwrap_or_default()
}

/// The JSON literal of a boolean.
pub fn bool_json(b: bool) -> (r: String)
    ensures
        r@ == bool_literal(b),
{
    proof {
        reveal_strlit("true");
        reveal_strlit("false");
    }
    if b {
        String::from_str("true")
    } else {
        String::from_str("false")
    }
}

proof fn lemma_take_last(items: Seq<Seq<char>>, i: int)
    requires
        0 <= i < items.len(),
    ensures
        items.take(i + 1).drop_last() == items.take(i),
        items.take(i + 1).last() == items[i],
{
    assert(items.take(i + 1).drop_last() =~= items.take(i));
}

/// Frames already serialised elements as one JSON array, keeping their order.
pub fn frame_array(items: &Vec<String>) -> (r: String)
    ensures
        r@ == json_array(texts_of(items@)),
{
    proof {
        reveal_strlit("[");
        reveal_strlit("]");
        reveal_strlit(",");
    }
    let ghost texts = texts_of(items@);
    let mut out = String::from_str("[");
    let mut i: usize = 0;
    while i < items.len()
        invariant
            i <= items.len(),
            texts == texts_of(items@),
            out@ == seq!['['] + comma_joined(texts.take(i as int)),
        decreases items.len() - i,
    {
        proof {
            reveal_strlit(",");
            lemma_take_last(texts, i as int);
        }
        let ghost before = texts.take(i as int);
        let ghost after = texts.take(i + 1);
        assert(texts[i as int] == items@[i as int]@);
        if i > 0 {
            let ghost o1 = out@;
            out.append(",");
            assert(out@ =~= o1 + seq![',']);
            let ghost o2 = out@;
            out.append(items[i].as_str());
            assert(out@ =~= o2 + texts[i as int]);
            assert(comma_joined(after) == comma_joined(before) + seq![','] + texts[i as int]);
            assert(out@ =~= seq!['['] + comma_joined(after));
        } else {
            assert(before.len() == 0);
            assert(out@ =~= seq!['[']);
            out.append(items[i].as_str());
            assert(comma_joined(after) == texts[i as int]);
            assert(out@ =~= seq!['['] + comma_joined(after));
        }
        i = i + 1;
    }
    assert(texts.take(i as int) =~= texts);
    proof {
        reveal_strlit("]");
    }
    out.append("]");
    out
}

} // verus!

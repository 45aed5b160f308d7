use vstd::prelude::*;
use itertools::Itertools;

verus! {

/// The strings of `parts` one after the other, with `sep` between each two.
pub open spec fn joined(parts: Seq<Seq<char>>, sep: Seq<char>) -> Seq<char>
    decreases parts.len(),
{
    if parts.len() == 0 {
        Seq::empty()
    } else if parts.len() == 1 {
        parts[0]
    } else {
        parts[0] + sep + joined(parts.skip(1), sep)
    }
}

/// `s` with the first `count` occurrences of the character `pat` replaced by `to`.
pub open spec fn replaced_first(s: Seq<char>, pat: char, to: Seq<char>, count: nat) -> Seq<char>
    decreases s.len(),
{
    if count == 0 || s.len() == 0 {
        s
    } else if s[0] == pat {
        to + replaced_first(s.skip(1), pat, to, (count - 1) as nat)
    } else {
        seq![s[0]] + replaced_first(s.skip(1), pat, to, count)
    }
}

/// The pieces into which the occurrences of the character `pat` cut `s`: one more than there
/// are occurrences, some of them empty where two occurrences meet or one stands at an end.
pub open spec fn split_on(s: Seq<char>, pat: char) -> Seq<Seq<char>>
    decreases s.len(),
{
    if s.len() == 0 {
        seq![Seq::<char>::empty()]
    } else {
        let rest = split_on(s.skip(1), pat);
        if s[0] == pat {
            seq![Seq::<char>::empty()] + rest
        } else {
            seq![seq![s[0]] + rest[0]] + rest.skip(1)
        }
    }
}

/// What each of the strings `parts` holds.
pub open spec fn views(parts: Seq<&String>) -> Seq<Seq<char>> {
    parts.map_values(|p: &String| p@)
}

/// Joins strings with `itertools::Itertools::join`, which writes each item as it displays
/// and `sep` between each two: the result holds the strings of `parts` in their order with
/// `sep` between them, and is empty for no parts.
#[verifier::external_body]
pub(crate) fn join(parts: &Vec<&String>, sep: &str) -> (r: String)
    ensures
        r@ == joined(views(parts@), sep@),
{
    parts.iter().join(sep)
}

/// Replaces with `str::replacen`, which copies `s` and puts `to` in the place of the first
/// `count` matches of the pattern, here each occurrence of the character `pat`.
#[verifier::external_body]
pub(crate) fn replacen(s: &str, pat: char, to: &str, count: usize) -> (r: String)
    ensures
        r@ == replaced_first(s@, pat, to@, count as nat),
{
    s.replacen(pat, to, count)
}

/// Splits with `str::split`, which gives the pieces of `s` between the matches of the
/// pattern, here each occurrence of the character `pat`, in their order.
#[verifier::external_body]
pub(crate) fn split(s: &str, pat: char) -> (r: Vec<String>)
    ensures
        r@.len() == split_on(s@, pat).len(),
        forall|i: int| 0 <= i < r@.len() ==> r@[i]@ == #[trigger] split_on(s@, pat)[i],
{
    s.split(pat).map(|piece| piece.to_owned()).collect()
}

/// The strings `a`, `b`, `c` and `d` one after the other.
pub(crate) fn concat4(a: &String, b: &String, c: &String, d: &String) -> (r: String)
    ensures
        r@ == a@ + b@ + c@ + d@,
{
    let mut parts: Vec<&String> = Vec::new();
    parts.push(a);
    parts.push(b);
    parts.push(c);
    parts.push(d);
    proof {
        reveal_strlit("");
        reveal_with_fuel(joined, 5);
        let all = views(parts@);
        assert(all =~= seq![a@, b@, c@, d@]);
        assert(all.skip(1) =~= seq![b@, c@, d@]);
        assert(all.skip(1).skip(1) =~= seq![c@, d@]);
        assert(all.skip(1).skip(1).skip(1) =~= seq![d@]);
        assert(joined(all, ""@) =~= a@ + b@ + c@ + d@);
    }
    join(&parts, "")
}

} // verus!

use vstd::prelude::*;
use vstd::string::StringSliceAdditionalSpecFns;
use vstd::utf8::encode_utf8;
use crate::text::{join, joined, replaced_first, replacen, split, split_on, views};

verus! {

/// A record of a location database in the IPinfo format, every field as the text that the
/// database holds, or none where it is missing or empty.
#[derive(Debug, Clone, Default)]
pub struct IpInfoGeoIp {
    pub latitude: Option<String>,
    pub longitude: Option<String>,
    pub radius: Option<String>,
    pub city: Option<String>,
    pub region: Option<String>,
    pub postal_code: Option<String>,
    pub country: Option<String>,
    pub country_name: Option<String>,
    pub continent_name: Option<String>,
}

/// Where an address is, in names.
#[derive(Debug, Clone, Default)]
pub struct GeoIpCity {
    pub accuracy_radius: Option<u16>,
    pub city: Option<String>,
    pub subdivision: Option<String>,
    pub subdivision_code: Option<String>,
    pub country: Option<String>,
    pub country_code: Option<String>,
    pub continent: Option<String>,
}

/// Whether the byte `b` is a decimal digit in ASCII.
pub open spec fn is_digit(b: u8) -> bool {
    48 <= b <= 57
}

/// The number that the decimal digits `digits` spell.
pub open spec fn digits_value(digits: Seq<u8>) -> nat
    decreases digits.len(),
{
    if digits.len() == 0 {
        0
    } else {
        digits_value(digits.drop_last()) * 10 + (digits.last() - 48) as nat
    }
}

/// Whether every byte of `digits` is a decimal digit.
pub open spec fn all_digits(digits: Seq<u8>) -> bool {
    forall|i: int| 0 <= i < digits.len() ==> is_digit(#[trigger] digits[i])
}

/// The text `s` without the `+` that it may start with.
pub open spec fn unsigned_part(s: Seq<u8>) -> Seq<u8> {
    if s.len() > 0 && s[0] == 43 {
        s.skip(1)
    } else {
        s
    }
}

/// The number up to 65535 that the text with the bytes `s` spells in decimal digits, before
/// which a `+` may stand. Text that is empty, holds anything else, or spells a larger
/// number, spells none.
pub open spec fn decimal_u16(s: Seq<u8>) -> Option<u16> {
    let digits = unsigned_part(s);
    if digits.len() > 0 && all_digits(digits) && digits_value(digits) <= 0xffff {
        Some(digits_value(digits) as u16)
    } else {
        None
    }
}

/// Reads the number up to 65535 that the text with the bytes `bytes` spells in decimal
/// digits.
pub fn parse_decimal_u16(bytes: &[u8]) -> (r: Option<u16>)
    ensures
        r == decimal_u16(bytes@),
{
    let n = bytes.len();
    let start: usize = if n > 0 && bytes[0] == 43 {
        1
    } else {
        0
    };
    let ghost digits = bytes@.skip(start as int);
    assert(bytes@.skip(0) =~= bytes@);
    if start == n {
        return None;
    }
    let mut value: u32 = 0;
    let mut i: usize = start;
    assert(digits.take(0) =~= Seq::<u8>::empty());
    while i < n
        invariant
            n == bytes@.len(),
            start <= i <= n,
            digits == unsigned_part(bytes@),
            digits.len() == n - start,
            forall|k: int| 0 <= k < digits.len() ==> digits[k] == bytes@[start + k],
            forall|k: int| 0 <= k < i - start ==> is_digit(#[trigger] digits[k]),
            value == digits_value(digits.take(i - start)),
            value <= 0xffff,
        decreases n - i,
    {
        let b = bytes[i];
        assert(digits[i - start] == b);
        if b < 48 || b > 57 {
            assert(!is_digit(digits[i - start]));
            return None;
        }
        let ghost before = digits.take(i - start);
        let ghost after = digits.take(i - start + 1);
        assert(after.drop_last() =~= before);
        assert(after.last() == b);
        let next: u32 = value * 10 + (b - 48) as u32;
        assert(digits_value(after) == next);
        if next > 0xffff {
            proof {
                lemma_digits_grow(digits, i - start + 1);
            }
            return None;
        }
        value = next;
        i = i + 1;
    }
    assert(digits.take(n - start) =~= digits);
    Some(value as u16)
}

/// Reads the number up to 65535 that `s` spells in decimal digits.
pub fn parse_u16(s: &str) -> (r: Option<u16>)
    ensures
        r == decimal_u16(encode_utf8(s@)),
{
    parse_decimal_u16(s.as_bytes())
}

/// The number that decimal digits spell is no less than the number that any of their
/// beginnings spells.
proof fn lemma_digits_grow(digits: Seq<u8>, n: int)
    requires
        0 <= n <= digits.len(),
    ensures
        digits_value(digits.take(n)) <= digits_value(digits) || !all_digits(digits),
    decreases digits.len() - n,
{
    if n == digits.len() {
        assert(digits.take(n) =~= digits);
    } else if is_digit(digits[n]) {
        let next = digits.take(n + 1);
        assert(next.drop_last() =~= digits.take(n));
        lemma_digits_grow(digits, n + 1);
    }
}

/// What the strings among `parts` that are there hold, in their order.
pub open spec fn present(parts: Seq<Option<String>>) -> Seq<Seq<char>>
    decreases parts.len(),
{
    if parts.len() == 0 {
        Seq::empty()
    } else {
        match parts[0] {
            Some(s) => seq![s@] + present(parts.skip(1)),
            None => present(parts.skip(1)),
        }
    }
}

/// The name made of `parts`: those that are there, one after the other, without the first
/// three zero digits.
pub open spec fn name_of(parts: Seq<Option<String>>) -> Seq<char> {
    replaced_first(joined(present(parts), Seq::empty()), '0', Seq::empty(), 3)
}

/// Whether `subdivision` is one of the four municipalities that are their own province.
pub open spec fn is_municipality(subdivision: Seq<char>) -> bool {
    subdivision == "北京"@ || subdivision == "上海"@ || subdivision == "天津"@ || subdivision
        == "重庆"@
}

/// Adds `part` to `parts` if it is there.
fn push_present<'a>(parts: &mut Vec<&'a String>, part: &'a Option<String>, Ghost(before): Ghost<
    Seq<Option<String>>,
>)
    requires
        views(old(parts)@) == present(before),
    ensures
        views(final(parts)@) == present(before.push(*part)),
{
    proof {
        lemma_present_push(before, *part);
    }
    match part {
        Some(s) => {
            parts.push(s);
            assert(views(parts@) =~= views(old(parts)@).push(s@));
        },
        None => {},
    }
}

/// The strings that are there among parts with one more part at the end.
proof fn lemma_present_push(parts: Seq<Option<String>>, part: Option<String>)
    ensures
        present(parts.push(part)) == match part {
            Some(s) => present(parts).push(s@),
            None => present(parts),
        },
    decreases parts.len(),
{
    if parts.len() == 0 {
        assert(parts.push(part).skip(1) =~= Seq::<Option<String>>::empty());
        assert(present(parts.push(part).skip(1)) =~= Seq::<Seq<char>>::empty());
        match part {
            Some(s) => {
                assert(seq![s@] + Seq::<Seq<char>>::empty() =~= present(parts).push(s@));
            },
            None => {},
        }
    } else {
        lemma_present_push(parts.skip(1), part);
        assert(parts.push(part).skip(1) =~= parts.skip(1).push(part));
        match (parts[0], part) {
            (Some(first), Some(s)) => {
                assert(seq![first@] + present(parts.skip(1)).push(s@) =~= (seq![first@] + present(
                    parts.skip(1),
                )).push(s@));
            },
            _ => {},
        }
    }
}

impl GeoIpCity {
    /// The place of a record of a location database in the IPinfo format, without its
    /// coordinates: the accuracy radius is the number that the record's radius spells; the
    /// region is the subdivision and the postal code the subdivision's code.
    pub fn from_ipinfo(value: IpInfoGeoIp) -> (r: GeoIpCity)
        ensures
            r.accuracy_radius == match value.radius {
                Some(radius) => decimal_u16(encode_utf8(radius@)),
                None => None,
            },
            r.city == value.city,
            r.subdivision == value.region,
            r.subdivision_code == value.postal_code,
            r.country == value.country_name,
            r.country_code == value.country,
            r.continent == value.continent_name,
    {
        let accuracy_radius = match &value.radius {
            Some(radius) => parse_u16(radius.as_str()),
            None => None,
        };
        GeoIpCity {
            accuracy_radius,
            city: value.city,
            subdivision: value.region,
            subdivision_code: value.postal_code,
            country: value.country_name,
            country_code: value.country,
            continent: value.continent_name,
        }
    }

    /// The place that a region record names. The record holds five or more fields with `|`
    /// between them: the first is the city, the third the subdivision and its code, the
    /// fourth the country and its code, the fifth the continent. The accuracy radius is zero.
    pub fn from_region(region: &str) -> (r: GeoIpCity)
        requires
            split_on(region@, '|').len() >= 5,
        ensures
            ({
                let fields = split_on(region@, '|');
                &&& r.accuracy_radius == Some(0u16)
                &&& r.city is Some && r.city->Some_0@ == fields[0]
                &&& r.subdivision is Some && r.subdivision->Some_0@ == fields[2]
                &&& r.subdivision_code is Some && r.subdivision_code->Some_0@ == fields[2]
                &&& r.country is Some && r.country->Some_0@ == fields[3]
                &&& r.country_code is Some && r.country_code->Some_0@ == fields[3]
                &&& r.continent is Some && r.continent->Some_0@ == fields[4]
            }),
    {
        let fields = split(region, '|');
        GeoIpCity {
            accuracy_radius: Some(0),
            city: Some(fields[0].clone()),
            subdivision: Some(fields[2].clone()),
            subdivision_code: Some(fields[2].clone()),
            country: Some(fields[3].clone()),
            country_code: Some(fields[3].clone()),
            continent: Some(fields[4].clone()),
        }
    }

    /// Tells whether a region record holds the five fields that name a place.
    pub fn names_place(region: &str) -> (r: bool)
        ensures
            r == (split_on(region@, '|').len() >= 5),
    {
        split(region, '|').len() >= 5
    }

    /// The short name of the place: its city, subdivision code and country code, as far as
    /// they are there, one after the other, without the first three zero digits.
    pub fn short_name(&self) -> (r: String)
        ensures
            r@ == name_of(seq![self.city, self.subdivision_code, self.country_code]),
    {
        let mut parts: Vec<&String> = Vec::new();
        let ghost none = Seq::<Option<String>>::empty();
        assert(views(parts@) =~= present(none));
        push_present(&mut parts, &self.city, Ghost(none));
        push_present(&mut parts, &self.subdivision_code, Ghost(none.push(self.city)));
        push_present(
            &mut parts,
            &self.country_code,
            Ghost(none.push(self.city).push(self.subdivision_code)),
        );
        assert(none.push(self.city).push(self.subdivision_code).push(self.country_code) =~= seq![
            self.city,
            self.subdivision_code,
            self.country_code,
        ]);
        let all = join(&parts, "");
        proof {
            reveal_strlit("");
            assert(""@ =~= Seq::<char>::empty());
        }
        replacen(all.as_str(), '0', "", 3)
    }

    /// Whether the place lies in one of the four municipalities that are their own province.
    pub open spec fn in_municipality(&self) -> bool {
        match self.subdivision {
            Some(s) => is_municipality(s@),
            None => false,
        }
    }

    /// Tells whether the place lies in one of the four municipalities that are their own
    /// province.
    fn lies_in_municipality(&self) -> (r: bool)
        ensures
            r == self.in_municipality(),
    {
        match &self.subdivision {
            Some(s) => {
                let beijing = "北京".to_owned();
                let shanghai = "上海".to_owned();
                let tianjin = "天津".to_owned();
                let chongqing = "重庆".to_owned();
                *s == beijing || *s == shanghai || *s == tianjin || *s == chongqing
            },
            None => false,
        }
    }

    /// The long name of the place: its city, subdivision, country and continent, as far as
    /// they are there, one after the other, without the first three zero digits. The
    /// subdivision is left out where it is a municipality that is its own province.
    pub fn long_name(&self) -> (r: String)
        ensures
            r@ == if self.in_municipality() {
                name_of(seq![self.city, self.country, self.continent])
            } else {
                name_of(seq![self.city, self.subdivision, self.country, self.continent])
            },
    {
        let mut parts: Vec<&String> = Vec::new();
        let ghost none = Seq::<Option<String>>::empty();
        assert(views(parts@) =~= present(none));
        push_present(&mut parts, &self.city, Ghost(none));
        let ghost mut so_far = none.push(self.city);
        if !self.lies_in_municipality() {
            push_present(&mut parts, &self.subdivision, Ghost(so_far));
            proof {
                so_far = so_far.push(self.subdivision);
            }
        }
        push_present(&mut parts, &self.country, Ghost(so_far));
        push_present(&mut parts, &self.continent, Ghost(so_far.push(self.country)));
        proof {
            let all = so_far.push(self.country).push(self.continent);
            if self.in_municipality() {
                assert(all =~= seq![self.city, self.country, self.continent]);
            } else {
                assert(all =~= seq![self.city, self.subdivision, self.country, self.continent]);
            }
            reveal_strlit("");
            assert(""@ =~= Seq::<char>::empty());
        }
        let all = join(&parts, "");
        replacen(all.as_str(), '0', "", 3)
    }
}

} // verus!

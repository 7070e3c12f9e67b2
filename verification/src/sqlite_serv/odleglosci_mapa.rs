//! The address look-up behind delivery distances: what is asked of the
//! geocoding service, and what is said when it finds nothing. The distance
//! and the price are computed in floating point, outside the library.
use vstd::prelude::*;
use crate::text::concat_text;

verus! {

/// The query of a structured address search: street, city, postal code,
/// the country, JSON output and a single result.
pub open spec fn geocode_query(ulica: Seq<char>, miasto: Seq<char>, kod: Seq<char>) -> Seq<(Seq<char>, Seq<char>)> {
    seq![
        ("street"@, ulica),
        ("city"@, miasto),
        ("postalcode"@, kod),
        ("country"@, "Poland"@),
        ("format"@, "json"@),
        ("limit"@, "1"@),
    ]
}

pub open spec fn pairs_view(v: Seq<(String, String)>) -> Seq<(Seq<char>, Seq<char>)> {
    v.map_values(|p: (String, String)| (p.0@, p.1@))
}

/// The parameters of the address search, in order.
pub fn parametry_geokodowania(ulica: &str, miasto: &str, kod_pocztowy: &str) -> (r: Vec<(String, String)>)
    ensures
        pairs_view(r@) == geocode_query(ulica@, miasto@, kod_pocztowy@),
{
    let mut r: Vec<(String, String)> = Vec::new();
    r.push(("street".to_owned(), ulica.to_owned()));
    r.push(("city".to_owned(), miasto.to_owned()));
    r.push(("postalcode".to_owned(), kod_pocztowy.to_owned()));
    r.push(("country".to_owned(), "Poland".to_owned()));
    r.push(("format".to_owned(), "json".to_owned()));
    r.push(("limit".to_owned(), "1".to_owned()));
    assert(pairs_view(r@) =~= geocode_query(ulica@, miasto@, kod_pocztowy@));
    r
}

/// What is said when the address is not found:
/// "Nie udało się odnaleźć adresu: ul. {street}, {postal code} {city}".
pub fn brak_adresu(ulica: &str, miasto: &str, kod_pocztowy: &str) -> (r: String)
    ensures
        r@ == "Nie udało się odnaleźć adresu: ul. "@ + ulica@ + ", "@ + kod_pocztowy@ + " "@ + miasto@,
{
    let a = concat_text("Nie udało się odnaleźć adresu: ul. ", ulica);
    let b = concat_text(a.as_str(), ", ");
    let c = concat_text(b.as_str(), kod_pocztowy);
    let d = concat_text(c.as_str(), " ");
    concat_text(d.as_str(), miasto)
}

} // verus!

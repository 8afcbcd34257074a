//! The camera locations: an immutable identifier-to-description table, built
//! once at startup and consulted when the configuration names a camera.

use vstd::prelude::*;

verus! {

/// The known camera identifiers and the locations they stand for.
pub open spec fn location_table() -> Seq<(Seq<char>, Seq<char>)> {
    seq![
        ("MC100"@, "Tammela, canopy"@),
        ("MC101"@, "Tammela, ground"@),
        ("MC102"@, "Tammela, crown"@),
        ("MC103"@, "Punkaharju, ground"@),
        ("MC104"@, "Punkaharju, crown"@),
        ("MC105"@, "Punkaharju, landscape"@),
        ("MC106"@, "Hyyti\u{e4}l\u{e4}, crown"@),
        ("MC107"@, "Hyyti\u{e4}l\u{e4}, ground"@),
        ("MC108"@, "Sodankyl\u{e4}, forest, canopy"@),
        ("MC109"@, "Sodankyl\u{e4}, forest, crown"@),
        ("MC110"@, "Sodankyl\u{e4}, forest, ground"@),
        ("MC111"@, "Sodankyl\u{e4}, wetland, ground"@),
        ("MC112"@, "Parkano, landscape"@),
        ("MC113"@, "Suonenjoki, canopy"@),
        ("MC114"@, "Kentt\u{e4}rova, canopy"@),
        ("MC115"@, "Kentt\u{e4}rova, crown"@),
        ("MC116"@, "Kentt\u{e4}rova, ground"@),
        ("MC117"@, "Paljakka, landscape"@),
        ("MC118"@, "Paljakka, landscape"@),
        ("MC117-1"@, "Paljakka, landscape"@),
        ("MC119"@, "V\u{e4}rri\u{f6}, canopy"@),
        ("MC120"@, "V\u{e4}rri\u{f6}, crown"@),
        ("MC121"@, "V\u{e4}rri\u{f6}, ground"@),
        ("MC122"@, "Lammi, crown"@),
        ("MC123"@, "Lammi, crown"@),
        ("MC124"@, "Lammi, landscape"@),
        ("MC125"@, "Lammi, landscape"@),
        ("MC126"@, "Lammi, ground"@),
        ("MC127"@, "Lammi, ground"@),
        ("MC128"@, "Kaamanen, ground"@),
        ("MC129"@, "Lompoloj\u{e4}nkk\u{e4}, ground"@),
        ("MC130"@, "Tv\u{e4}rminne, landscape"@),
        ("MC131"@, "Jokioinen, landscape"@),
    ]
}

/// A camera identifier is known when the table holds it.
pub open spec fn known_location(id: Seq<char>) -> bool {
    exists|i: int| 0 <= i < location_table().len() && location_table()[i].0 == id
}

/// Builds the identifier-to-location mapping, entry for entry the spec table.
pub fn location_map() -> (r: Vec<(String, String)>)
    ensures
        r@.len() == location_table().len(),
        forall|i: int|
            0 <= i < r@.len() ==> (#[trigger] r@[i].0)@ == location_table()[i].0 && r@[i].1@
                == location_table()[i].1,
{
    let mut m: Vec<(String, String)> = Vec::new();
    m.push((String::from_str("MC100"), String::from_str("Tammela, canopy")));
    m.push((String::from_str("MC101"), String::from_str("Tammela, ground")));
    m.push((String::from_str("MC102"), String::from_str("Tammela, crown")));
    m.push((String::from_str("MC103"), String::from_str("Punkaharju, ground")));
    m.push((String::from_str("MC104"), String::from_str("Punkaharju, crown")));
    m.push((String::from_str("MC105"), String::from_str("Punkaharju, landscape")));
    m.push((String::from_str("MC106"), String::from_str("Hyyti\u{e4}l\u{e4}, crown")));
    m.push((String::from_str("MC107"), String::from_str("Hyyti\u{e4}l\u{e4}, ground")));
    m.push((String::from_str("MC108"), String::from_str("Sodankyl\u{e4}, forest, canopy")));
    m.push((String::from_str("MC109"), String::from_str("Sodankyl\u{e4}, forest, crown")));
    m.push((String::from_str("MC110"), String::from_str("Sodankyl\u{e4}, forest, ground")));
    m.push((String::from_str("MC111"), String::from_str("Sodankyl\u{e4}, wetland, ground")));
    m.push((String::from_str("MC112"), String::from_str("Parkano, landscape")));
    m.push((String::from_str("MC113"), String::from_str("Suonenjoki, canopy")));
    m.push((String::from_str("MC114"), String::from_str("Kentt\u{e4}rova, canopy")));
    m.push((String::from_str("MC115"), String::from_str("Kentt\u{e4}rova, crown")));
    m.push((String::from_str("MC116"), String::from_str("Kentt\u{e4}rova, ground")));
    m.push((String::from_str("MC117"), String::from_str("Paljakka, landscape")));
    m.push((String::from_str("MC118"), String::from_str("Paljakka, landscape")));
    m.push((String::from_str("MC117-1"), String::from_str("Paljakka, landscape")));
    m.push((String::from_str("MC119"), String::from_str("V\u{e4}rri\u{f6}, canopy")));
    m.push((String::from_str("MC120"), String::from_str("V\u{e4}rri\u{f6}, crown")));
    m.push((String::from_str("MC121"), String::from_str("V\u{e4}rri\u{f6}, ground")));
    m.push((String::from_str("MC122"), String::from_str("Lammi, crown")));
    m.push((String::from_str("MC123"), String::from_str("Lammi, crown")));
    m.push((String::from_str("MC124"), String::from_str("Lammi, landscape")));
    m.push((String::from_str("MC125"), String::from_str("Lammi, landscape")));
    m.push((String::from_str("MC126"), String::from_str("Lammi, ground")));
    m.push((String::from_str("MC127"), String::from_str("Lammi, ground")));
    m.push((String::from_str("MC128"), String::from_str("Kaamanen, ground")));
    m.push((String::from_str("MC129"), String::from_str("Lompoloj\u{e4}nkk\u{e4}, ground")));
    m.push((String::from_str("MC130"), String::from_str("Tv\u{e4}rminne, landscape")));
    m.push((String::from_str("MC131"), String::from_str("Jokioinen, landscape")));
    m
}

/// Looks a camera identifier up in the mapping; returns its location, or
/// `None` when the identifier is not listed.
pub fn location_for(map: &Vec<(String, String)>, id: &String) -> (r: Option<String>)
    ensures
        r is Some <==> exists|i: int|
            0 <= i < map@.len() && (#[trigger] map@[i].0)@ == id@,
        r matches Some(v) ==> exists|i: int|
            0 <= i < map@.len() && (#[trigger] map@[i].0)@ == id@ && v@ == map@[i].1@,
{
    let mut i: usize = 0;
    while i < map.len()
        invariant
            i <= map@.len(),
            forall|j: int| 0 <= j < i ==> (#[trigger] map@[j].0)@ != id@,
        decreases map@.len() - i,
    {
        if map[i].0.eq(id) {
            return Some(map[i].1.clone());
        }
        i = i + 1;
    }
    None
}

} // verus!

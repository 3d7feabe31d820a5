use std::path::PathBuf;
use vstd::prelude::*;

verus! {

#[verifier::external_type_specification]
#[verifier::external_body]
pub struct ExPathBuf(PathBuf);

/// Where a set of ROMs and their box art live.
pub struct RomData {
    pub roms: PathBuf,
    pub boxart: PathBuf,
}

/// Region a ROM or an artwork is labelled with.
#[derive(Clone, Copy, Debug, PartialEq, Eq, Structural)]
pub enum Country {
    USA,
    Japan,
    Other,
}

/// A ROM found in the catalog, with its regions and the box art matched to it, if any.
pub struct Rom {
    pub path: PathBuf,
    pub lang: Vec<Country>,
    pub boxart: Option<PathBuf>,
}

/// Language an artwork is labelled with.
#[derive(Clone, Copy, Debug, PartialEq, Eq, Structural)]
pub enum Lang {
    En,
    Jp,
    Other,
}

/// `s` and `t` hold the same characters.
fn same(s: &str, t: &str) -> (r: bool)
    ensures
        r == (s@ == t@),
{
    let n = s.unicode_len();
    if n != t.unicode_len() {
        return false;
    }
    let mut i: usize = 0;
    while i < n
        invariant
            n == s@.len(),
            n == t@.len(),
            i <= n,
            forall|k: int| 0 <= k < i ==> s@[k] == t@[k],
        decreases n - i,
    {
        if s.get_char(i) != t.get_char(i) {
            return false;
        }
        i = i + 1;
    }
    assert(s@ =~= t@);
    true
}

/// The region a ROM file name's attribute stands for.
pub open spec fn rom_region_of(a: Seq<char>) -> Option<Country> {
    if a == "J"@ {
        Some(Country::Japan)
    } else if a == "World"@ || a == "UE"@ || a == "U"@ {
        Some(Country::USA)
    } else if a == "E"@ || a == "Sw"@ || a == "G"@ {
        Some(Country::Other)
    } else {
        None
    }
}

/// The region that an attribute of a ROM file name stands for, if any.
pub fn rom_region(attr: &str) -> (r: Option<Country>)
    ensures
        r == rom_region_of(attr@),
{
    if same(attr, "J") {
        Some(Country::Japan)
    } else if same(attr, "World") || same(attr, "UE") || same(attr, "U") {
        Some(Country::USA)
    } else if same(attr, "E") || same(attr, "Sw") || same(attr, "G") {
        Some(Country::Other)
    } else {
        None
    }
}

/// The language an artwork attribute stands for.
pub open spec fn art_lang_of(a: Seq<char>) -> Option<Lang> {
    if a == "En"@ {
        Some(Lang::En)
    } else if a == "Ja"@ {
        Some(Lang::Jp)
    } else if a == "Fr"@ || a == "De"@ || a == "Es"@ || a == "It"@ || a == "Nl"@ || a == "Pt"@ || a
        == "Sv"@ || a == "No"@ || a == "Da"@ || a == "Fi"@ || a == "Zh"@ {
        Some(Lang::Other)
    } else {
        None
    }
}

/// The language that an attribute of an artwork's name stands for, if any.
pub fn art_lang(attr: &str) -> (r: Option<Lang>)
    ensures
        r == art_lang_of(attr@),
{
    if same(attr, "En") {
        Some(Lang::En)
    } else if same(attr, "Ja") {
        Some(Lang::Jp)
    } else if same(attr, "Fr") || same(attr, "De") || same(attr, "Es") || same(attr, "It") || same(
        attr,
        "Nl",
    ) || same(attr, "Pt") || same(attr, "Sv") || same(attr, "No") || same(attr, "Da") || same(
        attr,
        "Fi",
    ) || same(attr, "Zh") {
        Some(Lang::Other)
    } else {
        None
    }
}

/// The region an artwork attribute stands for.
pub open spec fn art_country_of(a: Seq<char>) -> Option<Country> {
    if a == "USA"@ {
        Some(Country::USA)
    } else if a == "Japan"@ {
        Some(Country::Japan)
    } else if a == "Canada"@ || a == "Sweden"@ || a == "Netherlands"@ || a == "Korea"@ || a
        == "World"@ || a == "Spain"@ || a == "Europe"@ || a == "Australia"@ || a == "Germany"@ || a
        == "France"@ || a == "Italy"@ {
        Some(Country::Other)
    } else {
        None
    }
}

/// The region that an attribute of an artwork's name stands for, if any.
pub fn art_country(attr: &str) -> (r: Option<Country>)
    ensures
        r == art_country_of(attr@),
{
    if same(attr, "USA") {
        Some(Country::USA)
    } else if same(attr, "Japan") {
        Some(Country::Japan)
    } else if same(attr, "Canada") || same(attr, "Sweden") || same(attr, "Netherlands") || same(
        attr,
        "Korea",
    ) || same(attr, "World") || same(attr, "Spain") || same(attr, "Europe") || same(
        attr,
        "Australia",
    ) || same(attr, "Germany") || same(attr, "France") || same(attr, "Italy") {
        Some(Country::Other)
    } else {
        None
    }
}

/// Artwork attributes that are known but carry neither language nor region.
pub open spec fn art_other_of(a: Seq<char>) -> bool {
    a == "GBC"@ || a == "GB Compatible"@ || a == "SGB Enhanced"@ || a == "Rev A"@ || a == "Rev B"@
        || a == "Beta"@ || a == "Rumble Version"@ || a == "NP"@ || a == "Sample"@ || a == "AX9P"@
        || a == "AP9P"@ || a == "Rev 1"@ || a == "Rev 2"@ || a == "Rev 3"@ || a == "Rev AB"@ || a
        == "DMG-N5"@ || a == "DMG-EM"@ || a == "HAL Laboratory"@ || a == "Unl"@ || a
        == "Activision"@
}

/// Whether an attribute of an artwork's name is a known one without language or region.
pub fn art_other(attr: &str) -> (r: bool)
    ensures
        r == art_other_of(attr@),
{
    same(attr, "GBC") || same(attr, "GB Compatible") || same(attr, "SGB Enhanced") || same(
        attr,
        "Rev A",
    ) || same(attr, "Rev B") || same(attr, "Beta") || same(attr, "Rumble Version") || same(
        attr,
        "NP",
    ) || same(attr, "Sample") || same(attr, "AX9P") || same(attr, "AP9P") || same(attr, "Rev 1")
        || same(attr, "Rev 2") || same(attr, "Rev 3") || same(attr, "Rev AB") || same(
        attr,
        "DMG-N5",
    ) || same(attr, "DMG-EM") || same(attr, "HAL Laboratory") || same(attr, "Unl") || same(
        attr,
        "Activision",
    )
}

/// What an attribute of an artwork's name says: its language and region, each if any.
/// `None` when the attribute is not a known one.
pub fn classify_art_attribute(attr: &str) -> (r: Option<(Option<Lang>, Option<Country>)>)
    ensures
        r == if art_lang_of(attr@).is_some() || art_country_of(attr@).is_some() || art_other_of(
            attr@,
        ) {
            Some((art_lang_of(attr@), art_country_of(attr@)))
        } else {
            None
        },
{
    let lang = art_lang(attr);
    let country = art_country(attr);
    if lang.is_some() || country.is_some() || art_other(attr) {
        Some((lang, country))
    } else {
        None
    }
}

} // verus!

//! The weapon catalogue: identifier to category and display name.

use vstd::prelude::*;
use vstd::string::*;

verus! {

/// The category a weapon belongs to; identifiers outside the catalogue are
/// unclassified.
#[derive(Clone, Copy, PartialEq, Eq, Structural, Debug)]
pub enum WeaponType {
    Unclassified,
    Pistol,
    Rifle,
    Submachine,
    Sniper,
    Shotgun,
    Machinegun,
    Knife,
    Other,
}

/// The catalogue entry of an identifier: display name and category.
pub open spec fn weapon_entry(id: Seq<char>) -> Option<(Seq<char>, WeaponType)> {
    if id == "ak47"@ {
        Some(("AK-47"@, WeaponType::Rifle))
    } else if id == "aug"@ {
        Some(("AUG"@, WeaponType::Rifle))
    } else if id == "awp"@ {
        Some(("AWP"@, WeaponType::Sniper))
    } else if id == "bizon"@ {
        Some(("PP-Bizon"@, WeaponType::Submachine))
    } else if id == "c4"@ {
        Some(("Bomb"@, WeaponType::Other))
    } else if id == "cz75a"@ {
        Some(("CZ-75 Auto"@, WeaponType::Pistol))
    } else if id == "deagle"@ {
        Some(("Desert Eagle"@, WeaponType::Pistol))
    } else if id == "decoy"@ {
        Some(("Decoy Grenade"@, WeaponType::Other))
    } else if id == "elite"@ {
        Some(("Dual Berettas"@, WeaponType::Pistol))
    } else if id == "fists"@ {
        Some(("Fists"@, WeaponType::Knife))
    } else if id == "famas"@ {
        Some(("FAMAS"@, WeaponType::Rifle))
    } else if id == "fiveseven"@ {
        Some(("Five-SeveN"@, WeaponType::Pistol))
    } else if id == "flashbang"@ {
        Some(("Flashbang"@, WeaponType::Other))
    } else if id == "g3sg1"@ {
        Some(("G3SG1"@, WeaponType::Sniper))
    } else if id == "galilar"@ {
        Some(("Galil AR"@, WeaponType::Rifle))
    } else if id == "glock"@ {
        Some(("Glock"@, WeaponType::Pistol))
    } else if id == "healthshot"@ {
        Some(("MediShot"@, WeaponType::Other))
    } else if id == "hkp2000"@ {
        Some(("P2000"@, WeaponType::Pistol))
    } else if id == "hegrenade"@ {
        Some(("Grenade"@, WeaponType::Other))
    } else if id == "incgrenade"@ {
        Some(("Incendiary"@, WeaponType::Other))
    } else if id == "knife"@ {
        Some(("Knife"@, WeaponType::Knife))
    } else if id == "m249"@ {
        Some(("M249"@, WeaponType::Machinegun))
    } else if id == "m4a1"@ {
        Some(("M4A4"@, WeaponType::Rifle))
    } else if id == "m4a1_silencer"@ {
        Some(("M4A1-S"@, WeaponType::Rifle))
    } else if id == "mac10"@ {
        Some(("MAC-10"@, WeaponType::Submachine))
    } else if id == "mag7"@ {
        Some(("MAG-7"@, WeaponType::Shotgun))
    } else if id == "molotov"@ {
        Some(("Molotov"@, WeaponType::Other))
    } else if id == "mp5sd"@ {
        Some(("MP5-SD"@, WeaponType::Submachine))
    } else if id == "mp7"@ {
        Some(("MP7"@, WeaponType::Submachine))
    } else if id == "mp9"@ {
        Some(("MP9"@, WeaponType::Submachine))
    } else if id == "negev"@ {
        Some(("Negev"@, WeaponType::Machinegun))
    } else if id == "nova"@ {
        Some(("Nova"@, WeaponType::Shotgun))
    } else if id == "p250"@ {
        Some(("P250"@, WeaponType::Pistol))
    } else if id == "p90"@ {
        Some(("P90"@, WeaponType::Submachine))
    } else if id == "revolver"@ {
        Some(("Revolver"@, WeaponType::Pistol))
    } else if id == "sawedoff"@ {
        Some(("Sawed-Off"@, WeaponType::Shotgun))
    } else if id == "scar20"@ {
        Some(("SCAR-20"@, WeaponType::Sniper))
    } else if id == "sg556"@ {
        Some(("SG556"@, WeaponType::Rifle))
    } else if id == "smokegrenade"@ {
        Some(("Smoke"@, WeaponType::Other))
    } else if id == "ssg08"@ {
        Some(("SSG 08"@, WeaponType::Sniper))
    } else if id == "taser"@ {
        Some(("Zeus x27"@, WeaponType::Other))
    } else if id == "tec9"@ {
        Some(("TEC-9"@, WeaponType::Pistol))
    } else if id == "ump45"@ {
        Some(("UMP-45"@, WeaponType::Submachine))
    } else if id == "usp_silencer"@ {
        Some(("USP-S"@, WeaponType::Pistol))
    } else if id == "xm1014"@ {
        Some(("XM1014"@, WeaponType::Shotgun))
    } else {
        None
    }
}

/// The display name of an identifier; one outside the catalogue stands for itself.
pub open spec fn weapon_display(id: Seq<char>) -> Seq<char> {
    match weapon_entry(id) {
        Some(e) => e.0,
        None => id,
    }
}

/// The category of an identifier.
pub open spec fn weapon_category(id: Seq<char>) -> WeaponType {
    match weapon_entry(id) {
        Some(e) => e.1,
        None => WeaponType::Unclassified,
    }
}

/// Whether two texts hold the same characters.
pub fn same_text(a: &str, b: &str) -> (r: bool)
    ensures
        r == (a@ == b@),
{
    let n = a.unicode_len();
    if n != b.unicode_len() {
        return false;
    }
    let mut i: usize = 0;
    while i < n
        invariant
            n == a@.len(),
            n == b@.len(),
            i <= n,
            forall|j: int| 0 <= j < i ==> a@[j] == b@[j],
        decreases n - i,
    {
        if a.get_char(i) != b.get_char(i) {
            return false;
        }
        i = i + 1;
    }
    assert(a@ =~= b@);
    true
}

fn lookup(id: &str) -> (r: Option<(&'static str, WeaponType)>)
    ensures
        match r {
            Some(e) => weapon_entry(id@) == Some((e.0@, e.1)),
            None => weapon_entry(id@) is None,
        },
{
    if same_text(id, "ak47") {
        Some(("AK-47", WeaponType::Rifle))
    } else if same_text(id, "aug") {
        Some(("AUG", WeaponType::Rifle))
    } else if same_text(id, "awp") {
        Some(("AWP", WeaponType::Sniper))
    } else if same_text(id, "bizon") {
        Some(("PP-Bizon", WeaponType::Submachine))
    } else if same_text(id, "c4") {
        Some(("Bomb", WeaponType::Other))
    } else if same_text(id, "cz75a") {
        Some(("CZ-75 Auto", WeaponType::Pistol))
    } else if same_text(id, "deagle") {
        Some(("Desert Eagle", WeaponType::Pistol))
    } else if same_text(id, "decoy") {
        Some(("Decoy Grenade", WeaponType::Other))
    } else if same_text(id, "elite") {
        Some(("Dual Berettas", WeaponType::Pistol))
    } else if same_text(id, "fists") {
        Some(("Fists", WeaponType::Knife))
    } else if same_text(id, "famas") {
        Some(("FAMAS", WeaponType::Rifle))
    } else if same_text(id, "fiveseven") {
        Some(("Five-SeveN", WeaponType::Pistol))
    } else if same_text(id, "flashbang") {
        Some(("Flashbang", WeaponType::Other))
    } else if same_text(id, "g3sg1") {
        Some(("G3SG1", WeaponType::Sniper))
    } else if same_text(id, "galilar") {
        Some(("Galil AR", WeaponType::Rifle))
    } else if same_text(id, "glock") {
        Some(("Glock", WeaponType::Pistol))
    } else if same_text(id, "healthshot") {
        Some(("MediShot", WeaponType::Other))
    } else if same_text(id, "hkp2000") {
        Some(("P2000", WeaponType::Pistol))
    } else if same_text(id, "hegrenade") {
        Some(("Grenade", WeaponType::Other))
    } else if same_text(id, "incgrenade") {
        Some(("Incendiary", WeaponType::Other))
    } else if same_text(id, "knife") {
        Some(("Knife", WeaponType::Knife))
    } else if same_text(id, "m249") {
        Some(("M249", WeaponType::Machinegun))
    } else if same_text(id, "m4a1") {
        Some(("M4A4", WeaponType::Rifle))
    } else if same_text(id, "m4a1_silencer") {
        Some(("M4A1-S", WeaponType::Rifle))
    } else if same_text(id, "mac10") {
        Some(("MAC-10", WeaponType::Submachine))
    } else if same_text(id, "mag7") {
        Some(("MAG-7", WeaponType::Shotgun))
    } else if same_text(id, "molotov") {
        Some(("Molotov", WeaponType::Other))
    } else if same_text(id, "mp5sd") {
        Some(("MP5-SD", WeaponType::Submachine))
    } else if same_text(id, "mp7") {
        Some(("MP7", WeaponType::Submachine))
    } else if same_text(id, "mp9") {
        Some(("MP9", WeaponType::Submachine))
    } else if same_text(id, "negev") {
        Some(("Negev", WeaponType::Machinegun))
    } else if same_text(id, "nova") {
        Some(("Nova", WeaponType::Shotgun))
    } else if same_text(id, "p250") {
        Some(("P250", WeaponType::Pistol))
    } else if same_text(id, "p90") {
        Some(("P90", WeaponType::Submachine))
    } else if same_text(id, "revolver") {
        Some(("Revolver", WeaponType::Pistol))
    } else if same_text(id, "sawedoff") {
        Some(("Sawed-Off", WeaponType::Shotgun))
    } else if same_text(id, "scar20") {
        Some(("SCAR-20", WeaponType::Sniper))
    } else if same_text(id, "sg556") {
        Some(("SG556", WeaponType::Rifle))
    } else if same_text(id, "smokegrenade") {
        Some(("Smoke", WeaponType::Other))
    } else if same_text(id, "ssg08") {
        Some(("SSG 08", WeaponType::Sniper))
    } else if same_text(id, "taser") {
        Some(("Zeus x27", WeaponType::Other))
    } else if same_text(id, "tec9") {
        Some(("TEC-9", WeaponType::Pistol))
    } else if same_text(id, "ump45") {
        Some(("UMP-45", WeaponType::Submachine))
    } else if same_text(id, "usp_silencer") {
        Some(("USP-S", WeaponType::Pistol))
    } else if same_text(id, "xm1014") {
        Some(("XM1014", WeaponType::Shotgun))
    } else {
        None
    }
}

/// The display name of a weapon identifier; an unknown identifier is returned
/// as it is.
pub fn parse_weapon_name(name: String) -> (r: String)
    ensures
        r@ == weapon_display(name@),
{
    match lookup(name.as_str()) {
        Some(e) => String::from_str(e.0),
        None => name,
    }
}

/// The category of a weapon identifier.
pub fn parse_weapon_type(name: &str) -> (r: WeaponType)
    ensures
        r == weapon_category(name@),
{
    match lookup(name) {
        Some(e) => e.1,
        None => WeaponType::Unclassified,
    }
}

} // verus!

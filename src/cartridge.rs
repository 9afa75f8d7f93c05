use vstd::prelude::*;
use vstd::arithmetic::power2::pow2;

verus! {

/// Name of the publisher that an old-style licensee code stands for.
pub open spec fn old_licensee_name(code: u8) -> Seq<char> {
    if code == 0x00 {
        "None"@
    } else if code == 0x01 {
        "Nintendo"@
    } else if code == 0x08 {
        "Capcom"@
    } else if code == 0x09 {
        "Hot-B"@
    } else if code == 0x0A {
        "Jaleco"@
    } else if code == 0x0B {
        "Coconuts Japan"@
    } else if code == 0x0C {
        "Elite Systems"@
    } else if code == 0x13 {
        "EA (Electronic Arts)"@
    } else if code == 0x18 {
        "Hudsonsoft"@
    } else if code == 0x19 {
        "ITC Entertainment"@
    } else if code == 0x1A {
        "Yanoman"@
    } else if code == 0x1D {
        "Japan Clary"@
    } else if code == 0x1F {
        "Virgin Interactive"@
    } else if code == 0x24 {
        "PCM Complete"@
    } else if code == 0x25 {
        "San-X"@
    } else if code == 0x28 {
        "Kotobuki Systems"@
    } else if code == 0x29 {
        "Seta"@
    } else if code == 0x30 {
        "Infogrames"@
    } else if code == 0x31 {
        "Nintendo"@
    } else if code == 0x32 {
        "Bandai"@
    } else if code == 0x33 {
        "Indicates that the New licensee code should be used instead."@
    } else if code == 0x34 {
        "Konami"@
    } else if code == 0x35 {
        "HectorSoft"@
    } else if code == 0x38 {
        "Capcom"@
    } else if code == 0x39 {
        "Banpresto"@
    } else if code == 0x3C {
        ".Entertainment i"@
    } else if code == 0x3E {
        "Gremlin"@
    } else if code == 0x41 {
        "Ubisoft"@
    } else if code == 0x42 {
        "Atlus"@
    } else if code == 0x44 {
        "Malibu"@
    } else if code == 0x46 {
        "Angel"@
    } else if code == 0x47 {
        "Spectrum Holoby"@
    } else if code == 0x49 {
        "Irem"@
    } else if code == 0x4A {
        "Virgin Interactive"@
    } else if code == 0x4D {
        "Malibu"@
    } else if code == 0x4F {
        "U.S. Gold"@
    } else if code == 0x50 {
        "Absolute"@
    } else if code == 0x51 {
        "Acclaim"@
    } else if code == 0x52 {
        "Activision"@
    } else if code == 0x53 {
        "American Sammy"@
    } else if code == 0x54 {
        "GameTek"@
    } else if code == 0x55 {
        "Park Place"@
    } else if code == 0x56 {
        "LJN"@
    } else if code == 0x57 {
        "Matchbox"@
    } else if code == 0x59 {
        "Milton Bradley"@
    } else if code == 0x5A {
        "Mindscape"@
    } else if code == 0x5B {
        "Romstar"@
    } else if code == 0x5C {
        "Naxat Soft"@
    } else if code == 0x5D {
        "Tradewest"@
    } else if code == 0x60 {
        "Titus"@
    } else if code == 0x61 {
        "Virgin Interactive"@
    } else if code == 0x67 {
        "Ocean Interactive"@
    } else if code == 0x69 {
        "EA (Electronic Arts)"@
    } else if code == 0x6E {
        "Elite Systems"@
    } else if code == 0x6F {
        "Electro Brain"@
    } else if code == 0x70 {
        "Infogrames"@
    } else if code == 0x71 {
        "Interplay"@
    } else if code == 0x72 {
        "Broderbund"@
    } else if code == 0x73 {
        "Sculptered Soft"@
    } else if code == 0x75 {
        "The Sales Curve"@
    } else if code == 0x78 {
        "t.hq"@
    } else if code == 0x79 {
        "Accolade"@
    } else if code == 0x7A {
        "Triffix Entertainment"@
    } else if code == 0x7C {
        "Microprose"@
    } else if code == 0x7F {
        "Kemco"@
    } else if code == 0x80 {
        "Misawa Entertainment"@
    } else if code == 0x83 {
        "Lozc"@
    } else if code == 0x86 {
        "Tokuma Shoten Intermedia"@
    } else if code == 0x8B {
        "Bullet-Proof Software"@
    } else if code == 0x8C {
        "Vic Tokai"@
    } else if code == 0x8E {
        "Ape"@
    } else if code == 0x8F {
        "I\u{2019}Max"@
    } else if code == 0x91 {
        "Chunsoft Co."@
    } else if code == 0x92 {
        "Video System"@
    } else if code == 0x93 {
        "Tsubaraya Productions Co."@
    } else if code == 0x95 {
        "Varie Corporation"@
    } else if code == 0x96 {
        "Yonezawa/S\u{2019}Pal"@
    } else if code == 0x97 {
        "Kaneko"@
    } else if code == 0x99 {
        "Arc"@
    } else if code == 0x9A {
        "Nihon Bussan"@
    } else if code == 0x9B {
        "Tecmo"@
    } else if code == 0x9C {
        "Imagineer"@
    } else if code == 0x9D {
        "Banpresto"@
    } else if code == 0x9F {
        "Nova"@
    } else if code == 0xA1 {
        "Hori Electric"@
    } else if code == 0xA2 {
        "Bandai"@
    } else if code == 0xA4 {
        "Konami"@
    } else if code == 0xA6 {
        "Kawada"@
    } else if code == 0xA7 {
        "Takara"@
    } else if code == 0xA9 {
        "Technos Japan"@
    } else if code == 0xAA {
        "Broderbund"@
    } else if code == 0xAC {
        "Toei Animation"@
    } else if code == 0xAD {
        "Toho"@
    } else if code == 0xAF {
        "Namco"@
    } else if code == 0xB0 {
        "acclaim"@
    } else if code == 0xB1 {
        "ASCII or Nexsoft"@
    } else if code == 0xB2 {
        "Bandai"@
    } else if code == 0xB4 {
        "Square Enix"@
    } else if code == 0xB6 {
        "HAL Laboratory"@
    } else if code == 0xB7 {
        "SNK"@
    } else if code == 0xB9 {
        "Pony Canyon"@
    } else if code == 0xBA {
        "Culture Brain"@
    } else if code == 0xBB {
        "Sunsoft"@
    } else if code == 0xBD {
        "Sony Imagesoft"@
    } else if code == 0xBF {
        "Sammy"@
    } else if code == 0xC0 {
        "Taito"@
    } else if code == 0xC2 {
        "Kemco"@
    } else if code == 0xC3 {
        "Squaresoft"@
    } else if code == 0xC4 {
        "Tokuma Shoten Intermedia"@
    } else if code == 0xC5 {
        "Data East"@
    } else if code == 0xC6 {
        "Tonkinhouse"@
    } else if code == 0xC8 {
        "Koei"@
    } else if code == 0xC9 {
        "UFL"@
    } else if code == 0xCA {
        "Ultra"@
    } else if code == 0xCB {
        "Vap"@
    } else if code == 0xCC {
        "Use Corporation"@
    } else if code == 0xCD {
        "Meldac"@
    } else if code == 0xCE {
        ".Pony Canyon or"@
    } else if code == 0xCF {
        "Angel"@
    } else if code == 0xD0 {
        "Taito"@
    } else if code == 0xD1 {
        "Sofel"@
    } else if code == 0xD2 {
        "Quest"@
    } else if code == 0xD3 {
        "Sigma Enterprises"@
    } else if code == 0xD4 {
        "ASK Kodansha Co."@
    } else if code == 0xD6 {
        "Naxat Soft"@
    } else if code == 0xD7 {
        "Copya System"@
    } else if code == 0xD9 {
        "Banpresto"@
    } else if code == 0xDA {
        "Tomy"@
    } else if code == 0xDB {
        "LJN"@
    } else if code == 0xDD {
        "NCS"@
    } else if code == 0xDE {
        "Human"@
    } else if code == 0xDF {
        "Altron"@
    } else if code == 0xE0 {
        "Jaleco"@
    } else if code == 0xE1 {
        "Towa Chiki"@
    } else if code == 0xE2 {
        "Yutaka"@
    } else if code == 0xE3 {
        "Varie"@
    } else if code == 0xE5 {
        "Epcoh"@
    } else if code == 0xE7 {
        "Athena"@
    } else if code == 0xE8 {
        "Asmik ACE Entertainment"@
    } else if code == 0xE9 {
        "Natsume"@
    } else if code == 0xEA {
        "King Records"@
    } else if code == 0xEB {
        "Atlus"@
    } else if code == 0xEC {
        "Epic/Sony Records"@
    } else if code == 0xEE {
        "IGS"@
    } else if code == 0xF0 {
        "A Wave"@
    } else if code == 0xF3 {
        "Extreme Entertainment"@
    } else if code == 0xFF {
        "LJN"@
    } else {
        "None"@
    }
}

/// Name of the publisher that a two-character new-style licensee code stands for.
pub open spec fn new_licensee_name(c0: u8, c1: u8) -> Seq<char> {
    if (c0, c1) == (48u8, 48u8) {
        "None"@
    } else if (c0, c1) == (48u8, 49u8) {
        "Nintendo R&D1"@
    } else if (c0, c1) == (48u8, 56u8) {
        "Capcom"@
    } else if (c0, c1) == (49u8, 51u8) {
        "Electronic Arts"@
    } else if (c0, c1) == (49u8, 56u8) {
        "Hudson Soft"@
    } else if (c0, c1) == (49u8, 57u8) {
        "b-ai"@
    } else if (c0, c1) == (50u8, 48u8) {
        "kss"@
    } else if (c0, c1) == (50u8, 50u8) {
        "pow"@
    } else if (c0, c1) == (50u8, 52u8) {
        "PCM Complete"@
    } else if (c0, c1) == (50u8, 53u8) {
        "san-x"@
    } else if (c0, c1) == (50u8, 56u8) {
        "Kemco Japan"@
    } else if (c0, c1) == (50u8, 57u8) {
        "seta"@
    } else if (c0, c1) == (51u8, 48u8) {
        "Viacom"@
    } else if (c0, c1) == (51u8, 49u8) {
        "Nintendo"@
    } else if (c0, c1) == (51u8, 50u8) {
        "Bandai"@
    } else if (c0, c1) == (51u8, 51u8) {
        "Ocean/Acclaim"@
    } else if (c0, c1) == (51u8, 52u8) {
        "Konami"@
    } else if (c0, c1) == (51u8, 53u8) {
        "Hector"@
    } else if (c0, c1) == (51u8, 55u8) {
        "Taito"@
    } else if (c0, c1) == (51u8, 56u8) {
        "Hudson"@
    } else if (c0, c1) == (51u8, 57u8) {
        "Banpresto"@
    } else if (c0, c1) == (52u8, 49u8) {
        "Ubi Soft"@
    } else if (c0, c1) == (52u8, 50u8) {
        "Atlus"@
    } else if (c0, c1) == (52u8, 52u8) {
        "Malibu"@
    } else if (c0, c1) == (52u8, 54u8) {
        "angel"@
    } else if (c0, c1) == (52u8, 55u8) {
        "Bullet-Proof"@
    } else if (c0, c1) == (52u8, 57u8) {
        "irem"@
    } else if (c0, c1) == (53u8, 48u8) {
        "Absolute"@
    } else if (c0, c1) == (53u8, 49u8) {
        "Acclaim"@
    } else if (c0, c1) == (53u8, 50u8) {
        "Activision"@
    } else if (c0, c1) == (53u8, 51u8) {
        "American sammy"@
    } else if (c0, c1) == (53u8, 52u8) {
        "Konami"@
    } else if (c0, c1) == (53u8, 53u8) {
        "Hi tech entertainment"@
    } else if (c0, c1) == (53u8, 54u8) {
        "LJN"@
    } else if (c0, c1) == (53u8, 55u8) {
        "Matchbox"@
    } else if (c0, c1) == (53u8, 56u8) {
        "Mattel"@
    } else if (c0, c1) == (53u8, 57u8) {
        "Milton Bradley"@
    } else if (c0, c1) == (54u8, 48u8) {
        "Titus"@
    } else if (c0, c1) == (54u8, 49u8) {
        "Virgin"@
    } else if (c0, c1) == (54u8, 52u8) {
        "LucasArts"@
    } else if (c0, c1) == (54u8, 55u8) {
        "Ocean"@
    } else if (c0, c1) == (54u8, 57u8) {
        "Electronic Arts"@
    } else if (c0, c1) == (55u8, 48u8) {
        "Infogrames"@
    } else if (c0, c1) == (55u8, 49u8) {
        "Interplay"@
    } else if (c0, c1) == (55u8, 50u8) {
        "Broderbund"@
    } else if (c0, c1) == (55u8, 51u8) {
        "sculptured"@
    } else if (c0, c1) == (55u8, 53u8) {
        "sci"@
    } else if (c0, c1) == (55u8, 56u8) {
        "THQ"@
    } else if (c0, c1) == (55u8, 57u8) {
        "Accolade"@
    } else if (c0, c1) == (56u8, 48u8) {
        "misawa"@
    } else if (c0, c1) == (56u8, 51u8) {
        "lozc"@
    } else if (c0, c1) == (56u8, 54u8) {
        "Tokuma Shoten Intermedia"@
    } else if (c0, c1) == (56u8, 55u8) {
        "Tsukuda Original"@
    } else if (c0, c1) == (57u8, 49u8) {
        "Chunsoft"@
    } else if (c0, c1) == (57u8, 50u8) {
        "Video system"@
    } else if (c0, c1) == (57u8, 51u8) {
        "Ocean/Acclaim"@
    } else if (c0, c1) == (57u8, 53u8) {
        "Varie"@
    } else if (c0, c1) == (57u8, 54u8) {
        "Yonezawa/s\u{2019}pal"@
    } else if (c0, c1) == (57u8, 55u8) {
        "Kaneko"@
    } else if (c0, c1) == (57u8, 57u8) {
        "Pack in soft"@
    } else if (c0, c1) == (57u8, 72u8) {
        "Bottom Up"@
    } else if (c0, c1) == (65u8, 52u8) {
        "Konami (Yu-Gi-Oh!)"@
    } else {
        "None"@
    }
}

/// Name of the cartridge hardware that a cartridge-type byte stands for.
pub open spec fn cartridge_type_name(code: u8) -> Seq<char> {
    if code == 0x00 {
        "ROM ONLY"@
    } else if code == 0x01 {
        "MBC1"@
    } else if code == 0x02 {
        "MBC1+RAM"@
    } else if code == 0x03 {
        "MBC1+RAM+BATTERY"@
    } else if code == 0x05 {
        "MBC2"@
    } else if code == 0x06 {
        "MBC2+BATTERY"@
    } else if code == 0x08 {
        "ROM+RAM 1"@
    } else if code == 0x09 {
        "ROM+RAM+BATTERY 1"@
    } else if code == 0x0B {
        "MMM01"@
    } else if code == 0x0C {
        "MMM01+RAM"@
    } else if code == 0x0D {
        "MMM01+RAM+BATTERY"@
    } else if code == 0x0F {
        "MBC3+TIMER+BATTERY"@
    } else if code == 0x10 {
        "MBC3+TIMER+RAM+BATTERY 2"@
    } else if code == 0x11 {
        "MBC3"@
    } else if code == 0x12 {
        "MBC3+RAM 2"@
    } else if code == 0x13 {
        "MBC3+RAM+BATTERY 2"@
    } else if code == 0x19 {
        "MBC5"@
    } else if code == 0x1A {
        "MBC5+RAM"@
    } else if code == 0x1B {
        "MBC5+RAM+BATTERY"@
    } else if code == 0x1C {
        "MBC5+RUMBLE"@
    } else if code == 0x1D {
        "MBC5+RUMBLE+RAM"@
    } else if code == 0x1E {
        "MBC5+RUMBLE+RAM+BATTERY"@
    } else if code == 0x20 {
        "MBC6"@
    } else if code == 0x22 {
        "MBC7+SENSOR+RUMBLE+RAM+BATTERY"@
    } else if code == 0xFC {
        "POCKET CAMERA"@
    } else if code == 0xFD {
        "BANDAI TAMA5"@
    } else if code == 0xFE {
        "HuC3"@
    } else if code == 0xFF {
        "HuC1+RAM+BATTERY"@
    } else {
        "None"@
    }
}

/// The publisher named by an old-style licensee code.
pub fn match_old_licensee_code(code: u8) -> (r: String)
    ensures
        r@ == old_licensee_name(code),
{
    let name: &str = match code {
        0x00 => "None",
        0x01 => "Nintendo",
        0x08 => "Capcom",
        0x09 => "Hot-B",
        0x0A => "Jaleco",
        0x0B => "Coconuts Japan",
        0x0C => "Elite Systems",
        0x13 => "EA (Electronic Arts)",
        0x18 => "Hudsonsoft",
        0x19 => "ITC Entertainment",
        0x1A => "Yanoman",
        0x1D => "Japan Clary",
        0x1F => "Virgin Interactive",
        0x24 => "PCM Complete",
        0x25 => "San-X",
        0x28 => "Kotobuki Systems",
        0x29 => "Seta",
        0x30 => "Infogrames",
        0x31 => "Nintendo",
        0x32 => "Bandai",
        0x33 => "Indicates that the New licensee code should be used instead.",
        0x34 => "Konami",
        0x35 => "HectorSoft",
        0x38 => "Capcom",
        0x39 => "Banpresto",
        0x3C => ".Entertainment i",
        0x3E => "Gremlin",
        0x41 => "Ubisoft",
        0x42 => "Atlus",
        0x44 => "Malibu",
        0x46 => "Angel",
        0x47 => "Spectrum Holoby",
        0x49 => "Irem",
        0x4A => "Virgin Interactive",
        0x4D => "Malibu",
        0x4F => "U.S. Gold",
        0x50 => "Absolute",
        0x51 => "Acclaim",
        0x52 => "Activision",
        0x53 => "American Sammy",
        0x54 => "GameTek",
        0x55 => "Park Place",
        0x56 => "LJN",
        0x57 => "Matchbox",
        0x59 => "Milton Bradley",
        0x5A => "Mindscape",
        0x5B => "Romstar",
        0x5C => "Naxat Soft",
        0x5D => "Tradewest",
        0x60 => "Titus",
        0x61 => "Virgin Interactive",
        0x67 => "Ocean Interactive",
        0x69 => "EA (Electronic Arts)",
        0x6E => "Elite Systems",
        0x6F => "Electro Brain",
        0x70 => "Infogrames",
        0x71 => "Interplay",
        0x72 => "Broderbund",
        0x73 => "Sculptered Soft",
        0x75 => "The Sales Curve",
        0x78 => "t.hq",
        0x79 => "Accolade",
        0x7A => "Triffix Entertainment",
        0x7C => "Microprose",
        0x7F => "Kemco",
        0x80 => "Misawa Entertainment",
        0x83 => "Lozc",
        0x86 => "Tokuma Shoten Intermedia",
        0x8B => "Bullet-Proof Software",
        0x8C => "Vic Tokai",
        0x8E => "Ape",
        0x8F => "I\u{2019}Max",
        0x91 => "Chunsoft Co.",
        0x92 => "Video System",
        0x93 => "Tsubaraya Productions Co.",
        0x95 => "Varie Corporation",
        0x96 => "Yonezawa/S\u{2019}Pal",
        0x97 => "Kaneko",
        0x99 => "Arc",
        0x9A => "Nihon Bussan",
        0x9B => "Tecmo",
        0x9C => "Imagineer",
        0x9D => "Banpresto",
        0x9F => "Nova",
        0xA1 => "Hori Electric",
        0xA2 => "Bandai",
        0xA4 => "Konami",
        0xA6 => "Kawada",
        0xA7 => "Takara",
        0xA9 => "Technos Japan",
        0xAA => "Broderbund",
        0xAC => "Toei Animation",
        0xAD => "Toho",
        0xAF => "Namco",
        0xB0 => "acclaim",
        0xB1 => "ASCII or Nexsoft",
        0xB2 => "Bandai",
        0xB4 => "Square Enix",
        0xB6 => "HAL Laboratory",
        0xB7 => "SNK",
        0xB9 => "Pony Canyon",
        0xBA => "Culture Brain",
        0xBB => "Sunsoft",
        0xBD => "Sony Imagesoft",
        0xBF => "Sammy",
        0xC0 => "Taito",
        0xC2 => "Kemco",
        0xC3 => "Squaresoft",
        0xC4 => "Tokuma Shoten Intermedia",
        0xC5 => "Data East",
        0xC6 => "Tonkinhouse",
        0xC8 => "Koei",
        0xC9 => "UFL",
        0xCA => "Ultra",
        0xCB => "Vap",
        0xCC => "Use Corporation",
        0xCD => "Meldac",
        0xCE => ".Pony Canyon or",
        0xCF => "Angel",
        0xD0 => "Taito",
        0xD1 => "Sofel",
        0xD2 => "Quest",
        0xD3 => "Sigma Enterprises",
        0xD4 => "ASK Kodansha Co.",
        0xD6 => "Naxat Soft",
        0xD7 => "Copya System",
        0xD9 => "Banpresto",
        0xDA => "Tomy",
        0xDB => "LJN",
        0xDD => "NCS",
        0xDE => "Human",
        0xDF => "Altron",
        0xE0 => "Jaleco",
        0xE1 => "Towa Chiki",
        0xE2 => "Yutaka",
        0xE3 => "Varie",
        0xE5 => "Epcoh",
        0xE7 => "Athena",
        0xE8 => "Asmik ACE Entertainment",
        0xE9 => "Natsume",
        0xEA => "King Records",
        0xEB => "Atlus",
        0xEC => "Epic/Sony Records",
        0xEE => "IGS",
        0xF0 => "A Wave",
        0xF3 => "Extreme Entertainment",
        0xFF => "LJN",
        _ => "None",
    };
    name.to_owned()
}

/// The publisher named by a new-style licensee code, given as its two ASCII bytes.
pub fn match_new_licensee_code(code: &[u8]) -> (r: String)
    ensures
        code@.len() == 2 ==> r@ == new_licensee_name(code@[0], code@[1]),
        code@.len() != 2 ==> r@ == "None"@,
{
    if code.len() != 2 {
        return "None".to_owned();
    }
    let name: &str = match (code[0], code[1]) {
        (0x30, 0x30) => "None",
        (0x30, 0x31) => "Nintendo R&D1",
        (0x30, 0x38) => "Capcom",
        (0x31, 0x33) => "Electronic Arts",
        (0x31, 0x38) => "Hudson Soft",
        (0x31, 0x39) => "b-ai",
        (0x32, 0x30) => "kss",
        (0x32, 0x32) => "pow",
        (0x32, 0x34) => "PCM Complete",
        (0x32, 0x35) => "san-x",
        (0x32, 0x38) => "Kemco Japan",
        (0x32, 0x39) => "seta",
        (0x33, 0x30) => "Viacom",
        (0x33, 0x31) => "Nintendo",
        (0x33, 0x32) => "Bandai",
        (0x33, 0x33) => "Ocean/Acclaim",
        (0x33, 0x34) => "Konami",
        (0x33, 0x35) => "Hector",
        (0x33, 0x37) => "Taito",
        (0x33, 0x38) => "Hudson",
        (0x33, 0x39) => "Banpresto",
        (0x34, 0x31) => "Ubi Soft",
        (0x34, 0x32) => "Atlus",
        (0x34, 0x34) => "Malibu",
        (0x34, 0x36) => "angel",
        (0x34, 0x37) => "Bullet-Proof",
        (0x34, 0x39) => "irem",
        (0x35, 0x30) => "Absolute",
        (0x35, 0x31) => "Acclaim",
        (0x35, 0x32) => "Activision",
        (0x35, 0x33) => "American sammy",
        (0x35, 0x34) => "Konami",
        (0x35, 0x35) => "Hi tech entertainment",
        (0x35, 0x36) => "LJN",
        (0x35, 0x37) => "Matchbox",
        (0x35, 0x38) => "Mattel",
        (0x35, 0x39) => "Milton Bradley",
        (0x36, 0x30) => "Titus",
        (0x36, 0x31) => "Virgin",
        (0x36, 0x34) => "LucasArts",
        (0x36, 0x37) => "Ocean",
        (0x36, 0x39) => "Electronic Arts",
        (0x37, 0x30) => "Infogrames",
        (0x37, 0x31) => "Interplay",
        (0x37, 0x32) => "Broderbund",
        (0x37, 0x33) => "sculptured",
        (0x37, 0x35) => "sci",
        (0x37, 0x38) => "THQ",
        (0x37, 0x39) => "Accolade",
        (0x38, 0x30) => "misawa",
        (0x38, 0x33) => "lozc",
        (0x38, 0x36) => "Tokuma Shoten Intermedia",
        (0x38, 0x37) => "Tsukuda Original",
        (0x39, 0x31) => "Chunsoft",
        (0x39, 0x32) => "Video system",
        (0x39, 0x33) => "Ocean/Acclaim",
        (0x39, 0x35) => "Varie",
        (0x39, 0x36) => "Yonezawa/s\u{2019}pal",
        (0x39, 0x37) => "Kaneko",
        (0x39, 0x39) => "Pack in soft",
        (0x39, 0x48) => "Bottom Up",
        (0x41, 0x34) => "Konami (Yu-Gi-Oh!)",
        _ => "None",
    };
    name.to_owned()
}

/// The cartridge hardware named by the cartridge-type byte (0x147).
pub fn get_cartridge_type(cartridge_header: &Vec<u8>) -> (r: String)
    requires
        cartridge_header@.len() >= HEADER_LEN,
    ensures
        r@ == cartridge_type_name(cartridge_header@[0x147]),
{
    let name: &str = match cartridge_header[0x147] {
        0x00 => "ROM ONLY",
        0x01 => "MBC1",
        0x02 => "MBC1+RAM",
        0x03 => "MBC1+RAM+BATTERY",
        0x05 => "MBC2",
        0x06 => "MBC2+BATTERY",
        0x08 => "ROM+RAM 1",
        0x09 => "ROM+RAM+BATTERY 1",
        0x0B => "MMM01",
        0x0C => "MMM01+RAM",
        0x0D => "MMM01+RAM+BATTERY",
        0x0F => "MBC3+TIMER+BATTERY",
        0x10 => "MBC3+TIMER+RAM+BATTERY 2",
        0x11 => "MBC3",
        0x12 => "MBC3+RAM 2",
        0x13 => "MBC3+RAM+BATTERY 2",
        0x19 => "MBC5",
        0x1A => "MBC5+RAM",
        0x1B => "MBC5+RAM+BATTERY",
        0x1C => "MBC5+RUMBLE",
        0x1D => "MBC5+RUMBLE+RAM",
        0x1E => "MBC5+RUMBLE+RAM+BATTERY",
        0x20 => "MBC6",
        0x22 => "MBC7+SENSOR+RUMBLE+RAM+BATTERY",
        0xFC => "POCKET CAMERA",
        0xFD => "BANDAI TAMA5",
        0xFE => "HuC3",
        0xFF => "HuC1+RAM+BATTERY",
        _ => "None",
    };
    name.to_owned()
}

/// Bytes of the cartridge header that the metadata is read from (0x0000–0x014E).
pub const HEADER_LEN: usize = 0x14F;

/// The text that a byte sequence decodes to as UTF-8, if it is valid UTF-8.
pub uninterp spec fn utf8_text(b: Seq<u8>) -> Option<Seq<char>>;

/// Relies on `std::str::from_utf8`: the bytes decoded as UTF-8, or `None` where they are not
/// valid UTF-8; a sequence of ASCII bytes decodes to the same characters.
#[verifier::external_body]
fn decode_utf8(b: &[u8]) -> (r: Option<String>)
    ensures
        r.is_some() == utf8_text(b@).is_some(),
        r.is_some() ==> r.unwrap()@ == utf8_text(b@).unwrap(),
        (forall|i: int| 0 <= i < b@.len() ==> b@[i] < 128) ==> r.is_some() && r.unwrap()@ == b@.map_values(
            |c: u8| c as char,
        ),
{
    match std::str::from_utf8(b) {
        Ok(s) => Some(s.to_string()),
        Err(_) => None,
    }
}

/// The decimal digits of `n`.
pub open spec fn decimal(n: nat) -> Seq<char>
    decreases n,
{
    if n < 10 {
        seq![(48 + n) as char]
    } else {
        decimal(n / 10).push((48 + n % 10) as char)
    }
}

/// The one-digit text of `d`.
fn digit_text(d: u64) -> (r: &'static str)
    requires
        d < 10,
    ensures
        r@ == seq![(48 + d) as char],
{
    let r = if d == 0 {
        "0"
    } else if d == 1 {
        "1"
    } else if d == 2 {
        "2"
    } else if d == 3 {
        "3"
    } else if d == 4 {
        "4"
    } else if d == 5 {
        "5"
    } else if d == 6 {
        "6"
    } else if d == 7 {
        "7"
    } else if d == 8 {
        "8"
    } else {
        "9"
    };
    proof {
        reveal_strlit("0");
        reveal_strlit("1");
        reveal_strlit("2");
        reveal_strlit("3");
        reveal_strlit("4");
        reveal_strlit("5");
        reveal_strlit("6");
        reveal_strlit("7");
        reveal_strlit("8");
        reveal_strlit("9");
        assert(r@ =~= seq![(48 + d) as char]);
    }
    r
}

/// `n` in decimal, without sign or leading zeros.
pub fn decimal_text(n: u64) -> (r: String)
    ensures
        r@ == decimal(n as nat),
    decreases n,
{
    if n < 10 {
        digit_text(n).to_owned()
    } else {
        let mut s = decimal_text(n / 10);
        s.append(digit_text(n % 10));
        proof {
            assert(s@ =~= decimal((n / 10) as nat).push((48 + n % 10) as char));
        }
        s
    }
}

/// `b` with the zero bytes at both ends removed.
pub open spec fn trim_zeros(b: Seq<u8>) -> Seq<u8>
    decreases b.len(),
{
    if b.len() > 0 && b[0] == 0 {
        trim_zeros(b.drop_first())
    } else if b.len() > 0 && b.last() == 0 {
        trim_zeros(b.drop_last())
    } else {
        b
    }
}

/// The title field (0x134–0x143).
pub open spec fn title_bytes(header: Seq<u8>) -> Seq<u8> {
    header.subrange(0x134, 0x144)
}

/// The game title: the title field without the padding zeros at its ends, decoded as UTF-8;
/// "NO TITLE" where it is not valid UTF-8.
pub fn get_title(cartridge_header: &Vec<u8>) -> (r: String)
    requires
        cartridge_header@.len() >= HEADER_LEN,
    ensures
        r@ == match utf8_text(trim_zeros(title_bytes(cartridge_header@))) {
            Some(t) => t,
            None => "NO TITLE"@,
        },
{
    let mut start: usize = 0x134;
    let mut end: usize = 0x144;
    while start < end && (cartridge_header[start] == 0 || cartridge_header[end - 1] == 0)
        invariant
            0x134 <= start <= end <= 0x144,
            cartridge_header@.len() >= HEADER_LEN,
            trim_zeros(cartridge_header@.subrange(start as int, end as int)) == trim_zeros(
                title_bytes(cartridge_header@),
            ),
        decreases end - start,
    {
        let ghost b = cartridge_header@.subrange(start as int, end as int);
        if cartridge_header[start] == 0 {
            assert(b.drop_first() =~= cartridge_header@.subrange(start + 1, end as int));
            start = start + 1;
        } else {
            assert(b.drop_last() =~= cartridge_header@.subrange(start as int, end - 1));
            end = end - 1;
        }
    }
    let ghost b = cartridge_header@.subrange(start as int, end as int);
    assert(trim_zeros(b) == b);
    let mut core: Vec<u8> = Vec::new();
    let mut i: usize = start;
    while i < end
        invariant
            start <= i <= end <= 0x144,
            cartridge_header@.len() >= HEADER_LEN,
            core@ =~= cartridge_header@.subrange(start as int, i as int),
        decreases end - i,
    {
        core.push(cartridge_header[i]);
        i = i + 1;
    }
    match decode_utf8(core.as_slice()) {
        Some(t) => t,
        None => "NO TITLE".to_owned(),
    }
}

/// The publisher: the old-style code at 0x14B, or, where it is 0x33, the new-style code at
/// 0x144–0x145.
pub fn get_licensee(cartridge_header: &Vec<u8>) -> (r: String)
    requires
        cartridge_header@.len() >= HEADER_LEN,
    ensures
        cartridge_header@[0x14B] != 0x33 ==> r@ == old_licensee_name(cartridge_header@[0x14B]),
        cartridge_header@[0x14B] == 0x33 ==> r@ == new_licensee_name(cartridge_header@[0x144], cartridge_header@[0x145]),
{
    let code = cartridge_header[0x14B];
    if code != 0x33 {
        match_old_licensee_code(code)
    } else {
        let pair: [u8; 2] = [cartridge_header[0x144], cartridge_header[0x145]];
        match_new_licensee_code(&pair)
    }
}

/// The market (0x14A): 0 Japan, 1 overseas.
pub fn get_destination(cartridge_header: &Vec<u8>) -> (r: String)
    requires
        cartridge_header@.len() >= HEADER_LEN,
    ensures
        r@ == if cartridge_header@[0x14A] == 0 {
            "Japan"@
        } else if cartridge_header@[0x14A] == 1 {
            "Overseas only"@
        } else {
            "None"@
        },
{
    let name: &str = match cartridge_header[0x14A] {
        0 => "Japan",
        1 => "Overseas only",
        _ => "None",
    };
    name.to_owned()
}

/// The ROM size (0x148): 32 KiB shifted left by the code, for codes up to 10.
pub fn get_rom_size(cartridge_header: &Vec<u8>) -> (r: String)
    requires
        cartridge_header@.len() >= HEADER_LEN,
    ensures
        cartridge_header@[0x148] <= 10 ==> r@ == decimal((32 * pow2(cartridge_header@[0x148] as nat)) as nat)
            + "KiB"@,
        cartridge_header@[0x148] > 10 ==> r@ == "None"@,
{
    let code = cartridge_header[0x148];
    if code > 10 {
        return "None".to_owned();
    }
    let mut size: u64 = 32;
    let mut i: u8 = 0;
    proof {
        vstd::arithmetic::power2::lemma2_to64();
    }
    while i < code
        invariant
            i <= code <= 10,
            size == 32 * pow2(i as nat),
        decreases code - i,
    {
        proof {
            vstd::arithmetic::power2::lemma_pow2_unfold((i + 1) as nat);
            vstd::arithmetic::power2::lemma_pow2_strictly_increases(i as nat, 10);
            vstd::arithmetic::power2::lemma2_to64();
        }
        size = size * 2;
        i = i + 1;
    }
    let mut text = decimal_text(size);
    text.append("KiB");
    text
}

/// The cartridge RAM size (0x149).
pub fn get_ram_size(cartridge_header: &Vec<u8>) -> (r: String)
    requires
        cartridge_header@.len() >= HEADER_LEN,
    ensures
        r@ == if cartridge_header@[0x149] == 2 {
            "8 KiB"@
        } else if cartridge_header@[0x149] == 3 {
            "32 KiB"@
        } else if cartridge_header@[0x149] == 4 {
            "128 KiB"@
        } else if cartridge_header@[0x149] == 5 {
            "64 KiB"@
        } else {
            "None"@
        },
{
    let name: &str = match cartridge_header[0x149] {
        0x02 => "8 KiB",
        0x03 => "32 KiB",
        0x04 => "128 KiB",
        0x05 => "64 KiB",
        _ => "None",
    };
    name.to_owned()
}

/// The list of ROM files a user picks from, with the selected entry.
pub struct RomList {
    pub items: Vec<String>,
    pub selected: Option<usize>,
}

impl RomList {
    pub fn new(items: Vec<String>) -> (r: Self)
        ensures
            r.items@ == items@,
            r.selected.is_none(),
    {
        RomList { items, selected: None }
    }

    pub fn update_items(&mut self, items: Vec<String>)
        ensures
            final(self).items@ == items@,
            final(self).selected == old(self).selected,
    {
        self.items = items;
    }

    /// Selects the next entry, wrapping from the last to the first; with nothing selected,
    /// the first; with an empty list, nothing.
    pub fn next(&mut self)
        ensures
            final(self).items == old(self).items,
            final(self).selected == if old(self).items@.len() == 0 {
                None
            } else {
                match old(self).selected {
                    Some(i) => if i + 1 >= old(self).items@.len() {
                        Some(0usize)
                    } else {
                        Some((i + 1) as usize)
                    },
                    None => Some(0usize),
                }
            },
    {
        let n = self.items.len();
        self.selected = if n == 0 {
            None
        } else {
            match self.selected {
                Some(i) => if i >= n - 1 {
                    Some(0)
                } else {
                    Some(i + 1)
                },
                None => Some(0),
            }
        };
    }

    /// Selects the previous entry, wrapping from the first to the last; with nothing
    /// selected, the first; with an empty list, nothing.
    pub fn previous(&mut self)
        ensures
            final(self).items == old(self).items,
            final(self).selected == if old(self).items@.len() == 0 {
                None
            } else {
                match old(self).selected {
                    Some(i) => if i == 0 {
                        Some((old(self).items@.len() - 1) as usize)
                    } else {
                        Some((i - 1) as usize)
                    },
                    None => Some(0usize),
                }
            },
    {
        let n = self.items.len();
        self.selected = if n == 0 {
            None
        } else {
            match self.selected {
                Some(i) => if i == 0 {
                    Some(n - 1)
                } else {
                    Some(i - 1)
                },
                None => Some(0),
            }
        };
    }
}

} // verus!

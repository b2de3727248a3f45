//! The built-in text table: fixed strings addressed by a 16-bit id, consumed
//! by the draw-string instruction.

use std::collections::HashMap;
use vstd::prelude::*;

verus! {

/// Ids of the computer-terminal screens of the opening sequence.
pub open spec fn spec_is_terminal_string_id(id: u16) -> bool {
    match id {
        0x001 | 0x002 | 0x003 | 0x004 | 0x005 | 0x006 | 0x007 | 0x008 => true,
        0x00a | 0x00b | 0x00c | 0x00d | 0x00e | 0x00f => true,
        0x010 | 0x011 | 0x012 | 0x013 | 0x014 | 0x015 | 0x016 | 0x017 | 0x018 | 0x019
        | 0x01a | 0x01b | 0x01c => true,
        0x021 | 0x022 | 0x023 | 0x024 | 0x025 | 0x026 | 0x027 | 0x028 | 0x029 | 0x02a
        | 0x02b | 0x02c => true,
        _ => false,
    }
}

/// Ids of the particle-experiment screens.
pub open spec fn spec_is_experiment_string_id(id: u16) -> bool {
    match id {
        0x031 | 0x032 | 0x033 | 0x034 | 0x035 | 0x036 | 0x037 | 0x038 | 0x039 => true,
        0x03c | 0x03d | 0x03e | 0x03f => true,
        0x040 | 0x041 | 0x042 | 0x043 | 0x044 | 0x045 | 0x046 | 0x047 | 0x048 | 0x049
        | 0x04a | 0x04b | 0x04c => true,
        _ => false,
    }
}

/// Ids of the access-code entry screens.
pub open spec fn spec_is_access_code_string_id(id: u16) -> bool {
    match id {
        0x12c | 0x12d | 0x12e | 0x12f | 0x130 | 0x131 | 0x132 | 0x133 | 0x134 | 0x135
        | 0x136 | 0x137 | 0x138 | 0x139 | 0x13a | 0x13b | 0x13c | 0x13d | 0x13e | 0x13f => true,
        0x140 | 0x141 | 0x142 | 0x143 | 0x144 => true,
        _ => false,
    }
}

/// Ids of the code-wheel passwords.
pub open spec fn spec_is_code_wheel_string_id(id: u16) -> bool {
    match id {
        0x15e | 0x15f | 0x160 | 0x161 | 0x162 | 0x163 | 0x164 | 0x165 | 0x166 | 0x167
        | 0x168 | 0x169 | 0x16a | 0x16b | 0x16c | 0x16d | 0x16e | 0x16f => true,
        0x170 | 0x171 | 0x172 | 0x173 | 0x174 => true,
        _ => false,
    }
}

/// Ids of the credits and cutscene lines.
pub open spec fn spec_is_credits_string_id(id: u16) -> bool {
    match id {
        0x181 | 0x182 | 0x183 | 0x184 | 0x185 | 0x186 | 0x187 | 0x188 => true,
        0x18b | 0x18c | 0x18d | 0x18e => true,
        0x190 | 0x191 | 0x192 | 0x193 | 0x194 => true,
        0x258 | 0x259 | 0x25a | 0x25b | 0x25c | 0x25d => true,
        0x263 | 0x264 | 0x265 => true,
        _ => false,
    }
}

/// Whether `id` names one of the built-in strings.
pub open spec fn spec_is_game_string_id(id: u16) -> bool {
    spec_is_terminal_string_id(id) || spec_is_experiment_string_id(id)
        || spec_is_access_code_string_id(id) || spec_is_code_wheel_string_id(id)
        || spec_is_credits_string_id(id)
}

/// Fills `game_strings` with the built-in text table. Existing entries for
/// other ids are kept.
pub fn init_game_strings(game_strings: &mut HashMap<u16, &'static str>)
    ensures
        forall|id: u16|
            #[trigger] final(game_strings)@.contains_key(id) <==> (
            old(game_strings)@.contains_key(id) || spec_is_game_string_id(id)),
        forall|id: u16|
            old(game_strings)@.contains_key(id) && !spec_is_game_string_id(id)
                ==> #[trigger] final(game_strings)@[id] == old(game_strings)@[id],
        final(game_strings)@[0x001u16]@ == "P E A N U T  3000"@,
        final(game_strings)@[0x002u16]@ == "Copyright  } 1990 Peanut Computer, Inc.\nAll rights reserved.\n\nCDOS Version 5.01"@,
        final(game_strings)@[0x003u16]@ == "2"@,
        final(game_strings)@[0x004u16]@ == "3"@,
        final(game_strings)@[0x005u16]@ == "."@,
        final(game_strings)@[0x006u16]@ == "A"@,
        final(game_strings)@[0x007u16]@ == "@"@,
        final(game_strings)@[0x008u16]@ == "PEANUT 3000"@,
        final(game_strings)@[0x00au16]@ == "R"@,
        final(game_strings)@[0x00bu16]@ == "U"@,
        final(game_strings)@[0x00cu16]@ == "N"@,
        final(game_strings)@[0x00du16]@ == "P"@,
        final(game_strings)@[0x00eu16]@ == "R"@,
        final(game_strings)@[0x00fu16]@ == "O"@,
        final(game_strings)@[0x010u16]@ == "J"@,
        final(game_strings)@[0x011u16]@ == "E"@,
        final(game_strings)@[0x012u16]@ == "C"@,
        final(game_strings)@[0x013u16]@ == "T"@,
        final(game_strings)@[0x014u16]@ == "Shield 9A.5f Ok"@,
        final(game_strings)@[0x015u16]@ == "Flux % 5.0177 Ok"@,
        final(game_strings)@[0x016u16]@ == "CDI Vector ok"@,
        final(game_strings)@[0x017u16]@ == " %%%ddd ok"@,
        final(game_strings)@[0x018u16]@ == "Race-Track ok"@,
        final(game_strings)@[0x019u16]@ == "SYNCHROTRON"@,
        final(game_strings)@[0x01au16]@ == "E: 23%\ng: .005\n\nRK: 77.2L\n\nopt: g+\n\n Shield:\n1: OFF\n2: ON\n3: ON\n\nP~: 1\n"@,
        final(game_strings)@[0x01bu16]@ == "ON"@,
        final(game_strings)@[0x01cu16]@ == "-"@,
        final(game_strings)@[0x021u16]@ == "|"@,
        final(game_strings)@[0x022u16]@ == "--- Theoretical study ---"@,
        final(game_strings)@[0x023u16]@ == " THE EXPERIMENT WILL BEGIN IN    SECONDS"@,
        final(game_strings)@[0x024u16]@ == "  20"@,
        final(game_strings)@[0x025u16]@ == "  19"@,
        final(game_strings)@[0x026u16]@ == "  18"@,
        final(game_strings)@[0x027u16]@ == "  4"@,
        final(game_strings)@[0x028u16]@ == "  3"@,
        final(game_strings)@[0x029u16]@ == "  2"@,
        final(game_strings)@[0x02au16]@ == "  1"@,
        final(game_strings)@[0x02bu16]@ == "  0"@,
        final(game_strings)@[0x02cu16]@ == "L E T ' S   G O"@,
        final(game_strings)@[0x031u16]@ == "- Phase 0:\nINJECTION of particles\ninto synchrotron"@,
        final(game_strings)@[0x032u16]@ == "- Phase 1:\nParticle ACCELERATION."@,
        final(game_strings)@[0x033u16]@ == "- Phase 2:\nEJECTION of particles\non the shield."@,
        final(game_strings)@[0x034u16]@ == "A  N  A  L  Y  S  I  S"@,
        final(game_strings)@[0x035u16]@ == "- RESULT:\nProbability of creating:\n ANTIMATTER: 91.V %\n NEUTRINO 27:  0.04 %\n NEUTRINO 424: 18 %\n"@,
        final(game_strings)@[0x036u16]@ == "   Practical verification Y/N ?"@,
        final(game_strings)@[0x037u16]@ == "SURE ?"@,
        final(game_strings)@[0x038u16]@ == "MODIFICATION OF PARAMETERS\nRELATING TO PARTICLE\nACCELERATOR (SYNCHROTRON)."@,
        final(game_strings)@[0x039u16]@ == "       RUN EXPERIMENT ?"@,
        final(game_strings)@[0x03cu16]@ == "t---t"@,
        final(game_strings)@[0x03du16]@ == "000 ~"@,
        final(game_strings)@[0x03eu16]@ == ".20x14dd"@,
        final(game_strings)@[0x03fu16]@ == "gj5r5r"@,
        final(game_strings)@[0x040u16]@ == "tilgor 25%"@,
        final(game_strings)@[0x041u16]@ == "12% 33% checked"@,
        final(game_strings)@[0x042u16]@ == "D=4.2158005584"@,
        final(game_strings)@[0x043u16]@ == "d=10.00001"@,
        final(game_strings)@[0x044u16]@ == "+"@,
        final(game_strings)@[0x045u16]@ == "*"@,
        final(game_strings)@[0x046u16]@ == "% 304"@,
        final(game_strings)@[0x047u16]@ == "gurgle 21"@,
        final(game_strings)@[0x048u16]@ == "{{{{"@,
        final(game_strings)@[0x049u16]@ == "Delphine Software"@,
        final(game_strings)@[0x04au16]@ == "By Eric Chahi"@,
        final(game_strings)@[0x04bu16]@ == "  5"@,
        final(game_strings)@[0x04cu16]@ == "  17"@,
        final(game_strings)@[0x12cu16]@ == "0"@,
        final(game_strings)@[0x12du16]@ == "1"@,
        final(game_strings)@[0x12eu16]@ == "2"@,
        final(game_strings)@[0x12fu16]@ == "3"@,
        final(game_strings)@[0x130u16]@ == "4"@,
        final(game_strings)@[0x131u16]@ == "5"@,
        final(game_strings)@[0x132u16]@ == "6"@,
        final(game_strings)@[0x133u16]@ == "7"@,
        final(game_strings)@[0x134u16]@ == "8"@,
        final(game_strings)@[0x135u16]@ == "9"@,
        final(game_strings)@[0x136u16]@ == "A"@,
        final(game_strings)@[0x137u16]@ == "B"@,
        final(game_strings)@[0x138u16]@ == "C"@,
        final(game_strings)@[0x139u16]@ == "D"@,
        final(game_strings)@[0x13au16]@ == "E"@,
        final(game_strings)@[0x13bu16]@ == "F"@,
        final(game_strings)@[0x13cu16]@ == "        ACCESS CODE:"@,
        final(game_strings)@[0x13du16]@ == "PRESS BUTTON OR RETURN TO CONTINUE"@,
        final(game_strings)@[0x13eu16]@ == "   ENTER ACCESS CODE"@,
        final(game_strings)@[0x13fu16]@ == "   INVALID PASSWORD !"@,
        final(game_strings)@[0x140u16]@ == "ANNULER"@,
        final(game_strings)@[0x141u16]@ == "      INSERT DISK ?\n\n\n\n\n\n\n\n\nPRESS ANY KEY TO CONTINUE"@,
        final(game_strings)@[0x142u16]@ == " SELECT SYMBOLS CORRESPONDING TO\n THE POSITION\n ON THE CODE WHEEL"@,
        final(game_strings)@[0x143u16]@ == "    LOADING..."@,
        final(game_strings)@[0x144u16]@ == "              ERROR"@,
        final(game_strings)@[0x15eu16]@ == "LDKD"@,
        final(game_strings)@[0x15fu16]@ == "HTDC"@,
        final(game_strings)@[0x160u16]@ == "CLLD"@,
        final(game_strings)@[0x161u16]@ == "FXLC"@,
        final(game_strings)@[0x162u16]@ == "KRFK"@,
        final(game_strings)@[0x163u16]@ == "XDDJ"@,
        final(game_strings)@[0x164u16]@ == "LBKG"@,
        final(game_strings)@[0x165u16]@ == "KLFB"@,
        final(game_strings)@[0x166u16]@ == "TTCT"@,
        final(game_strings)@[0x167u16]@ == "DDRX"@,
        final(game_strings)@[0x168u16]@ == "TBHK"@,
        final(game_strings)@[0x169u16]@ == "BRTD"@,
        final(game_strings)@[0x16au16]@ == "CKJL"@,
        final(game_strings)@[0x16bu16]@ == "LFCK"@,
        final(game_strings)@[0x16cu16]@ == "BFLX"@,
        final(game_strings)@[0x16du16]@ == "XJRT"@,
        final(game_strings)@[0x16eu16]@ == "HRTB"@,
        final(game_strings)@[0x16fu16]@ == "HBHK"@,
        final(game_strings)@[0x170u16]@ == "JCGB"@,
        final(game_strings)@[0x171u16]@ == "HHFL"@,
        final(game_strings)@[0x172u16]@ == "TFBB"@,
        final(game_strings)@[0x173u16]@ == "TXHF"@,
        final(game_strings)@[0x174u16]@ == "JHJL"@,
        final(game_strings)@[0x181u16]@ == " BY"@,
        final(game_strings)@[0x182u16]@ == "ERIC CHAHI"@,
        final(game_strings)@[0x183u16]@ == "         MUSIC AND SOUND EFFECTS"@,
        final(game_strings)@[0x184u16]@ == " "@,
        final(game_strings)@[0x185u16]@ == "JEAN-FRANCOIS FREITAS"@,
        final(game_strings)@[0x186u16]@ == "IBM PC VERSION"@,
        final(game_strings)@[0x187u16]@ == "      BY"@,
        final(game_strings)@[0x188u16]@ == " DANIEL MORAIS"@,
        final(game_strings)@[0x18bu16]@ == "       THEN PRESS FIRE"@,
        final(game_strings)@[0x18cu16]@ == " PUT THE PADDLE ON THE UPPER LEFT CORNER"@,
        final(game_strings)@[0x18du16]@ == "PUT THE PADDLE IN CENTRAL POSITION"@,
        final(game_strings)@[0x18eu16]@ == "PUT THE PADDLE ON THE LOWER RIGHT CORNER"@,
        final(game_strings)@[0x258u16]@ == "      Designed by ..... Eric Chahi"@,
        final(game_strings)@[0x259u16]@ == "    Programmed by...... Eric Chahi"@,
        final(game_strings)@[0x25au16]@ == "      Artwork ......... Eric Chahi"@,
        final(game_strings)@[0x25bu16]@ == "Music by ........ Jean-francois Freitas"@,
        final(game_strings)@[0x25cu16]@ == "            Sound effects"@,
        final(game_strings)@[0x25du16]@ == "        Jean-Francois Freitas\n             Eric Chahi"@,
        final(game_strings)@[0x263u16]@ == "              Thanks To"@,
        final(game_strings)@[0x264u16]@ == "           Jesus Martinez\n\n          Daniel Morais\n\n        Frederic Savoir\n\n      Cecile Chahi\n\n    Philippe Delamarre\n\n  Philippe Ulrich\n\nSebastien Berthet\n\nPierre Gousseau"@,
        final(game_strings)@[0x265u16]@ == "Now Go Out Of This World"@,
        final(game_strings)@[0x190u16]@ == "Good evening professor."@,
        final(game_strings)@[0x191u16]@ == "I see you have driven here in your\nFerrari."@,
        final(game_strings)@[0x192u16]@ == "IDENTIFICATION"@,
        final(game_strings)@[0x193u16]@ == "AU BOULOT !!!\n"@,
        final(game_strings)@[0x194u16]@ == "Y\n"@,
{
    insert_terminal_strings(game_strings);
    insert_experiment_strings(game_strings);
    insert_access_code_strings(game_strings);
    insert_code_wheel_strings(game_strings);
    insert_credits_strings(game_strings);
}

fn insert_terminal_strings(game_strings: &mut HashMap<u16, &'static str>)
    ensures
        forall|id: u16|
            #[trigger] final(game_strings)@.contains_key(id) <==> (
            old(game_strings)@.contains_key(id) || spec_is_terminal_string_id(id)),
            forall|id: u16|
                old(game_strings)@.contains_key(id) && !spec_is_terminal_string_id(id)
                    ==> #[trigger] final(game_strings)@[id] == old(game_strings)@[id],
            final(game_strings)@[0x001u16]@ == "P E A N U T  3000"@,
            final(game_strings)@[0x002u16]@ == "Copyright  } 1990 Peanut Computer, Inc.\nAll rights reserved.\n\nCDOS Version 5.01"@,
            final(game_strings)@[0x003u16]@ == "2"@,
            final(game_strings)@[0x004u16]@ == "3"@,
            final(game_strings)@[0x005u16]@ == "."@,
            final(game_strings)@[0x006u16]@ == "A"@,
            final(game_strings)@[0x007u16]@ == "@"@,
            final(game_strings)@[0x008u16]@ == "PEANUT 3000"@,
            final(game_strings)@[0x00au16]@ == "R"@,
            final(game_strings)@[0x00bu16]@ == "U"@,
            final(game_strings)@[0x00cu16]@ == "N"@,
            final(game_strings)@[0x00du16]@ == "P"@,
            final(game_strings)@[0x00eu16]@ == "R"@,
            final(game_strings)@[0x00fu16]@ == "O"@,
            final(game_strings)@[0x010u16]@ == "J"@,
            final(game_strings)@[0x011u16]@ == "E"@,
            final(game_strings)@[0x012u16]@ == "C"@,
            final(game_strings)@[0x013u16]@ == "T"@,
            final(game_strings)@[0x014u16]@ == "Shield 9A.5f Ok"@,
            final(game_strings)@[0x015u16]@ == "Flux % 5.0177 Ok"@,
            final(game_strings)@[0x016u16]@ == "CDI Vector ok"@,
            final(game_strings)@[0x017u16]@ == " %%%ddd ok"@,
            final(game_strings)@[0x018u16]@ == "Race-Track ok"@,
            final(game_strings)@[0x019u16]@ == "SYNCHROTRON"@,
            final(game_strings)@[0x01au16]@ == "E: 23%\ng: .005\n\nRK: 77.2L\n\nopt: g+\n\n Shield:\n1: OFF\n2: ON\n3: ON\n\nP~: 1\n"@,
            final(game_strings)@[0x01bu16]@ == "ON"@,
            final(game_strings)@[0x01cu16]@ == "-"@,
            final(game_strings)@[0x021u16]@ == "|"@,
            final(game_strings)@[0x022u16]@ == "--- Theoretical study ---"@,
            final(game_strings)@[0x023u16]@ == " THE EXPERIMENT WILL BEGIN IN    SECONDS"@,
            final(game_strings)@[0x024u16]@ == "  20"@,
            final(game_strings)@[0x025u16]@ == "  19"@,
            final(game_strings)@[0x026u16]@ == "  18"@,
            final(game_strings)@[0x027u16]@ == "  4"@,
            final(game_strings)@[0x028u16]@ == "  3"@,
            final(game_strings)@[0x029u16]@ == "  2"@,
            final(game_strings)@[0x02au16]@ == "  1"@,
            final(game_strings)@[0x02bu16]@ == "  0"@,
            final(game_strings)@[0x02cu16]@ == "L E T ' S   G O"@,
{
    broadcast use vstd::std_specs::hash::group_hash_axioms;

    game_strings.insert(0x001, "P E A N U T  3000");
    game_strings.insert(0x002, "Copyright  } 1990 Peanut Computer, Inc.\nAll rights reserved.\n\nCDOS Version 5.01");
    game_strings.insert(0x003, "2");
    game_strings.insert(0x004, "3");
    game_strings.insert(0x005, ".");
    game_strings.insert(0x006, "A");
    game_strings.insert(0x007, "@");
    game_strings.insert(0x008, "PEANUT 3000");
    game_strings.insert(0x00a, "R");
    game_strings.insert(0x00b, "U");
    game_strings.insert(0x00c, "N");
    game_strings.insert(0x00d, "P");
    game_strings.insert(0x00e, "R");
    game_strings.insert(0x00f, "O");
    game_strings.insert(0x010, "J");
    game_strings.insert(0x011, "E");
    game_strings.insert(0x012, "C");
    game_strings.insert(0x013, "T");
    game_strings.insert(0x014, "Shield 9A.5f Ok");
    game_strings.insert(0x015, "Flux % 5.0177 Ok");
    game_strings.insert(0x016, "CDI Vector ok");
    game_strings.insert(0x017, " %%%ddd ok");
    game_strings.insert(0x018, "Race-Track ok");
    game_strings.insert(0x019, "SYNCHROTRON");
    game_strings.insert(0x01a, "E: 23%\ng: .005\n\nRK: 77.2L\n\nopt: g+\n\n Shield:\n1: OFF\n2: ON\n3: ON\n\nP~: 1\n");
    game_strings.insert(0x01b, "ON");
    game_strings.insert(0x01c, "-");
    game_strings.insert(0x021, "|");
    game_strings.insert(0x022, "--- Theoretical study ---");
    game_strings.insert(0x023, " THE EXPERIMENT WILL BEGIN IN    SECONDS");
    game_strings.insert(0x024, "  20");
    game_strings.insert(0x025, "  19");
    game_strings.insert(0x026, "  18");
    game_strings.insert(0x027, "  4");
    game_strings.insert(0x028, "  3");
    game_strings.insert(0x029, "  2");
    game_strings.insert(0x02a, "  1");
    game_strings.insert(0x02b, "  0");
    game_strings.insert(0x02c, "L E T ' S   G O");
}

fn insert_experiment_strings(game_strings: &mut HashMap<u16, &'static str>)
    ensures
        forall|id: u16|
            #[trigger] final(game_strings)@.contains_key(id) <==> (
            old(game_strings)@.contains_key(id) || spec_is_experiment_string_id(id)),
            forall|id: u16|
                old(game_strings)@.contains_key(id) && !spec_is_experiment_string_id(id)
                    ==> #[trigger] final(game_strings)@[id] == old(game_strings)@[id],
            final(game_strings)@[0x031u16]@ == "- Phase 0:\nINJECTION of particles\ninto synchrotron"@,
            final(game_strings)@[0x032u16]@ == "- Phase 1:\nParticle ACCELERATION."@,
            final(game_strings)@[0x033u16]@ == "- Phase 2:\nEJECTION of particles\non the shield."@,
            final(game_strings)@[0x034u16]@ == "A  N  A  L  Y  S  I  S"@,
            final(game_strings)@[0x035u16]@ == "- RESULT:\nProbability of creating:\n ANTIMATTER: 91.V %\n NEUTRINO 27:  0.04 %\n NEUTRINO 424: 18 %\n"@,
            final(game_strings)@[0x036u16]@ == "   Practical verification Y/N ?"@,
            final(game_strings)@[0x037u16]@ == "SURE ?"@,
            final(game_strings)@[0x038u16]@ == "MODIFICATION OF PARAMETERS\nRELATING TO PARTICLE\nACCELERATOR (SYNCHROTRON)."@,
            final(game_strings)@[0x039u16]@ == "       RUN EXPERIMENT ?"@,
            final(game_strings)@[0x03cu16]@ == "t---t"@,
            final(game_strings)@[0x03du16]@ == "000 ~"@,
            final(game_strings)@[0x03eu16]@ == ".20x14dd"@,
            final(game_strings)@[0x03fu16]@ == "gj5r5r"@,
            final(game_strings)@[0x040u16]@ == "tilgor 25%"@,
            final(game_strings)@[0x041u16]@ == "12% 33% checked"@,
            final(game_strings)@[0x042u16]@ == "D=4.2158005584"@,
            final(game_strings)@[0x043u16]@ == "d=10.00001"@,
            final(game_strings)@[0x044u16]@ == "+"@,
            final(game_strings)@[0x045u16]@ == "*"@,
            final(game_strings)@[0x046u16]@ == "% 304"@,
            final(game_strings)@[0x047u16]@ == "gurgle 21"@,
            final(game_strings)@[0x048u16]@ == "{{{{"@,
            final(game_strings)@[0x049u16]@ == "Delphine Software"@,
            final(game_strings)@[0x04au16]@ == "By Eric Chahi"@,
            final(game_strings)@[0x04bu16]@ == "  5"@,
            final(game_strings)@[0x04cu16]@ == "  17"@,
{
    broadcast use vstd::std_specs::hash::group_hash_axioms;

    game_strings.insert(0x031, "- Phase 0:\nINJECTION of particles\ninto synchrotron");
    game_strings.insert(0x032, "- Phase 1:\nParticle ACCELERATION.");
    game_strings.insert(0x033, "- Phase 2:\nEJECTION of particles\non the shield.");
    game_strings.insert(0x034, "A  N  A  L  Y  S  I  S");
    game_strings.insert(0x035, "- RESULT:\nProbability of creating:\n ANTIMATTER: 91.V %\n NEUTRINO 27:  0.04 %\n NEUTRINO 424: 18 %\n");
    game_strings.insert(0x036, "   Practical verification Y/N ?");
    game_strings.insert(0x037, "SURE ?");
    game_strings.insert(0x038, "MODIFICATION OF PARAMETERS\nRELATING TO PARTICLE\nACCELERATOR (SYNCHROTRON).");
    game_strings.insert(0x039, "       RUN EXPERIMENT ?");
    game_strings.insert(0x03c, "t---t");
    game_strings.insert(0x03d, "000 ~");
    game_strings.insert(0x03e, ".20x14dd");
    game_strings.insert(0x03f, "gj5r5r");
    game_strings.insert(0x040, "tilgor 25%");
    game_strings.insert(0x041, "12% 33% checked");
    game_strings.insert(0x042, "D=4.2158005584");
    game_strings.insert(0x043, "d=10.00001");
    game_strings.insert(0x044, "+");
    game_strings.insert(0x045, "*");
    game_strings.insert(0x046, "% 304");
    game_strings.insert(0x047, "gurgle 21");
    game_strings.insert(0x048, "{{{{");
    game_strings.insert(0x049, "Delphine Software");
    game_strings.insert(0x04a, "By Eric Chahi");
    game_strings.insert(0x04b, "  5");
    game_strings.insert(0x04c, "  17");
}

fn insert_access_code_strings(game_strings: &mut HashMap<u16, &'static str>)
    ensures
        forall|id: u16|
            #[trigger] final(game_strings)@.contains_key(id) <==> (
            old(game_strings)@.contains_key(id) || spec_is_access_code_string_id(id)),
            forall|id: u16|
                old(game_strings)@.contains_key(id) && !spec_is_access_code_string_id(id)
                    ==> #[trigger] final(game_strings)@[id] == old(game_strings)@[id],
            final(game_strings)@[0x12cu16]@ == "0"@,
            final(game_strings)@[0x12du16]@ == "1"@,
            final(game_strings)@[0x12eu16]@ == "2"@,
            final(game_strings)@[0x12fu16]@ == "3"@,
            final(game_strings)@[0x130u16]@ == "4"@,
            final(game_strings)@[0x131u16]@ == "5"@,
            final(game_strings)@[0x132u16]@ == "6"@,
            final(game_strings)@[0x133u16]@ == "7"@,
            final(game_strings)@[0x134u16]@ == "8"@,
            final(game_strings)@[0x135u16]@ == "9"@,
            final(game_strings)@[0x136u16]@ == "A"@,
            final(game_strings)@[0x137u16]@ == "B"@,
            final(game_strings)@[0x138u16]@ == "C"@,
            final(game_strings)@[0x139u16]@ == "D"@,
            final(game_strings)@[0x13au16]@ == "E"@,
            final(game_strings)@[0x13bu16]@ == "F"@,
            final(game_strings)@[0x13cu16]@ == "        ACCESS CODE:"@,
            final(game_strings)@[0x13du16]@ == "PRESS BUTTON OR RETURN TO CONTINUE"@,
            final(game_strings)@[0x13eu16]@ == "   ENTER ACCESS CODE"@,
            final(game_strings)@[0x13fu16]@ == "   INVALID PASSWORD !"@,
            final(game_strings)@[0x140u16]@ == "ANNULER"@,
            final(game_strings)@[0x141u16]@ == "      INSERT DISK ?\n\n\n\n\n\n\n\n\nPRESS ANY KEY TO CONTINUE"@,
            final(game_strings)@[0x142u16]@ == " SELECT SYMBOLS CORRESPONDING TO\n THE POSITION\n ON THE CODE WHEEL"@,
            final(game_strings)@[0x143u16]@ == "    LOADING..."@,
            final(game_strings)@[0x144u16]@ == "              ERROR"@,
{
    broadcast use vstd::std_specs::hash::group_hash_axioms;

    game_strings.insert(0x12c, "0");
    game_strings.insert(0x12d, "1");
    game_strings.insert(0x12e, "2");
    game_strings.insert(0x12f, "3");
    game_strings.insert(0x130, "4");
    game_strings.insert(0x131, "5");
    game_strings.insert(0x132, "6");
    game_strings.insert(0x133, "7");
    game_strings.insert(0x134, "8");
    game_strings.insert(0x135, "9");
    game_strings.insert(0x136, "A");
    game_strings.insert(0x137, "B");
    game_strings.insert(0x138, "C");
    game_strings.insert(0x139, "D");
    game_strings.insert(0x13a, "E");
    game_strings.insert(0x13b, "F");
    game_strings.insert(0x13c, "        ACCESS CODE:");
    game_strings.insert(0x13d, "PRESS BUTTON OR RETURN TO CONTINUE");
    game_strings.insert(0x13e, "   ENTER ACCESS CODE");
    game_strings.insert(0x13f, "   INVALID PASSWORD !");
    game_strings.insert(0x140, "ANNULER");
    game_strings.insert(0x141, "      INSERT DISK ?\n\n\n\n\n\n\n\n\nPRESS ANY KEY TO CONTINUE");
    game_strings.insert(0x142, " SELECT SYMBOLS CORRESPONDING TO\n THE POSITION\n ON THE CODE WHEEL");
    game_strings.insert(0x143, "    LOADING...");
    game_strings.insert(0x144, "              ERROR");
}

fn insert_code_wheel_strings(game_strings: &mut HashMap<u16, &'static str>)
    ensures
        forall|id: u16|
            #[trigger] final(game_strings)@.contains_key(id) <==> (
            old(game_strings)@.contains_key(id) || spec_is_code_wheel_string_id(id)),
            forall|id: u16|
                old(game_strings)@.contains_key(id) && !spec_is_code_wheel_string_id(id)
                    ==> #[trigger] final(game_strings)@[id] == old(game_strings)@[id],
            final(game_strings)@[0x15eu16]@ == "LDKD"@,
            final(game_strings)@[0x15fu16]@ == "HTDC"@,
            final(game_strings)@[0x160u16]@ == "CLLD"@,
            final(game_strings)@[0x161u16]@ == "FXLC"@,
            final(game_strings)@[0x162u16]@ == "KRFK"@,
            final(game_strings)@[0x163u16]@ == "XDDJ"@,
            final(game_strings)@[0x164u16]@ == "LBKG"@,
            final(game_strings)@[0x165u16]@ == "KLFB"@,
            final(game_strings)@[0x166u16]@ == "TTCT"@,
            final(game_strings)@[0x167u16]@ == "DDRX"@,
            final(game_strings)@[0x168u16]@ == "TBHK"@,
            final(game_strings)@[0x169u16]@ == "BRTD"@,
            final(game_strings)@[0x16au16]@ == "CKJL"@,
            final(game_strings)@[0x16bu16]@ == "LFCK"@,
            final(game_strings)@[0x16cu16]@ == "BFLX"@,
            final(game_strings)@[0x16du16]@ == "XJRT"@,
            final(game_strings)@[0x16eu16]@ == "HRTB"@,
            final(game_strings)@[0x16fu16]@ == "HBHK"@,
            final(game_strings)@[0x170u16]@ == "JCGB"@,
            final(game_strings)@[0x171u16]@ == "HHFL"@,
            final(game_strings)@[0x172u16]@ == "TFBB"@,
            final(game_strings)@[0x173u16]@ == "TXHF"@,
            final(game_strings)@[0x174u16]@ == "JHJL"@,
{
    broadcast use vstd::std_specs::hash::group_hash_axioms;

    game_strings.insert(0x15e, "LDKD");
    game_strings.insert(0x15f, "HTDC");
    game_strings.insert(0x160, "CLLD");
    game_strings.insert(0x161, "FXLC");
    game_strings.insert(0x162, "KRFK");
    game_strings.insert(0x163, "XDDJ");
    game_strings.insert(0x164, "LBKG");
    game_strings.insert(0x165, "KLFB");
    game_strings.insert(0x166, "TTCT");
    game_strings.insert(0x167, "DDRX");
    game_strings.insert(0x168, "TBHK");
    game_strings.insert(0x169, "BRTD");
    game_strings.insert(0x16a, "CKJL");
    game_strings.insert(0x16b, "LFCK");
    game_strings.insert(0x16c, "BFLX");
    game_strings.insert(0x16d, "XJRT");
    game_strings.insert(0x16e, "HRTB");
    game_strings.insert(0x16f, "HBHK");
    game_strings.insert(0x170, "JCGB");
    game_strings.insert(0x171, "HHFL");
    game_strings.insert(0x172, "TFBB");
    game_strings.insert(0x173, "TXHF");
    game_strings.insert(0x174, "JHJL");
}

fn insert_credits_strings(game_strings: &mut HashMap<u16, &'static str>)
    ensures
        forall|id: u16|
            #[trigger] final(game_strings)@.contains_key(id) <==> (
            old(game_strings)@.contains_key(id) || spec_is_credits_string_id(id)),
            forall|id: u16|
                old(game_strings)@.contains_key(id) && !spec_is_credits_string_id(id)
                    ==> #[trigger] final(game_strings)@[id] == old(game_strings)@[id],
            final(game_strings)@[0x181u16]@ == " BY"@,
            final(game_strings)@[0x182u16]@ == "ERIC CHAHI"@,
            final(game_strings)@[0x183u16]@ == "         MUSIC AND SOUND EFFECTS"@,
            final(game_strings)@[0x184u16]@ == " "@,
            final(game_strings)@[0x185u16]@ == "JEAN-FRANCOIS FREITAS"@,
            final(game_strings)@[0x186u16]@ == "IBM PC VERSION"@,
            final(game_strings)@[0x187u16]@ == "      BY"@,
            final(game_strings)@[0x188u16]@ == " DANIEL MORAIS"@,
            final(game_strings)@[0x18bu16]@ == "       THEN PRESS FIRE"@,
            final(game_strings)@[0x18cu16]@ == " PUT THE PADDLE ON THE UPPER LEFT CORNER"@,
            final(game_strings)@[0x18du16]@ == "PUT THE PADDLE IN CENTRAL POSITION"@,
            final(game_strings)@[0x18eu16]@ == "PUT THE PADDLE ON THE LOWER RIGHT CORNER"@,
            final(game_strings)@[0x258u16]@ == "      Designed by ..... Eric Chahi"@,
            final(game_strings)@[0x259u16]@ == "    Programmed by...... Eric Chahi"@,
            final(game_strings)@[0x25au16]@ == "      Artwork ......... Eric Chahi"@,
            final(game_strings)@[0x25bu16]@ == "Music by ........ Jean-francois Freitas"@,
            final(game_strings)@[0x25cu16]@ == "            Sound effects"@,
            final(game_strings)@[0x25du16]@ == "        Jean-Francois Freitas\n             Eric Chahi"@,
            final(game_strings)@[0x263u16]@ == "              Thanks To"@,
            final(game_strings)@[0x264u16]@ == "           Jesus Martinez\n\n          Daniel Morais\n\n        Frederic Savoir\n\n      Cecile Chahi\n\n    Philippe Delamarre\n\n  Philippe Ulrich\n\nSebastien Berthet\n\nPierre Gousseau"@,
            final(game_strings)@[0x265u16]@ == "Now Go Out Of This World"@,
            final(game_strings)@[0x190u16]@ == "Good evening professor."@,
            final(game_strings)@[0x191u16]@ == "I see you have driven here in your\nFerrari."@,
            final(game_strings)@[0x192u16]@ == "IDENTIFICATION"@,
            final(game_strings)@[0x193u16]@ == "AU BOULOT !!!\n"@,
            final(game_strings)@[0x194u16]@ == "Y\n"@,
{
    broadcast use vstd::std_specs::hash::group_hash_axioms;

    game_strings.insert(0x181, " BY");
    game_strings.insert(0x182, "ERIC CHAHI");
    game_strings.insert(0x183, "         MUSIC AND SOUND EFFECTS");
    game_strings.insert(0x184, " ");
    game_strings.insert(0x185, "JEAN-FRANCOIS FREITAS");
    game_strings.insert(0x186, "IBM PC VERSION");
    game_strings.insert(0x187, "      BY");
    game_strings.insert(0x188, " DANIEL MORAIS");
    game_strings.insert(0x18b, "       THEN PRESS FIRE");
    game_strings.insert(0x18c, " PUT THE PADDLE ON THE UPPER LEFT CORNER");
    game_strings.insert(0x18d, "PUT THE PADDLE IN CENTRAL POSITION");
    game_strings.insert(0x18e, "PUT THE PADDLE ON THE LOWER RIGHT CORNER");
    game_strings.insert(0x258, "      Designed by ..... Eric Chahi");
    game_strings.insert(0x259, "    Programmed by...... Eric Chahi");
    game_strings.insert(0x25a, "      Artwork ......... Eric Chahi");
    game_strings.insert(0x25b, "Music by ........ Jean-francois Freitas");
    game_strings.insert(0x25c, "            Sound effects");
    game_strings.insert(0x25d, "        Jean-Francois Freitas\n             Eric Chahi");
    game_strings.insert(0x263, "              Thanks To");
    game_strings.insert(0x264, "           Jesus Martinez\n\n          Daniel Morais\n\n        Frederic Savoir\n\n      Cecile Chahi\n\n    Philippe Delamarre\n\n  Philippe Ulrich\n\nSebastien Berthet\n\nPierre Gousseau");
    game_strings.insert(0x265, "Now Go Out Of This World");
    game_strings.insert(0x190, "Good evening professor.");
    game_strings.insert(0x191, "I see you have driven here in your\nFerrari.");
    game_strings.insert(0x192, "IDENTIFICATION");
    game_strings.insert(0x193, "Monsieur est en parfaite sante.");
    game_strings.insert(0x194, "Y\n");
    game_strings.insert(0x193, "AU BOULOT !!!\n");

}

} // verus!

//! The logical entities whose scripts are loaded, and the table that
//! recognises a character from the short token stored in its main script.
use vstd::prelude::*;

verus! {

/// Number of loader calls in one match-loading cycle: player 1 main and
/// effect, player 2 main and effect, common main and effect. Modes that load
/// a different number of scripts are not supported.
pub const CYCLE_LEN: usize = 6;

/// A script owner: one of the playable characters, or the shared script set.
#[derive(Clone, Copy, Debug, PartialEq, Eq, Structural)]
pub enum ScriptFile {
    Answer,
    Axl,
    Baiken,
    Bedman,
    Chipp,
    Dizzy,
    Elphelt,
    Faust,
    Ino,
    Jacko,
    Jam,
    Johnny,
    Kum,
    Ky,
    Leo,
    May,
    Millia,
    Potemkin,
    Ramlethal,
    Raven,
    Sin,
    Slayer,
    Sol,
    Venom,
    Zato,
    Common,
}

/// Which of an owner's two scripts is meant.
#[derive(Clone, Copy, Debug, PartialEq, Eq, Structural)]
pub enum ScriptType {
    Main,
    Effect,
}

/// The character assumed when a main script carries no recognisable token.
pub open spec fn default_character() -> ScriptFile {
    ScriptFile::Sol
}

/// The character named by a three-byte token, if the token is known.
pub open spec fn known_character(t: Seq<u8>) -> Option<ScriptFile> {
    if t.len() != 3 {
        None
    } else {
        match (t[0], t[1], t[2]) {
            (65, 78, 83) => Some(ScriptFile::Answer), // ANS
            (65, 88, 76) => Some(ScriptFile::Axl), // AXL
            (66, 75, 78) => Some(ScriptFile::Baiken), // BKN
            (66, 69, 68) => Some(ScriptFile::Bedman), // BED
            (67, 72, 80) => Some(ScriptFile::Chipp), // CHP
            (68, 90, 89) => Some(ScriptFile::Dizzy), // DZY
            (69, 76, 80) => Some(ScriptFile::Elphelt), // ELP
            (70, 65, 85) => Some(ScriptFile::Faust), // FAU
            (73, 78, 79) => Some(ScriptFile::Ino), // INO
            (74, 75, 79) => Some(ScriptFile::Jacko), // JKO
            (74, 65, 77) => Some(ScriptFile::Jam), // JAM
            (74, 72, 78) => Some(ScriptFile::Johnny), // JHN
            (75, 85, 77) => Some(ScriptFile::Kum), // KUM
            (75, 89, 75) => Some(ScriptFile::Ky), // KYK
            (76, 69, 79) => Some(ScriptFile::Leo), // LEO
            (77, 65, 89) => Some(ScriptFile::May), // MAY
            (77, 76, 76) => Some(ScriptFile::Millia), // MLL
            (80, 79, 84) => Some(ScriptFile::Potemkin), // POT
            (82, 65, 77) => Some(ScriptFile::Ramlethal), // RAM
            (82, 86, 78) => Some(ScriptFile::Raven), // RVN
            (83, 73, 78) => Some(ScriptFile::Sin), // SIN
            (83, 76, 89) => Some(ScriptFile::Slayer), // SLY
            (83, 79, 76) => Some(ScriptFile::Sol), // SOL
            (86, 69, 78) => Some(ScriptFile::Venom), // VEN
            (90, 65, 84) => Some(ScriptFile::Zato), // ZAT
            _ => None,
        }
    }
}

/// The character that a token names; an unknown token names the default.
pub open spec fn character_of(t: Seq<u8>) -> ScriptFile {
    match known_character(t) {
        Some(c) => c,
        None => default_character(),
    }
}

/// Maps a token to the character it names, falling back to the default
/// character for any token outside the table.
pub fn character_from_token(token: &[u8]) -> (r: ScriptFile)
    ensures
        r == character_of(token@),
        known_character(token@) is None ==> r == default_character(),
        r != ScriptFile::Common,
{
    if token.len() != 3 {
        return ScriptFile::Sol;
    }
    match (token[0], token[1], token[2]) {
        (65, 78, 83) => ScriptFile::Answer, // ANS
        (65, 88, 76) => ScriptFile::Axl, // AXL
        (66, 75, 78) => ScriptFile::Baiken, // BKN
        (66, 69, 68) => ScriptFile::Bedman, // BED
        (67, 72, 80) => ScriptFile::Chipp, // CHP
        (68, 90, 89) => ScriptFile::Dizzy, // DZY
        (69, 76, 80) => ScriptFile::Elphelt, // ELP
        (70, 65, 85) => ScriptFile::Faust, // FAU
        (73, 78, 79) => ScriptFile::Ino, // INO
        (74, 75, 79) => ScriptFile::Jacko, // JKO
        (74, 65, 77) => ScriptFile::Jam, // JAM
        (74, 72, 78) => ScriptFile::Johnny, // JHN
        (75, 85, 77) => ScriptFile::Kum, // KUM
        (75, 89, 75) => ScriptFile::Ky, // KYK
        (76, 69, 79) => ScriptFile::Leo, // LEO
        (77, 65, 89) => ScriptFile::May, // MAY
        (77, 76, 76) => ScriptFile::Millia, // MLL
        (80, 79, 84) => ScriptFile::Potemkin, // POT
        (82, 65, 77) => ScriptFile::Ramlethal, // RAM
        (82, 86, 78) => ScriptFile::Raven, // RVN
        (83, 73, 78) => ScriptFile::Sin, // SIN
        (83, 76, 89) => ScriptFile::Slayer, // SLY
        (83, 79, 76) => ScriptFile::Sol, // SOL
        (86, 69, 78) => ScriptFile::Venom, // VEN
        (90, 65, 84) => ScriptFile::Zato, // ZAT
        _ => ScriptFile::Sol,
    }
}

} // verus!

//! The call classifier: each call of the script loader gets a slot from the
//! number of calls before it, and main slots identify the character whose
//! scripts the following effect slot belongs to.
use vstd::prelude::*;
use crate::script::{
    character_from_token, character_of, default_character, known_character, ScriptFile,
    ScriptType, CYCLE_LEN,
};
use crate::storage::{bytes_of, fits_loader, BBScriptStorage};

verus! {

/// The `u32` stored little-endian in the first four bytes.
pub open spec fn le_u32(d: Seq<u8>) -> int {
    d[0] + d[1] * 256 + d[2] * 65536 + d[3] * 16777216
}

/// Where the identifying token of a main script starts: past the header and
/// one 36-byte record per state, plus one.
pub open spec fn token_offset(d: Seq<u8>) -> int {
    8 + (le_u32(d) + 1) * 36
}

/// The index of the first zero byte at or after `i`, if there is one.
pub open spec fn nul_from(d: Seq<u8>, i: int) -> Option<int>
    decreases d.len() - i,
{
    if i < 0 || i >= d.len() {
        None
    } else if d[i] == 0 {
        Some(i)
    } else {
        nul_from(d, i + 1)
    }
}

/// The zero-terminated token of a main script, where the header and the
/// terminator both lie inside the data.
pub open spec fn token_in(d: Seq<u8>) -> Option<Seq<u8>> {
    if d.len() < 4 {
        None
    } else {
        match nul_from(d, token_offset(d)) {
            Some(end) => Some(d.subrange(token_offset(d), end)),
            None => None,
        }
    }
}

/// The character that a main script identifies.
pub open spec fn main_character(d: Seq<u8>) -> ScriptFile {
    match token_in(d) {
        Some(t) => character_of(t),
        None => default_character(),
    }
}

/// The call counter after one more call. It goes up by one; at the top of
/// its range it restarts low in the same residue class, so that slots keep
/// their order.
pub open spec fn next_counter(c: u64) -> u64 {
    if c < u64::MAX {
        (c + 1) as u64
    } else {
        (c % 6 + 1) as u64
    }
}

/// The counter after `n` calls that start at `c`.
pub open spec fn counter_after(c: u64, n: nat) -> u64
    decreases n,
{
    if n == 0 {
        c
    } else {
        next_counter(counter_after(c, (n - 1) as nat))
    }
}

/// Whether a slot identifies a character (player 1 or player 2 main).
pub open spec fn is_main_slot(slot: int) -> bool {
    slot == 0 || slot == 2
}

/// The character remembered after a call at `slot`.
pub open spec fn last_after(slot: int, last: ScriptFile, d: Seq<u8>) -> ScriptFile {
    if is_main_slot(slot) {
        main_character(d)
    } else {
        last
    }
}

/// Whose script, and which of the two, a call at `slot` asks for.
pub open spec fn request_at(slot: int, last: ScriptFile, d: Seq<u8>) -> (ScriptFile, ScriptType) {
    if is_main_slot(slot) {
        (main_character(d), ScriptType::Main)
    } else if slot == 1 || slot == 3 {
        (last, ScriptType::Effect)
    } else if slot == 4 {
        (ScriptFile::Common, ScriptType::Main)
    } else {
        (ScriptFile::Common, ScriptType::Effect)
    }
}

/// The token of a main script, read with every index checked against the
/// length of `data`; `None` where the header or the terminator is missing.
pub fn decode_token(data: &[u8]) -> (r: Option<Vec<u8>>)
    ensures
        r matches Some(t) ==> token_in(data@) == Some(t@),
        r is None ==> token_in(data@) is None,
{
    if data.len() < 4 {
        return None;
    }
    let count: u64 = data[0] as u64 + data[1] as u64 * 256 + data[2] as u64 * 65536
        + data[3] as u64 * 16777216;
    let start: u64 = 8 + (count + 1) * 36;
    if start >= data.len() as u64 {
        assert(nul_from(data@, token_offset(data@)) is None);
        return None;
    }
    let start = start as usize;
    let mut end: usize = start;
    while end < data.len() && data[end] != 0
        invariant
            start <= end <= data.len(),
            start == token_offset(data@),
            nul_from(data@, start as int) == nul_from(data@, end as int),
        decreases data.len() - end,
    {
        end = end + 1;
    }
    if end == data.len() {
        return None;
    }
    let mut token: Vec<u8> = Vec::new();
    let mut i: usize = start;
    while i < end
        invariant
            start <= i <= end < data.len(),
            token@ == data@.subrange(start as int, i as int),
        decreases end - i,
    {
        token.push(data[i]);
        i = i + 1;
        assert(token@ =~= data@.subrange(start as int, i as int));
    }
    Some(token)
}

/// Identifies the character of a main script; where no known token can be
/// read the default character stands.
pub fn identify_character(data: &[u8]) -> (r: ScriptFile)
    ensures
        r == main_character(data@),
        r != ScriptFile::Common,
{
    match decode_token(data) {
        Some(t) => character_from_token(t.as_slice()),
        None => ScriptFile::Sol,
    }
}

/// What one loader call asks for: its slot, and whose script of which type.
#[derive(Clone, Copy, Debug, PartialEq, Eq, Structural)]
pub struct ScriptRequest {
    pub slot: usize,
    pub file: ScriptFile,
    pub kind: ScriptType,
}

/// The state that the loader hook keeps between calls.
pub struct LoadState {
    pub counter: u64,
    pub last_character: ScriptFile,
    pub scripts: BBScriptStorage,
}

impl LoadState {
    pub open spec fn wf(&self) -> bool {
        self.scripts.wf()
    }

    /// No calls seen, the default character remembered, no replacements.
    pub fn new() -> (r: Self)
        ensures
            r.wf(),
            r.counter == 0,
            r.last_character == default_character(),
            forall|i: int| #[trigger] r.scripts.slot(i) is None,
    {
        LoadState { counter: 0, last_character: ScriptFile::Sol, scripts: BBScriptStorage::new() }
    }

    /// Classifies one loader call whose incoming script is `data`: counts
    /// the call, takes its slot from the count before it, and on a main slot
    /// identifies and remembers the character.
    pub fn classify(&mut self, data: &[u8]) -> (r: ScriptRequest)
        ensures
            r.slot as int == old(self).counter as int % CYCLE_LEN as int,
            final(self).counter == next_counter(old(self).counter),
            final(self).last_character == last_after(r.slot as int, old(self).last_character, data@),
            (r.file, r.kind) == request_at(r.slot as int, old(self).last_character, data@),
            final(self).scripts == old(self).scripts,
    {
        let slot = (self.counter % 6) as usize;
        self.counter = if self.counter < u64::MAX {
            self.counter + 1
        } else {
            self.counter % 6 + 1
        };
        let (file, kind) = if slot == 0 || slot == 2 {
            self.last_character = identify_character(data);
            (self.last_character, ScriptType::Main)
        } else if slot == 1 || slot == 3 {
            (self.last_character, ScriptType::Effect)
        } else if slot == 4 {
            (ScriptFile::Common, ScriptType::Main)
        } else {
            (ScriptFile::Common, ScriptType::Effect)
        };
        ScriptRequest { slot, file, kind }
    }

    /// Records the replacement found for `slot` (`None`: use the original).
    pub fn store(&mut self, slot: usize, script: Option<Vec<u8>>)
        requires
            old(self).wf(),
            slot < CYCLE_LEN,
            fits_loader(bytes_of(script)),
        ensures
            final(self).wf(),
            final(self).counter == old(self).counter,
            final(self).last_character == old(self).last_character,
            final(self).scripts.slot(slot as int) == bytes_of(script),
            forall|i: int| i != slot ==> #[trigger] final(self).scripts.slot(i) == old(self).scripts.slot(i),
    {
        self.scripts.set_script(slot, script);
    }

    /// The arguments that the call through to the original loader takes
    /// for `slot`: the stored buffer and its length where replacement is
    /// active and the slot holds one, `None` for the original arguments.
    pub fn call_args(&self, slot: usize, replace: bool) -> (r: Option<(&[u8], u32)>)
        requires
            self.wf(),
        ensures
            r is None <==> !replace || self.scripts.slot(slot as int) is None,
            r matches Some((b, n)) ==> self.scripts.slot(slot as int) == Some(b@) && n as int
                == b@.len(),
    {
        if replace {
            self.scripts.get_script_ptr(slot)
        } else {
            None
        }
    }
}

/// Calls are classified by count alone: the `k`-th call after the counter
/// stood at `c` gets slot `(c + k) mod 6`, and away from the top of the
/// counter's range each call raises the counter by exactly one.
pub proof fn lemma_slot_sequence(c: u64, k: nat)
    ensures
        counter_after(c, k) as int % CYCLE_LEN as int == (c as int + k) % CYCLE_LEN as int,
        c as int + k <= u64::MAX ==> counter_after(c, k) as int == c as int + k,
        c < u64::MAX ==> next_counter(c) as int == c as int + 1,
    decreases k,
{
    if k > 0 {
        lemma_slot_sequence(c, (k - 1) as nat);
    }
}

/// A main slot always sets the remembered character: to the character that
/// its token names where the token is known, to the default otherwise.
pub proof fn lemma_main_slot_sets_character(slot: int, last: ScriptFile, d: Seq<u8>)
    requires
        is_main_slot(slot),
    ensures
        last_after(slot, last, d) == main_character(d),
        request_at(slot, last, d) == (main_character(d), ScriptType::Main),
        token_in(d) is Some && known_character(token_in(d).unwrap()) is Some ==> last_after(
            slot,
            last,
            d,
        ) == known_character(token_in(d).unwrap()).unwrap(),
        token_in(d) is None || known_character(token_in(d).unwrap()) is None ==> last_after(
            slot,
            last,
            d,
        ) == default_character(),
{
}

/// The call after a main slot is the matching effect slot, and asks for the
/// effect script of the character that the main slot identified, whatever
/// was remembered before and in whichever cycle.
pub proof fn lemma_effect_follows_main(c: u64, last: ScriptFile, main: Seq<u8>, effect: Seq<u8>)
    requires
        is_main_slot(c as int % CYCLE_LEN as int),
    ensures
        next_counter(c) as int % CYCLE_LEN as int == c as int % CYCLE_LEN as int + 1,
        request_at(
            next_counter(c) as int % CYCLE_LEN as int,
            last_after(c as int % CYCLE_LEN as int, last, main),
            effect,
        ) == (main_character(main), ScriptType::Effect),
{
}

} // verus!

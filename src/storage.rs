//! Slot storage: for each of the six slots of a loading cycle, the
//! replacement script that was found for it, if any.
use vstd::prelude::*;

verus! {

/// The bytes held by an optional buffer.
pub open spec fn bytes_of(o: Option<Vec<u8>>) -> Option<Seq<u8>> {
    match o {
        Some(v) => Some(v@),
        None => None,
    }
}

/// A buffer that the native loader can take: its length fits in a `u32`.
pub open spec fn fits_loader(o: Option<Seq<u8>>) -> bool {
    match o {
        Some(b) => b.len() <= u32::MAX,
        None => true,
    }
}

/// Replacement scripts of one loading cycle, one field per slot.
pub struct BBScriptStorage {
    pub common: Option<Vec<u8>>,
    pub common_ef: Option<Vec<u8>>,
    pub player_1: Option<Vec<u8>>,
    pub player_2: Option<Vec<u8>>,
    pub player_1_ef: Option<Vec<u8>>,
    pub player_2_ef: Option<Vec<u8>>,
}

impl BBScriptStorage {
    /// What slot `index` holds: slots 0 to 5 are player 1 main, player 1
    /// effect, player 2 main, player 2 effect, common main, common effect.
    pub open spec fn slot(&self, index: int) -> Option<Seq<u8>> {
        if index == 0 {
            bytes_of(self.player_1)
        } else if index == 1 {
            bytes_of(self.player_1_ef)
        } else if index == 2 {
            bytes_of(self.player_2)
        } else if index == 3 {
            bytes_of(self.player_2_ef)
        } else if index == 4 {
            bytes_of(self.common)
        } else if index == 5 {
            bytes_of(self.common_ef)
        } else {
            None
        }
    }

    /// Every stored buffer can be handed to the native loader.
    pub open spec fn wf(&self) -> bool {
        forall|i: int| 0 <= i < 6 ==> #[trigger] fits_loader(self.slot(i))
    }

    /// Storage with every slot empty.
    pub fn new() -> (r: Self)
        ensures
            r.wf(),
            forall|i: int| #[trigger] r.slot(i) is None,
    {
        BBScriptStorage {
            common: None,
            common_ef: None,
            player_1: None,
            player_2: None,
            player_1_ef: None,
            player_2_ef: None,
        }
    }

    /// Stores `script` in slot `index`, leaving the other slots as they were.
    pub fn set_script(&mut self, index: usize, script: Option<Vec<u8>>)
        requires
            old(self).wf(),
            index < 6,
            fits_loader(bytes_of(script)),
        ensures
            final(self).wf(),
            final(self).slot(index as int) == bytes_of(script),
            forall|i: int| i != index ==> #[trigger] final(self).slot(i) == old(self).slot(i),
    {
        if index == 0 {
            self.player_1 = script;
        } else if index == 1 {
            self.player_1_ef = script;
        } else if index == 2 {
            self.player_2 = script;
        } else if index == 3 {
            self.player_2_ef = script;
        } else if index == 4 {
            self.common = script;
        } else {
            self.common_ef = script;
        }
        assert forall|i: int| 0 <= i < 6 implies #[trigger] fits_loader(self.slot(i)) by {
            if i != index {
                assert(fits_loader(old(self).slot(i)));
            }
        }
    }

    /// The buffer stored for slot `index` and its length, or `None` where
    /// the slot is empty or `index` names no slot.
    pub fn get_script_ptr(&self, index: usize) -> (r: Option<(&[u8], u32)>)
        requires
            self.wf(),
        ensures
            r is None <==> self.slot(index as int) is None,
            r matches Some((b, n)) ==> self.slot(index as int) == Some(b@) && n as int == b@.len(),
    {
        proof {
            if index < 6 {
                assert(fits_loader(self.slot(index as int)));
            }
        }
        match index {
            0 => buffer_of(&self.player_1),
            1 => buffer_of(&self.player_1_ef),
            2 => buffer_of(&self.player_2),
            3 => buffer_of(&self.player_2_ef),
            4 => buffer_of(&self.common),
            5 => buffer_of(&self.common_ef),
            _ => None,
        }
    }
}

fn buffer_of(o: &Option<Vec<u8>>) -> (r: Option<(&[u8], u32)>)
    requires
        fits_loader(bytes_of(*o)),
    ensures
        r is None <==> o is None,
        r matches Some((b, n)) ==> bytes_of(*o) == Some(b@) && n as int == b@.len(),
{
    match o {
        Some(v) => Some((v.as_slice(), v.len() as u32)),
        None => None,
    }
}

} // verus!

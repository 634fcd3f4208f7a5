//! Settings checked for the engine: every name must be able to cross the
//! boundary as a NUL-terminated string.

use vstd::prelude::*;
use vstd::utf8::encode_utf8;

use super::error::MahjongFFIError;
use crate::settings::GameSettings;

verus! {

/// A string can become a C string when its UTF-8 encoding holds no NUL byte.
pub open spec fn nul_free(s: Seq<char>) -> bool {
    !encode_utf8(s).contains(0u8)
}

/// Whether `s` can cross the boundary as a C string.
pub fn is_nul_free(s: &str) -> (r: bool)
    ensures
        r == nul_free(s@),
{
    let bytes = s.as_bytes();
    let mut i: usize = 0;
    while i < bytes.len()
        invariant
            bytes@ == encode_utf8(s@),
            i <= bytes@.len(),
            forall|j: int| 0 <= j < i ==> bytes@[j] != 0u8,
        decreases bytes@.len() - i,
    {
        if bytes[i] == 0 {
            return false;
        }
        i = i + 1;
    }
    true
}

/// Settings in the shape the engine's settings record takes: the seed, the
/// four seat controller names, each free of NUL bytes, and their count.
#[derive(Debug, Clone)]
pub struct CGameSettings {
    pub seed: u64,
    pub seat_controllers: [String; 4],
    pub num_controllers: i32,
}

impl CGameSettings {
    /// Checks settings for the engine; fails when a seat's controller name
    /// holds a NUL byte.
    pub fn try_from_settings(value: GameSettings) -> (r: Result<CGameSettings, MahjongFFIError>)
        ensures
            match r {
                Ok(c) => {
                    &&& forall|i: int| 0 <= i < 4 ==> nul_free(#[trigger] value.seat_controllers@[i]@)
                    &&& c.seed == value.seed
                    &&& c.seat_controllers == value.seat_controllers
                    &&& c.num_controllers == 4
                },
                Err(e) => {
                    &&& exists|i: int| 0 <= i < 4 && !nul_free(#[trigger] value.seat_controllers@[i]@)
                    &&& e == MahjongFFIError::FailedToCreateCString
                },
            },
    {
        let mut i: usize = 0;
        while i < 4
            invariant
                i <= 4,
                forall|j: int| 0 <= j < i ==> nul_free(#[trigger] value.seat_controllers@[j]@),
            decreases 4 - i,
        {
            if !is_nul_free(value.seat_controllers[i].as_str()) {
                return Err(MahjongFFIError::FailedToCreateCString);
            }
            i = i + 1;
        }
        Ok(CGameSettings { seed: value.seed, seat_controllers: value.seat_controllers, num_controllers: 4 })
    }
}

} // verus!

//! Reads the weather timers out of a world's `level.dat`.

use vstd::prelude::*;

use crate::gzip::{gunzip, inflate};
use crate::nbt::{field, integer, nbt_content, nbt_document, parse, Nbt};
use crate::snapshot::TimingSnapshot;

verus! {

/// Why a save gave no snapshot.
#[derive(Clone, Copy, Debug, PartialEq, Eq, Structural)]
pub enum DecodeError {
    /// The bytes are not NBT, or the document lacks a timer, or a timer is
    /// not a whole number of ticks from zero up.
    Malformed,
}

/// The name of the section that holds the world's settings.
pub open spec fn data_key() -> Seq<char> {
    "Data"@
}

/// The name under which the game keeps the rain timer.
pub open spec fn rain_key() -> Seq<char> {
    "rainTime"@
}

/// The name under which the game keeps the thunder timer.
pub open spec fn thunder_key() -> Seq<char> {
    "thunderTime"@
}

/// The timer called `name` in `section`: there, an integer, and not negative.
pub open spec fn timer_in(section: Map<Seq<char>, Nbt>, name: Seq<char>) -> Option<u64> {
    if section.contains_key(name) {
        match section[name] {
            Nbt::Integer(ticks) => if 0 <= ticks <= u64::MAX {
                Some(ticks as u64)
            } else {
                None
            },
            _ => None,
        }
    } else {
        None
    }
}

/// The snapshot that a document stands for: its root is a compound, `Data`
/// in it is a compound, and both timers are found there. Whatever else the
/// document holds, at either level, plays no part.
pub open spec fn snapshot_of(document: Nbt) -> Result<TimingSnapshot, DecodeError> {
    match document {
        Nbt::Compound(root) => if root.contains_key(data_key()) {
            match root[data_key()] {
                Nbt::Compound(data) => match (
                    timer_in(data, rain_key()),
                    timer_in(data, thunder_key()),
                ) {
                    (Some(rain), Some(thunder)) => Ok(
                        TimingSnapshot { rain_start_tick: rain, thunder_start_tick: thunder },
                    ),
                    _ => Err(DecodeError::Malformed),
                },
                _ => Err(DecodeError::Malformed),
            }
        } else {
            Err(DecodeError::Malformed)
        },
        _ => Err(DecodeError::Malformed),
    }
}

/// What the bytes of an uncompressed save decode to.
pub open spec fn decoded(bytes: Seq<u8>) -> Result<TimingSnapshot, DecodeError> {
    match nbt_document(bytes) {
        Some(document) => snapshot_of(document),
        None => Err(DecodeError::Malformed),
    }
}

/// The timer called `name` in `section`, if `section` is a compound.
fn timer(section: &fastnbt::Value, name: &str) -> (ticks: Option<u64>)
    ensures
        ticks == match nbt_content(*section) {
            Nbt::Compound(entries) => timer_in(entries, name@),
            _ => None,
        },
{
    match field(section, name) {
        Some(entry) => match integer(entry) {
            Some(ticks) => if ticks >= 0 {
                Some(ticks as u64)
            } else {
                None
            },
            None => None,
        },
        None => None,
    }
}

/// Picks the two timers out of a parsed `level.dat`.
pub fn snapshot_from_document(document: &fastnbt::Value) -> (snapshot: Result<
    TimingSnapshot,
    DecodeError,
>)
    ensures
        snapshot == snapshot_of(nbt_content(*document)),
{
    let data = match field(document, "Data") {
        Some(data) => data,
        None => {
            return Err(DecodeError::Malformed);
        },
    };
    match (timer(data, "rainTime"), timer(data, "thunderTime")) {
        (Some(rain), Some(thunder)) => Ok(
            TimingSnapshot { rain_start_tick: rain, thunder_start_tick: thunder },
        ),
        _ => Err(DecodeError::Malformed),
    }
}

/// Decodes the uncompressed bytes of a `level.dat`.
///
/// The bytes are parsed as one NBT document. Fields other than the two
/// timers are read and passed over, whatever their names and types.
pub fn decode_save(raw_bytes: &[u8]) -> (snapshot: Result<TimingSnapshot, DecodeError>)
    ensures
        snapshot == decoded(raw_bytes@),
{
    match parse(raw_bytes) {
        Ok(document) => snapshot_from_document(&document),
        Err(_) => Err(DecodeError::Malformed),
    }
}

/// Undoes the gzip compression in which a `level.dat` lies on disk. `None`
/// means that the contents are not a sound gzip stream.
pub fn decompress_save(compressed: &[u8]) -> (bytes: Option<Vec<u8>>)
    ensures
        match bytes {
            Some(bytes) => gunzip(compressed@) == Some(bytes@),
            None => gunzip(compressed@) is None,
        },
{
    match inflate(compressed) {
        Ok(bytes) => Some(bytes),
        Err(_) => None,
    }
}

} // verus!

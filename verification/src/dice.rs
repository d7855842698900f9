//! The die and the state that remembers its last roll.

use crate::text::{roll_message, rolled_line};
use vstd::prelude::*;

verus! {

/// Number of faces of the die.
pub const FACES: u8 = 6;

/// The face that a raw byte selects: the byte reduced modulo the number of
/// faces, counted from one.
pub open spec fn face_of(byte: u8) -> u8 {
    (byte % FACES + 1) as u8
}

/// Maps a raw byte to a face of the die.
pub fn roll_from_byte(byte: u8) -> (face: u8)
    ensures
        face == face_of(byte),
        face as int == (byte as int) % 6 + 1,
        1 <= face <= FACES,
{
    byte % FACES + 1
}

/// Every byte selects a face between one and six, and the same byte always
/// selects the same face: its remainder modulo six, plus one.
pub proof fn face_in_range(byte: u8)
    ensures
        1 <= face_of(byte) <= 6,
        face_of(byte) as int == (byte as int) % 6 + 1,
{
}

/// Draws one byte with `rand::random::<u8>()`, which takes the low byte of
/// the next word of the thread's generator. Nothing is claimed of the byte
/// drawn. The generator is seeded from the operating system on first use, and
/// the call fails only where the system gives no seed.
#[verifier::external_body]
pub(crate) fn random_byte() -> (byte: u8) {
    rand::random::<u8>()
}

/// The state of the application: the last roll, or zero before the first.
#[derive(Debug)]
pub struct DiceApp {
    roll: u8,
}

impl View for DiceApp {
    type V = u8;

    closed spec fn view(&self) -> u8 {
        self.roll
    }
}

impl DiceApp {
    /// The state is either fresh (zero) or holds a face of the die.
    pub open spec fn wf(&self) -> bool {
        self@ <= FACES
    }

    /// A fresh state: nothing rolled yet.
    pub fn new() -> (app: DiceApp)
        ensures
            app@ == 0,
            app.wf(),
    {
        DiceApp { roll: 0 }
    }

    /// The last roll, or zero before the first.
    pub fn roll(&self) -> (r: u8)
        ensures
            r == self@,
    {
        self.roll
    }

    /// Stores the face that `byte` selects and writes the line reporting it.
    pub fn record(&mut self, byte: u8) -> (line: String)
        ensures
            final(self)@ == face_of(byte),
            final(self).wf(),
            line@ == rolled_line(face_of(byte)),
    {
        self.roll = roll_from_byte(byte);
        roll_message(self.roll)
    }
}

} // verus!

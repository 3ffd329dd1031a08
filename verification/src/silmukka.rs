//! The timing of the main loop: how the time that has passed is dealt out
//! to the updates of the game.
//!
//! Each kind of loop is a state that is told how much time has passed and
//! which keys are held down, and that runs the updates of the game that
//! are due. Whoever runs the loop reads the clock and the keyboard before
//! a round, and draws the picture after it.
use vstd::prelude::*;

pub mod erillisetpaivityksetsilmukka;
pub mod interpoloivasilmukka;
pub mod perussilmukka;
pub mod saannollinensilmukka;

verus! {

/// The number of the key that stops the game.
pub const LOPETUSNAPPAIN: i32 = 27;

/// Something that has happened outside the game.
#[derive(Copy, Clone, Debug, PartialEq, Eq, Structural)]
pub enum Tapahtuma {
    /// The game was asked to end.
    Lopetus,
    /// The key with the given number was pressed.
    NappainPainettu { nappain: i32 },
    /// Anything else.
    Muu,
}

/// Whether the main loop goes on.
#[derive(Copy, Clone, Debug, PartialEq, Eq, Structural)]
pub enum SilmukanTila {
    /// The loop goes on.
    Kaynnissa,
    /// The loop has ended, and stays so.
    Pysaytetty,
}

impl SilmukanTila {
    /// The state after `tapahtuma`: the loop ends when the game is asked to
    /// end or the key that stops the game is pressed, and it never begins
    /// again.
    pub open spec fn seuraava(self, tapahtuma: Tapahtuma) -> SilmukanTila {
        match (self, tapahtuma) {
            (SilmukanTila::Pysaytetty, _) => SilmukanTila::Pysaytetty,
            (_, Tapahtuma::Lopetus) => SilmukanTila::Pysaytetty,
            (_, Tapahtuma::NappainPainettu { nappain }) => if nappain == LOPETUSNAPPAIN {
                SilmukanTila::Pysaytetty
            } else {
                SilmukanTila::Kaynnissa
            },
            (_, Tapahtuma::Muu) => SilmukanTila::Kaynnissa,
        }
    }

    /// Takes note of something that has happened outside the game.
    pub fn kasittele(self, tapahtuma: Tapahtuma) -> (tulos: SilmukanTila)
        ensures
            tulos == self.seuraava(tapahtuma),
    {
        match self {
            SilmukanTila::Pysaytetty => SilmukanTila::Pysaytetty,
            SilmukanTila::Kaynnissa => match tapahtuma {
                Tapahtuma::Lopetus => SilmukanTila::Pysaytetty,
                Tapahtuma::NappainPainettu { nappain } => if nappain == LOPETUSNAPPAIN {
                    SilmukanTila::Pysaytetty
                } else {
                    SilmukanTila::Kaynnissa
                },
                Tapahtuma::Muu => SilmukanTila::Kaynnissa,
            },
        }
    }

    /// Whether the loop goes on.
    pub fn kaynnissa(self) -> (tulos: bool)
        ensures
            tulos == (self == SilmukanTila::Kaynnissa),
    {
        match self {
            SilmukanTila::Kaynnissa => true,
            SilmukanTila::Pysaytetty => false,
        }
    }
}

} // verus!

//! The character that the player steers.
use vstd::prelude::*;
use crate::maailma::lisaosa::{Lisaosa, Tunniste};
use crate::maailma::vektori::Vektori;

verus! {

/// The character that the player steers. The camera follows it.
#[derive(Copy, Clone, Debug, PartialEq, Eq, Structural)]
pub struct Pelihahmo {
    /// The body of the character.
    pub kappale: Tunniste,
    /// Where the character last faced: where it looks and shoots. Only the
    /// direction of this vector matters.
    pub suunta: Vektori,
}

impl Pelihahmo {
    /// What `aseta_suunta` leaves of a character: the new direction where it
    /// is one, the character unchanged where the vector given is zero.
    pub open spec fn suunnattu(self, suunta: Vektori) -> Pelihahmo {
        if suunta.x == 0 && suunta.y == 0 {
            self
        } else {
            Pelihahmo { kappale: self.kappale, suunta }
        }
    }

    /// Makes the body `kappale` the character, facing right.
    pub fn new(kappale: Tunniste) -> (tulos: Pelihahmo)
        ensures
            tulos == (Pelihahmo { kappale, suunta: Vektori { x: 1, y: 0 } }),
    {
        Pelihahmo { kappale, suunta: Vektori::new(1, 0) }
    }

    /// The direction that the character faces.
    pub fn anna_suunta(&self) -> (tulos: Vektori)
        ensures
            tulos == self.suunta,
    {
        self.suunta
    }

    /// Turns the character to face along `suunta`. The zero vector has no
    /// direction: given it, the character keeps facing as before.
    pub fn aseta_suunta(&mut self, suunta: Vektori)
        ensures
            *final(self) == old(self).suunnattu(suunta),
    {
        if !suunta.onko_nolla() {
            self.suunta = suunta;
        }
    }
}

impl Lisaosa for Pelihahmo {
    open spec fn kappale_spec(&self) -> Tunniste {
        self.kappale
    }

    fn anna_kappale(&self) -> (tulos: Tunniste) {
        self.kappale
    }
}

} // verus!

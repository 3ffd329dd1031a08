//! The loop that updates the game by whatever time has passed.
use vstd::prelude::*;
use crate::maailma::{Maailmamalli, Perusmaailma};
use crate::paivitys::{
    yhdistetty_paivitetty,
    yhdistetty_seuraava,
    PaivitysMalli,
    Paivitysaika,
    YhdistettyPaivitys,
};
use crate::peli::pelinpaivitys::TUHOUTUMISEN_KESTO;
use crate::syotteet::{nappaimet_paivitetty, Nappain, Syotteet};

verus! {

/// The timing of a loop that runs as fast as it can: each round updates
/// the game once, by the time that has passed since the round before.
#[derive(Copy, Clone, Debug, PartialEq, Eq, Structural)]
pub struct Perussilmukka {
    /// The time since the game began, in nanoseconds.
    pub kokonaisaika: u64,
}

impl Perussilmukka {
    /// The timing of a game that begins now.
    pub fn new() -> (tulos: Perussilmukka)
        ensures
            tulos.kokonaisaika == 0,
    {
        Perussilmukka { kokonaisaika: 0 }
    }

    /// Begins a round, `kulunut` nanoseconds after the round before. Gives
    /// the time of the one update that the round runs.
    pub fn seuraava_paivitys(&mut self, kulunut: u64) -> (tulos: Paivitysaika)
        requires
            old(self).kokonaisaika + kulunut <= u64::MAX,
        ensures
            final(self).kokonaisaika == old(self).kokonaisaika + kulunut,
            tulos == (Paivitysaika {
                paivitysaika: kulunut,
                kokonais_pelin_aika: final(self).kokonaisaika,
            }),
    {
        self.kokonaisaika = self.kokonaisaika + kulunut;
        Paivitysaika::new(kulunut, self.kokonaisaika)
    }

    /// One round of the loop, `kulunut` nanoseconds after the round before
    /// and with the keys `pohjassa_olevat` held down: the keys take note
    /// of their states, the game is updated once by the time that has
    /// passed, and the bodies that were marked for it are removed.
    pub fn kierros(
        &mut self,
        kulunut: u64,
        pohjassa_olevat: &Vec<i32>,
        maailma: &mut Perusmaailma,
        syotteet: &mut Syotteet,
        paivitys: &mut YhdistettyPaivitys,
    )
        requires
            old(self).kokonaisaika + kulunut + TUHOUTUMISEN_KESTO <= u64::MAX,
            old(paivitys).kunnossa(),
            old(maailma)@.kunnossa(),
        ensures
            final(self).kokonaisaika == old(self).kokonaisaika + kulunut,
            final(syotteet)@ == nappaimet_paivitetty(old(syotteet)@, pohjassa_olevat@),
            final(paivitys).kunnossa(),
            final(maailma)@.kunnossa(),
            (final(maailma)@, final(paivitys)@) == paivitetty_ja_puhdistettu(
                old(maailma)@,
                old(paivitys)@,
                final(syotteet)@,
                Paivitysaika { paivitysaika: kulunut, kokonais_pelin_aika: final(self).kokonaisaika },
            ),
    {
        let aika = self.seuraava_paivitys(kulunut);
        syotteet.paivita_nappainten_tilat(pohjassa_olevat);
        paivitys.paivita(maailma, syotteet, &aika);
        maailma.poista_poistettavat();
    }
}

/// The world and the updates after the updates have updated the world
/// once, at the time `aika` and with the keys in the states `nappaimet`,
/// and the bodies that were marked for it have been removed.
pub open spec fn paivitetty_ja_puhdistettu(
    malli: Maailmamalli,
    paivitykset: Seq<PaivitysMalli>,
    nappaimet: Seq<Nappain>,
    aika: Paivitysaika,
) -> (Maailmamalli, Seq<PaivitysMalli>) {
    (
        yhdistetty_paivitetty(
            malli,
            paivitykset,
            paivitykset.len() as int,
            nappaimet,
            aika,
        ).puhdistettu(),
        yhdistetty_seuraava(paivitykset, aika),
    )
}

} // verus!

//! The loop that updates the game at even intervals.
use vstd::prelude::*;
use crate::maailma::Perusmaailma;
use crate::paivitys::{Paivitysaika, YhdistettyPaivitys};
use crate::peli::pelinpaivitys::TUHOUTUMISEN_KESTO;
use crate::silmukka::perussilmukka::paivitetty_ja_puhdistettu;
use crate::syotteet::{nappaimet_paivitetty, Syotteet};

verus! {

/// How many milliseconds the loop rests at a time while it waits.
pub const LEPOAIKA: u32 = 5;

/// What one round of the evenly updating loop does.
#[derive(Copy, Clone, Debug, PartialEq, Eq, Structural)]
pub enum SaannollinenKierros {
    /// It is not yet time to update. The loop rests for `lepoaika`
    /// milliseconds where that is given, and looks at the clock again.
    Odota { lepoaika: Option<u32> },
    /// The game is updated once, by the interval.
    Paivita { aika: Paivitysaika },
}

/// The timing of a loop that updates the game once in every interval, and
/// always by the interval.
#[derive(Copy, Clone, Debug, PartialEq, Eq, Structural)]
pub struct SaannollinenSilmukka {
    /// The interval between two updates, in nanoseconds.
    pub paivitysvali: u64,
    /// The time since the game began as the game has seen it, in
    /// nanoseconds.
    pub kokonaisaika: u64,
}

impl SaannollinenSilmukka {
    /// What a round does when `kulunut` nanoseconds have passed since the
    /// latest update: before the interval is over it waits, and rests
    /// while more than five microseconds of the interval are left; after
    /// that it updates.
    pub open spec fn kierros_spec(self, kulunut: u64) -> SaannollinenKierros {
        if kulunut < self.paivitysvali {
            SaannollinenKierros::Odota {
                lepoaika: if (self.paivitysvali - kulunut) / 1000 > LEPOAIKA {
                    Some(LEPOAIKA)
                } else {
                    None
                },
            }
        } else {
            SaannollinenKierros::Paivita {
                aika: Paivitysaika {
                    paivitysaika: self.paivitysvali,
                    kokonais_pelin_aika: (self.kokonaisaika + self.paivitysvali) as u64,
                },
            }
        }
    }

    /// The timing of a game that begins now and is updated
    /// `paivitys_tiheys` times a second.
    pub fn new(paivitys_tiheys: u32) -> (tulos: SaannollinenSilmukka)
        requires
            paivitys_tiheys > 0,
        ensures
            tulos.paivitysvali == 1_000_000_000int / paivitys_tiheys as int,
            tulos.kokonaisaika == 0,
    {
        SaannollinenSilmukka {
            paivitysvali: 1_000_000_000u64 / (paivitys_tiheys as u64),
            kokonaisaika: 0,
        }
    }

    /// Begins a round, `kulunut` nanoseconds after the latest update, and
    /// says what the round does. The time of the game moves on only when
    /// the round updates.
    pub fn seuraava_paivitys(&mut self, kulunut: u64) -> (tulos: SaannollinenKierros)
        requires
            old(self).kokonaisaika + old(self).paivitysvali <= u64::MAX,
        ensures
            tulos == old(self).kierros_spec(kulunut),
            final(self).paivitysvali == old(self).paivitysvali,
            final(self).kokonaisaika == (if kulunut < old(self).paivitysvali {
                old(self).kokonaisaika as int
            } else {
                old(self).kokonaisaika + old(self).paivitysvali
            }),
    {
        if kulunut < self.paivitysvali {
            if (self.paivitysvali - kulunut) / 1000 > LEPOAIKA as u64 {
                SaannollinenKierros::Odota { lepoaika: Some(LEPOAIKA) }
            } else {
                SaannollinenKierros::Odota { lepoaika: None }
            }
        } else {
            self.kokonaisaika = self.kokonaisaika + self.paivitysvali;
            SaannollinenKierros::Paivita {
                aika: Paivitysaika::new(self.paivitysvali, self.kokonaisaika),
            }
        }
    }

    /// One round of the loop, `kulunut` nanoseconds after the latest update
    /// and with the keys `pohjassa_olevat` held down. Before the interval
    /// is over nothing happens. After that the keys take note of their
    /// states, the game is updated once by the interval, and the bodies
    /// that were marked for it are removed.
    pub fn kierros(
        &mut self,
        kulunut: u64,
        pohjassa_olevat: &Vec<i32>,
        maailma: &mut Perusmaailma,
        syotteet: &mut Syotteet,
        paivitys: &mut YhdistettyPaivitys,
    ) -> (tulos: SaannollinenKierros)
        requires
            old(self).kokonaisaika + old(self).paivitysvali + TUHOUTUMISEN_KESTO <= u64::MAX,
            old(paivitys).kunnossa(),
            old(maailma)@.kunnossa(),
        ensures
            tulos == old(self).kierros_spec(kulunut),
            final(self).paivitysvali == old(self).paivitysvali,
            final(paivitys).kunnossa(),
            final(maailma)@.kunnossa(),
            match tulos {
                SaannollinenKierros::Odota { .. } => {
                    &&& *final(self) == *old(self)
                    &&& final(syotteet)@ == old(syotteet)@
                    &&& final(paivitys)@ == old(paivitys)@
                    &&& final(maailma)@ == old(maailma)@
                },
                SaannollinenKierros::Paivita { aika } => {
                    &&& final(self).kokonaisaika == old(self).kokonaisaika + old(self).paivitysvali
                    &&& final(syotteet)@ == nappaimet_paivitetty(old(syotteet)@, pohjassa_olevat@)
                    &&& (final(maailma)@, final(paivitys)@) == paivitetty_ja_puhdistettu(
                        old(maailma)@,
                        old(paivitys)@,
                        final(syotteet)@,
                        aika,
                    )
                },
            },
    {
        let tulos = self.seuraava_paivitys(kulunut);
        match tulos {
            SaannollinenKierros::Odota { .. } => {},
            SaannollinenKierros::Paivita { aika } => {
                syotteet.paivita_nappainten_tilat(pohjassa_olevat);
                paivitys.paivita(maailma, syotteet, &aika);
                maailma.poista_poistettavat();
            },
        }
        tulos
    }
}

} // verus!

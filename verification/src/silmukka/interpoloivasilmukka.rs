//! The loop with a regular and an irregular update that draws the bodies
//! between the states of the latest two regular updates.
use vstd::prelude::*;
use crate::maailma::{Maailmamalli, Perusmaailma};
use crate::paivitys::{Paivitysaika, YhdistettyPaivitys};
use crate::peli::pelinpaivitys::TUHOUTUMISEN_KESTO;
use crate::piirtaja::ValiaikainenPiirrettavaKappale;
use crate::silmukka::erillisetpaivityksetsilmukka::{kierros_ajettu, ErillisetPaivityksetSilmukka};
use crate::syotteet::{nappaimet_paivitetty, Syotteet};

verus! {

/// How far between two remembered states a body is drawn: `osoittaja`
/// parts of `nimittaja`. At nothing the body is drawn in the older state
/// and at the whole `nimittaja` in the newer one; beyond that it is drawn
/// as far again past the newer state.
#[derive(Copy, Clone, Debug, PartialEq, Eq, Structural)]
pub struct Interpolointiarvo {
    /// How many parts of the way have been made.
    pub osoittaja: u64,
    /// How many parts the way between the two states has.
    pub nimittaja: u64,
}

/// The timing of a loop that runs its regular update as many times as
/// whole intervals have passed, its irregular update once in every round,
/// and tells how far the time has moved into the next interval, so that
/// the bodies can be drawn between the states of two regular updates, or
/// ahead of the latest state.
#[derive(Copy, Clone, Debug, PartialEq, Eq, Structural)]
pub struct InterpoloivaSilmukka {
    /// The timing of the two updates.
    pub ajastus: ErillisetPaivityksetSilmukka,
    /// Whether the bodies are drawn ahead of the latest state, a whole
    /// interval further than the time has moved into the next one.
    pub ekstrapoloiva: bool,
}

impl InterpoloivaSilmukka {
    /// How far between the remembered states the bodies are drawn: as far
    /// as the owed time has moved into the interval, and a whole interval
    /// further when the loop draws ahead. The parts stop at the largest
    /// number that can be counted.
    pub open spec fn arvo_spec(self) -> Interpolointiarvo {
        let osoittaja = if self.ekstrapoloiva {
            self.ajastus.kertynyt + self.ajastus.paivitysvali
        } else {
            self.ajastus.kertynyt as int
        };
        Interpolointiarvo {
            osoittaja: if osoittaja > u64::MAX {
                u64::MAX
            } else {
                osoittaja as u64
            },
            nimittaja: self.ajastus.paivitysvali,
        }
    }

    /// The timing of a game that begins now, whose regular update is run
    /// `paivitys_tiheys` times a second, and whose bodies are drawn between
    /// the states of the latest two regular updates.
    pub fn new(paivitys_tiheys: u32) -> (tulos: InterpoloivaSilmukka)
        requires
            0 < paivitys_tiheys <= 1_000_000_000,
        ensures
            tulos.ajastus.kunnossa(),
            !tulos.ekstrapoloiva,
            tulos.ajastus == (ErillisetPaivityksetSilmukka {
                paivitysvali: (1_000_000_000int / paivitys_tiheys as int) as u64,
                kertynyt: 0,
                kokonaisaika: 0,
                saannollinen_kokonaisaika: 0,
                viimeisin: 0,
            }),
    {
        InterpoloivaSilmukka {
            ajastus: ErillisetPaivityksetSilmukka::new(paivitys_tiheys),
            ekstrapoloiva: false,
        }
    }

    /// The timing of a game that begins now, whose regular update is run
    /// `paivitys_tiheys` times a second, and whose bodies are drawn ahead
    /// of the state of the latest regular update.
    pub fn new_ekstrapoloiva(paivitys_tiheys: u32) -> (tulos: InterpoloivaSilmukka)
        requires
            0 < paivitys_tiheys <= 1_000_000_000,
        ensures
            tulos.ajastus.kunnossa(),
            tulos.ekstrapoloiva,
            tulos.ajastus == (ErillisetPaivityksetSilmukka {
                paivitysvali: (1_000_000_000int / paivitys_tiheys as int) as u64,
                kertynyt: 0,
                kokonaisaika: 0,
                saannollinen_kokonaisaika: 0,
                viimeisin: 0,
            }),
    {
        InterpoloivaSilmukka {
            ajastus: ErillisetPaivityksetSilmukka::new(paivitys_tiheys),
            ekstrapoloiva: true,
        }
    }

    /// Begins a round, `kulunut` nanoseconds after the round before.
    pub fn lisaa_aikaa(&mut self, kulunut: u64)
        requires
            old(self).ajastus.kunnossa(),
            old(self).ajastus.kokonaisaika + kulunut <= u64::MAX,
        ensures
            final(self).ajastus.kunnossa(),
            final(self).ekstrapoloiva == old(self).ekstrapoloiva,
            final(self).ajastus == (ErillisetPaivityksetSilmukka {
                kertynyt: (old(self).ajastus.kertynyt + kulunut) as u64,
                kokonaisaika: (old(self).ajastus.kokonaisaika + kulunut) as u64,
                viimeisin: kulunut,
                ..old(self).ajastus
            }),
    {
        self.ajastus.lisaa_aikaa(kulunut);
    }

    /// Gives the time of the next regular update that is owed, and counts
    /// it as run. Gives nothing when less than an interval is owed. After
    /// each regular update the world remembers the states of its bodies.
    pub fn seuraava_saannollinen(&mut self) -> (tulos: Option<Paivitysaika>)
        requires
            old(self).ajastus.kunnossa(),
        ensures
            final(self).ajastus.kunnossa(),
            final(self).ekstrapoloiva == old(self).ekstrapoloiva,
            tulos.is_some() <==> old(self).ajastus.kertynyt >= old(self).ajastus.paivitysvali,
            tulos.is_none() ==> *final(self) == *old(self),
            tulos.is_some() ==> tulos == Some(
                Paivitysaika {
                    paivitysaika: old(self).ajastus.paivitysvali,
                    kokonais_pelin_aika: final(self).ajastus.saannollinen_kokonaisaika,
                },
            ) && final(self).ajastus == (ErillisetPaivityksetSilmukka {
                kertynyt: (old(self).ajastus.kertynyt - old(self).ajastus.paivitysvali) as u64,
                saannollinen_kokonaisaika: (old(self).ajastus.saannollinen_kokonaisaika
                    + old(self).ajastus.paivitysvali) as u64,
                ..old(self).ajastus
            }),
    {
        self.ajastus.seuraava_saannollinen()
    }

    /// The time of the irregular update of this round.
    pub fn epasaannollinen(&self) -> (tulos: Paivitysaika)
        ensures
            tulos == (Paivitysaika {
                paivitysaika: self.ajastus.viimeisin,
                kokonais_pelin_aika: self.ajastus.kokonaisaika,
            }),
    {
        self.ajastus.epasaannollinen()
    }

    /// How far between the remembered states the bodies are drawn now.
    pub fn interpolaatio_arvo(&self) -> (tulos: Interpolointiarvo)
        ensures
            tulos == self.arvo_spec(),
    {
        let osoittaja: u64 = if self.ekstrapoloiva {
            if self.ajastus.kertynyt > u64::MAX - self.ajastus.paivitysvali {
                u64::MAX
            } else {
                self.ajastus.kertynyt + self.ajastus.paivitysvali
            }
        } else {
            self.ajastus.kertynyt
        };
        Interpolointiarvo { osoittaja, nimittaja: self.ajastus.paivitysvali }
    }

    /// One round of the loop, `kulunut` nanoseconds after the round before
    /// and with the keys `pohjassa_olevat` held down: the keys take note
    /// of their states, the regular updates run as many times as whole
    /// intervals are owed, the world remembering the states of its bodies
    /// after each, the irregular updates run once, the bodies that were
    /// marked for it are removed, and the world is told how far between
    /// the remembered states its bodies are drawn. Gives the bodies to
    /// draw.
    pub fn kierros(
        &mut self,
        kulunut: u64,
        pohjassa_olevat: &Vec<i32>,
        maailma: &mut Perusmaailma,
        syotteet: &mut Syotteet,
        saannollinen_paivitys: &mut YhdistettyPaivitys,
        epasaannollinen_paivitys: &mut YhdistettyPaivitys,
    ) -> (tulos: Vec<ValiaikainenPiirrettavaKappale>)
        requires
            old(self).ajastus.kunnossa(),
            old(self).ajastus.kokonaisaika + kulunut + TUHOUTUMISEN_KESTO <= u64::MAX,
            old(saannollinen_paivitys).kunnossa(),
            old(epasaannollinen_paivitys).kunnossa(),
            old(maailma)@.kunnossa(),
        ensures
            final(self).ajastus.kunnossa(),
            final(self).ajastus == old(self).ajastus.kierroksen_jalkeen(kulunut),
            final(self).ekstrapoloiva == old(self).ekstrapoloiva,
            final(syotteet)@ == nappaimet_paivitetty(old(syotteet)@, pohjassa_olevat@),
            final(saannollinen_paivitys).kunnossa(),
            final(epasaannollinen_paivitys).kunnossa(),
            final(maailma)@.kunnossa(),
            ({
                let ajettu = kierros_ajettu(
                    old(maailma)@,
                    old(saannollinen_paivitys)@,
                    old(epasaannollinen_paivitys)@,
                    final(syotteet)@,
                    old(self).ajastus.paivitysvali,
                    old(self).ajastus.saannollinen_kokonaisaika,
                    old(self).ajastus.kierroksen_askelet(kulunut),
                    true,
                    Paivitysaika {
                        paivitysaika: kulunut,
                        kokonais_pelin_aika: final(self).ajastus.kokonaisaika,
                    },
                );
                &&& final(maailma)@ == (Maailmamalli {
                    interpolointi: Some(final(self).arvo_spec()),
                    ..ajettu.0
                })
                &&& final(saannollinen_paivitys)@ == ajettu.1
                &&& final(epasaannollinen_paivitys)@ == ajettu.2
            }),
            tulos@ == final(maailma)@.valikuva(final(maailma)@.muistit.len() as int),
    {
        self.ajastus.lisaa_aikaa(kulunut);
        syotteet.paivita_nappainten_tilat(pohjassa_olevat);
        self.ajastus.aja_saannolliset(maailma, syotteet, saannollinen_paivitys, true);
        let aika = self.ajastus.epasaannollinen();
        epasaannollinen_paivitys.paivita(maailma, syotteet, &aika);
        maailma.poista_poistettavat();
        maailma.aseta_interpolaatio_arvo(self.interpolaatio_arvo());
        let mut piirrettavat_kappaleet: Vec<ValiaikainenPiirrettavaKappale> = Vec::new();
        maailma.anna_piirrettavat(&mut piirrettavat_kappaleet);
        assert(piirrettavat_kappaleet@ =~= maailma@.valikuva(maailma@.muistit.len() as int));
        piirrettavat_kappaleet
    }
}

} // verus!

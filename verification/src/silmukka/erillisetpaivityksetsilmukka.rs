//! The loop that updates one part of the game at even intervals and the
//! other part once in every round.
use vstd::prelude::*;
use crate::maailma::{Maailmamalli, Perusmaailma};
use crate::paivitys::{
    lemma_seuraava_kunnossa,
    yhdistetty_paivitetty,
    yhdistetty_seuraava,
    PaivitysMalli,
    Paivitysaika,
    YhdistettyPaivitys,
};
use crate::peli::pelinpaivitys::TUHOUTUMISEN_KESTO;
use crate::syotteet::{nappaimet_paivitetty, Nappain, Syotteet};

verus! {

/// The timing of a loop with two kinds of update. The regular update is
/// run as many times as whole intervals have passed since it was last
/// run: after 3.6 intervals it is run three times, each time by one
/// interval. The irregular update is run once in every round, by the time
/// that has passed since the round before.
#[derive(Copy, Clone, Debug, PartialEq, Eq, Structural)]
pub struct ErillisetPaivityksetSilmukka {
    /// The interval of the regular update, in nanoseconds.
    pub paivitysvali: u64,
    /// The time that the regular update still owes, in nanoseconds.
    pub kertynyt: u64,
    /// The time since the game began, in nanoseconds.
    pub kokonaisaika: u64,
    /// The time since the game began as the regular update has seen it.
    pub saannollinen_kokonaisaika: u64,
    /// The time between the latest two rounds.
    pub viimeisin: u64,
}

impl ErillisetPaivityksetSilmukka {
    /// What holds of every such timing: the interval is not zero, the
    /// regular update has seen a whole number of intervals, and the time it
    /// has seen and the time it owes make up the time since the game began.
    pub open spec fn kunnossa(self) -> bool {
        &&& self.paivitysvali > 0
        &&& self.saannollinen_kokonaisaika as int % self.paivitysvali as int == 0
        &&& self.saannollinen_kokonaisaika + self.kertynyt == self.kokonaisaika
    }

    /// How many regular updates are owed.
    pub open spec fn askelia(self) -> int {
        self.kertynyt as int / self.paivitysvali as int
    }

    /// The timing of a game that begins now and whose regular update is run
    /// `paivitys_tiheys` times a second. No time is owed yet.
    pub fn new(paivitys_tiheys: u32) -> (tulos: ErillisetPaivityksetSilmukka)
        requires
            0 < paivitys_tiheys <= 1_000_000_000,
        ensures
            tulos == (ErillisetPaivityksetSilmukka {
                paivitysvali: (1_000_000_000int / paivitys_tiheys as int) as u64,
                kertynyt: 0,
                kokonaisaika: 0,
                saannollinen_kokonaisaika: 0,
                viimeisin: 0,
            }),
            tulos.kunnossa(),
    {
        let vali: u64 = 1_000_000_000u64 / (paivitys_tiheys as u64);
        assert(vali > 0) by (nonlinear_arith)
            requires
                vali == 1_000_000_000int / paivitys_tiheys as int,
                0 < paivitys_tiheys <= 1_000_000_000,
        ;
        assert(0int % (vali as int) == 0) by (nonlinear_arith)
            requires
                vali > 0,
        ;
        ErillisetPaivityksetSilmukka {
            paivitysvali: vali,
            kertynyt: 0,
            kokonaisaika: 0,
            saannollinen_kokonaisaika: 0,
            viimeisin: 0,
        }
    }

    /// Begins a round, `kulunut` nanoseconds after the round before: the
    /// time is added to the time of the game and to what the regular
    /// update owes.
    pub fn lisaa_aikaa(&mut self, kulunut: u64)
        requires
            old(self).kunnossa(),
            old(self).kokonaisaika + kulunut <= u64::MAX,
        ensures
            final(self).kunnossa(),
            *final(self) == (ErillisetPaivityksetSilmukka {
                kertynyt: (old(self).kertynyt + kulunut) as u64,
                kokonaisaika: (old(self).kokonaisaika + kulunut) as u64,
                viimeisin: kulunut,
                ..*old(self)
            }),
    {
        self.kertynyt = self.kertynyt + kulunut;
        self.kokonaisaika = self.kokonaisaika + kulunut;
        self.viimeisin = kulunut;
    }

    /// Gives the time of the next regular update that is owed, and counts
    /// it as run. Gives nothing when less than an interval is owed.
    pub fn seuraava_saannollinen(&mut self) -> (tulos: Option<Paivitysaika>)
        requires
            old(self).kunnossa(),
        ensures
            final(self).kunnossa(),
            old(self).kertynyt < old(self).paivitysvali ==> tulos.is_none() && *final(self)
                == *old(self),
            old(self).kertynyt >= old(self).paivitysvali ==> tulos == Some(
                Paivitysaika {
                    paivitysaika: old(self).paivitysvali,
                    kokonais_pelin_aika: final(self).saannollinen_kokonaisaika,
                },
            ) && *final(self) == (ErillisetPaivityksetSilmukka {
                kertynyt: (old(self).kertynyt - old(self).paivitysvali) as u64,
                saannollinen_kokonaisaika: (old(self).saannollinen_kokonaisaika
                    + old(self).paivitysvali) as u64,
                ..*old(self)
            }) && final(self).askelia() == old(self).askelia() - 1,
            tulos.is_some() <==> old(self).askelia() > 0,
    {
        proof {
            lemma_askelia(self.kertynyt as int, self.paivitysvali as int);
            vstd::arithmetic::div_mod::lemma_mod_add_multiples_vanish(
                self.saannollinen_kokonaisaika as int,
                self.paivitysvali as int,
            );
        }
        if self.kertynyt >= self.paivitysvali {
            self.saannollinen_kokonaisaika = self.saannollinen_kokonaisaika + self.paivitysvali;
            self.kertynyt = self.kertynyt - self.paivitysvali;
            Some(Paivitysaika::new(self.paivitysvali, self.saannollinen_kokonaisaika))
        } else {
            None
        }
    }

    /// The timing after a round that began `kulunut` nanoseconds after the
    /// round before: every regular update that was owed has been run.
    pub open spec fn kierroksen_jalkeen(self, kulunut: u64) -> ErillisetPaivityksetSilmukka {
        let velka = self.kertynyt + kulunut;
        ErillisetPaivityksetSilmukka {
            paivitysvali: self.paivitysvali,
            kertynyt: (velka % (self.paivitysvali as int)) as u64,
            kokonaisaika: (self.kokonaisaika + kulunut) as u64,
            saannollinen_kokonaisaika: (self.saannollinen_kokonaisaika + (velka / (
            self.paivitysvali as int)) * self.paivitysvali) as u64,
            viimeisin: kulunut,
        }
    }

    /// How many regular updates a round runs that begins `kulunut`
    /// nanoseconds after the round before.
    pub open spec fn kierroksen_askelet(self, kulunut: u64) -> int {
        (self.kertynyt + kulunut) / (self.paivitysvali as int)
    }

    /// Runs the regular updates that are owed, one after the other. Where
    /// `muistava` holds, the world remembers the states of its bodies after
    /// each of them.
    pub fn aja_saannolliset(
        &mut self,
        maailma: &mut Perusmaailma,
        syotteet: &Syotteet,
        saannollinen_paivitys: &mut YhdistettyPaivitys,
        muistava: bool,
    )
        requires
            old(self).kunnossa(),
            old(self).kokonaisaika + TUHOUTUMISEN_KESTO <= u64::MAX,
            old(saannollinen_paivitys).kunnossa(),
            old(maailma)@.kunnossa(),
        ensures
            final(self).kunnossa(),
            *final(self) == (ErillisetPaivityksetSilmukka {
                kertynyt: (old(self).kertynyt as int % old(self).paivitysvali as int) as u64,
                saannollinen_kokonaisaika: (old(self).saannollinen_kokonaisaika + old(
                    self,
                ).askelia() * old(self).paivitysvali) as u64,
                ..*old(self)
            }),
            final(saannollinen_paivitys).kunnossa(),
            final(maailma)@.kunnossa(),
            (final(maailma)@, final(saannollinen_paivitys)@) == saannolliset_ajettu(
                old(maailma)@,
                old(saannollinen_paivitys)@,
                syotteet@,
                old(self).paivitysvali,
                old(self).saannollinen_kokonaisaika,
                old(self).askelia(),
                muistava,
            ),
    {
        let ghost alku = maailma@;
        let ghost vanhat = saannollinen_paivitys@;
        let maara = self.askelia_jaljella();
        let mut ajettu: u64 = 0;
        proof {
            vstd::arithmetic::div_mod::lemma_fundamental_div_mod(
                self.kertynyt as int,
                self.paivitysvali as int,
            );
            assert(0 * self.paivitysvali == 0) by (nonlinear_arith);
        }
        while ajettu < maara
            invariant
                alku == old(maailma)@,
                vanhat == old(saannollinen_paivitys)@,
                self.kunnossa(),
                old(self).kunnossa(),
                self.kokonaisaika + TUHOUTUMISEN_KESTO <= u64::MAX,
                saannollinen_paivitys.kunnossa(),
                maailma@.kunnossa(),
                ajettu <= maara == old(self).askelia(),
                self.askelia() == maara - ajettu,
                *self == (ErillisetPaivityksetSilmukka {
                    kertynyt: (old(self).kertynyt - ajettu * old(self).paivitysvali) as u64,
                    saannollinen_kokonaisaika: (old(self).saannollinen_kokonaisaika + ajettu * old(
                        self,
                    ).paivitysvali) as u64,
                    ..*old(self)
                }),
                old(self).kertynyt - ajettu * old(self).paivitysvali >= 0,
                (maailma@, saannollinen_paivitys@) == saannolliset_ajettu(
                    alku,
                    vanhat,
                    syotteet@,
                    old(self).paivitysvali,
                    old(self).saannollinen_kokonaisaika,
                    ajettu as int,
                    muistava,
                ),
            decreases maara - ajettu,
        {
            let ghost ennen = *self;
            match self.seuraava_saannollinen() {
                Some(aika) => {
                    proof {
                        let vali = ennen.paivitysvali as int;
                        assert((ajettu + 1) * vali == ajettu * vali + vali) by (nonlinear_arith);
                        lemma_seuraava_kunnossa(saannollinen_paivitys@, aika);
                    }
                    saannollinen_paivitys.paivita(maailma, syotteet, &aika);
                    if muistava {
                        maailma.paivita_kappalemuistia();
                    }
                },
                None => {
                    proof {
                        assert(false);
                    }
                },
            }
            ajettu += 1;
        }
        proof {
            let vali = self.paivitysvali as int;
            lemma_askelia(self.kertynyt as int, vali);
            assert(self.kertynyt < vali);
            assert(maara * vali == vali * maara) by (nonlinear_arith);
            vstd::arithmetic::div_mod::lemma_fundamental_div_mod_converse(
                old(self).kertynyt as int,
                vali,
                maara as int,
                self.kertynyt as int,
            );
        }
    }

    /// One round of the loop, `kulunut` nanoseconds after the round before
    /// and with the keys `pohjassa_olevat` held down: the keys take note
    /// of their states, the regular updates run as many times as whole
    /// intervals are owed, the irregular updates run once, and the bodies
    /// that were marked for it are removed.
    pub fn kierros(
        &mut self,
        kulunut: u64,
        pohjassa_olevat: &Vec<i32>,
        maailma: &mut Perusmaailma,
        syotteet: &mut Syotteet,
        saannollinen_paivitys: &mut YhdistettyPaivitys,
        epasaannollinen_paivitys: &mut YhdistettyPaivitys,
    )
        requires
            old(self).kunnossa(),
            old(self).kokonaisaika + kulunut + TUHOUTUMISEN_KESTO <= u64::MAX,
            old(saannollinen_paivitys).kunnossa(),
            old(epasaannollinen_paivitys).kunnossa(),
            old(maailma)@.kunnossa(),
        ensures
            final(self).kunnossa(),
            *final(self) == old(self).kierroksen_jalkeen(kulunut),
            final(self).kertynyt < final(self).paivitysvali,
            final(syotteet)@ == nappaimet_paivitetty(old(syotteet)@, pohjassa_olevat@),
            final(saannollinen_paivitys).kunnossa(),
            final(epasaannollinen_paivitys).kunnossa(),
            final(maailma)@.kunnossa(),
            (final(maailma)@, final(saannollinen_paivitys)@, final(epasaannollinen_paivitys)@)
                == kierros_ajettu(
                old(maailma)@,
                old(saannollinen_paivitys)@,
                old(epasaannollinen_paivitys)@,
                final(syotteet)@,
                old(self).paivitysvali,
                old(self).saannollinen_kokonaisaika,
                old(self).kierroksen_askelet(kulunut),
                false,
                Paivitysaika { paivitysaika: kulunut, kokonais_pelin_aika: final(self).kokonaisaika },
            ),
    {
        self.lisaa_aikaa(kulunut);
        syotteet.paivita_nappainten_tilat(pohjassa_olevat);
        self.aja_saannolliset(maailma, syotteet, saannollinen_paivitys, false);
        proof {
            vstd::arithmetic::div_mod::lemma_mod_bound(
                (old(self).kertynyt + kulunut) as int,
                self.paivitysvali as int,
            );
        }
        let aika = self.epasaannollinen();
        epasaannollinen_paivitys.paivita(maailma, syotteet, &aika);
        maailma.poista_poistettavat();
    }

    /// The time of the irregular update of this round.
    pub fn epasaannollinen(&self) -> (tulos: Paivitysaika)
        ensures
            tulos == (Paivitysaika {
                paivitysaika: self.viimeisin,
                kokonais_pelin_aika: self.kokonaisaika,
            }),
    {
        Paivitysaika::new(self.viimeisin, self.kokonaisaika)
    }

    /// How many regular updates are owed.
    pub fn askelia_jaljella(&self) -> (tulos: u64)
        requires
            self.kunnossa(),
        ensures
            tulos == self.askelia(),
    {
        self.kertynyt / self.paivitysvali
    }
}

/// The world and the regular updates after the regular updates have
/// updated the world `kerrat` times, each time by the interval `vali`, the
/// first time ending when the regular update has seen `alku` and one
/// interval. Where `muistava` holds, the world remembers the states of its
/// bodies after each of the updates.
pub open spec fn saannolliset_ajettu(
    malli: Maailmamalli,
    paivitykset: Seq<PaivitysMalli>,
    nappaimet: Seq<Nappain>,
    vali: u64,
    alku: u64,
    kerrat: int,
    muistava: bool,
) -> (Maailmamalli, Seq<PaivitysMalli>)
    decreases kerrat,
{
    if kerrat <= 0 {
        (malli, paivitykset)
    } else {
        let edellinen = saannolliset_ajettu(
            malli,
            paivitykset,
            nappaimet,
            vali,
            alku,
            kerrat - 1,
            muistava,
        );
        let aika = Paivitysaika {
            paivitysaika: vali,
            kokonais_pelin_aika: (alku + kerrat * vali) as u64,
        };
        let paivitetty = yhdistetty_paivitetty(
            edellinen.0,
            edellinen.1,
            edellinen.1.len() as int,
            nappaimet,
            aika,
        );
        (
            if muistava {
                Maailmamalli { muistit: paivitetty.muistit_paivitetty(), ..paivitetty }
            } else {
                paivitetty
            },
            yhdistetty_seuraava(edellinen.1, aika),
        )
    }
}

/// The world and the two kinds of updates after a round of the loop: the
/// regular updates have run `kerrat` times, the irregular ones once, at
/// the time `aika`, and the bodies that were marked for it have been
/// removed.
pub open spec fn kierros_ajettu(
    malli: Maailmamalli,
    saannolliset: Seq<PaivitysMalli>,
    epasaannolliset: Seq<PaivitysMalli>,
    nappaimet: Seq<Nappain>,
    vali: u64,
    alku: u64,
    kerrat: int,
    muistava: bool,
    aika: Paivitysaika,
) -> (Maailmamalli, Seq<PaivitysMalli>, Seq<PaivitysMalli>) {
    let saannollisten_jalkeen = saannolliset_ajettu(
        malli,
        saannolliset,
        nappaimet,
        vali,
        alku,
        kerrat,
        muistava,
    );
    (
        yhdistetty_paivitetty(
            saannollisten_jalkeen.0,
            epasaannolliset,
            epasaannolliset.len() as int,
            nappaimet,
            aika,
        ).puhdistettu(),
        saannollisten_jalkeen.1,
        yhdistetty_seuraava(epasaannolliset, aika),
    )
}

/// How the number of whole intervals in a time changes when one interval
/// is taken away: there is a whole interval exactly when the time is no
/// less than the interval, and taking it away leaves one fewer.
pub proof fn lemma_askelia(kertynyt: int, vali: int)
    requires
        kertynyt >= 0,
        vali > 0,
    ensures
        kertynyt / vali >= 0,
        kertynyt >= vali <==> kertynyt / vali > 0,
        kertynyt >= vali ==> (kertynyt - vali) / vali == kertynyt / vali - 1,
{
    assert(kertynyt / vali >= 0) by (nonlinear_arith)
        requires
            kertynyt >= 0,
            vali > 0,
    ;
    assert(kertynyt >= vali <==> kertynyt / vali > 0) by (nonlinear_arith)
        requires
            kertynyt >= 0,
            vali > 0,
    ;
    if kertynyt >= vali {
        assert((kertynyt - vali) / vali == kertynyt / vali - 1) by (nonlinear_arith)
            requires
                kertynyt >= vali,
                vali > 0,
        ;
    }
}

/// Once every regular update that was owed has been run, the regular
/// update has seen the whole intervals of the time since the game began,
/// and it owes the rest.
pub proof fn lemma_saannollinen_ei_riipu_kierroksista(silmukka: ErillisetPaivityksetSilmukka)
    requires
        silmukka.kunnossa(),
        silmukka.kertynyt < silmukka.paivitysvali,
    ensures
        silmukka.kertynyt == silmukka.kokonaisaika as int % silmukka.paivitysvali as int,
        silmukka.saannollinen_kokonaisaika == (silmukka.kokonaisaika as int
            / silmukka.paivitysvali as int) * silmukka.paivitysvali,
{
    let vali = silmukka.paivitysvali as int;
    let nahty = silmukka.saannollinen_kokonaisaika as int;
    let velka = silmukka.kertynyt as int;
    let kaikki = silmukka.kokonaisaika as int;
    vstd::arithmetic::div_mod::lemma_fundamental_div_mod(nahty, vali);
    let kerrat = nahty / vali;
    assert(nahty == vali * kerrat);
    assert(kerrat * vali == vali * kerrat) by (nonlinear_arith);
    vstd::arithmetic::div_mod::lemma_fundamental_div_mod_converse(kaikki, vali, kerrat, velka);
}

} // verus!

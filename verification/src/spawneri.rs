//! Spawners: makers of new bodies at even intervals.
use vstd::prelude::*;
use crate::fysiikka::Fysiikkakappale;
use crate::maailma::kappale::Kappale;
use crate::maailma::lisaosa::Lisaosa;
use crate::maailma::vektori::Vektori;
use crate::maailma::{lemma_uusi_tunniste_on_vapaa, Maailmamalli, Perusmaailma};
use crate::piirtaja::{PiirrettavaKappale, Piirtotapa};
use crate::tekoaly::{Aly, Alyllinen};

verus! {

/// The world after one body was spawned into it: the body is added with
/// its drawable side, with a physics side where it has a velocity, and
/// with a steering side where it steers. Nothing is spawned into a world
/// that has given out every handle.
pub open spec fn spawnattu(
    malli: Maailmamalli,
    kappale: Kappale,
    piirtotapa: Piirtotapa,
    nopeus: Option<Vektori>,
    aly: Option<Aly>,
) -> Maailmamalli {
    if malli.seuraava == u64::MAX {
        malli
    } else {
        let tunniste = malli.seuraava_tunniste();
        let lisatty = malli.kappale_lisatty(kappale);
        Maailmamalli {
            fysiikalliset: match nopeus {
                Some(nopeus) => lisatty.fysiikalliset.push(
                    Fysiikkakappale { kappale: tunniste, nopeus },
                ),
                None => lisatty.fysiikalliset,
            },
            piirrettavat: lisatty.piirrettavat.push(
                PiirrettavaKappale { kappale: tunniste, piirtotapa },
            ),
            alylliset: match aly {
                Some(aly) => lisatty.alylliset.push(Alyllinen { kappale: tunniste, aly }),
                None => lisatty.alylliset,
            },
            ..lisatty
        }
    }
}

/// The world after `kerrat` bodies were spawned into it, one after the
/// other.
pub open spec fn spawnattu_kerrat(
    malli: Maailmamalli,
    kappale: Kappale,
    piirtotapa: Piirtotapa,
    nopeus: Option<Vektori>,
    aly: Option<Aly>,
    kerrat: int,
) -> Maailmamalli
    decreases kerrat,
{
    if kerrat <= 0 {
        malli
    } else {
        spawnattu(
            spawnattu_kerrat(malli, kappale, piirtotapa, nopeus, aly, kerrat - 1),
            kappale,
            piirtotapa,
            nopeus,
            aly,
        )
    }
}

/// How many bodies a spawner makes in an update of `paivitys_aika`
/// nanoseconds, when `jaljella` nanoseconds are left to the next body and
/// `vali` nanoseconds lie between two bodies: none before the time left is
/// over, one when it is, and one more for each whole interval after that.
pub open spec fn spawnien_maara(jaljella: u64, vali: u64, paivitys_aika: u64) -> int
    recommends
        vali > 0,
{
    if jaljella > paivitys_aika {
        0
    } else {
        1 + (paivitys_aika - jaljella) / (vali as int)
    }
}

/// How much time is left to the next body after an update of
/// `paivitys_aika` nanoseconds.
pub open spec fn aikaa_jaljella(jaljella: u64, vali: u64, paivitys_aika: u64) -> int
    recommends
        vali > 0,
{
    if jaljella > paivitys_aika {
        jaljella - paivitys_aika
    } else {
        vali - (paivitys_aika - jaljella) % (vali as int)
    }
}

/// A spawner: it makes a new body of one kind at even intervals.
pub struct Spawneri {
    /// The interval between two bodies, in nanoseconds.
    pub spawnin_vali: u64,
    /// The time left to the next body, in nanoseconds.
    pub aikaa_seuraavaan_spawniin: u64,
    /// The body to spawn.
    pub kappale: Kappale,
    /// The way in which the spawned body is drawn.
    pub piirtotapa: Piirtotapa,
    /// The velocity of the spawned body. A body without one gets no physics
    /// side.
    pub nopeus: Option<Vektori>,
    /// The way in which the spawned body steers, if it does.
    pub aly: Option<Aly>,
}

impl Spawneri {
    /// The spawner after `paivitys_aika` nanoseconds have passed: the same
    /// spawner, with another time left to its next body.
    pub open spec fn odottanut(self, paivitys_aika: u64) -> Spawneri {
        Spawneri {
            aikaa_seuraavaan_spawniin: aikaa_jaljella(
                self.aikaa_seuraavaan_spawniin,
                self.spawnin_vali,
                paivitys_aika,
            ) as u64,
            ..self
        }
    }

    /// The world after the spawner has made the bodies whose time came
    /// within `paivitys_aika` nanoseconds.
    pub open spec fn spawnannut(self, malli: Maailmamalli, paivitys_aika: u64) -> Maailmamalli {
        spawnattu_kerrat(
            malli,
            self.kappale,
            self.piirtotapa,
            self.nopeus,
            self.aly,
            spawnien_maara(self.aikaa_seuraavaan_spawniin, self.spawnin_vali, paivitys_aika),
        )
    }

    /// A spawner that makes its first body when `spawnin_vali` nanoseconds
    /// have passed.
    pub fn new(
        spawnin_vali: u64,
        kappale: Kappale,
        piirtotapa: Piirtotapa,
        nopeus: Option<Vektori>,
        aly: Option<Aly>,
    ) -> (tulos: Spawneri)
        ensures
            tulos == (Spawneri {
                spawnin_vali,
                aikaa_seuraavaan_spawniin: spawnin_vali,
                kappale,
                piirtotapa,
                nopeus,
                aly,
            }),
    {
        Spawneri {
            spawnin_vali,
            aikaa_seuraavaan_spawniin: spawnin_vali,
            kappale,
            piirtotapa,
            nopeus,
            aly,
        }
    }

    /// Lets `paivitys_aika` nanoseconds pass: the spawner makes the bodies
    /// whose time has come.
    pub fn paivita_spawneria(&mut self, maailma: &mut Perusmaailma, paivitys_aika: u64)
        requires
            old(self).spawnin_vali > 0,
            old(maailma)@.kunnossa(),
        ensures
            final(maailma)@.kunnossa(),
            final(maailma)@ == old(self).spawnannut(old(maailma)@, paivitys_aika),
            *final(self) == old(self).odottanut(paivitys_aika),
    {
        if self.aikaa_seuraavaan_spawniin > paivitys_aika {
            self.aikaa_seuraavaan_spawniin = self.aikaa_seuraavaan_spawniin - paivitys_aika;
            return ;
        }
        let ghost alku = maailma@;
        let ylijaava_alussa: u64 = paivitys_aika - self.aikaa_seuraavaan_spawniin;
        let mut ylijaava_aika: u64 = ylijaava_alussa;
        let ghost mut kerrat: int = 1;
        self.spawnaa(maailma);
        assert(maailma@ == spawnattu_kerrat(
            alku,
            self.kappale,
            self.piirtotapa,
            self.nopeus,
            self.aly,
            1,
        )) by {
            assert(spawnattu_kerrat(alku, self.kappale, self.piirtotapa, self.nopeus, self.aly, 0)
                == alku);
        }
        while ylijaava_aika >= self.spawnin_vali
            invariant
                *self == *old(self),
                self.spawnin_vali > 0,
                maailma@.kunnossa(),
                kerrat >= 1,
                ylijaava_alussa == ylijaava_aika + (kerrat - 1) * self.spawnin_vali,
                maailma@ == spawnattu_kerrat(
                    alku,
                    self.kappale,
                    self.piirtotapa,
                    self.nopeus,
                    self.aly,
                    kerrat,
                ),
            decreases ylijaava_aika,
        {
            self.spawnaa(maailma);
            ylijaava_aika = ylijaava_aika - self.spawnin_vali;
            proof {
                assert((kerrat + 1 - 1) * self.spawnin_vali == (kerrat - 1) * self.spawnin_vali
                    + self.spawnin_vali) by (nonlinear_arith);
                kerrat = kerrat + 1;
            }
        }
        proof {
            vstd::arithmetic::div_mod::lemma_fundamental_div_mod_converse(
                ylijaava_alussa as int,
                self.spawnin_vali as int,
                kerrat - 1,
                ylijaava_aika as int,
            );
        }
        self.aikaa_seuraavaan_spawniin = self.spawnin_vali - ylijaava_aika;
    }

    /// Makes one body and adds it to the world with its sides.
    pub fn spawnaa(&self, maailma: &mut Perusmaailma)
        requires
            old(maailma)@.kunnossa(),
        ensures
            final(maailma)@.kunnossa(),
            final(maailma)@ == spawnattu(
                old(maailma)@,
                self.kappale,
                self.piirtotapa,
                self.nopeus,
                self.aly,
            ),
    {
        proof {
            lemma_uusi_tunniste_on_vapaa(maailma@, self.kappale);
        }
        match maailma.lisaa_kappale(self.kappale) {
            Some(tunniste) => {
                if let Some(nopeus) = self.nopeus {
                    let lisatty = maailma.lisaa_fysiikkakappale(
                        Fysiikkakappale::new(nopeus, tunniste),
                    );
                    assert(lisatty);
                }
                let piirretty = maailma.lisaa_piirrettava_kappale(
                    PiirrettavaKappale::new(tunniste, self.piirtotapa.kopio()),
                );
                assert(piirretty);
                if let Some(aly) = self.aly {
                    let alytetty = maailma.lisaa_aly(Alyllinen::new(tunniste, aly));
                    assert(alytetty);
                }
            },
            None => {},
        }
    }
}

} // verus!

//! The time that one update of the game covers.
use vstd::prelude::*;
use crate::maailma::{Maailmamalli, Perusmaailma};
use crate::peli::pelihahmonpaivitys::{
    ohjausnappaimet_lisatty,
    pelihahmo_paivitetty,
    PelihahmonPaivitys,
};
use crate::peli::pelinpaivitys::{
    peli_alustettu,
    spawnerit_kunnossa,
    spawnerit_odottaneet,
    spawnerit_paivitetty,
    vihollisspawneri,
    AnimaatioidenPaivitys,
    FysiikanPaivitys,
    SpawnerinPaivitys,
    TekoalynPaivitys,
    TUHOUTUMISEN_KESTO,
};
use crate::spawneri::Spawneri;
use crate::animointi::{elavat, kuva};
use crate::syotteet::{Nappain, Syotteet};

verus! {

/// How much the game is updated, and how much time has passed since the
/// game began. Both are counted in nanoseconds.
#[derive(Copy, Clone, Debug, PartialEq, Eq, Structural)]
pub struct Paivitysaika {
    /// The time that the update covers.
    pub paivitysaika: u64,
    /// The time since the game began, this update included.
    pub kokonais_pelin_aika: u64,
}

impl Paivitysaika {
    /// The time of an update that covers `paivitysaika` and ends when
    /// `kokonais_pelin_aika` has passed since the game began.
    pub fn new(paivitysaika: u64, kokonais_pelin_aika: u64) -> (tulos: Paivitysaika)
        ensures
            tulos == (Paivitysaika { paivitysaika, kokonais_pelin_aika }),
    {
        Paivitysaika { paivitysaika, kokonais_pelin_aika }
    }
}

/// One of the updates of the game: something that sets its part of the
/// game up and then updates it, time after time.
pub enum Paivitys {
    /// The spawners make the bodies whose time has come.
    Spawnerit(SpawnerinPaivitys),
    /// The steering bodies decide what they do.
    Tekoaly(TekoalynPaivitys),
    /// The character of the player does what the keys say.
    Pelihahmo(PelihahmonPaivitys),
    /// The bodies move, and what follows from their collisions follows.
    Fysiikka(FysiikanPaivitys),
    /// The animations die and show themselves.
    Animaatiot(AnimaatioidenPaivitys),
}

/// What an update of the game remembers from one time to the next.
pub enum PaivitysMalli {
    /// The spawners, each with the time left to its next body.
    Spawnerit(Seq<Spawneri>),
    /// Nothing.
    Tekoaly,
    /// The name of the picture with which projectiles are drawn.
    Pelihahmo(String),
    /// Nothing.
    Fysiikka,
    /// Nothing.
    Animaatiot,
}

impl PaivitysMalli {
    /// What holds of every update: its spawners, where it has any, have
    /// intervals that are not zero.
    pub open spec fn kunnossa(self) -> bool {
        match self {
            PaivitysMalli::Spawnerit(spawnerit) => spawnerit_kunnossa(spawnerit),
            _ => true,
        }
    }

    /// The world after the update has updated it.
    pub open spec fn paivitetty(
        self,
        malli: Maailmamalli,
        nappaimet: Seq<Nappain>,
        aika: Paivitysaika,
    ) -> Maailmamalli {
        match self {
            PaivitysMalli::Spawnerit(spawnerit) => spawnerit_paivitetty(
                malli,
                spawnerit,
                spawnerit.len() as int,
                aika.paivitysaika,
            ),
            PaivitysMalli::Tekoaly => Maailmamalli {
                fysiikalliset: malli.alyt_sovellettu(malli.alylliset.len() as int),
                ..malli
            },
            PaivitysMalli::Pelihahmo(kuva) => pelihahmo_paivitetty(malli, nappaimet, kuva),
            PaivitysMalli::Fysiikka => FysiikanPaivitys::paivitetty(malli, aika),
            PaivitysMalli::Animaatiot => Maailmamalli {
                animaatiot: elavat(malli.animaatiot, aika.kokonais_pelin_aika),
                animaatio_kuva: kuva(
                    elavat(malli.animaatiot, aika.kokonais_pelin_aika),
                    aika.kokonais_pelin_aika,
                ),
                ..malli
            },
        }
    }

    /// The update after it has updated the world once: its spawners have
    /// another time left to their next bodies, and nothing else has
    /// changed.
    pub open spec fn seuraava(self, aika: Paivitysaika) -> PaivitysMalli {
        match self {
            PaivitysMalli::Spawnerit(spawnerit) => PaivitysMalli::Spawnerit(
                spawnerit_odottaneet(spawnerit, aika.paivitysaika),
            ),
            _ => self,
        }
    }

    /// The world after the update has set its part of the game up in it.
    pub open spec fn alustettu(self, malli: Maailmamalli) -> Maailmamalli {
        match self {
            PaivitysMalli::Fysiikka => peli_alustettu(malli),
            _ => malli,
        }
    }

    /// The update after it has set its part of the game up: the update of
    /// the spawners has the spawner of the game.
    pub open spec fn alustanut(self) -> PaivitysMalli {
        match self {
            PaivitysMalli::Spawnerit(spawnerit) => PaivitysMalli::Spawnerit(
                spawnerit.push(vihollisspawneri()),
            ),
            _ => self,
        }
    }

    /// The watched keys after the update has set its part of the game up.
    pub open spec fn nappaimet_alustettu(
        self,
        nappaimet: Seq<Nappain>,
        pohjassa_olevat: Seq<i32>,
    ) -> Seq<Nappain> {
        match self {
            PaivitysMalli::Pelihahmo(_) => ohjausnappaimet_lisatty(nappaimet, pohjassa_olevat),
            _ => nappaimet,
        }
    }
}

impl View for Paivitys {
    type V = PaivitysMalli;

    open spec fn view(&self) -> PaivitysMalli {
        match self {
            Paivitys::Spawnerit(spawnerit) => PaivitysMalli::Spawnerit(spawnerit@),
            Paivitys::Tekoaly(_) => PaivitysMalli::Tekoaly,
            Paivitys::Pelihahmo(pelihahmo) => PaivitysMalli::Pelihahmo(pelihahmo.ammuksen_kuva),
            Paivitys::Fysiikka(_) => PaivitysMalli::Fysiikka,
            Paivitys::Animaatiot(_) => PaivitysMalli::Animaatiot,
        }
    }
}

impl Paivitys {
    /// Sets up the part of the game that this updates. The numbers of the
    /// keys that are held down now are `pohjassa_olevat`.
    pub fn alusta(
        &mut self,
        maailma: &mut Perusmaailma,
        syotteet: &mut Syotteet,
        pohjassa_olevat: &Vec<i32>,
    )
        requires
            old(self)@.kunnossa(),
            old(maailma)@.kunnossa(),
        ensures
            final(self)@.kunnossa(),
            final(self)@ == old(self)@.alustanut(),
            final(maailma)@.kunnossa(),
            final(maailma)@ == old(self)@.alustettu(old(maailma)@),
            final(syotteet)@ == old(self)@.nappaimet_alustettu(old(syotteet)@, pohjassa_olevat@),
    {
        match self {
            Paivitys::Spawnerit(spawnerit) => spawnerit.alusta(),
            Paivitys::Tekoaly(_) => {},
            Paivitys::Pelihahmo(pelihahmo) => pelihahmo.alusta(syotteet, pohjassa_olevat),
            Paivitys::Fysiikka(fysiikka) => fysiikka.alusta(maailma),
            Paivitys::Animaatiot(_) => {},
        }
    }

    /// Updates the world by this update.
    pub fn paivita(
        &mut self,
        maailma: &mut Perusmaailma,
        syotteet: &Syotteet,
        paivitys_aika: &Paivitysaika,
    )
        requires
            old(self)@.kunnossa(),
            old(maailma)@.kunnossa(),
            paivitys_aika.kokonais_pelin_aika + TUHOUTUMISEN_KESTO <= u64::MAX,
        ensures
            final(self)@.kunnossa(),
            final(self)@ == old(self)@.seuraava(*paivitys_aika),
            final(maailma)@.kunnossa(),
            final(maailma)@ == old(self)@.paivitetty(old(maailma)@, syotteet@, *paivitys_aika),
    {
        match self {
            Paivitys::Spawnerit(spawnerit) => spawnerit.paivita(maailma, paivitys_aika),
            Paivitys::Tekoaly(tekoaly) => tekoaly.paivita(maailma),
            Paivitys::Pelihahmo(pelihahmo) => pelihahmo.paivita(maailma, syotteet),
            Paivitys::Fysiikka(fysiikka) => fysiikka.paivita(maailma, paivitys_aika),
            Paivitys::Animaatiot(animaatiot) => animaatiot.paivita(maailma, paivitys_aika),
        }
    }
}

/// Whether each of `paivitykset` is as every update is.
pub open spec fn paivitykset_kunnossa(paivitykset: Seq<PaivitysMalli>) -> bool {
    forall|k: int| 0 <= k < paivitykset.len() ==> (#[trigger] paivitykset[k]).kunnossa()
}

/// The world after the first `raja` of `paivitykset` have updated it, one
/// after the other.
pub open spec fn yhdistetty_paivitetty(
    malli: Maailmamalli,
    paivitykset: Seq<PaivitysMalli>,
    raja: int,
    nappaimet: Seq<Nappain>,
    aika: Paivitysaika,
) -> Maailmamalli
    decreases raja,
{
    if raja <= 0 {
        malli
    } else {
        paivitykset[raja - 1].paivitetty(
            yhdistetty_paivitetty(malli, paivitykset, raja - 1, nappaimet, aika),
            nappaimet,
            aika,
        )
    }
}

/// The updates after each has updated the world once.
pub open spec fn yhdistetty_seuraava(paivitykset: Seq<PaivitysMalli>, aika: Paivitysaika) -> Seq<
    PaivitysMalli,
> {
    Seq::new(paivitykset.len(), |k: int| paivitykset[k].seuraava(aika))
}

/// The world after the first `raja` of `paivitykset` have set their parts
/// of the game up in it, one after the other.
pub open spec fn yhdistetty_alustettu(
    malli: Maailmamalli,
    paivitykset: Seq<PaivitysMalli>,
    raja: int,
) -> Maailmamalli
    decreases raja,
{
    if raja <= 0 {
        malli
    } else {
        paivitykset[raja - 1].alustettu(yhdistetty_alustettu(malli, paivitykset, raja - 1))
    }
}

/// The updates after each has set its part of the game up.
pub open spec fn yhdistetty_alustanut(paivitykset: Seq<PaivitysMalli>) -> Seq<PaivitysMalli> {
    Seq::new(paivitykset.len(), |k: int| paivitykset[k].alustanut())
}

/// The watched keys after the first `raja` of `paivitykset` have set their
/// parts of the game up, one after the other.
pub open spec fn yhdistetty_nappaimet(
    nappaimet: Seq<Nappain>,
    paivitykset: Seq<PaivitysMalli>,
    raja: int,
    pohjassa_olevat: Seq<i32>,
) -> Seq<Nappain>
    decreases raja,
{
    if raja <= 0 {
        nappaimet
    } else {
        paivitykset[raja - 1].nappaimet_alustettu(
            yhdistetty_nappaimet(nappaimet, paivitykset, raja - 1, pohjassa_olevat),
            pohjassa_olevat,
        )
    }
}

/// Updates that are as every update is stay so when they update the
/// world.
pub proof fn lemma_seuraava_kunnossa(paivitykset: Seq<PaivitysMalli>, aika: Paivitysaika)
    requires
        paivitykset_kunnossa(paivitykset),
    ensures
        paivitykset_kunnossa(yhdistetty_seuraava(paivitykset, aika)),
{
    let seuraavat = yhdistetty_seuraava(paivitykset, aika);
    assert forall|k: int| 0 <= k < seuraavat.len() implies (#[trigger] seuraavat[k]).kunnossa() by {
        assert(paivitykset[k].kunnossa());
        match paivitykset[k] {
            PaivitysMalli::Spawnerit(spawnerit) => {
                let odottaneet = spawnerit_odottaneet(spawnerit, aika.paivitysaika);
                assert forall|j: int| 0 <= j < odottaneet.len() implies (
                #[trigger] odottaneet[j]).spawnin_vali > 0 by {
                    assert(spawnerit[j].spawnin_vali > 0);
                }
            },
            _ => {},
        }
    }
}

/// An update made of several updates, which are run in their order.
pub struct YhdistettyPaivitys {
    /// The updates, the first to run first.
    pub paivitykset: Vec<Paivitys>,
}

impl View for YhdistettyPaivitys {
    type V = Seq<PaivitysMalli>;

    open spec fn view(&self) -> Seq<PaivitysMalli> {
        Seq::new(self.paivitykset@.len(), |k: int| self.paivitykset@[k]@)
    }
}

impl YhdistettyPaivitys {
    /// What holds of every such update: each of its updates is as every
    /// update is.
    pub open spec fn kunnossa(&self) -> bool {
        paivitykset_kunnossa(self@)
    }

    /// An update that runs the updates of `lista` in their order.
    pub fn new(lista: Vec<Paivitys>) -> (tulos: YhdistettyPaivitys)
        ensures
            tulos.paivitykset == lista,
    {
        YhdistettyPaivitys { paivitykset: lista }
    }

    /// Lets each update set its part of the game up, in their order. The
    /// numbers of the keys that are held down now are `pohjassa_olevat`.
    pub fn alusta(
        &mut self,
        maailma: &mut Perusmaailma,
        syotteet: &mut Syotteet,
        pohjassa_olevat: &Vec<i32>,
    )
        requires
            old(self).kunnossa(),
            old(maailma)@.kunnossa(),
        ensures
            final(self).kunnossa(),
            final(self)@ == yhdistetty_alustanut(old(self)@),
            final(maailma)@.kunnossa(),
            final(maailma)@ == yhdistetty_alustettu(
                old(maailma)@,
                old(self)@,
                old(self)@.len() as int,
            ),
            final(syotteet)@ == yhdistetty_nappaimet(
                old(syotteet)@,
                old(self)@,
                old(self)@.len() as int,
                pohjassa_olevat@,
            ),
    {
        let ghost alku = maailma@;
        let ghost vanhat = self@;
        let mut i: usize = 0;
        while i < self.paivitykset.len()
            invariant
                alku == old(maailma)@,
                vanhat == old(self)@,
                maailma@.kunnossa(),
                self.kunnossa(),
                i <= self@.len() == vanhat.len(),
                self@.len() == self.paivitykset@.len(),
                forall|k: int| i <= k < self@.len() ==> (#[trigger] self@[k]) == vanhat[k],
                forall|k: int| 0 <= k < i ==> (#[trigger] self@[k]) == vanhat[k].alustanut(),
                maailma@ == yhdistetty_alustettu(alku, vanhat, i as int),
                syotteet@ == yhdistetty_nappaimet(
                    old(syotteet)@,
                    vanhat,
                    i as int,
                    pohjassa_olevat@,
                ),
            decreases self.paivitykset.len() - i,
        {
            let ghost ennen = self@;
            assert(ennen[i as int] == vanhat[i as int]);
            assert(ennen[i as int].kunnossa());
            self.paivitykset[i].alusta(maailma, syotteet, pohjassa_olevat);
            assert forall|k: int| 0 <= k < self@.len() implies (#[trigger] self@[k]).kunnossa() by {
                if k != i {
                    assert(self@[k] == ennen[k]);
                    assert(ennen[k].kunnossa());
                }
            }
            assert forall|k: int| i + 1 <= k < self@.len() implies (#[trigger] self@[k])
                == vanhat[k] by {
                assert(self@[k] == ennen[k]);
            }
            assert forall|k: int| 0 <= k < i + 1 implies (#[trigger] self@[k])
                == vanhat[k].alustanut() by {
                if k != i {
                    assert(self@[k] == ennen[k]);
                }
            }
            i += 1;
        }
        assert(self@ =~= yhdistetty_alustanut(vanhat));
    }

    /// Runs each update once, in their order.
    pub fn paivita(
        &mut self,
        maailma: &mut Perusmaailma,
        syotteet: &Syotteet,
        paivitys_aika: &Paivitysaika,
    )
        requires
            old(self).kunnossa(),
            old(maailma)@.kunnossa(),
            paivitys_aika.kokonais_pelin_aika + TUHOUTUMISEN_KESTO <= u64::MAX,
        ensures
            final(self).kunnossa(),
            final(self)@ == yhdistetty_seuraava(old(self)@, *paivitys_aika),
            final(maailma)@.kunnossa(),
            final(maailma)@ == yhdistetty_paivitetty(
                old(maailma)@,
                old(self)@,
                old(self)@.len() as int,
                syotteet@,
                *paivitys_aika,
            ),
    {
        let ghost alku = maailma@;
        let ghost vanhat = self@;
        let mut i: usize = 0;
        while i < self.paivitykset.len()
            invariant
                alku == old(maailma)@,
                vanhat == old(self)@,
                maailma@.kunnossa(),
                self.kunnossa(),
                paivitys_aika.kokonais_pelin_aika + TUHOUTUMISEN_KESTO <= u64::MAX,
                i <= self@.len() == vanhat.len(),
                self@.len() == self.paivitykset@.len(),
                forall|k: int| i <= k < self@.len() ==> (#[trigger] self@[k]) == vanhat[k],
                forall|k: int|
                    0 <= k < i ==> (#[trigger] self@[k]) == vanhat[k].seuraava(*paivitys_aika),
                maailma@ == yhdistetty_paivitetty(alku, vanhat, i as int, syotteet@, *paivitys_aika),
            decreases self.paivitykset.len() - i,
        {
            let ghost ennen = self@;
            assert(ennen[i as int] == vanhat[i as int]);
            assert(ennen[i as int].kunnossa());
            self.paivitykset[i].paivita(maailma, syotteet, paivitys_aika);
            assert forall|k: int| 0 <= k < self@.len() implies (#[trigger] self@[k]).kunnossa() by {
                if k != i {
                    assert(self@[k] == ennen[k]);
                    assert(ennen[k].kunnossa());
                }
            }
            assert forall|k: int| i + 1 <= k < self@.len() implies (#[trigger] self@[k])
                == vanhat[k] by {
                assert(self@[k] == ennen[k]);
            }
            assert forall|k: int| 0 <= k < i + 1 implies (#[trigger] self@[k])
                == vanhat[k].seuraava(*paivitys_aika) by {
                if k != i {
                    assert(self@[k] == ennen[k]);
                }
            }
            i += 1;
        }
        assert(self@ =~= yhdistetty_seuraava(vanhat, *paivitys_aika));
    }
}

} // verus!

//! What a world holds, as plain sequences, and what holds of it.
use vstd::prelude::*;
use crate::animointi::{interpoloitu_vektori, Animaatio, Kuolevainen};
use crate::fysiikka::Fysiikkakappale;
use crate::maailma::kappale::Kappale;
use crate::maailma::kappalemuisti::Kappalemuisti;
use crate::maailma::lisaosa::{
    eri_tunnisteet,
    ilman,
    lemma_ilman_eri_tunnisteet,
    lemma_ilman_sailyttaa,
    lemma_loytopaikka,
    lemma_paikka_on_loytopaikka,
    loytopaikka,
    sisaltaa_tunnisteen,
    Lisaosa,
    Tunniste,
};
use crate::maailma::pelihahmo::Pelihahmo;
use crate::maailma::vektori::Vektori;
use crate::piirtaja::{PiirrettavaKappale, ValiaikainenPiirrettavaKappale};
use crate::silmukka::interpoloivasilmukka::Interpolointiarvo;
use crate::tekoaly::{Aly, AlyToiminta, Alyllinen};

verus! {

/// A body of the world together with its handle.
#[derive(Copy, Clone, Debug, PartialEq, Eq, Structural)]
pub struct Olio {
    /// The handle of the body.
    pub tunniste: Tunniste,
    /// The body itself.
    pub kappale: Kappale,
}

impl Olio {
    /// The same body under the same handle, its corner at `sijainti`.
    pub open spec fn siirretty(self, sijainti: Vektori) -> Olio {
        Olio { tunniste: self.tunniste, kappale: self.kappale.siirretty(sijainti) }
    }
}

impl Lisaosa for Olio {
    open spec fn kappale_spec(&self) -> Tunniste {
        self.tunniste
    }

    fn anna_kappale(&self) -> (tulos: Tunniste) {
        self.tunniste
    }
}

/// What a world holds, as plain sequences.
pub struct Maailmamalli {
    /// The bodies, in the order in which they were added.
    pub kappaleet: Seq<Olio>,
    /// The memories of earlier states, kept where bodies are drawn between
    /// two states.
    pub muistit: Seq<Kappalemuisti>,
    /// How far between the two remembered states the bodies are drawn.
    /// Where this is nothing, the world keeps no memories.
    pub interpolointi: Option<Interpolointiarvo>,
    /// The physics sides of bodies.
    pub fysiikalliset: Seq<Fysiikkakappale>,
    /// The drawable sides of bodies.
    pub piirrettavat: Seq<PiirrettavaKappale>,
    /// The character of the player, where there is one.
    pub pelihahmo: Option<Pelihahmo>,
    /// The steering sides of bodies.
    pub alylliset: Seq<Alyllinen>,
    /// The bodies that wait to be removed.
    pub poistettavat: Seq<Tunniste>,
    /// The number of the handle that the next body gets.
    pub seuraava: u64,
    /// The animations that are alive.
    pub animaatiot: Seq<Kuolevainen<Animaatio>>,
    /// What the animations showed when their picture was last made.
    pub animaatio_kuva: Seq<ValiaikainenPiirrettavaKappale>,
}

impl Maailmamalli {
    /// Whether a body with the handle `tunniste` is in the world.
    pub open spec fn elossa(self, tunniste: Tunniste) -> bool {
        sisaltaa_tunnisteen(self.kappaleet, tunniste)
    }

    /// What holds of every world: no two bodies share a handle, no handle
    /// still to be given out is in use, a body has at most one physics
    /// side, and whatever speaks of a body speaks of one in the world.
    pub open spec fn kunnossa(self) -> bool {
        &&& eri_tunnisteet(self.kappaleet)
        &&& forall|k: int|
            0 <= k < self.kappaleet.len() ==> (#[trigger] self.kappaleet[k]).tunniste.arvo
                < self.seuraava
        &&& eri_tunnisteet(self.fysiikalliset)
        &&& forall|k: int|
            0 <= k < self.fysiikalliset.len() ==> self.elossa(
                (#[trigger] self.fysiikalliset[k]).kappale,
            )
        &&& forall|k: int|
            0 <= k < self.piirrettavat.len() ==> self.elossa(
                (#[trigger] self.piirrettavat[k]).kappale,
            )
        &&& forall|k: int|
            0 <= k < self.alylliset.len() ==> self.elossa((#[trigger] self.alylliset[k]).kappale)
        &&& forall|k: int|
            0 <= k < self.muistit.len() ==> self.elossa((#[trigger] self.muistit[k]).oikea_versio)
        &&& self.pelihahmo is Some ==> self.elossa(self.pelihahmo->Some_0.kappale)
    }

    /// The world without anything.
    pub open spec fn tyhja(interpoloiva: bool) -> Maailmamalli {
        Maailmamalli {
            kappaleet: Seq::empty(),
            muistit: Seq::empty(),
            interpolointi: if interpoloiva {
                Some(Interpolointiarvo { osoittaja: 0, nimittaja: 1 })
            } else {
                None
            },
            fysiikalliset: Seq::empty(),
            piirrettavat: Seq::empty(),
            pelihahmo: None,
            alylliset: Seq::empty(),
            poistettavat: Seq::empty(),
            seuraava: 0,
            animaatiot: Seq::empty(),
            animaatio_kuva: Seq::empty(),
        }
    }

    /// The handle that the next body gets.
    pub open spec fn seuraava_tunniste(self) -> Tunniste {
        Tunniste { arvo: self.seuraava }
    }

    /// The world after `kappale` was added to it: the body stands last and
    /// has the next handle, and it has a memory where the world keeps them.
    pub open spec fn kappale_lisatty(self, kappale: Kappale) -> Maailmamalli
        recommends
            self.seuraava < u64::MAX,
    {
        Maailmamalli {
            kappaleet: self.kappaleet.push(Olio { tunniste: self.seuraava_tunniste(), kappale }),
            muistit: if self.interpolointi is Some {
                self.muistit.push(
                    Kappalemuisti {
                        vanhin_versio: kappale,
                        uusin_versio: kappale,
                        oikea_versio: self.seuraava_tunniste(),
                    },
                )
            } else {
                self.muistit
            },
            seuraava: (self.seuraava + 1) as u64,
            ..self
        }
    }

    /// Whether the body `tunniste` can be given a physics side: it is in the
    /// world and has none yet.
    pub open spec fn fysiikka_sopii(self, tunniste: Tunniste) -> bool {
        self.elossa(tunniste) && !sisaltaa_tunnisteen(self.fysiikalliset, tunniste)
    }

    /// The place among the bodies of the body `tunniste`. It is the length
    /// of the bodies where the world has no such body.
    pub open spec fn paikka(self, tunniste: Tunniste) -> int {
        loytopaikka(self.kappaleet, tunniste)
    }

    /// The body with the handle `tunniste`, where the world has it.
    pub open spec fn kappale(self, tunniste: Tunniste) -> Option<Kappale> {
        if self.elossa(tunniste) {
            Some(self.kappaleet[self.paikka(tunniste)].kappale)
        } else {
            None
        }
    }

    /// The centre of the body `tunniste`, brought into the range of a
    /// coordinate, where the world has the body.
    pub open spec fn keskipiste(self, tunniste: Tunniste) -> Option<Vektori> {
        match self.kappale(tunniste) {
            Some(kappale) => Some(kappale.sijainti.summa_spec(kappale.muoto.keskipiste_spec())),
            None => None,
        }
    }

    /// Where the camera is asked to look: at the centre of the character of
    /// the player, where the world has one.
    pub open spec fn kameran_sijainti(self) -> Option<Vektori> {
        match self.pelihahmo {
            Some(hahmo) => self.keskipiste(hahmo.kappale),
            None => None,
        }
    }

    /// The memories after each has taken the state of its body as it is
    /// now for its newer state.
    pub open spec fn muistit_paivitetty(self) -> Seq<Kappalemuisti> {
        Seq::new(
            self.muistit.len(),
            |k: int|
                match self.kappale(self.muistit[k].oikea_versio) {
                    Some(kappale) => self.muistit[k].paivitetty(kappale),
                    None => self.muistit[k],
                },
        )
    }

    /// The body that is drawn for the memory at place `k`: it has the shape
    /// of the newer state and the tag of the older one, stands between the
    /// two states as far as the world has been told, and is drawn as the
    /// remembered body is. Nothing is drawn where the world has not been
    /// told how far, where the way between the states has no parts, or
    /// where the remembered body has no drawable side.
    pub open spec fn valikappale(self, k: int) -> Option<ValiaikainenPiirrettavaKappale> {
        let muisti = self.muistit[k];
        match self.interpolointi {
            Some(arvo) => if arvo.nimittaja != 0 && sisaltaa_tunnisteen(
                self.piirrettavat,
                muisti.oikea_versio,
            ) {
                Some(
                    ValiaikainenPiirrettavaKappale {
                        kappale: Kappale {
                            muoto: muisti.uusin_versio.muoto,
                            sijainti: interpoloitu_vektori(
                                0,
                                muisti.vanhin_versio.sijainti,
                                arvo.nimittaja as int,
                                muisti.uusin_versio.sijainti,
                                arvo.osoittaja as int,
                            ),
                            tagi: muisti.vanhin_versio.tagi,
                        },
                        piirtotapa: self.piirrettavat[loytopaikka(
                            self.piirrettavat,
                            muisti.oikea_versio,
                        )].piirtotapa,
                    },
                )
            } else {
                None
            },
            None => None,
        }
    }

    /// The bodies that are drawn for the first `raja` memories, in the
    /// order of the memories.
    pub open spec fn valikuva(self, raja: int) -> Seq<ValiaikainenPiirrettavaKappale>
        decreases raja,
    {
        if raja <= 0 {
            Seq::empty()
        } else {
            match self.valikappale(raja - 1) {
                Some(kappale) => self.valikuva(raja - 1).push(kappale),
                None => self.valikuva(raja - 1),
            }
        }
    }

    /// What a body that steers in the way `aly` decides: what its way of
    /// steering decides from the centre of the character of the player and
    /// its own centre. A body that is not in the world idles.
    pub open spec fn alyn_toiminta(self, aly: Aly, oma: Tunniste) -> AlyToiminta {
        match self.keskipiste(oma) {
            Some(oma) => aly.alyile_spec(self.kameran_sijainti(), oma),
            None => AlyToiminta::Laiskottele,
        }
    }

    /// The physics sides after the first `raja` steering sides have had
    /// their way, one after the other: a body that decides to move along a
    /// direction gets the velocity of that decision, where it has a physics
    /// side.
    pub open spec fn alyt_sovellettu(self, raja: int) -> Seq<Fysiikkakappale>
        decreases raja,
    {
        if raja <= 0 {
            self.fysiikalliset
        } else {
            let edelliset = self.alyt_sovellettu(raja - 1);
            let tunniste = self.alylliset[raja - 1].kappale;
            match self.alyn_toiminta(
                self.alylliset[raja - 1].aly,
                tunniste,
            ).nopeus_spec() {
                Some(nopeus) => if sisaltaa_tunnisteen(edelliset, tunniste) {
                    edelliset.update(
                        loytopaikka(edelliset, tunniste),
                        Fysiikkakappale { kappale: tunniste, nopeus },
                    )
                } else {
                    edelliset
                },
                None => edelliset,
            }
        }
    }

    /// The world without the body `tunniste` and without all that speaks of
    /// it. The list of bodies to remove is not touched.
    pub open spec fn poistettu(self, tunniste: Tunniste) -> Maailmamalli {
        Maailmamalli {
            kappaleet: ilman(self.kappaleet, tunniste),
            muistit: ilman(self.muistit, tunniste),
            fysiikalliset: ilman(self.fysiikalliset, tunniste),
            piirrettavat: ilman(self.piirrettavat, tunniste),
            alylliset: ilman(self.alylliset, tunniste),
            pelihahmo: if self.pelihahmo is Some && self.pelihahmo->Some_0.kappale == tunniste {
                None
            } else {
                self.pelihahmo
            },
            ..self
        }
    }

    /// The world after every body that waited to be removed has been
    /// removed, the one that was marked last first.
    pub open spec fn puhdistettu(self) -> Maailmamalli
        decreases self.poistettavat.len(),
    {
        if self.poistettavat.len() == 0 {
            self
        } else {
            (Maailmamalli { poistettavat: self.poistettavat.drop_last(), ..self }).poistettu(
                self.poistettavat.last(),
            ).puhdistettu()
        }
    }
}

/// Whatever belonged to a body of the world and is left after the body
/// `tunniste` was removed belongs to a body that is left.
pub proof fn lemma_lisaosat_elossa<T: Lisaosa>(kappaleet: Seq<Olio>, osat: Seq<T>, tunniste: Tunniste)
    requires
        forall|k: int|
            0 <= k < osat.len() ==> sisaltaa_tunnisteen(
                kappaleet,
                (#[trigger] osat[k]).kappale_spec(),
            ),
    ensures
        forall|k: int|
            0 <= k < ilman(osat, tunniste).len() ==> sisaltaa_tunnisteen(
                ilman(kappaleet, tunniste),
                (#[trigger] ilman(osat, tunniste)[k]).kappale_spec(),
            ),
{
    let jaaneet = ilman(osat, tunniste);
    let jaaneet_kappaleet = ilman(kappaleet, tunniste);
    lemma_ilman_sailyttaa(osat, tunniste);
    lemma_ilman_sailyttaa(kappaleet, tunniste);
    assert forall|k: int| 0 <= k < jaaneet.len() implies sisaltaa_tunnisteen(
        jaaneet_kappaleet,
        (#[trigger] jaaneet[k]).kappale_spec(),
    ) by {
        let oma = jaaneet[k].kappale_spec();
        assert(osat.contains(jaaneet[k]));
        let i = choose|i: int| 0 <= i < osat.len() && osat[i] == jaaneet[k];
        assert(sisaltaa_tunnisteen(kappaleet, osat[i].kappale_spec()));
        let j = choose|j: int| 0 <= j < kappaleet.len() && (#[trigger] kappaleet[j]).kappale_spec() == oma;
        assert(jaaneet_kappaleet.contains(kappaleet[j]));
        let m = choose|m: int| 0 <= m < jaaneet_kappaleet.len() && jaaneet_kappaleet[m] == kappaleet[j];
        assert(jaaneet_kappaleet[m].kappale_spec() == oma);
    }
}

/// Removing a body leaves the world as every world is.
pub proof fn lemma_poistettu_kunnossa(malli: Maailmamalli, tunniste: Tunniste)
    requires
        malli.kunnossa(),
    ensures
        malli.poistettu(tunniste).kunnossa(),
        !malli.poistettu(tunniste).elossa(tunniste),
        !sisaltaa_tunnisteen(malli.poistettu(tunniste).fysiikalliset, tunniste),
        !sisaltaa_tunnisteen(malli.poistettu(tunniste).piirrettavat, tunniste),
        !sisaltaa_tunnisteen(malli.poistettu(tunniste).alylliset, tunniste),
        !sisaltaa_tunnisteen(malli.poistettu(tunniste).muistit, tunniste),
        !malli.elossa(tunniste) ==> malli.poistettu(tunniste) == malli,
{
    let uusi = malli.poistettu(tunniste);
    lemma_ilman_eri_tunnisteet(malli.kappaleet, tunniste);
    lemma_ilman_eri_tunnisteet(malli.fysiikalliset, tunniste);
    lemma_ilman_sailyttaa(malli.kappaleet, tunniste);
    lemma_ilman_sailyttaa(malli.fysiikalliset, tunniste);
    lemma_ilman_sailyttaa(malli.piirrettavat, tunniste);
    lemma_ilman_sailyttaa(malli.alylliset, tunniste);
    lemma_ilman_sailyttaa(malli.muistit, tunniste);
    lemma_lisaosat_elossa(malli.kappaleet, malli.fysiikalliset, tunniste);
    lemma_lisaosat_elossa(malli.kappaleet, malli.piirrettavat, tunniste);
    lemma_lisaosat_elossa(malli.kappaleet, malli.alylliset, tunniste);
    lemma_lisaosat_elossa(malli.kappaleet, malli.muistit, tunniste);
    assert forall|k: int| 0 <= k < uusi.kappaleet.len() implies (#[trigger] uusi.kappaleet[k]).tunniste.arvo
        < uusi.seuraava by {
        assert(malli.kappaleet.contains(uusi.kappaleet[k]));
    }
    if uusi.pelihahmo is Some {
        let hahmo = uusi.pelihahmo->Some_0;
        lemma_lisaosat_elossa(malli.kappaleet, seq![hahmo], tunniste);
        assert(ilman(seq![hahmo], tunniste) =~= seq![hahmo]) by {
            assert(seq![hahmo].drop_last() =~= Seq::<Pelihahmo>::empty());
            assert(ilman(Seq::<Pelihahmo>::empty(), tunniste) =~= Seq::<Pelihahmo>::empty());
        }
        assert(ilman(seq![hahmo], tunniste)[0] == hahmo);
    }
    if !malli.elossa(tunniste) {
        lemma_ei_lisaosia(malli.kappaleet, malli.fysiikalliset, tunniste);
        lemma_ei_lisaosia(malli.kappaleet, malli.piirrettavat, tunniste);
        lemma_ei_lisaosia(malli.kappaleet, malli.alylliset, tunniste);
        lemma_ei_lisaosia(malli.kappaleet, malli.muistit, tunniste);
    }
}

/// Nothing belongs to a body that is not in the world.
pub proof fn lemma_ei_lisaosia<T: Lisaosa>(kappaleet: Seq<Olio>, osat: Seq<T>, tunniste: Tunniste)
    requires
        !sisaltaa_tunnisteen(kappaleet, tunniste),
        forall|k: int|
            0 <= k < osat.len() ==> sisaltaa_tunnisteen(
                kappaleet,
                (#[trigger] osat[k]).kappale_spec(),
            ),
    ensures
        !sisaltaa_tunnisteen(osat, tunniste),
        ilman(osat, tunniste) == osat,
{
    lemma_ilman_sailyttaa(osat, tunniste);
}

/// A body that is missing from a world is missing after any body was
/// removed, and so is what belongs to it.
pub proof fn lemma_poissa_pysyy(malli: Maailmamalli, poissa: Tunniste, tunniste: Tunniste)
    ensures
        !malli.elossa(poissa) ==> !malli.poistettu(tunniste).elossa(poissa),
        !sisaltaa_tunnisteen(malli.fysiikalliset, poissa) ==> !sisaltaa_tunnisteen(
            malli.poistettu(tunniste).fysiikalliset,
            poissa,
        ),
        !sisaltaa_tunnisteen(malli.piirrettavat, poissa) ==> !sisaltaa_tunnisteen(
            malli.poistettu(tunniste).piirrettavat,
            poissa,
        ),
        !sisaltaa_tunnisteen(malli.alylliset, poissa) ==> !sisaltaa_tunnisteen(
            malli.poistettu(tunniste).alylliset,
            poissa,
        ),
        !sisaltaa_tunnisteen(malli.muistit, poissa) ==> !sisaltaa_tunnisteen(
            malli.poistettu(tunniste).muistit,
            poissa,
        ),
{
    lemma_poissa_pysyy_osissa(malli.kappaleet, poissa, tunniste);
    lemma_poissa_pysyy_osissa(malli.fysiikalliset, poissa, tunniste);
    lemma_poissa_pysyy_osissa(malli.piirrettavat, poissa, tunniste);
    lemma_poissa_pysyy_osissa(malli.alylliset, poissa, tunniste);
    lemma_poissa_pysyy_osissa(malli.muistit, poissa, tunniste);
}

/// What no member of `osat` belongs to, no member left of `osat` belongs to.
pub proof fn lemma_poissa_pysyy_osissa<T: Lisaosa>(osat: Seq<T>, poissa: Tunniste, tunniste: Tunniste)
    ensures
        !sisaltaa_tunnisteen(osat, poissa) ==> !sisaltaa_tunnisteen(ilman(osat, tunniste), poissa),
{
    lemma_ilman_sailyttaa(osat, tunniste);
    let jaaneet = ilman(osat, tunniste);
    if sisaltaa_tunnisteen(jaaneet, poissa) {
        let k = choose|k: int| 0 <= k < jaaneet.len() && (#[trigger] jaaneet[k]).kappale_spec() == poissa;
        assert(osat.contains(jaaneet[k]));
        let i = choose|i: int| 0 <= i < osat.len() && osat[i] == jaaneet[k];
        assert(osat[i].kappale_spec() == poissa);
    }
}

/// Removing the bodies that wait for it leaves the world as every world
/// is, with no body waiting. None of the bodies that waited is in the
/// world afterwards, nor has any of them a physics side, a drawable side,
/// a steering side or a memory there.
pub proof fn lemma_puhdistettu(malli: Maailmamalli)
    requires
        malli.kunnossa(),
    ensures
        malli.puhdistettu().kunnossa(),
        malli.puhdistettu().poistettavat.len() == 0,
        malli.puhdistettu().seuraava == malli.seuraava,
        malli.puhdistettu().interpolointi == malli.interpolointi,
        malli.puhdistettu().animaatiot == malli.animaatiot,
        forall|k: int|
            0 <= k < malli.poistettavat.len() ==> {
                let poistettu = #[trigger] malli.poistettavat[k];
                &&& !malli.puhdistettu().elossa(poistettu)
                &&& !sisaltaa_tunnisteen(malli.puhdistettu().fysiikalliset, poistettu)
                &&& !sisaltaa_tunnisteen(malli.puhdistettu().piirrettavat, poistettu)
                &&& !sisaltaa_tunnisteen(malli.puhdistettu().alylliset, poistettu)
                &&& !sisaltaa_tunnisteen(malli.puhdistettu().muistit, poistettu)
            },
    decreases malli.poistettavat.len(),
{
    if malli.poistettavat.len() > 0 {
        let viimeinen = malli.poistettavat.last();
        let lyhennetty = Maailmamalli { poistettavat: malli.poistettavat.drop_last(), ..malli };
        let seuraava = lyhennetty.poistettu(viimeinen);
        lemma_poistettu_kunnossa(lyhennetty, viimeinen);
        lemma_puhdistettu(seuraava);
        lemma_poissa_puhdistettaessa(seuraava, viimeinen);
        assert forall|k: int| 0 <= k < malli.poistettavat.len() implies {
            let poistettu = #[trigger] malli.poistettavat[k];
            &&& !malli.puhdistettu().elossa(poistettu)
            &&& !sisaltaa_tunnisteen(malli.puhdistettu().fysiikalliset, poistettu)
            &&& !sisaltaa_tunnisteen(malli.puhdistettu().piirrettavat, poistettu)
            &&& !sisaltaa_tunnisteen(malli.puhdistettu().alylliset, poistettu)
            &&& !sisaltaa_tunnisteen(malli.puhdistettu().muistit, poistettu)
        } by {
            if k < malli.poistettavat.len() - 1 {
                assert(seuraava.poistettavat[k] == malli.poistettavat[k]);
            }
        }
    }
}

/// A body that is missing from a world, with all that belongs to it, is
/// missing after the bodies that wait for it were removed.
pub proof fn lemma_poissa_puhdistettaessa(malli: Maailmamalli, poissa: Tunniste)
    ensures
        !malli.elossa(poissa) ==> !malli.puhdistettu().elossa(poissa),
        !sisaltaa_tunnisteen(malli.fysiikalliset, poissa) ==> !sisaltaa_tunnisteen(
            malli.puhdistettu().fysiikalliset,
            poissa,
        ),
        !sisaltaa_tunnisteen(malli.piirrettavat, poissa) ==> !sisaltaa_tunnisteen(
            malli.puhdistettu().piirrettavat,
            poissa,
        ),
        !sisaltaa_tunnisteen(malli.alylliset, poissa) ==> !sisaltaa_tunnisteen(
            malli.puhdistettu().alylliset,
            poissa,
        ),
        !sisaltaa_tunnisteen(malli.muistit, poissa) ==> !sisaltaa_tunnisteen(
            malli.puhdistettu().muistit,
            poissa,
        ),
    decreases malli.poistettavat.len(),
{
    if malli.poistettavat.len() > 0 {
        let viimeinen = malli.poistettavat.last();
        let lyhennetty = Maailmamalli { poistettavat: malli.poistettavat.drop_last(), ..malli };
        lemma_poissa_pysyy(lyhennetty, poissa, viimeinen);
        lemma_poissa_puhdistettaessa(lyhennetty.poistettu(viimeinen), poissa);
    }
}

/// Removing the waiting bodies when none waits changes nothing, however
/// often it is done.
pub proof fn lemma_tyhja_puhdistus(malli: Maailmamalli)
    requires
        malli.poistettavat.len() == 0,
    ensures
        malli.puhdistettu() == malli,
        malli.puhdistettu().puhdistettu() == malli,
{
}

/// Removing the waiting bodies a second time changes nothing.
pub proof fn lemma_puhdistus_kahdesti(malli: Maailmamalli)
    requires
        malli.kunnossa(),
    ensures
        malli.puhdistettu().puhdistettu() == malli.puhdistettu(),
{
    lemma_puhdistettu(malli);
}

/// Whether two sequences of bodies hold the same handles at the same
/// places.
pub open spec fn samat_tunnisteet(a: Seq<Olio>, b: Seq<Olio>) -> bool {
    &&& a.len() == b.len()
    &&& forall|k: int| 0 <= k < a.len() ==> (#[trigger] a[k]).tunniste == b[k].tunniste
}

/// Where the handles stand as before, whatever was in the world is in it,
/// and at its old place.
pub proof fn lemma_samat_tunnisteet(a: Seq<Olio>, b: Seq<Olio>)
    requires
        samat_tunnisteet(a, b),
    ensures
        eri_tunnisteet(a) ==> eri_tunnisteet(b),
        forall|t: Tunniste| sisaltaa_tunnisteen(a, t) == sisaltaa_tunnisteen(b, t),
        forall|t: Tunniste| loytopaikka(a, t) == loytopaikka(b, t),
{
    if eri_tunnisteet(a) {
        assert forall|i: int, j: int| 0 <= i < j < b.len() implies (#[trigger] b[i]).kappale_spec()
            != (#[trigger] b[j]).kappale_spec() by {
            assert(a[i].kappale_spec() != a[j].kappale_spec());
        }
    }
    assert forall|t: Tunniste| sisaltaa_tunnisteen(a, t) == sisaltaa_tunnisteen(b, t) by {
        if sisaltaa_tunnisteen(a, t) {
            let k = choose|k: int| 0 <= k < a.len() && (#[trigger] a[k]).kappale_spec() == t;
            assert(b[k].kappale_spec() == t);
        }
        if sisaltaa_tunnisteen(b, t) {
            let k = choose|k: int| 0 <= k < b.len() && (#[trigger] b[k]).kappale_spec() == t;
            assert(a[k].kappale_spec() == t);
        }
    }
    assert forall|t: Tunniste| loytopaikka(a, t) == loytopaikka(b, t) by {
        if sisaltaa_tunnisteen(a, t) {
            lemma_loytopaikka(a, t);
            let paikka = loytopaikka(a, t);
            assert(b[paikka].kappale_spec() == t);
            assert forall|k: int| 0 <= k < paikka implies (#[trigger] b[k]).kappale_spec() != t by {
                assert(a[k].kappale_spec() != t);
            }
            lemma_paikka_on_loytopaikka(b, t, paikka);
        }
    }
}

/// The handle that the next body gets is in no use yet, and the body that
/// gets it is in the world from then on.
pub proof fn lemma_uusi_tunniste_on_vapaa(malli: Maailmamalli, kappale: Kappale)
    requires
        malli.kunnossa(),
    ensures
        !malli.elossa(malli.seuraava_tunniste()),
        !sisaltaa_tunnisteen(malli.fysiikalliset, malli.seuraava_tunniste()),
        !sisaltaa_tunnisteen(malli.piirrettavat, malli.seuraava_tunniste()),
        !sisaltaa_tunnisteen(malli.alylliset, malli.seuraava_tunniste()),
        !sisaltaa_tunnisteen(malli.muistit, malli.seuraava_tunniste()),
        malli.kappale_lisatty(kappale).elossa(malli.seuraava_tunniste()),
        forall|t: Tunniste| malli.elossa(t) ==> malli.kappale_lisatty(kappale).elossa(t),
{
    let uusi = malli.seuraava_tunniste();
    if malli.elossa(uusi) {
        let k = choose|k: int| 0 <= k < malli.kappaleet.len() && (#[trigger] malli.kappaleet[k]).kappale_spec() == uusi;
        assert(malli.kappaleet[k].tunniste.arvo < malli.seuraava);
    }
    lemma_ei_lisaosia(malli.kappaleet, malli.fysiikalliset, uusi);
    lemma_ei_lisaosia(malli.kappaleet, malli.piirrettavat, uusi);
    lemma_ei_lisaosia(malli.kappaleet, malli.alylliset, uusi);
    lemma_ei_lisaosia(malli.kappaleet, malli.muistit, uusi);
    let lisatty = malli.kappale_lisatty(kappale);
    assert(lisatty.kappaleet[malli.kappaleet.len() as int].kappale_spec() == uusi);
    assert forall|t: Tunniste| malli.elossa(t) implies lisatty.elossa(t) by {
        lemma_elossa_lisatessa(malli.kappaleet, Olio { tunniste: uusi, kappale }, t);
    }
}

/// A body stays in the world when another body is added.
pub proof fn lemma_elossa_lisatessa(kappaleet: Seq<Olio>, uusi: Olio, tunniste: Tunniste)
    requires
        sisaltaa_tunnisteen(kappaleet, tunniste),
    ensures
        sisaltaa_tunnisteen(kappaleet.push(uusi), tunniste),
{
    let k = choose|k: int| 0 <= k < kappaleet.len() && (#[trigger] kappaleet[k]).kappale_spec() == tunniste;
    assert(kappaleet.push(uusi)[k].kappale_spec() == tunniste);
}

} // verus!

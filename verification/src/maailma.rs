//! The game world: bodies, their attachments and deferred removal.
//!
//! The world owns every body. Whatever else speaks of a body (its physics,
//! the way it is drawn, its steering, its memory, the mark of the player's
//! character) holds the body's handle and is removed together with it.
use vstd::prelude::*;
use crate::animointi::{
    elavat,
    kuva,
    lineaarinen_interpolaatio_vektori,
    Animaatio,
    Animaatiot,
    Kuolevainen,
};
use crate::fysiikka::Fysiikkakappale;
use crate::maailma::kappale::Kappale;
use crate::maailma::kappalemuisti::Kappalemuisti;
use crate::maailma::lisaosa::{
    etsi,
    loytopaikka,
    poista_lisaosat,
    sisaltaa_tunnisteen,
    Lisaosa,
    Tunniste,
};
use crate::maailma::pelihahmo::Pelihahmo;
use crate::maailma::vektori::Vektori;
use crate::paivitys::Paivitysaika;
use crate::piirtaja::{PiirrettavaKappale, PiirrettavaMaailma, ValiaikainenPiirrettavaKappale};
use crate::silmukka::interpoloivasilmukka::Interpolointiarvo;
use crate::tekoaly::{AlyToiminta, Alyllinen, TekoalyMaailma};

pub mod kappale;
pub mod kappalemuisti;
pub mod lisaosa;
pub mod malli;
pub mod pelihahmo;
pub mod vektori;

pub use crate::maailma::malli::{
    lemma_elossa_lisatessa,
    lemma_poistettu_kunnossa,
    lemma_puhdistettu,
    lemma_puhdistus_kahdesti,
    lemma_samat_tunnisteet,
    lemma_tyhja_puhdistus,
    lemma_uusi_tunniste_on_vapaa,
    samat_tunnisteet,
    Maailmamalli,
    Olio,
};

verus! {

/// The state of the game world: all bodies and all that speaks of them.
pub struct Perusmaailma {
    /// The bodies of the world.
    kappaleet: Vec<Olio>,
    /// The memories of earlier states.
    kappalemuisti: Vec<Kappalemuisti>,
    /// How far between the two remembered states the bodies are drawn.
    interpoloinnin_arvo: Option<Interpolointiarvo>,
    /// The physics sides of bodies.
    fysiikka_kappaleet: Vec<Fysiikkakappale>,
    /// The drawable sides of bodies.
    piirrettavat_kappaleet: Vec<PiirrettavaKappale>,
    /// The character of the player, where there is one.
    pelihahmo: Option<Pelihahmo>,
    /// The steering sides of bodies.
    alylliset: Vec<Alyllinen>,
    /// The bodies that wait to be removed.
    poistettavat: Vec<Tunniste>,
    /// The number of the handle that the next body gets.
    seuraava: u64,
    /// The animations that are alive.
    animaatiot: Animaatiot,
    /// What the animations showed when their picture was last made.
    animaatio_kuva: Vec<ValiaikainenPiirrettavaKappale>,
}

impl View for Perusmaailma {
    type V = Maailmamalli;

    closed spec fn view(&self) -> Maailmamalli {
        Maailmamalli {
            kappaleet: self.kappaleet@,
            muistit: self.kappalemuisti@,
            interpolointi: self.interpoloinnin_arvo,
            fysiikalliset: self.fysiikka_kappaleet@,
            piirrettavat: self.piirrettavat_kappaleet@,
            pelihahmo: self.pelihahmo,
            alylliset: self.alylliset@,
            poistettavat: self.poistettavat@,
            seuraava: self.seuraava,
            animaatiot: self.animaatiot@,
            animaatio_kuva: self.animaatio_kuva@,
        }
    }
}

impl Perusmaailma {
    /// An empty world.
    pub fn new() -> (tulos: Perusmaailma)
        ensures
            tulos@ == Maailmamalli::tyhja(false),
            tulos@.kunnossa(),
    {
        Perusmaailma {
            kappaleet: Vec::new(),
            kappalemuisti: Vec::new(),
            interpoloinnin_arvo: None,
            fysiikka_kappaleet: Vec::new(),
            piirrettavat_kappaleet: Vec::new(),
            pelihahmo: None,
            alylliset: Vec::new(),
            poistettavat: Vec::new(),
            seuraava: 0,
            animaatiot: Animaatiot::new(),
            animaatio_kuva: Vec::new(),
        }
    }

    /// An empty world that keeps, for every body added to it, a memory of
    /// the body's two latest states.
    pub fn new_interpoloiva() -> (tulos: Perusmaailma)
        ensures
            tulos@ == Maailmamalli::tyhja(true),
            tulos@.kunnossa(),
    {
        Perusmaailma {
            kappaleet: Vec::new(),
            kappalemuisti: Vec::new(),
            interpoloinnin_arvo: Some(Interpolointiarvo { osoittaja: 0, nimittaja: 1 }),
            fysiikka_kappaleet: Vec::new(),
            piirrettavat_kappaleet: Vec::new(),
            pelihahmo: None,
            alylliset: Vec::new(),
            poistettavat: Vec::new(),
            seuraava: 0,
            animaatiot: Animaatiot::new(),
            animaatio_kuva: Vec::new(),
        }
    }

    /// Adds `kappale` to the world and gives its handle. Nothing is added
    /// once every handle has been given out.
    pub fn lisaa_kappale(&mut self, kappale: Kappale) -> (tulos: Option<Tunniste>)
        requires
            old(self)@.kunnossa(),
        ensures
            final(self)@.kunnossa(),
            old(self)@.seuraava < u64::MAX ==> tulos == Some(old(self)@.seuraava_tunniste())
                && final(self)@ == old(self)@.kappale_lisatty(kappale),
            old(self)@.seuraava == u64::MAX ==> tulos.is_none() && final(self)@ == old(self)@,
    {
        if self.seuraava == u64::MAX {
            return None;
        }
        let tunniste = Tunniste { arvo: self.seuraava };
        let ghost vanha = self@;
        self.seuraava = self.seuraava + 1;
        proof {
            assert forall|t: Tunniste| sisaltaa_tunnisteen(vanha.kappaleet, t) implies sisaltaa_tunnisteen(
                vanha.kappaleet.push(Olio { tunniste, kappale }),
                t,
            ) by {
                lemma_elossa_lisatessa(vanha.kappaleet, Olio { tunniste, kappale }, t);
            }
        }
        self.kappaleet.push(Olio { tunniste, kappale });
        if self.interpoloinnin_arvo.is_some() {
            proof {
                assert(self.kappaleet@[self.kappaleet@.len() - 1].kappale_spec() == tunniste);
            }
            self.kappalemuisti.push(Kappalemuisti::new(tunniste, kappale));
        }
        proof {
            assert(self@.muistit =~= old(self)@.kappale_lisatty(kappale).muistit);
        }
        Some(tunniste)
    }

    /// Whether a body with the handle `tunniste` is in the world.
    pub fn onko_elossa(&self, tunniste: Tunniste) -> (tulos: bool)
        ensures
            tulos == self@.elossa(tunniste),
    {
        etsi(&self.kappaleet, tunniste).is_some()
    }

    /// The body with the handle `tunniste`, where the world has it.
    pub fn anna_kappale(&self, tunniste: Tunniste) -> (tulos: Option<Kappale>)
        ensures
            tulos == self@.kappale(tunniste),
    {
        match etsi(&self.kappaleet, tunniste) {
            Some(paikka) => {
                Some(self.kappaleet[paikka].kappale)
            },
            None => None,
        }
    }

    /// Gives a body its drawable side, unless the body is not in the world.
    /// Says whether it was given.
    pub fn lisaa_piirrettava_kappale(&mut self, kappale: PiirrettavaKappale) -> (tulos: bool)
        requires
            old(self)@.kunnossa(),
        ensures
            final(self)@.kunnossa(),
            tulos == old(self)@.elossa(kappale.kappale),
            tulos ==> final(self)@ == (Maailmamalli {
                piirrettavat: old(self)@.piirrettavat.push(kappale),
                ..old(self)@
            }),
            !tulos ==> final(self)@ == old(self)@,
    {
        if !self.onko_elossa(kappale.anna_kappale()) {
            return false;
        }
        self.piirrettavat_kappaleet.push(kappale);
        true
    }

    /// Gives a body its physics side, unless the body is not in the world or
    /// has a physics side already. Says whether it was given.
    pub fn lisaa_fysiikkakappale(&mut self, kappale: Fysiikkakappale) -> (tulos: bool)
        requires
            old(self)@.kunnossa(),
        ensures
            final(self)@.kunnossa(),
            tulos == old(self)@.fysiikka_sopii(kappale.kappale),
            tulos ==> final(self)@ == (Maailmamalli {
                fysiikalliset: old(self)@.fysiikalliset.push(kappale),
                ..old(self)@
            }),
            !tulos ==> final(self)@ == old(self)@,
    {
        if !self.onko_elossa(kappale.anna_kappale()) {
            return false;
        }
        if etsi(&self.fysiikka_kappaleet, kappale.anna_kappale()).is_some() {
            return false;
        }
        self.fysiikka_kappaleet.push(kappale);
        true
    }

    /// Gives a body its steering side, unless the body is not in the world.
    /// Says whether it was given.
    pub fn lisaa_aly(&mut self, alyllinen: Alyllinen) -> (tulos: bool)
        requires
            old(self)@.kunnossa(),
        ensures
            final(self)@.kunnossa(),
            tulos == old(self)@.elossa(alyllinen.kappale),
            tulos ==> final(self)@ == (Maailmamalli {
                alylliset: old(self)@.alylliset.push(alyllinen),
                ..old(self)@
            }),
            !tulos ==> final(self)@ == old(self)@,
    {
        if !self.onko_elossa(alyllinen.anna_kappale()) {
            return false;
        }
        self.alylliset.push(alyllinen);
        true
    }

    /// Makes `pelihahmo` the character of the player, unless the world has a
    /// character already or the body is not in the world: the first
    /// character stays.
    pub fn lisaa_pelihahmo(&mut self, pelihahmo: Pelihahmo)
        requires
            old(self)@.kunnossa(),
        ensures
            final(self)@.kunnossa(),
            old(self)@.pelihahmo is None && old(self)@.elossa(pelihahmo.kappale) ==> final(self)@
                == (Maailmamalli { pelihahmo: Some(pelihahmo), ..old(self)@ }),
            !(old(self)@.pelihahmo is None && old(self)@.elossa(pelihahmo.kappale))
                ==> final(self)@ == old(self)@,
    {
        if self.pelihahmo.is_none() && self.onko_elossa(pelihahmo.anna_kappale()) {
            self.pelihahmo = Some(pelihahmo);
        }
    }

    /// Whether the world has a character of the player.
    pub fn onko_pelihahmo(&self) -> (tulos: bool)
        ensures
            tulos == (self@.pelihahmo is Some),
    {
        self.pelihahmo.is_some()
    }

    /// Turns the character of the player to face along `suunta`, where the
    /// world has a character and `suunta` is not the zero vector.
    pub fn aseta_pelihahmon_suunta(&mut self, suunta: Vektori)
        requires
            old(self)@.kunnossa(),
        ensures
            final(self)@.kunnossa(),
            final(self)@ == (Maailmamalli {
                pelihahmo: match old(self)@.pelihahmo {
                    Some(hahmo) => Some(hahmo.suunnattu(suunta)),
                    None => None,
                },
                ..old(self)@
            }),
    {
        match self.pelihahmo {
            Some(hahmo) => {
                let mut uusi = hahmo;
                uusi.aseta_suunta(suunta);
                self.pelihahmo = Some(uusi);
            },
            None => {},
        }
    }

    /// The physics sides of the bodies, in the order in which they were
    /// given.
    pub fn fysiikalliset(&self) -> (tulos: &Vec<Fysiikkakappale>)
        ensures
            tulos@ == self@.fysiikalliset,
    {
        &self.fysiikka_kappaleet
    }

    /// The steering sides of the bodies, in the order in which they were
    /// given.
    pub fn alylliset(&self) -> (tulos: &Vec<Alyllinen>)
        ensures
            tulos@ == self@.alylliset,
    {
        &self.alylliset
    }

    /// The bodies that wait to be removed, in the order in which they were
    /// marked.
    pub fn poistettavat(&self) -> (tulos: &Vec<Tunniste>)
        ensures
            tulos@ == self@.poistettavat,
    {
        &self.poistettavat
    }

    /// The memories of earlier states, in the order in which the remembered
    /// bodies were added.
    pub fn kappalemuistit(&self) -> (tulos: &Vec<Kappalemuisti>)
        ensures
            tulos@ == self@.muistit,
    {
        &self.kappalemuisti
    }

    /// How far between the two remembered states the bodies are drawn,
    /// where the world keeps memories.
    pub fn anna_interpolaatio_arvo(&self) -> (tulos: Option<Interpolointiarvo>)
        ensures
            tulos == self@.interpolointi,
    {
        self.interpoloinnin_arvo
    }

    /// The bodies of the world with their handles, in the order in which
    /// they were added.
    pub fn kappaleet(&self) -> (tulos: &Vec<Olio>)
        ensures
            tulos@ == self@.kappaleet,
    {
        &self.kappaleet
    }

    /// Gives the body `kappale` the velocity `nopeus`, where the body has a
    /// physics side. Says whether it has.
    pub fn aseta_nopeus(&mut self, kappale: Tunniste, nopeus: Vektori) -> (tulos: bool)
        requires
            old(self)@.kunnossa(),
        ensures
            final(self)@.kunnossa(),
            tulos == sisaltaa_tunnisteen(old(self)@.fysiikalliset, kappale),
            tulos ==> final(self)@ == (Maailmamalli {
                fysiikalliset: old(self)@.fysiikalliset.update(
                    loytopaikka(old(self)@.fysiikalliset, kappale),
                    Fysiikkakappale { kappale, nopeus },
                ),
                ..old(self)@
            }),
            !tulos ==> final(self)@ == old(self)@,
    {
        match etsi(&self.fysiikka_kappaleet, kappale) {
            Some(paikka) => {
                let ghost vanhat = self.fysiikka_kappaleet@;
                proof {
                    let uudet = vanhat.update(paikka as int, Fysiikkakappale { kappale, nopeus });
                    assert forall|i: int, j: int| 0 <= i < j < uudet.len() implies (
                    #[trigger] uudet[i]).kappale_spec() != (#[trigger] uudet[j]).kappale_spec() by {
                        assert(vanhat[i].kappale_spec() != vanhat[j].kappale_spec());
                    }
                    assert forall|k: int| 0 <= k < uudet.len() implies self@.elossa(
                        (#[trigger] uudet[k]).kappale,
                    ) by {
                        assert(self@.elossa(vanhat[k].kappale));
                    }
                }
                self.fysiikka_kappaleet.set(paikka, Fysiikkakappale::new(nopeus, kappale));
                true
            },
            None => false,
        }
    }

    /// Puts the upper left corner of the body that stands at `paikka` among
    /// the bodies at `sijainti`.
    pub(crate) fn siirra_kappale(&mut self, paikka: usize, sijainti: Vektori)
        requires
            old(self)@.kunnossa(),
            paikka < old(self)@.kappaleet.len(),
        ensures
            final(self)@.kunnossa(),
            final(self)@ == (Maailmamalli {
                kappaleet: old(self)@.kappaleet.update(
                    paikka as int,
                    old(self)@.kappaleet[paikka as int].siirretty(sijainti),
                ),
                ..old(self)@
            }),
    {
        let ghost vanhat = self.kappaleet@;
        let olio = self.kappaleet[paikka];
        let uusi = Olio {
            tunniste: olio.tunniste,
            kappale: Kappale::new_kulmalla(
                olio.kappale.muoto,
                sijainti.x,
                sijainti.y,
                olio.kappale.tagi,
            ),
        };
        self.kappaleet.set(paikka, uusi);
        proof {
            lemma_samat_tunnisteet(vanhat, self.kappaleet@);
        }
    }

    /// Puts the upper left corner of the body `kappale` at `sijainti`,
    /// where the world has the body. Says whether it has.
    pub fn aseta_kappaleen_sijainti(&mut self, kappale: Tunniste, sijainti: Vektori) -> (tulos: bool)
        requires
            old(self)@.kunnossa(),
        ensures
            final(self)@.kunnossa(),
            tulos == old(self)@.elossa(kappale),
            tulos ==> final(self)@ == (Maailmamalli {
                kappaleet: old(self)@.kappaleet.update(
                    old(self)@.paikka(kappale),
                    old(self)@.kappaleet[old(self)@.paikka(kappale)].siirretty(sijainti),
                ),
                ..old(self)@
            }),
            !tulos ==> final(self)@ == old(self)@,
    {
        match etsi(&self.kappaleet, kappale) {
            Some(paikka) => {
                self.siirra_kappale(paikka, sijainti);
                true
            },
            None => false,
        }
    }

    /// The place among the bodies of the body that the physics side at
    /// place `i` belongs to.
    pub(crate) fn fysiikkakappaleen_paikka(&self, i: usize) -> (tulos: usize)
        requires
            self@.kunnossa(),
            i < self@.fysiikalliset.len(),
        ensures
            tulos == self@.paikka(self@.fysiikalliset[i as int].kappale),
            tulos < self@.kappaleet.len(),
            self@.kappaleet[tulos as int].tunniste == self@.fysiikalliset[i as int].kappale,
    {
        match etsi(&self.kappaleet, self.fysiikka_kappaleet[i].anna_kappale()) {
            Some(paikka) => paikka,
            None => {
                proof {
                    assert(self@.elossa(self@.fysiikalliset[i as int].kappale));
                }
                0
            },
        }
    }

    /// Adds an animation to the world.
    pub fn lisaa_animaatio(&mut self, animaatio: Kuolevainen<Animaatio>)
        requires
            old(self)@.kunnossa(),
        ensures
            final(self)@.kunnossa(),
            final(self)@ == (Maailmamalli {
                animaatiot: old(self)@.animaatiot.push(animaatio),
                ..old(self)@
            }),
    {
        self.animaatiot.lisaa_animaatio(animaatio);
    }

    /// Removes the animations that are dead at the time of the game, and
    /// makes the picture of the others as they are at that time.
    pub fn paivita_animaatiot(&mut self, paivitysaika: &Paivitysaika)
        requires
            old(self)@.kunnossa(),
        ensures
            final(self)@.kunnossa(),
            final(self)@ == (Maailmamalli {
                animaatiot: elavat(old(self)@.animaatiot, paivitysaika.kokonais_pelin_aika),
                animaatio_kuva: kuva(
                    elavat(old(self)@.animaatiot, paivitysaika.kokonais_pelin_aika),
                    paivitysaika.kokonais_pelin_aika,
                ),
                ..old(self)@
            }),
    {
        let mut uusi_kuva: Vec<ValiaikainenPiirrettavaKappale> = Vec::new();
        self.animaatiot.anna_piirrettavat(&mut uusi_kuva, paivitysaika);
        proof {
            let tyhja = Seq::<ValiaikainenPiirrettavaKappale>::empty();
            assert(tyhja + kuva(self.animaatiot@, paivitysaika.kokonais_pelin_aika) =~= kuva(
                self.animaatiot@,
                paivitysaika.kokonais_pelin_aika,
            ));
        }
        self.animaatio_kuva = uusi_kuva;
    }

    /// What the animations showed when their picture was last made.
    pub fn animaatio_kuva(&self) -> (tulos: &Vec<ValiaikainenPiirrettavaKappale>)
        ensures
            tulos@ == self@.animaatio_kuva,
    {
        &self.animaatio_kuva
    }

    /// The animations of the world.
    pub fn animaatiot(&self) -> (tulos: &Animaatiot)
        ensures
            tulos@ == self@.animaatiot,
    {
        &self.animaatiot
    }

    /// The centre of the body `tunniste`, where the world has the body.
    pub fn anna_keskipiste(&self, tunniste: Tunniste) -> (tulos: Option<Vektori>)
        ensures
            tulos == self@.keskipiste(tunniste),
    {
        match self.anna_kappale(tunniste) {
            Some(kappale) => Some(kappale.keskipisteen_sijainti()),
            None => None,
        }
    }

    /// Tells the world how far between the two remembered states the bodies
    /// are drawn.
    pub fn aseta_interpolaatio_arvo(&mut self, arvo: Interpolointiarvo)
        requires
            old(self)@.kunnossa(),
        ensures
            final(self)@.kunnossa(),
            final(self)@ == (Maailmamalli { interpolointi: Some(arvo), ..old(self)@ }),
    {
        self.interpoloinnin_arvo = Some(arvo);
    }

    /// Lets every memory take the state of its body as it is now for its
    /// newer state; what was the newer state becomes the older one.
    pub fn paivita_kappalemuistia(&mut self)
        requires
            old(self)@.kunnossa(),
        ensures
            final(self)@.kunnossa(),
            final(self)@ == (Maailmamalli {
                muistit: old(self)@.muistit_paivitetty(),
                ..old(self)@
            }),
    {
        let ghost alku = self@;
        let mut i: usize = 0;
        while i < self.kappalemuisti.len()
            invariant
                alku == old(self)@,
                alku.kunnossa(),
                self@.kunnossa(),
                self@ == (Maailmamalli { muistit: self@.muistit, ..alku }),
                i <= self@.muistit.len() == alku.muistit.len(),
                forall|k: int|
                    0 <= k < i ==> (#[trigger] self@.muistit[k]) == alku.muistit_paivitetty()[k],
                forall|k: int|
                    i <= k < alku.muistit.len() ==> (#[trigger] self@.muistit[k])
                        == alku.muistit[k],
            decreases self.kappalemuisti.len() - i,
        {
            let ghost ennen = self@.muistit;
            let mut muisti = self.kappalemuisti[i];
            match self.anna_kappale(muisti.anna_kappale()) {
                Some(kappale) => {
                    muisti.paivita_muistia(kappale);
                },
                None => {},
            }
            proof {
                let uudet = ennen.update(i as int, muisti);
                assert forall|k: int| 0 <= k < uudet.len() implies self@.elossa(
                    (#[trigger] uudet[k]).oikea_versio,
                ) by {
                    assert(self@.elossa(ennen[k].oikea_versio));
                }
            }
            self.kappalemuisti.set(i, muisti);
            i += 1;
        }
        proof {
            assert(self@.muistit =~= alku.muistit_paivitetty());
        }
    }

    /// Adds to `lista` the bodies to draw: one for each remembered body,
    /// placed between the two states that are remembered of it.
    pub fn anna_piirrettavat(&self, lista: &mut Vec<ValiaikainenPiirrettavaKappale>)
        ensures
            final(lista)@ == old(lista)@ + self@.valikuva(self@.muistit.len() as int),
    {
        let ghost alussa = lista@;
        assert(alussa + self@.valikuva(0) =~= alussa);
        let mut i: usize = 0;
        while i < self.kappalemuisti.len()
            invariant
                alussa == old(lista)@,
                i <= self@.muistit.len(),
                self@.muistit == self.kappalemuisti@,
                lista@ == alussa + self@.valikuva(i as int),
            decreases self.kappalemuisti.len() - i,
        {
            let muisti = self.kappalemuisti[i];
            if let Some(arvo) = self.interpoloinnin_arvo {
                let (vasen, oikea) = muisti.anna_versiot();
                let sijainti = lineaarinen_interpolaatio_vektori(
                    0,
                    vasen.kulman_sijainti(),
                    arvo.nimittaja,
                    oikea.kulman_sijainti(),
                    arvo.osoittaja,
                );
                let piirrettava = self.anna_piirrettavyys(muisti.anna_kappale());
                match (sijainti, piirrettava) {
                    (Some(sijainti), Some(piirrettava)) => {
                        lista.push(
                            ValiaikainenPiirrettavaKappale::new(
                                Kappale::new_kulmalla(
                                    oikea.muoto,
                                    sijainti.x,
                                    sijainti.y,
                                    vasen.tagi,
                                ),
                                piirrettava.anna_piirtotapa().kopio(),
                            ),
                        );
                    },
                    _ => {},
                }
            }
            assert(lista@ =~= alussa + self@.valikuva(i + 1));
            i += 1;
        }
    }

    /// Lets every steering body decide what it does and gives the bodies
    /// that decide to move their new velocities.
    pub fn laske_tekoalyt(&mut self)
        requires
            old(self)@.kunnossa(),
        ensures
            final(self)@.kunnossa(),
            final(self)@ == (Maailmamalli {
                fysiikalliset: old(self)@.alyt_sovellettu(old(self)@.alylliset.len() as int),
                ..old(self)@
            }),
    {
        let ghost alku = self@;
        // Every body decides before any body is given its velocity.
        let mut toiminnot: Vec<AlyToiminta> = Vec::new();
        let tmaailma = TekoalyMaailma::new(self);
        let mut i: usize = 0;
        while i < self.alylliset.len()
            invariant
                alku == self@,
                tmaailma@ == alku,
                i <= alku.alylliset.len(),
                toiminnot@.len() == i,
                forall|k: int|
                    0 <= k < i ==> (#[trigger] toiminnot@[k]) == alku.alyn_toiminta(
                        alku.alylliset[k].aly,
                        alku.alylliset[k].kappale,
                    ),
            decreases self.alylliset.len() - i,
        {
            toiminnot.push(self.alylliset[i].alyile(&tmaailma));
            i += 1;
        }

        let mut i: usize = 0;
        while i < toiminnot.len()
            invariant
                alku == old(self)@,
                self@.kunnossa(),
                i <= toiminnot@.len() == alku.alylliset.len(),
                forall|k: int|
                    0 <= k < toiminnot@.len() ==> (#[trigger] toiminnot@[k]) == alku.alyn_toiminta(
                        alku.alylliset[k].aly,
                        alku.alylliset[k].kappale,
                    ),
                self@ == (Maailmamalli { fysiikalliset: alku.alyt_sovellettu(i as int), ..alku }),
            decreases toiminnot.len() - i,
        {
            match toiminnot[i].nopeus() {
                Some(nopeus) => {
                    let kappale = self.alylliset[i].anna_kappale();
                    self.aseta_nopeus(kappale, nopeus);
                },
                None => {},
            }
            i += 1;
        }
    }

    /// Marks the body `poistettava` to be removed. The body stays in the
    /// world until `poista_poistettavat` is called.
    pub fn lisaa_poistettava(&mut self, poistettava: Tunniste)
        requires
            old(self)@.kunnossa(),
        ensures
            final(self)@.kunnossa(),
            final(self)@ == (Maailmamalli {
                poistettavat: old(self)@.poistettavat.push(poistettava),
                ..old(self)@
            }),
    {
        self.poistettavat.push(poistettava);
    }

    /// Removes every body that was marked for it, with all that belongs to
    /// the body: its physics side, its drawable sides, its steering sides,
    /// its memories, and the mark of the player's character where that was
    /// the body.
    pub fn poista_poistettavat(&mut self)
        requires
            old(self)@.kunnossa(),
        ensures
            final(self)@.kunnossa(),
            final(self)@ == old(self)@.puhdistettu(),
    {
        while self.poistettavat.len() > 0
            invariant
                self@.kunnossa(),
                self@.puhdistettu() == old(self)@.puhdistettu(),
            decreases self.poistettavat.len(),
        {
            let ghost ennen = self@;
            let poistettava = self.poistettavat.pop().unwrap();
            poista_lisaosat(&mut self.fysiikka_kappaleet, poistettava);
            poista_lisaosat(&mut self.piirrettavat_kappaleet, poistettava);
            poista_lisaosat(&mut self.alylliset, poistettava);
            poista_lisaosat(&mut self.kappalemuisti, poistettava);
            poista_lisaosat(&mut self.kappaleet, poistettava);
            let osuu = match self.pelihahmo {
                Some(hahmo) => hahmo.anna_kappale() == poistettava,
                None => false,
            };
            if osuu {
                self.pelihahmo = None;
            }
            proof {
                let lyhennetty = Maailmamalli {
                    poistettavat: ennen.poistettavat.drop_last(),
                    ..ennen
                };
                assert(ennen.poistettavat.last() == poistettava);
                assert(self@.poistettavat =~= lyhennetty.poistettavat);
                assert(self@ == lyhennetty.poistettu(poistettava));
                lemma_poistettu_kunnossa(lyhennetty, poistettava);
            }
        }
    }
}

impl Default for Perusmaailma {
    /// An empty world.
    fn default() -> (tulos: Perusmaailma)
        ensures
            tulos@ == Maailmamalli::tyhja(false),
            tulos@.kunnossa(),
    {
        Perusmaailma::new()
    }
}

/// Something that may have a character of the player.
pub trait Pelihahmollinen {
    /// The character of the player, where there is one.
    spec fn pelihahmo_spec(&self) -> Option<Pelihahmo>;

    /// Gives the character of the player, where there is one.
    fn anna_pelihahmo(&self) -> (tulos: Option<Pelihahmo>)
        ensures
            tulos == self.pelihahmo_spec(),
    ;
}

impl Pelihahmollinen for Perusmaailma {
    open spec fn pelihahmo_spec(&self) -> Option<Pelihahmo> {
        self@.pelihahmo
    }

    fn anna_pelihahmo(&self) -> (tulos: Option<Pelihahmo>) {
        self.pelihahmo
    }
}

/// Something that gives the sides of a body when asked.
pub trait LisaosienAntaja {
    /// The drawable sides that can be given.
    spec fn piirrettavyydet_spec(&self) -> Seq<PiirrettavaKappale>;

    /// The physics sides that can be given.
    spec fn fysiikat_spec(&self) -> Seq<Fysiikkakappale>;

    /// The drawable side of the body `kappale`: the first one, where it has
    /// several, and nothing where it has none.
    fn anna_piirrettavyys(&self, kappale: Tunniste) -> (tulos: Option<&PiirrettavaKappale>)
        ensures
            match tulos {
                Some(piirrettava) => sisaltaa_tunnisteen(self.piirrettavyydet_spec(), kappale)
                    && *piirrettava == self.piirrettavyydet_spec()[loytopaikka(
                    self.piirrettavyydet_spec(),
                    kappale,
                )],
                None => !sisaltaa_tunnisteen(self.piirrettavyydet_spec(), kappale),
            },
    ;

    /// The physics side of the body `kappale`, where it has one.
    fn anna_fysiikka(&self, kappale: Tunniste) -> (tulos: Option<Fysiikkakappale>)
        ensures
            tulos == if sisaltaa_tunnisteen(self.fysiikat_spec(), kappale) {
                Some(self.fysiikat_spec()[loytopaikka(self.fysiikat_spec(), kappale)])
            } else {
                None
            },
    ;
}

impl LisaosienAntaja for Perusmaailma {
    open spec fn piirrettavyydet_spec(&self) -> Seq<PiirrettavaKappale> {
        self@.piirrettavat
    }

    open spec fn fysiikat_spec(&self) -> Seq<Fysiikkakappale> {
        self@.fysiikalliset
    }

    fn anna_piirrettavyys(&self, kappale: Tunniste) -> (tulos: Option<&PiirrettavaKappale>) {
        match etsi(&self.piirrettavat_kappaleet, kappale) {
            Some(paikka) => Some(&self.piirrettavat_kappaleet[paikka]),
            None => None,
        }
    }

    fn anna_fysiikka(&self, kappale: Tunniste) -> (tulos: Option<Fysiikkakappale>) {
        match etsi(&self.fysiikka_kappaleet, kappale) {
            Some(paikka) => Some(self.fysiikka_kappaleet[paikka]),
            None => None,
        }
    }
}

impl PiirrettavaMaailma for Perusmaailma {
    open spec fn piirrettavat_spec(&self) -> Seq<PiirrettavaKappale> {
        self@.piirrettavat
    }

    open spec fn kameran_sijainti_spec(&self) -> Option<Vektori> {
        self@.kameran_sijainti()
    }

    fn piirrettavat(&self, _sijainti: Vektori) -> (tulos: &Vec<PiirrettavaKappale>) {
        &self.piirrettavat_kappaleet
    }

    fn anna_kameran_sijainti(&self) -> (tulos: Option<Vektori>) {
        match self.pelihahmo {
            Some(hahmo) => self.anna_keskipiste(hahmo.anna_kappale()),
            None => None,
        }
    }
}

} // verus!

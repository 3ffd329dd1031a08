//! The update of the character that the player steers.
use vstd::prelude::*;
use crate::fysiikka::Fysiikkakappale;
use crate::maailma::kappale::{Kappale, Muoto, Tagi};
use crate::maailma::lisaosa::{loytopaikka, sisaltaa_tunnisteen, Lisaosa};
use crate::maailma::vektori::{jaa_luku, osamaara, rajaa, rajattu, Vektori};
use crate::maailma::{
    lemma_uusi_tunniste_on_vapaa,
    Maailmamalli,
    Pelihahmollinen,
    Perusmaailma,
};
use crate::peli::lisaa_kuvallinen_kappale;
use crate::piirtaja::Piirtotapa;
use crate::spawneri::spawnattu;
use crate::syotteet::{nappaimen_tila, nappain_lisatty, Muutos, Nappain, Syotteet, Tila};

verus! {

/// The key that moves the character to the right.
pub const OIKEALLE_LIIKKUMINEN: i32 = 79;

/// The key that moves the character to the left.
pub const VASEMMALLE_LIIKKUMINEN: i32 = 80;

/// The key that moves the character down.
pub const ALAS_LIIKKUMINEN: i32 = 81;

/// The key that moves the character up.
pub const YLOS_LIIKKUMINEN: i32 = 82;

/// The key that shoots.
pub const AMPUMINEN: i32 = 44;

/// The speed of the character, in units a second.
pub const PELIHAHMON_NOPEUS: i32 = 120_000;

/// The speed of a projectile, in units a second.
pub const AMMUKSEN_NOPEUS: i32 = 260_000;

/// The radius of a projectile.
pub const AMMUKSEN_LEVEYS: i32 = 5_000;

/// The gap between the character and the projectile it shoots.
pub const AMMUKSEN_VALI: i32 = 10_000;

/// Whether the key `koodi` is watched and held down.
pub open spec fn pohjassa(nappaimet: Seq<Nappain>, koodi: i32) -> bool {
    match nappaimen_tila(nappaimet, koodi) {
        Some(tila) => tila is Pohjassa,
        None => false,
    }
}

/// The velocity that the keys held down give the character: its speed
/// along each axis on which exactly one of the two keys is down.
pub open spec fn pelaajan_nopeus(nappaimet: Seq<Nappain>) -> Vektori {
    Vektori {
        x: ((if pohjassa(nappaimet, OIKEALLE_LIIKKUMINEN) {
            PELIHAHMON_NOPEUS as int
        } else {
            0
        }) - (if pohjassa(nappaimet, VASEMMALLE_LIIKKUMINEN) {
            PELIHAHMON_NOPEUS as int
        } else {
            0
        })) as i32,
        y: ((if pohjassa(nappaimet, ALAS_LIIKKUMINEN) {
            PELIHAHMON_NOPEUS as int
        } else {
            0
        }) - (if pohjassa(nappaimet, YLOS_LIIKKUMINEN) {
            PELIHAHMON_NOPEUS as int
        } else {
            0
        })) as i32,
    }
}

/// How far from the centre of a character as wide as `leveys` the centre
/// of the projectile it shoots lies: half the width of each and the gap
/// between them.
pub open spec fn ammuksen_etaisyys(leveys: i32) -> i32 {
    rajattu(osamaara(leveys as int, 2) + AMMUKSEN_LEVEYS + AMMUKSEN_VALI) as i32
}

/// The world after the character has been given its velocity and has
/// turned to face the way it moves.
pub open spec fn hahmo_ohjattu(malli: Maailmamalli, nappaimet: Seq<Nappain>) -> Maailmamalli {
    match malli.pelihahmo {
        Some(hahmo) => {
            let nopeus = pelaajan_nopeus(nappaimet);
            Maailmamalli {
                fysiikalliset: if sisaltaa_tunnisteen(malli.fysiikalliset, hahmo.kappale) {
                    malli.fysiikalliset.update(
                        loytopaikka(malli.fysiikalliset, hahmo.kappale),
                        Fysiikkakappale { kappale: hahmo.kappale, nopeus },
                    )
                } else {
                    malli.fysiikalliset
                },
                pelihahmo: Some(hahmo.suunnattu(nopeus)),
                ..malli
            }
        },
        None => malli,
    }
}

/// The world after the character has shot: a projectile drawn with the
/// picture `kuva` lies ahead of the character and flies the way the
/// character faces. A character that faces nowhere, or whose body is not
/// in the world, shoots nothing.
pub open spec fn ammuttu(malli: Maailmamalli, kuva: String) -> Maailmamalli {
    match malli.pelihahmo {
        Some(hahmo) => match (malli.keskipiste(hahmo.kappale), malli.kappale(hahmo.kappale)) {
            (Some(keskipiste), Some(kappale)) => if hahmo.suunta.x == 0 && hahmo.suunta.y == 0 {
                malli
            } else {
                let etaisyys = ammuksen_etaisyys(rajattu(kappale.muoto.leveys_spec()) as i32);
                let sijainti = keskipiste.summa_spec(hahmo.suunta.venytetty_spec(etaisyys));
                spawnattu(
                    malli,
                    Kappale::keskitetty(
                        Muoto::Ympyra(AMMUKSEN_LEVEYS),
                        sijainti.x,
                        sijainti.y,
                        Tagi::Ammus,
                    ),
                    Piirtotapa::Kuvallinen { kuvan_nimi: kuva },
                    Some(hahmo.suunta.venytetty_spec(AMMUKSEN_NOPEUS)),
                    None,
                )
            },
            _ => malli,
        },
        None => malli,
    }
}

/// The watched keys after the keys that steer the character were asked to
/// be watched: the four that move it, and the one that shoots.
pub open spec fn ohjausnappaimet_lisatty(
    nappaimet: Seq<Nappain>,
    pohjassa_olevat: Seq<i32>,
) -> Seq<Nappain> {
    nappain_lisatty(
        nappain_lisatty(
            nappain_lisatty(
                nappain_lisatty(
                    nappain_lisatty(nappaimet, pohjassa_olevat, OIKEALLE_LIIKKUMINEN),
                    pohjassa_olevat,
                    VASEMMALLE_LIIKKUMINEN,
                ),
                pohjassa_olevat,
                YLOS_LIIKKUMINEN,
            ),
            pohjassa_olevat,
            ALAS_LIIKKUMINEN,
        ),
        pohjassa_olevat,
        AMPUMINEN,
    )
}

/// The world after an update of the character: the character has been
/// steered, and it has shot, with projectiles drawn with the picture
/// `kuva`, if the key for that has just been pressed.
pub open spec fn pelihahmo_paivitetty(
    malli: Maailmamalli,
    nappaimet: Seq<Nappain>,
    kuva: String,
) -> Maailmamalli {
    if nappaimen_tila(nappaimet, AMPUMINEN) == Some(Tila::Pohjassa(Muutos::Muuttunut)) {
        ammuttu(hahmo_ohjattu(malli, nappaimet), kuva)
    } else {
        hahmo_ohjattu(malli, nappaimet)
    }
}

/// Sees to the update of the character that the player steers.
pub struct PelihahmonPaivitys {
    /// The name of the picture with which projectiles are drawn.
    pub ammuksen_kuva: String,
}

impl PelihahmonPaivitys {
    /// An update whose projectiles are drawn with the picture named
    /// `ammuksen_kuva`.
    pub fn new(ammuksen_kuva: String) -> (tulos: PelihahmonPaivitys)
        ensures
            tulos.ammuksen_kuva == ammuksen_kuva,
    {
        PelihahmonPaivitys { ammuksen_kuva }
    }

    /// The world after an update of the character.
    pub open spec fn paivitetty(&self, malli: Maailmamalli, nappaimet: Seq<Nappain>) -> Maailmamalli {
        pelihahmo_paivitetty(malli, nappaimet, self.ammuksen_kuva)
    }

    /// Begins to watch the keys that steer the character. The numbers of
    /// the keys that are held down now are `pohjassa_olevat`.
    pub fn alusta(&self, syotteet: &mut Syotteet, pohjassa_olevat: &Vec<i32>)
        ensures
            final(syotteet)@ == ohjausnappaimet_lisatty(old(syotteet)@, pohjassa_olevat@),
    {
        syotteet.lisaa_nappain(pohjassa_olevat, OIKEALLE_LIIKKUMINEN);
        syotteet.lisaa_nappain(pohjassa_olevat, VASEMMALLE_LIIKKUMINEN);
        syotteet.lisaa_nappain(pohjassa_olevat, YLOS_LIIKKUMINEN);
        syotteet.lisaa_nappain(pohjassa_olevat, ALAS_LIIKKUMINEN);
        syotteet.lisaa_nappain(pohjassa_olevat, AMPUMINEN);
    }

    /// Updates the character: it moves as the keys say, faces the way it
    /// moves, and shoots when the key for that has just been pressed.
    pub fn paivita(&self, maailma: &mut Perusmaailma, syotteet: &Syotteet)
        requires
            old(maailma)@.kunnossa(),
        ensures
            final(maailma)@.kunnossa(),
            final(maailma)@ == self.paivitetty(old(maailma)@, syotteet@),
    {
        let hahmo = match maailma.anna_pelihahmo() {
            Some(hahmo) => hahmo,
            None => {
                return ;
            },
        };
        let mut x: i32 = 0;
        let mut y: i32 = 0;
        if syotteet.nappain_pohjassa(OIKEALLE_LIIKKUMINEN) {
            x = x + PELIHAHMON_NOPEUS;
        }
        if syotteet.nappain_pohjassa(VASEMMALLE_LIIKKUMINEN) {
            x = x - PELIHAHMON_NOPEUS;
        }
        if syotteet.nappain_pohjassa(YLOS_LIIKKUMINEN) {
            y = y - PELIHAHMON_NOPEUS;
        }
        if syotteet.nappain_pohjassa(ALAS_LIIKKUMINEN) {
            y = y + PELIHAHMON_NOPEUS;
        }
        let hahmon_kappale = hahmo.anna_kappale();
        let pelaajan_nopeus = Vektori::new(x, y);
        maailma.aseta_nopeus(hahmon_kappale, pelaajan_nopeus);
        maailma.aseta_pelihahmon_suunta(pelaajan_nopeus);
        assert(maailma@ == hahmo_ohjattu(old(maailma)@, syotteet@));

        if syotteet.nappain_painettu(AMPUMINEN) {
            let ghost ohjattu = maailma@;
            let ammuksen_suunta = match maailma.anna_pelihahmo() {
                Some(hahmo) => hahmo.anna_suunta(),
                None => {
                    return ;
                },
            };
            match (maailma.anna_keskipiste(hahmon_kappale), maailma.anna_kappale(hahmon_kappale)) {
                (Some(pelaajan_keskipiste), Some(kappale)) => {
                    let pelaajan_koko = kappale.muoto.koko();
                    let muutos_kerroin: i32 = rajaa(
                        jaa_luku(pelaajan_koko.0 as i128, 2) + AMMUKSEN_LEVEYS as i128
                            + AMMUKSEN_VALI as i128,
                    );
                    match (
                        ammuksen_suunta.venyta(muutos_kerroin),
                        ammuksen_suunta.venyta(AMMUKSEN_NOPEUS),
                    ) {
                        (Some(siirtyma), Some(nopeus)) => {
                            let ammuksen_sijainti = pelaajan_keskipiste.summa(siirtyma);
                            let ammus = Kappale::new_keskipisteella(
                                Muoto::Ympyra(AMMUKSEN_LEVEYS),
                                ammuksen_sijainti.x,
                                ammuksen_sijainti.y,
                                Tagi::Ammus,
                            );
                            proof {
                                lemma_uusi_tunniste_on_vapaa(maailma@, ammus);
                            }
                            match lisaa_kuvallinen_kappale(
                                maailma,
                                ammus,
                                self.ammuksen_kuva.clone(),
                            ) {
                                Some(r_kappale) => {
                                    let lisatty = maailma.lisaa_fysiikkakappale(
                                        Fysiikkakappale::new(nopeus, r_kappale),
                                    );
                                    assert(lisatty);
                                },
                                None => {},
                            }
                        },
                        _ => {},
                    }
                },
                _ => {},
            }
        }
    }
}

} // verus!

//! The game itself: what is in its world and how it is updated.
use vstd::prelude::*;
use crate::fysiikka::Fysiikkakappale;
use crate::maailma::kappale::Kappale;
use crate::maailma::lisaosa::Tunniste;
use crate::maailma::vektori::Vektori;
use crate::maailma::{lemma_uusi_tunniste_on_vapaa, Perusmaailma};
use crate::piirtaja::{PiirrettavaKappale, Piirtotapa, Vari};
use crate::spawneri::spawnattu;

pub mod pelihahmonpaivitys;
pub mod pelinpaivitys;

verus! {

/// Adds a body to the world and makes it drawable in one colour. Gives the
/// handle of the body, or nothing where the world has no handle left to
/// give.
pub fn lisaa_kappale(maailma: &mut Perusmaailma, kappale: Kappale, vari: Vari) -> (tulos: Option<
    Tunniste,
>)
    requires
        old(maailma)@.kunnossa(),
    ensures
        final(maailma)@.kunnossa(),
        final(maailma)@ == spawnattu(
            old(maailma)@,
            kappale,
            Piirtotapa::Yksivarinen { vari },
            None,
            None,
        ),
        tulos == (if old(maailma)@.seuraava == u64::MAX {
            None
        } else {
            Some(old(maailma)@.seuraava_tunniste())
        }),
        tulos is Some ==> final(maailma)@.elossa(tulos->Some_0),
{
    proof {
        lemma_uusi_tunniste_on_vapaa(maailma@, kappale);
    }
    match maailma.lisaa_kappale(kappale) {
        Some(r_kappale) => {
            let piirretty = maailma.lisaa_piirrettava_kappale(
                PiirrettavaKappale::new(r_kappale, Piirtotapa::Yksivarinen { vari }),
            );
            assert(piirretty);
            Some(r_kappale)
        },
        None => None,
    }
}

/// Adds a body to the world and makes it drawable with the picture named
/// `kuva`. Gives the handle of the body, or nothing where the world has no
/// handle left to give.
pub fn lisaa_kuvallinen_kappale(maailma: &mut Perusmaailma, kappale: Kappale, kuva: String) -> (tulos:
    Option<Tunniste>)
    requires
        old(maailma)@.kunnossa(),
    ensures
        final(maailma)@.kunnossa(),
        final(maailma)@ == spawnattu(
            old(maailma)@,
            kappale,
            Piirtotapa::Kuvallinen { kuvan_nimi: kuva },
            None,
            None,
        ),
        tulos == (if old(maailma)@.seuraava == u64::MAX {
            None
        } else {
            Some(old(maailma)@.seuraava_tunniste())
        }),
        tulos is Some ==> final(maailma)@.elossa(tulos->Some_0),
{
    proof {
        lemma_uusi_tunniste_on_vapaa(maailma@, kappale);
    }
    match maailma.lisaa_kappale(kappale) {
        Some(r_kappale) => {
            let piirretty = maailma.lisaa_piirrettava_kappale(
                PiirrettavaKappale::new(r_kappale, Piirtotapa::Kuvallinen { kuvan_nimi: kuva }),
            );
            assert(piirretty);
            Some(r_kappale)
        },
        None => None,
    }
}

/// Adds a body to the world, makes it drawable in one colour and gives it
/// a physics side, at rest. Gives the handle of the body, or nothing where
/// the world has no handle left to give.
pub fn lisaa_fysiikka_kappale(maailma: &mut Perusmaailma, kappale: Kappale, vari: Vari) -> (tulos:
    Option<Tunniste>)
    requires
        old(maailma)@.kunnossa(),
    ensures
        final(maailma)@.kunnossa(),
        final(maailma)@ == spawnattu(
            old(maailma)@,
            kappale,
            Piirtotapa::Yksivarinen { vari },
            Some(Vektori { x: 0, y: 0 }),
            None,
        ),
        tulos == (if old(maailma)@.seuraava == u64::MAX {
            None
        } else {
            Some(old(maailma)@.seuraava_tunniste())
        }),
        tulos is Some ==> final(maailma)@.elossa(tulos->Some_0),
{
    proof {
        lemma_uusi_tunniste_on_vapaa(maailma@, kappale);
    }
    match maailma.lisaa_kappale(kappale) {
        Some(r_kappale) => {
            let piirretty = maailma.lisaa_piirrettava_kappale(
                PiirrettavaKappale::new(r_kappale, Piirtotapa::Yksivarinen { vari }),
            );
            assert(piirretty);
            let lisatty = maailma.lisaa_fysiikkakappale(
                Fysiikkakappale::new(Vektori::new(0, 0), r_kappale),
            );
            assert(lisatty);
            Some(r_kappale)
        },
        None => None,
    }
}

} // verus!

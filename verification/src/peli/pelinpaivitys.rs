//! The updates of the game: physics with the reactions to collisions,
//! steering, animations and spawning.
use vstd::prelude::*;
use crate::animointi::{elavat, kuva, AmmusAnimaatio, Animaatio, KatoamisAnimaatio, Kuolevainen};
use crate::fysiikka::{
    fysiikan_jalkeen,
    lemma_tormaajat_ovat_fysiikallisia,
    liikutettu,
    tormaykset,
    Fysiikka,
    Tormaystiedot,
    Tormaystieto,
};
use crate::maailma::kappale::{Kappale, Muoto, Tagi};
use crate::maailma::pelihahmo::Pelihahmo;
use crate::maailma::vektori::{rajattu, Vektori};
use crate::maailma::{lemma_uusi_tunniste_on_vapaa, Maailmamalli, Perusmaailma};
use crate::paivitys::Paivitysaika;
use crate::peli::{lisaa_fysiikka_kappale, lisaa_kappale};
use crate::piirtaja::{Piirtotapa, Vari};
use crate::spawneri::{spawnattu, Spawneri};
use crate::tekoaly::{Aly, Alyllinen, SeurausAly};
use crate::tormays::{jokin_joukossa, Tormaystapahtuma, Tormaystoiminta, YleinenTormays};

verus! {

/// How long the mark of a destroyed projectile is shown, in nanoseconds.
pub const AMMUKSEN_JALJEN_KESTO: u64 = 100_000_000;

/// How long a destroyed body fades away, in nanoseconds.
pub const TUHOUTUMISEN_KESTO: u64 = 1_000_000_000;

/// The side of the square that is left of a body that has faded away.
pub const TUHOUTUMISEN_LOPPUKOKO: i32 = 1_000;

/// The colour of the animations of destroyed bodies.
pub open spec fn tuhon_vari() -> Vari {
    Vari { r: 200, g: 0, b: 100, a: 255 }
}

/// Whether a reaction can be applied to the collider at `indeksi`: the
/// world has that physics side, and the animations of the reactions end
/// within the time that can be counted.
pub open spec fn tormaaja_kelpaa(malli: Maailmamalli, indeksi: usize, aika: Paivitysaika) -> bool {
    &&& indeksi < malli.fysiikalliset.len()
    &&& aika.kokonais_pelin_aika + TUHOUTUMISEN_KESTO <= u64::MAX
}

/// The world after the collider at `indeksi` was destroyed as a projectile
/// is: the mark of a destroyed projectile is shown at the centre of the
/// body, along the way that the body moved, until its time is over, and
/// the body waits to be removed.
pub open spec fn tormaaja_tuhottu(
    malli: Maailmamalli,
    indeksi: usize,
    aika: Paivitysaika,
) -> Maailmamalli {
    let fysiikka = malli.fysiikalliset[indeksi as int];
    match malli.keskipiste(fysiikka.kappale) {
        Some(keskipiste) => Maailmamalli {
            animaatiot: malli.animaatiot.push(
                Kuolevainen {
                    kuolin_aika: (aika.kokonais_pelin_aika + AMMUKSEN_JALJEN_KESTO) as u64,
                    arvo: Animaatio::Ammus(
                        AmmusAnimaatio {
                            animaation_alku: aika.kokonais_pelin_aika,
                            sijainti: keskipiste,
                            suunta: fysiikka.nopeus,
                            muutoksen_kesto: AMMUKSEN_JALJEN_KESTO,
                            kappaleen_vari: tuhon_vari(),
                        },
                    ),
                },
            ),
            poistettavat: malli.poistettavat.push(fysiikka.kappale),
            ..malli
        },
        None => malli,
    }
}

/// The world after the collider at `indeksi` was destroyed and fades away:
/// a square as wide as the body shrinks at the centre of the body until
/// its time is over, and the body waits to be removed.
pub open spec fn animaatio_tuhoutunut(
    malli: Maailmamalli,
    indeksi: usize,
    aika: Paivitysaika,
) -> Maailmamalli {
    let fysiikka = malli.fysiikalliset[indeksi as int];
    match (malli.keskipiste(fysiikka.kappale), malli.kappale(fysiikka.kappale)) {
        (Some(keskipiste), Some(kappale)) => Maailmamalli {
            animaatiot: malli.animaatiot.push(
                Kuolevainen {
                    kuolin_aika: (aika.kokonais_pelin_aika + TUHOUTUMISEN_KESTO) as u64,
                    arvo: Animaatio::Katoamis(
                        KatoamisAnimaatio {
                            animaation_alku: aika.kokonais_pelin_aika,
                            sijainti: keskipiste,
                            alkukoko: rajattu(kappale.muoto.leveys_spec()) as i32,
                            loppukoko: TUHOUTUMISEN_LOPPUKOKO,
                            muutoksen_kesto: TUHOUTUMISEN_KESTO,
                            kappaleen_vari: tuhon_vari(),
                        },
                    ),
                },
            ),
            poistettavat: malli.poistettavat.push(fysiikka.kappale),
            ..malli
        },
        _ => malli,
    }
}

/// Destroys the collider of `tormays`: it leaves the mark of a destroyed
/// projectile and is marked to be removed.
pub fn tuhoa_tormaaja(
    tormays: &Tormaystieto,
    maailma: &mut Perusmaailma,
    paivitysaika: &Paivitysaika,
)
    requires
        old(maailma)@.kunnossa(),
        tormaaja_kelpaa(old(maailma)@, tormays.indeksi, *paivitysaika),
    ensures
        final(maailma)@.kunnossa(),
        final(maailma)@ == tormaaja_tuhottu(old(maailma)@, tormays.indeksi, *paivitysaika),
{
    let fysiikka = maailma.fysiikalliset()[tormays.indeksi];
    let kopio = fysiikka.kappale;
    match maailma.anna_keskipiste(kopio) {
        Some(keskipiste) => {
            maailma.lisaa_animaatio(
                Kuolevainen::new(
                    Animaatio::Ammus(
                        AmmusAnimaatio::new(
                            keskipiste,
                            paivitysaika.kokonais_pelin_aika,
                            fysiikka.anna_nopeus(),
                            AMMUKSEN_JALJEN_KESTO,
                            Vari::rgb(200, 0, 100),
                        ),
                    ),
                    paivitysaika.kokonais_pelin_aika + AMMUKSEN_JALJEN_KESTO,
                ),
            );
            maailma.lisaa_poistettava(kopio);
        },
        None => {},
    }
}

/// Destroys the collider of `tormays`: it fades away and is marked to be
/// removed.
pub fn animaatio_tuhoutuminen(
    tormays: &Tormaystieto,
    maailma: &mut Perusmaailma,
    paivitysaika: &Paivitysaika,
)
    requires
        old(maailma)@.kunnossa(),
        tormaaja_kelpaa(old(maailma)@, tormays.indeksi, *paivitysaika),
    ensures
        final(maailma)@.kunnossa(),
        final(maailma)@ == animaatio_tuhoutunut(old(maailma)@, tormays.indeksi, *paivitysaika),
{
    let fysiikka = maailma.fysiikalliset()[tormays.indeksi];
    let kopio = fysiikka.kappale;
    match (maailma.anna_keskipiste(kopio), maailma.anna_kappale(kopio)) {
        (Some(keskipiste), Some(kappale)) => {
            maailma.lisaa_animaatio(
                Kuolevainen::new(
                    Animaatio::Katoamis(
                        KatoamisAnimaatio::new(
                            keskipiste,
                            paivitysaika.kokonais_pelin_aika,
                            kappale.muoto.koko().0,
                            TUHOUTUMISEN_LOPPUKOKO,
                            TUHOUTUMISEN_KESTO,
                            Vari::rgb(200, 0, 100),
                        ),
                    ),
                    paivitysaika.kokonais_pelin_aika + TUHOUTUMISEN_KESTO,
                ),
            );
            maailma.lisaa_poistettava(kopio);
        },
        _ => {},
    }
}

/// The rules of the game for collisions, each as the tags of the colliders
/// it is about, the tags of the bodies hit it is about, and what follows: a
/// projectile that hits anything is destroyed, and an enemy that hits a
/// projectile fades away.
pub open spec fn pelin_saannot() -> Seq<(Seq<Tagi>, Seq<Tagi>, Tormaystapahtuma)> {
    seq![
        (
            seq![Tagi::Ammus],
            seq![Tagi::Seina, Tagi::Vihollinen, Tagi::Ammus, Tagi::Pelaaja],
            Tormaystapahtuma::TuhoaTormaaja,
        ),
        (seq![Tagi::Vihollinen], seq![Tagi::Ammus], Tormaystapahtuma::AnimaatioTuhoutuminen),
    ]
}

/// The tag of the body that the physics side `indeksi` belongs to.
pub open spec fn tormaajan_tagi(malli: Maailmamalli, indeksi: usize) -> Option<Tagi> {
    match malli.kappale(malli.fysiikalliset[indeksi as int].kappale) {
        Some(kappale) => Some(kappale.tagi),
        None => None,
    }
}

/// The world after one rule was held against one record of a collision:
/// what the rule says has followed where the collider has one of the tags
/// of the rule and one of the bodies hit has one of the tags of the rule.
pub open spec fn saanto_sovellettu(
    malli: Maailmamalli,
    saanto: (Seq<Tagi>, Seq<Tagi>, Tormaystapahtuma),
    tieto: (usize, Seq<Tagi>),
    aika: Paivitysaika,
) -> Maailmamalli {
    match tormaajan_tagi(malli, tieto.0) {
        Some(tagi) => if saanto.0.contains(tagi) && jokin_joukossa(saanto.1, tieto.1) {
            saanto.2.tapahtunut(malli, tieto.0, aika)
        } else {
            malli
        },
        None => malli,
    }
}

/// The world after the first `raja` rules were held against one record, in
/// their order. More than one rule can apply to a record.
pub open spec fn saannot_sovellettu(
    malli: Maailmamalli,
    saannot: Seq<(Seq<Tagi>, Seq<Tagi>, Tormaystapahtuma)>,
    raja: int,
    tieto: (usize, Seq<Tagi>),
    aika: Paivitysaika,
) -> Maailmamalli
    decreases raja,
{
    if raja <= 0 {
        malli
    } else {
        saanto_sovellettu(
            saannot_sovellettu(malli, saannot, raja - 1, tieto, aika),
            saannot[raja - 1],
            tieto,
            aika,
        )
    }
}

/// The world after all rules were held against the first `raja` records,
/// in the order of the records.
pub open spec fn tormaykset_kasitelty(
    malli: Maailmamalli,
    saannot: Seq<(Seq<Tagi>, Seq<Tagi>, Tormaystapahtuma)>,
    tiedot: Seq<(usize, Seq<Tagi>)>,
    raja: int,
    aika: Paivitysaika,
) -> Maailmamalli
    decreases raja,
{
    if raja <= 0 {
        malli
    } else {
        saannot_sovellettu(
            tormaykset_kasitelty(malli, saannot, tiedot, raja - 1, aika),
            saannot,
            saannot.len() as int,
            tiedot[raja - 1],
            aika,
        )
    }
}

/// A rule as the tags of the colliders it is about, the tags of the bodies
/// hit it is about, and what follows.
pub open spec fn saannon_malli(saanto: YleinenTormays) -> (Seq<Tagi>, Seq<Tagi>, Tormaystapahtuma) {
    (saanto.omat_tagit@, saanto.kohteen_tagit@, saanto.tapahtuma)
}

/// Handles the collisions of a physics step by the rules of the game.
pub struct TormaystenKasittely;

impl TormaystenKasittely {
    /// The rules of the game for collisions.
    pub fn saannot() -> (tulos: Vec<YleinenTormays>)
        ensures
            tulos@.len() == pelin_saannot().len(),
            forall|k: int|
                0 <= k < tulos@.len() ==> saannon_malli(#[trigger] tulos@[k]) == pelin_saannot()[k],
    {
        let mut mahdolliset_tapahtumat: Vec<YleinenTormays> = Vec::new();
        let ammus = vec![Tagi::Ammus];
        let ammuksen_kohteet = vec![Tagi::Seina, Tagi::Vihollinen, Tagi::Ammus, Tagi::Pelaaja];
        let vihollinen = vec![Tagi::Vihollinen];
        let vihollisen_kohteet = vec![Tagi::Ammus];
        assert(ammus@ =~= pelin_saannot()[0].0);
        assert(ammuksen_kohteet@ =~= pelin_saannot()[0].1);
        assert(vihollinen@ =~= pelin_saannot()[1].0);
        assert(vihollisen_kohteet@ =~= pelin_saannot()[1].1);
        mahdolliset_tapahtumat.push(
            YleinenTormays::new(ammus, ammuksen_kohteet, Tormaystapahtuma::TuhoaTormaaja),
        );
        mahdolliset_tapahtumat.push(
            YleinenTormays::new(
                vihollinen,
                vihollisen_kohteet,
                Tormaystapahtuma::AnimaatioTuhoutuminen,
            ),
        );
        mahdolliset_tapahtumat
    }

    /// Holds every rule of the game against every collision recorded, and
    /// lets follow what the rules say.
    pub fn kasittele_tormaykset(
        tormaykset: Tormaystiedot,
        maailma: &mut Perusmaailma,
        paivitysaika: &Paivitysaika,
    )
        requires
            old(maailma)@.kunnossa(),
            paivitysaika.kokonais_pelin_aika + TUHOUTUMISEN_KESTO <= u64::MAX,
            forall|k: int|
                0 <= k < tormaykset.malli().len() ==> (#[trigger] tormaykset.malli()[k]).0 < old(
                    maailma,
                )@.fysiikalliset.len(),
        ensures
            final(maailma)@.kunnossa(),
            final(maailma)@ == tormaykset_kasitelty(
                old(maailma)@,
                pelin_saannot(),
                tormaykset.malli(),
                tormaykset.malli().len() as int,
                *paivitysaika,
            ),
    {
        let mahdolliset_tapahtumat = Self::saannot();
        let ghost tiedot = tormaykset.malli();
        let ghost alku = maailma@;
        let kaikki = tormaykset.anna_tormaykset();
        let mut i: usize = 0;
        while i < kaikki.len()
            invariant
                alku == old(maailma)@,
                tiedot == tormaykset.malli(),
                maailma@.kunnossa(),
                maailma@.fysiikalliset == alku.fysiikalliset,
                paivitysaika.kokonais_pelin_aika + TUHOUTUMISEN_KESTO <= u64::MAX,
                i <= kaikki@.len() == tiedot.len(),
                forall|k: int| 0 <= k < kaikki@.len() ==> (#[trigger] kaikki@[k]).malli() == tiedot[k],
                forall|k: int|
                    0 <= k < tiedot.len() ==> (#[trigger] tiedot[k]).0 < alku.fysiikalliset.len(),
                mahdolliset_tapahtumat@.len() == pelin_saannot().len(),
                forall|k: int|
                    0 <= k < mahdolliset_tapahtumat@.len() ==> saannon_malli(
                        #[trigger] mahdolliset_tapahtumat@[k],
                    ) == pelin_saannot()[k],
                maailma@ == tormaykset_kasitelty(alku, pelin_saannot(), tiedot, i as int, *paivitysaika),
            decreases kaikki.len() - i,
        {
            let tormays = &kaikki[i];
            let ghost rivin_alku = maailma@;
            assert(tormays.malli() == tiedot[i as int]);
            let mut j: usize = 0;
            while j < mahdolliset_tapahtumat.len()
                invariant
                    maailma@.kunnossa(),
                    maailma@.fysiikalliset == alku.fysiikalliset,
                    paivitysaika.kokonais_pelin_aika + TUHOUTUMISEN_KESTO <= u64::MAX,
                    tormays.indeksi < alku.fysiikalliset.len(),
                    tormays.malli() == tiedot[i as int],
                    j <= mahdolliset_tapahtumat@.len() == pelin_saannot().len(),
                    forall|k: int|
                        0 <= k < mahdolliset_tapahtumat@.len() ==> saannon_malli(
                            #[trigger] mahdolliset_tapahtumat@[k],
                        ) == pelin_saannot()[k],
                    maailma@ == saannot_sovellettu(
                        rivin_alku,
                        pelin_saannot(),
                        j as int,
                        tiedot[i as int],
                        *paivitysaika,
                    ),
                decreases mahdolliset_tapahtumat.len() - j,
            {
                let toiminta = &mahdolliset_tapahtumat[j];
                assert(saannon_malli(*toiminta) == pelin_saannot()[j as int]);
                let fysiikka = maailma.fysiikalliset()[tormays.indeksi];
                match fysiikka.anna_tagi(maailma) {
                    Some(tagi) => {
                        if toiminta.ehto(tagi) {
                            toiminta.toiminta(tormays, maailma, paivitysaika);
                        }
                    },
                    None => {},
                }
                j += 1;
            }
            i += 1;
        }
    }
}

/// The update of the physics of the game: it moves the bodies and reacts to
/// their collisions.
pub struct FysiikanPaivitys;

/// The colour of the obstacles of the game.
pub open spec fn esteiden_vari() -> Vari {
    Vari { r: 10, g: 100, b: 200, a: 255 }
}

/// A wall of the given extents whose corner lies at `x`, `y`.
pub open spec fn seina(leveys: i32, korkeus: i32, x: i32, y: i32) -> Kappale {
    Kappale { muoto: Muoto::Nelio(leveys, korkeus), sijainti: Vektori { x, y }, tagi: Tagi::Seina }
}

/// The world after a body at rest with a physics side was added to it.
pub open spec fn este_lisatty(malli: Maailmamalli, kappale: Kappale, vari: Vari) -> Maailmamalli {
    spawnattu(malli, kappale, Piirtotapa::Yksivarinen { vari }, Some(Vektori { x: 0, y: 0 }), None)
}

/// The world after the character of the player was put into it: a red
/// square at rest that becomes the character unless the world has one.
pub open spec fn pelaaja_lisatty(malli: Maailmamalli) -> Maailmamalli {
    let lisatty = este_lisatty(
        malli,
        Kappale::keskitetty(Muoto::Nelio(20_000, 20_000), 320_000, 240_000, Tagi::Pelaaja),
        Vari { r: 255, g: 30, b: 30, a: 255 },
    );
    if malli.seuraava == u64::MAX || malli.pelihahmo is Some {
        lisatty
    } else {
        Maailmamalli {
            pelihahmo: Some(
                Pelihahmo { kappale: malli.seuraava_tunniste(), suunta: Vektori { x: 1, y: 0 } },
            ),
            ..lisatty
        }
    }
}

/// The world after the game was set up in it: the character of the
/// player, a round obstacle that nothing collides with, a wall along each
/// side of the field, and an enemy that follows the character.
pub open spec fn peli_alustettu(malli: Maailmamalli) -> Maailmamalli {
    let pelaajalla = pelaaja_lisatty(malli);
    let ympyralla = spawnattu(
        pelaajalla,
        Kappale::keskitetty(Muoto::Ympyra(30_000), 0, 0, Tagi::Seina),
        Piirtotapa::Yksivarinen { vari: Vari { r: 200, g: 200, b: 200, a: 255 } },
        None,
        None,
    );
    let ylaseinalla = este_lisatty(ympyralla, seina(1_000_000, 40_000, 0, 0), esteiden_vari());
    let alaseinalla = este_lisatty(ylaseinalla, seina(1_000_000, 40_000, 0, 740_000), esteiden_vari());
    let vasemmalla = este_lisatty(alaseinalla, seina(40_000, 700_000, 0, 40_000), esteiden_vari());
    let oikealla = este_lisatty(vasemmalla, seina(40_000, 700_000, 960_000, 40_000), esteiden_vari());
    spawnattu(
        oikealla,
        Kappale::keskitetty(
            Muoto::Nelio(20_000, 20_000),
            600_000,
            540_000,
            Tagi::Vihollinen,
        ),
        Piirtotapa::Yksivarinen { vari: Vari { r: 0, g: 0, b: 0, a: 255 } },
        Some(Vektori { x: 0, y: 0 }),
        Some(Aly::Seuraus(SeurausAly)),
    )
}

impl FysiikanPaivitys {
    /// Sets the game up in the world.
    pub fn alusta(&mut self, maailma: &mut Perusmaailma)
        requires
            old(maailma)@.kunnossa(),
        ensures
            final(maailma)@.kunnossa(),
            final(maailma)@ == peli_alustettu(old(maailma)@),
    {
        // The character of the player.
        let pelaaja = Kappale::new_keskipisteella(
            Muoto::Nelio(20_000, 20_000),
            320_000,
            240_000,
            Tagi::Pelaaja,
        );
        match lisaa_fysiikka_kappale(maailma, pelaaja, Vari::rgb(255, 30, 30)) {
            Some(rk) => {
                maailma.lisaa_pelihahmo(Pelihahmo::new(rk));
            },
            None => {},
        }
        assert(maailma@ == pelaaja_lisatty(old(maailma)@));

        lisaa_kappale(
            maailma,
            Kappale::new_keskipisteella(Muoto::Ympyra(30_000), 0, 0, Tagi::Seina),
            Vari::rgb(200, 200, 200),
        );

        // The walls.
        let origo = Vektori::new(0, 0);
        let seinan_paksuus: i32 = 40_000;
        let x_pituus: i32 = 1_000_000;
        let y_pituus: i32 = 700_000;
        let esteiden_vari = Vari::rgb(10, 100, 200);
        lisaa_fysiikka_kappale(
            maailma,
            Kappale::new_kulmalla(
                Muoto::Nelio(x_pituus, seinan_paksuus),
                origo.x,
                origo.y,
                Tagi::Seina,
            ),
            esteiden_vari,
        );
        lisaa_fysiikka_kappale(
            maailma,
            Kappale::new_kulmalla(
                Muoto::Nelio(x_pituus, seinan_paksuus),
                origo.x,
                origo.y + seinan_paksuus + y_pituus,
                Tagi::Seina,
            ),
            esteiden_vari,
        );
        lisaa_fysiikka_kappale(
            maailma,
            Kappale::new_kulmalla(
                Muoto::Nelio(seinan_paksuus, y_pituus),
                origo.x,
                origo.y + seinan_paksuus,
                Tagi::Seina,
            ),
            esteiden_vari,
        );
        lisaa_fysiikka_kappale(
            maailma,
            Kappale::new_kulmalla(
                Muoto::Nelio(seinan_paksuus, y_pituus),
                origo.x + x_pituus - seinan_paksuus,
                origo.y + seinan_paksuus,
                Tagi::Seina,
            ),
            esteiden_vari,
        );

        // The enemy.
        let vihollinen = Kappale::new_keskipisteella(
            Muoto::Nelio(20_000, 20_000),
            600_000,
            540_000,
            Tagi::Vihollinen,
        );
        proof {
            lemma_uusi_tunniste_on_vapaa(maailma@, vihollinen);
        }
        match lisaa_fysiikka_kappale(maailma, vihollinen, Vari::rgb(0, 0, 0)) {
            Some(rk) => {
                let alytetty = maailma.lisaa_aly(Alyllinen::new(rk, Aly::Seuraus(SeurausAly)));
                assert(alytetty);
            },
            None => {},
        }
    }

    /// The world after an update of the physics: the bodies have moved,
    /// those that collided stand where they stood, and what the rules of
    /// the game say of the collisions has followed.
    pub open spec fn paivitetty(malli: Maailmamalli, aika: Paivitysaika) -> Maailmamalli {
        let tiedot = tormaykset(
            liikutettu(malli, aika.paivitysaika),
            malli.fysiikalliset,
            malli.fysiikalliset.len() as int,
        );
        tormaykset_kasitelty(
            Maailmamalli { kappaleet: fysiikan_jalkeen(malli, aika.paivitysaika), ..malli },
            pelin_saannot(),
            tiedot,
            tiedot.len() as int,
            aika,
        )
    }

    /// Moves the bodies of the world for the time of the update and reacts
    /// to their collisions.
    pub fn paivita(&mut self, maailma: &mut Perusmaailma, paivitysaika: &Paivitysaika)
        requires
            old(maailma)@.kunnossa(),
            paivitysaika.kokonais_pelin_aika + TUHOUTUMISEN_KESTO <= u64::MAX,
        ensures
            final(maailma)@.kunnossa(),
            final(maailma)@ == Self::paivitetty(old(maailma)@, *paivitysaika),
    {
        let ghost alku = maailma@;
        let maara = maailma.fysiikalliset().len();
        let mut fysiikka = Fysiikka::new();
        fysiikka.laske_uudet_sijainnit(maailma, paivitysaika.paivitysaika);
        proof {
            let tiedot = fysiikka.tormaykset.malli();
            assert(alku.fysiikalliset.len() == maara);
            assert forall|k: int| 0 <= k < tiedot.len() implies (#[trigger] tiedot[k]).0
                < alku.fysiikalliset.len() by {
                lemma_tormaajat_ovat_fysiikallisia(
                    liikutettu(alku, paivitysaika.paivitysaika),
                    alku.fysiikalliset,
                    k,
                );
            }
        }
        TormaystenKasittely::kasittele_tormaykset(fysiikka.tormaykset, maailma, paivitysaika);
    }
}

/// The update of the animations of the game.
pub struct AnimaatioidenPaivitys;

impl AnimaatioidenPaivitys {
    /// Removes the animations whose time is over and makes the picture of
    /// the others.
    pub fn paivita(&mut self, maailma: &mut Perusmaailma, paivitysaika: &Paivitysaika)
        requires
            old(maailma)@.kunnossa(),
        ensures
            final(maailma)@.kunnossa(),
            final(maailma)@ == (Maailmamalli {
                animaatiot: elavat(old(maailma)@.animaatiot, paivitysaika.kokonais_pelin_aika),
                animaatio_kuva: kuva(
                    elavat(old(maailma)@.animaatiot, paivitysaika.kokonais_pelin_aika),
                    paivitysaika.kokonais_pelin_aika,
                ),
                ..old(maailma)@
            }),
    {
        maailma.paivita_animaatiot(paivitysaika);
    }
}

/// The update of the steering bodies of the game.
pub struct TekoalynPaivitys;

impl TekoalynPaivitys {
    /// Lets every steering body decide what it does.
    pub fn paivita(&mut self, maailma: &mut Perusmaailma)
        requires
            old(maailma)@.kunnossa(),
        ensures
            final(maailma)@.kunnossa(),
            final(maailma)@ == (Maailmamalli {
                fysiikalliset: old(maailma)@.alyt_sovellettu(old(maailma)@.alylliset.len() as int),
                ..old(maailma)@
            }),
    {
        maailma.laske_tekoalyt();
    }
}

/// How often the spawner of the game makes an enemy, in nanoseconds.
pub const VIHOLLISTEN_VALI: u64 = 5_000_000_000;

/// The world after the first `raja` spawners have made the bodies whose
/// time came within `paivitys_aika` nanoseconds, one spawner after the
/// other.
pub open spec fn spawnerit_paivitetty(
    malli: Maailmamalli,
    spawnerit: Seq<Spawneri>,
    raja: int,
    paivitys_aika: u64,
) -> Maailmamalli
    decreases raja,
{
    if raja <= 0 {
        malli
    } else {
        spawnerit[raja - 1].spawnannut(
            spawnerit_paivitetty(malli, spawnerit, raja - 1, paivitys_aika),
            paivitys_aika,
        )
    }
}

/// The spawners after `paivitys_aika` nanoseconds have passed for each.
pub open spec fn spawnerit_odottaneet(spawnerit: Seq<Spawneri>, paivitys_aika: u64) -> Seq<
    Spawneri,
> {
    Seq::new(spawnerit.len(), |k: int| spawnerit[k].odottanut(paivitys_aika))
}

/// The spawner of the game: it makes an enemy that follows the character
/// of the player, at rest, once in every interval.
pub open spec fn vihollisspawneri() -> Spawneri {
    Spawneri {
        spawnin_vali: VIHOLLISTEN_VALI,
        aikaa_seuraavaan_spawniin: VIHOLLISTEN_VALI,
        kappale: Kappale::keskitetty(
            Muoto::Nelio(20_000, 20_000),
            600_000,
            540_000,
            Tagi::Vihollinen,
        ),
        piirtotapa: Piirtotapa::Yksivarinen { vari: Vari { r: 0, g: 0, b: 0, a: 255 } },
        nopeus: Some(Vektori { x: 0, y: 0 }),
        aly: Some(Aly::Seuraus(SeurausAly)),
    }
}

/// Whether every one of `spawnerit` has an interval that is not zero.
pub open spec fn spawnerit_kunnossa(spawnerit: Seq<Spawneri>) -> bool {
    forall|k: int| 0 <= k < spawnerit.len() ==> (#[trigger] spawnerit[k]).spawnin_vali > 0
}

/// The update that lets the spawners of the game make their bodies.
pub struct SpawnerinPaivitys {
    /// The spawners of the game.
    spawnerit: Vec<Spawneri>,
}

impl View for SpawnerinPaivitys {
    type V = Seq<Spawneri>;

    closed spec fn view(&self) -> Seq<Spawneri> {
        self.spawnerit@
    }
}

impl SpawnerinPaivitys {
    /// What holds of every such update: each spawner has an interval that
    /// is not zero.
    pub open spec fn kunnossa(&self) -> bool {
        spawnerit_kunnossa(self@)
    }

    /// An update without spawners.
    pub fn new() -> (tulos: SpawnerinPaivitys)
        ensures
            tulos@ == Seq::<Spawneri>::empty(),
            tulos.kunnossa(),
    {
        SpawnerinPaivitys { spawnerit: Vec::new() }
    }

    /// Sets up the spawner of the game.
    pub fn alusta(&mut self)
        requires
            old(self).kunnossa(),
        ensures
            final(self).kunnossa(),
            final(self)@ == old(self)@.push(vihollisspawneri()),
    {
        self.spawnerit.push(
            Spawneri::new(
                VIHOLLISTEN_VALI,
                Kappale::new_keskipisteella(
                    Muoto::Nelio(20_000, 20_000),
                    600_000,
                    540_000,
                    Tagi::Vihollinen,
                ),
                Piirtotapa::Yksivarinen { vari: Vari::rgb(0, 0, 0) },
                Some(Vektori::new(0, 0)),
                Some(Aly::Seuraus(SeurausAly)),
            ),
        );
    }

    /// Lets the time of the update pass for every spawner.
    pub fn paivita(&mut self, maailma: &mut Perusmaailma, paivitysaika: &Paivitysaika)
        requires
            old(self).kunnossa(),
            old(maailma)@.kunnossa(),
        ensures
            final(self).kunnossa(),
            final(self)@ == spawnerit_odottaneet(old(self)@, paivitysaika.paivitysaika),
            final(maailma)@.kunnossa(),
            final(maailma)@ == spawnerit_paivitetty(
                old(maailma)@,
                old(self)@,
                old(self)@.len() as int,
                paivitysaika.paivitysaika,
            ),
    {
        let ghost alku = maailma@;
        let mut i: usize = 0;
        while i < self.spawnerit.len()
            invariant
                alku == old(maailma)@,
                maailma@.kunnossa(),
                i <= self@.len() == old(self)@.len(),
                self@ == self.spawnerit@,
                forall|k: int|
                    0 <= k < i ==> (#[trigger] self@[k]) == old(self)@[k].odottanut(
                        paivitysaika.paivitysaika,
                    ),
                forall|k: int| i <= k < self@.len() ==> (#[trigger] self@[k]) == old(self)@[k],
                forall|k: int| 0 <= k < self@.len() ==> (#[trigger] self@[k]).spawnin_vali > 0,
                forall|k: int| 0 <= k < self@.len() ==> (#[trigger] old(self)@[k]).spawnin_vali > 0,
                maailma@ == spawnerit_paivitetty(
                    alku,
                    old(self)@,
                    i as int,
                    paivitysaika.paivitysaika,
                ),
            decreases self.spawnerit.len() - i,
        {
            assert(self@[i as int] == old(self)@[i as int]);
            assert(old(self)@[i as int].spawnin_vali > 0);
            self.spawnerit[i].paivita_spawneria(maailma, paivitysaika.paivitysaika);
            i += 1;
        }
        assert(self@ =~= spawnerit_odottaneet(old(self)@, paivitysaika.paivitysaika));
    }
}

impl Default for SpawnerinPaivitys {
    /// An update without spawners.
    fn default() -> (tulos: SpawnerinPaivitys)
        ensures
            tulos@ == Seq::<Spawneri>::empty(),
            tulos.kunnossa(),
    {
        SpawnerinPaivitys::new()
    }
}

} // verus!

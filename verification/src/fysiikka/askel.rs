//! What a physics step does to a world, and what follows from that.
use vstd::prelude::*;
use crate::fysiikka::paallekkaisyys::paallekkain;
use crate::fysiikka::tormaystiedot::{
    lemma_lisatty_tormays,
    lemma_lisatty_tormays_jarjestyksessa,
    tiedot_jarjestyksessa,
    lisatty_tormays,
    mallissa,
    mallissa_tormaaja,
    tormaaja_ennen,
};
use crate::fysiikka::{uusi_sijainti, Fysiikkakappale};
use crate::maailma::kappale::{Kappale, Tagi};
use crate::maailma::lisaosa::{
    lemma_loytopaikan_rajat,
    lemma_paikka_on_loytopaikka,
    loytopaikka,
    Lisaosa,
};
use crate::maailma::vektori::Vektori;
use crate::maailma::{Maailmamalli, Olio};

verus! {

/// The body at the place `k` of the world after every body with a physics
/// side has moved for `paivitysaika` nanoseconds.
pub open spec fn liikutettu_olio(malli: Maailmamalli, paivitysaika: u64, k: int) -> Olio {
    let olio = malli.kappaleet[k];
    let fysiikka = loytopaikka(malli.fysiikalliset, olio.tunniste);
    if fysiikka < malli.fysiikalliset.len() {
        olio.siirretty(
            uusi_sijainti(olio.kappale.sijainti, malli.fysiikalliset[fysiikka].nopeus, paivitysaika),
        )
    } else {
        olio
    }
}

/// The bodies of the world after every body with a physics side has moved
/// for `paivitysaika` nanoseconds.
pub open spec fn liikutettu(malli: Maailmamalli, paivitysaika: u64) -> Seq<Olio> {
    Seq::new(malli.kappaleet.len(), |k: int| liikutettu_olio(malli, paivitysaika, k))
}

/// The body that the physics side at place `i` belongs to.
pub open spec fn fysiikan_kappale(
    kappaleet: Seq<Olio>,
    fysiikalliset: Seq<Fysiikkakappale>,
    i: int,
) -> Kappale {
    kappaleet[loytopaikka(kappaleet, fysiikalliset[i].kappale)].kappale
}

/// Whether the body of the physics side `i` collides with that of another
/// physics side `j`: whether the two overlap.
pub open spec fn tormaa(
    kappaleet: Seq<Olio>,
    fysiikalliset: Seq<Fysiikkakappale>,
    i: int,
    j: int,
) -> bool {
    i != j && paallekkain(
        fysiikan_kappale(kappaleet, fysiikalliset, i),
        fysiikan_kappale(kappaleet, fysiikalliset, j),
    )
}

/// Whether the body of the physics side `i` collides with that of one of
/// the first `raja` physics sides.
pub open spec fn tormaa_ennen(
    kappaleet: Seq<Olio>,
    fysiikalliset: Seq<Fysiikkakappale>,
    i: int,
    raja: int,
) -> bool {
    exists|j: int| 0 <= j < raja && #[trigger] tormaa(kappaleet, fysiikalliset, i, j)
}

/// Whether the body of the physics side `i` collides with a body tagged
/// `tagi` that one of the first `raja` physics sides belongs to.
pub open spec fn tormaa_tagiin_ennen(
    kappaleet: Seq<Olio>,
    fysiikalliset: Seq<Fysiikkakappale>,
    i: int,
    raja: int,
    tagi: Tagi,
) -> bool {
    exists|j: int|
        0 <= j < raja && #[trigger] tormaa(kappaleet, fysiikalliset, i, j) && fysiikan_kappale(
            kappaleet,
            fysiikalliset,
            j,
        ).tagi == tagi
}

/// Whether the body of the physics side `i` collides with any other.
pub open spec fn tormaa_johonkin(
    kappaleet: Seq<Olio>,
    fysiikalliset: Seq<Fysiikkakappale>,
    i: int,
) -> bool {
    tormaa_ennen(kappaleet, fysiikalliset, i, fysiikalliset.len() as int)
}

/// The records `alku` after the collisions of the physics side `i` with
/// the first `raja` physics sides have been noted, in their order.
pub open spec fn rivin_tormaykset(
    kappaleet: Seq<Olio>,
    fysiikalliset: Seq<Fysiikkakappale>,
    i: int,
    raja: int,
    alku: Seq<(usize, Seq<Tagi>)>,
) -> Seq<(usize, Seq<Tagi>)>
    decreases raja,
{
    if raja <= 0 {
        alku
    } else {
        let edelliset = rivin_tormaykset(kappaleet, fysiikalliset, i, raja - 1, alku);
        if tormaa(kappaleet, fysiikalliset, i, raja - 1) {
            lisatty_tormays(
                edelliset,
                i as usize,
                fysiikan_kappale(kappaleet, fysiikalliset, raja - 1).tagi,
            )
        } else {
            edelliset
        }
    }
}

/// The records of the collisions of the first `raja` physics sides, each
/// with every other physics side, noted in the order of the colliders and,
/// for one collider, in the order of the bodies it hit.
pub open spec fn tormaykset(
    kappaleet: Seq<Olio>,
    fysiikalliset: Seq<Fysiikkakappale>,
    raja: int,
) -> Seq<(usize, Seq<Tagi>)>
    decreases raja,
{
    if raja <= 0 {
        Seq::empty()
    } else {
        rivin_tormaykset(
            kappaleet,
            fysiikalliset,
            raja - 1,
            fysiikalliset.len() as int,
            tormaykset(kappaleet, fysiikalliset, raja - 1),
        )
    }
}

/// The bodies of the world after a physics step of `paivitysaika`
/// nanoseconds: a body whose physics side collided, once all had moved,
/// stands where it stood before the step; every other body with a physics
/// side has moved; the rest stand as they stood.
pub open spec fn fysiikan_jalkeen(malli: Maailmamalli, paivitysaika: u64) -> Seq<Olio> {
    Seq::new(
        malli.kappaleet.len(),
        |k: int|
            {
                let fysiikka = loytopaikka(malli.fysiikalliset, malli.kappaleet[k].tunniste);
                if fysiikka < malli.fysiikalliset.len() && tormaa_johonkin(
                    liikutettu(malli, paivitysaika),
                    malli.fysiikalliset,
                    fysiikka,
                ) {
                    malli.kappaleet[k]
                } else {
                    liikutettu_olio(malli, paivitysaika, k)
                }
            },
    )
}

/// What the records of one collider's collisions hold: what was held
/// before, and for each body hit the collider with the tag of that body.
pub proof fn lemma_rivin_tormaykset(
    kappaleet: Seq<Olio>,
    fysiikalliset: Seq<Fysiikkakappale>,
    i: int,
    raja: int,
    alku: Seq<(usize, Seq<Tagi>)>,
)
    requires
        0 <= raja,
        0 <= i <= usize::MAX,
    ensures
        forall|a: usize|
            #[trigger] mallissa_tormaaja(
                rivin_tormaykset(kappaleet, fysiikalliset, i, raja, alku),
                a,
            ) <==> (mallissa_tormaaja(alku, a) || (a == i && tormaa_ennen(
                kappaleet,
                fysiikalliset,
                i,
                raja,
            ))),
        forall|a: usize, u: Tagi|
            #[trigger] mallissa(rivin_tormaykset(kappaleet, fysiikalliset, i, raja, alku), a, u) <==> (mallissa(
                alku,
                a,
                u,
            ) || (a == i && tormaa_tagiin_ennen(kappaleet, fysiikalliset, i, raja, u))),
    decreases raja,
{
    if raja > 0 {
        lemma_rivin_tormaykset(kappaleet, fysiikalliset, i, raja - 1, alku);
        let edelliset = rivin_tormaykset(kappaleet, fysiikalliset, i, raja - 1, alku);
        let nykyiset = rivin_tormaykset(kappaleet, fysiikalliset, i, raja, alku);
        let tagi = fysiikan_kappale(kappaleet, fysiikalliset, raja - 1).tagi;
        let osuu = tormaa(kappaleet, fysiikalliset, i, raja - 1);
        if osuu {
            lemma_lisatty_tormays(edelliset, i as usize, tagi);
        }
        assert(tormaa_ennen(kappaleet, fysiikalliset, i, raja) <==> (tormaa_ennen(
            kappaleet,
            fysiikalliset,
            i,
            raja - 1,
        ) || osuu)) by {
            if tormaa_ennen(kappaleet, fysiikalliset, i, raja) {
                let j = choose|j: int| 0 <= j < raja && #[trigger] tormaa(kappaleet, fysiikalliset, i, j);
                if j < raja - 1 {
                    assert(tormaa_ennen(kappaleet, fysiikalliset, i, raja - 1));
                }
            }
            if tormaa_ennen(kappaleet, fysiikalliset, i, raja - 1) {
                let j = choose|j: int| 0 <= j < raja - 1 && #[trigger] tormaa(kappaleet, fysiikalliset, i, j);
                assert(tormaa(kappaleet, fysiikalliset, i, j));
            }
        }
        assert forall|u: Tagi|
            tormaa_tagiin_ennen(kappaleet, fysiikalliset, i, raja, u) <==> (tormaa_tagiin_ennen(
                kappaleet,
                fysiikalliset,
                i,
                raja - 1,
                u,
            ) || (osuu && u == tagi)) by {
            if tormaa_tagiin_ennen(kappaleet, fysiikalliset, i, raja, u) {
                let j = choose|j: int|
                    0 <= j < raja && #[trigger] tormaa(kappaleet, fysiikalliset, i, j)
                        && fysiikan_kappale(kappaleet, fysiikalliset, j).tagi == u;
                if j < raja - 1 {
                    assert(tormaa_tagiin_ennen(kappaleet, fysiikalliset, i, raja - 1, u));
                }
            }
            if tormaa_tagiin_ennen(kappaleet, fysiikalliset, i, raja - 1, u) {
                let j = choose|j: int|
                    0 <= j < raja - 1 && #[trigger] tormaa(kappaleet, fysiikalliset, i, j)
                        && fysiikan_kappale(kappaleet, fysiikalliset, j).tagi == u;
                assert(tormaa(kappaleet, fysiikalliset, i, j));
            }
            if osuu && u == tagi {
                assert(tormaa(kappaleet, fysiikalliset, i, raja - 1));
            }
        }
        assert forall|a: usize|
            mallissa_tormaaja(nykyiset, a) <==> (mallissa_tormaaja(alku, a) || (a == i
                && tormaa_ennen(kappaleet, fysiikalliset, i, raja))) by {
            let ennen = mallissa_tormaaja(edelliset, a);
            let lisatyssa = mallissa_tormaaja(lisatty_tormays(edelliset, i as usize, tagi), a);
        }
        assert forall|a: usize, u: Tagi|
            mallissa(nykyiset, a, u) <==> (mallissa(alku, a, u) || (a == i && tormaa_tagiin_ennen(
                kappaleet,
                fysiikalliset,
                i,
                raja,
                u,
            ))) by {
            let ennen = mallissa(edelliset, a, u);
            let lisatyssa = mallissa(lisatty_tormays(edelliset, i as usize, tagi), a, u);
            let tagiin = tormaa_tagiin_ennen(kappaleet, fysiikalliset, i, raja - 1, u);
        }
    } else {
        assert(!tormaa_ennen(kappaleet, fysiikalliset, i, raja));
        assert forall|u: Tagi| !tormaa_tagiin_ennen(kappaleet, fysiikalliset, i, raja, u) by {}
    }
}

/// What the records of a physics step hold: a record for exactly the
/// physics sides whose bodies collided, and in it exactly the tags of the
/// bodies that the collider overlaps.
pub proof fn lemma_tormaykset(
    kappaleet: Seq<Olio>,
    fysiikalliset: Seq<Fysiikkakappale>,
    raja: int,
)
    requires
        0 <= raja <= usize::MAX + 1,
    ensures
        forall|a: usize|
            #[trigger] mallissa_tormaaja(tormaykset(kappaleet, fysiikalliset, raja), a) <==> (a
                < raja && tormaa_johonkin(kappaleet, fysiikalliset, a as int)),
        forall|a: usize, u: Tagi|
            #[trigger] mallissa(tormaykset(kappaleet, fysiikalliset, raja), a, u) <==> (a < raja
                && tormaa_tagiin_ennen(
                kappaleet,
                fysiikalliset,
                a as int,
                fysiikalliset.len() as int,
                u,
            )),
    decreases raja,
{
    let kaikki = tormaykset(kappaleet, fysiikalliset, raja);
    let pituus = fysiikalliset.len() as int;
    if raja > 0 {
        let edelliset = tormaykset(kappaleet, fysiikalliset, raja - 1);
        lemma_tormaykset(kappaleet, fysiikalliset, raja - 1);
        lemma_rivin_tormaykset(kappaleet, fysiikalliset, raja - 1, pituus, edelliset);
        assert forall|a: usize|
            mallissa_tormaaja(kaikki, a) <==> (a < raja && tormaa_johonkin(
                kappaleet,
                fysiikalliset,
                a as int,
            )) by {
            let rivi = rivin_tormaykset(kappaleet, fysiikalliset, raja - 1, pituus, edelliset);
            assert(kaikki == rivi);
            assert(mallissa_tormaaja(rivi, a) <==> (mallissa_tormaaja(edelliset, a) || (a == raja
                - 1 && tormaa_ennen(kappaleet, fysiikalliset, raja - 1, pituus))));
            assert(mallissa_tormaaja(edelliset, a) <==> (a < raja - 1 && tormaa_johonkin(
                kappaleet,
                fysiikalliset,
                a as int,
            )));
        }
        assert forall|a: usize, u: Tagi|
            mallissa(kaikki, a, u) <==> (a < raja && tormaa_tagiin_ennen(
                kappaleet,
                fysiikalliset,
                a as int,
                pituus,
                u,
            )) by {
            let ennen = mallissa(edelliset, a, u);
        }
    } else {
        assert(kaikki.len() == 0);
    }
}

/// The records of a physics step hold the colliders in growing order,
/// each once, and no record holds a tag twice.
pub proof fn lemma_tormaykset_jarjestyksessa(
    kappaleet: Seq<Olio>,
    fysiikalliset: Seq<Fysiikkakappale>,
    raja: int,
)
    requires
        0 <= raja <= usize::MAX + 1,
    ensures
        tiedot_jarjestyksessa(tormaykset(kappaleet, fysiikalliset, raja)),
        forall|k: int|
            0 <= k < tormaykset(kappaleet, fysiikalliset, raja).len() ==> (#[trigger] tormaykset(
                kappaleet,
                fysiikalliset,
                raja,
            )[k]).0 < raja,
    decreases raja,
{
    if raja > 0 {
        lemma_tormaykset_jarjestyksessa(kappaleet, fysiikalliset, raja - 1);
        lemma_rivi_jarjestyksessa(
            kappaleet,
            fysiikalliset,
            raja - 1,
            fysiikalliset.len() as int,
            tormaykset(kappaleet, fysiikalliset, raja - 1),
        );
    }
}

/// Noting the collisions of a collider that is larger than every collider
/// of the records leaves the records in order.
proof fn lemma_rivi_jarjestyksessa(
    kappaleet: Seq<Olio>,
    fysiikalliset: Seq<Fysiikkakappale>,
    i: int,
    raja: int,
    alku: Seq<(usize, Seq<Tagi>)>,
)
    requires
        0 <= raja,
        0 <= i <= usize::MAX,
        tiedot_jarjestyksessa(alku),
        forall|k: int| 0 <= k < alku.len() ==> (#[trigger] alku[k]).0 < i,
    ensures
        tiedot_jarjestyksessa(rivin_tormaykset(kappaleet, fysiikalliset, i, raja, alku)),
        forall|k: int|
            0 <= k < rivin_tormaykset(kappaleet, fysiikalliset, i, raja, alku).len() ==> (
            #[trigger] rivin_tormaykset(kappaleet, fysiikalliset, i, raja, alku)[k]).0 <= i,
    decreases raja,
{
    if raja > 0 {
        lemma_rivi_jarjestyksessa(kappaleet, fysiikalliset, i, raja - 1, alku);
        if tormaa(kappaleet, fysiikalliset, i, raja - 1) {
            lemma_lisatty_tormays_jarjestyksessa(
                rivin_tormaykset(kappaleet, fysiikalliset, i, raja - 1, alku),
                i as usize,
                fysiikan_kappale(kappaleet, fysiikalliset, raja - 1).tagi,
            );
        }
    }
}

/// Whether `paikat` holds, for each physics side, the place among
/// `kappaleet` of the body that the side belongs to.
pub open spec fn paikat_oikein(
    kappaleet: Seq<Olio>,
    fysiikalliset: Seq<Fysiikkakappale>,
    paikat: Seq<usize>,
) -> bool {
    &&& paikat.len() == fysiikalliset.len()
    &&& forall|a: int|
        0 <= a < paikat.len() ==> (#[trigger] paikat[a]) == loytopaikka(
            kappaleet,
            fysiikalliset[a].kappale,
        ) && paikat[a] < kappaleet.len()
}

/// Whether `sijainnit` holds, for each place in `paikat`, where the body at
/// that place among `kappaleet` stands.
pub open spec fn sijainnit_oikein(
    kappaleet: Seq<Olio>,
    paikat: Seq<usize>,
    sijainnit: Seq<Vektori>,
) -> bool {
    &&& sijainnit.len() == paikat.len()
    &&& forall|a: int|
        0 <= a < paikat.len() ==> (#[trigger] sijainnit[a])
            == kappaleet[paikat[a] as int].kappale.sijainti
}

/// The body at `paikka` is the only one that the physics side `i` belongs
/// to: the physics side found for any other body is another one.
pub proof fn lemma_fysiikka_yhdelle(malli: Maailmamalli, i: int, paikka: int)
    requires
        malli.kunnossa(),
        0 <= i < malli.fysiikalliset.len(),
        0 <= paikka < malli.kappaleet.len(),
        malli.kappaleet[paikka].tunniste == malli.fysiikalliset[i].kappale,
    ensures
        loytopaikka(malli.fysiikalliset, malli.kappaleet[paikka].tunniste) == i,
        forall|k: int|
            0 <= k < malli.kappaleet.len() && k != paikka ==> loytopaikka(
                malli.fysiikalliset,
                (#[trigger] malli.kappaleet[k]).tunniste,
            ) != i,
{
    lemma_paikka_on_loytopaikka(malli.fysiikalliset, malli.fysiikalliset[i].kappale, i);
    assert forall|k: int| 0 <= k < malli.kappaleet.len() && k != paikka implies loytopaikka(
        malli.fysiikalliset,
        (#[trigger] malli.kappaleet[k]).tunniste,
    ) != i by {
        let tunniste = malli.kappaleet[k].tunniste;
        lemma_loytopaikan_rajat(malli.fysiikalliset, tunniste);
        if loytopaikka(malli.fysiikalliset, tunniste) == i {
            assert(malli.kappaleet[k].kappale_spec() == malli.kappaleet[paikka].kappale_spec());
        }
    }
}

/// The bodies of the world while the bodies that collided are put back:
/// the colliders of the first `raja` records stand where they stood before
/// they moved, every other body where it stands once all have moved.
pub open spec fn osin_peruttu(
    alku: Maailmamalli,
    paivitysaika: u64,
    tiedot: Seq<(usize, Seq<Tagi>)>,
    raja: int,
) -> Seq<Olio> {
    Seq::new(
        alku.kappaleet.len(),
        |k: int|
            if tormaaja_ennen(
                tiedot,
                loytopaikka(alku.fysiikalliset, alku.kappaleet[k].tunniste),
                raja,
            ) {
                alku.kappaleet[k]
            } else {
                liikutettu_olio(alku, paivitysaika, k)
            },
    )
}

/// Before any body is put back, the bodies stand where they stand once all
/// have moved.
pub proof fn lemma_peruutus_alussa(
    alku: Maailmamalli,
    paivitysaika: u64,
    tiedot: Seq<(usize, Seq<Tagi>)>,
)
    ensures
        osin_peruttu(alku, paivitysaika, tiedot, 0) == liikutettu(alku, paivitysaika),
{
    assert(osin_peruttu(alku, paivitysaika, tiedot, 0) =~= liikutettu(alku, paivitysaika));
}

/// Putting back the collider of the record `r` takes the bodies from where
/// they stand after the first `r` records to where they stand after the
/// first `r + 1`.
pub proof fn lemma_peruutus_askel(
    alku: Maailmamalli,
    paivitysaika: u64,
    tiedot: Seq<(usize, Seq<Tagi>)>,
    r: int,
    paikka: int,
)
    requires
        alku.kunnossa(),
        0 <= r < tiedot.len(),
        tiedot[r].0 < alku.fysiikalliset.len(),
        0 <= paikka < alku.kappaleet.len(),
        alku.kappaleet[paikka].tunniste == alku.fysiikalliset[tiedot[r].0 as int].kappale,
    ensures
        osin_peruttu(alku, paivitysaika, tiedot, r + 1) == osin_peruttu(
            alku,
            paivitysaika,
            tiedot,
            r,
        ).update(
            paikka,
            osin_peruttu(alku, paivitysaika, tiedot, r)[paikka].siirretty(
                alku.kappaleet[paikka].kappale.sijainti,
            ),
        ),
{
    let tormaaja = tiedot[r].0 as int;
    let ennen = osin_peruttu(alku, paivitysaika, tiedot, r);
    let jalkeen = osin_peruttu(alku, paivitysaika, tiedot, r + 1);
    let paivitetty = ennen.update(
        paikka,
        ennen[paikka].siirretty(alku.kappaleet[paikka].kappale.sijainti),
    );
    lemma_fysiikka_yhdelle(alku, tormaaja, paikka);
    assert forall|k: int| 0 <= k < alku.kappaleet.len() implies jalkeen[k] == paivitetty[k] by {
        let f = loytopaikka(alku.fysiikalliset, alku.kappaleet[k].tunniste);
        if tormaaja_ennen(tiedot, f, r + 1) {
            let m = choose|m: int| 0 <= m < r + 1 && (#[trigger] tiedot[m]).0 == f;
            if m < r {
                assert(tormaaja_ennen(tiedot, f, r));
            }
        }
        if tormaaja_ennen(tiedot, f, r) {
            let m = choose|m: int| 0 <= m < r && (#[trigger] tiedot[m]).0 == f;
            assert(tiedot[m].0 == f);
        }
        if f == tormaaja {
            assert(tiedot[r].0 == f);
        }
    }
    assert(jalkeen =~= paivitetty);
}

/// Once the collider of every record has been put back, the bodies stand
/// as they do after the physics step.
pub proof fn lemma_peruutus_lopussa(alku: Maailmamalli, paivitysaika: u64)
    requires
        alku.fysiikalliset.len() <= usize::MAX,
    ensures
        ({
            let tiedot = tormaykset(
                liikutettu(alku, paivitysaika),
                alku.fysiikalliset,
                alku.fysiikalliset.len() as int,
            );
            osin_peruttu(alku, paivitysaika, tiedot, tiedot.len() as int) == fysiikan_jalkeen(
                alku,
                paivitysaika,
            )
        }),
{
    let liikkuneet = liikutettu(alku, paivitysaika);
    let maara = alku.fysiikalliset.len() as int;
    let tiedot = tormaykset(liikkuneet, alku.fysiikalliset, maara);
    let peruttu = osin_peruttu(alku, paivitysaika, tiedot, tiedot.len() as int);
    lemma_tormaykset(liikkuneet, alku.fysiikalliset, maara);
    assert forall|k: int| 0 <= k < alku.kappaleet.len() implies peruttu[k] == fysiikan_jalkeen(
        alku,
        paivitysaika,
    )[k] by {
        let f = loytopaikka(alku.fysiikalliset, alku.kappaleet[k].tunniste);
        lemma_loytopaikan_rajat(alku.fysiikalliset, alku.kappaleet[k].tunniste);
        if tormaaja_ennen(tiedot, f, tiedot.len() as int) {
            let m = choose|m: int| 0 <= m < tiedot.len() && (#[trigger] tiedot[m]).0 == f;
            assert(mallissa_tormaaja(tiedot, tiedot[m].0));
        } else if f < maara {
            if mallissa_tormaaja(tiedot, f as usize) {
                let m = choose|m: int|
                    0 <= m < tiedot.len() && (#[trigger] tiedot[m]).0 == f as usize;
                assert(tiedot[m].0 == f);
                assert(tormaaja_ennen(tiedot, f, tiedot.len() as int));
            }
        }
    }
    assert(peruttu =~= fysiikan_jalkeen(alku, paivitysaika));
}

/// Every record of a physics step is one of a physics side.
pub proof fn lemma_tormaajat_ovat_fysiikallisia(
    kappaleet: Seq<Olio>,
    fysiikalliset: Seq<Fysiikkakappale>,
    k: int,
)
    requires
        fysiikalliset.len() <= usize::MAX,
        0 <= k < tormaykset(kappaleet, fysiikalliset, fysiikalliset.len() as int).len(),
    ensures
        tormaykset(kappaleet, fysiikalliset, fysiikalliset.len() as int)[k].0
            < fysiikalliset.len(),
{
    let tiedot = tormaykset(kappaleet, fysiikalliset, fysiikalliset.len() as int);
    lemma_tormaykset(kappaleet, fysiikalliset, fysiikalliset.len() as int);
    assert(mallissa_tormaaja(tiedot, tiedot[k].0));
}

/// A body that has the only physics side of its world ends a physics step
/// where its velocity takes it, and the step records no collision.
pub proof fn lemma_yksinainen_liikkuu(malli: Maailmamalli, paivitysaika: u64)
    requires
        malli.kunnossa(),
        malli.fysiikalliset.len() == 1,
    ensures
        ({
            let paikka = malli.paikka(malli.fysiikalliset[0].kappale);
            &&& 0 <= paikka < malli.kappaleet.len()
            &&& fysiikan_jalkeen(malli, paivitysaika)[paikka] == malli.kappaleet[paikka].siirretty(
                uusi_sijainti(
                    malli.kappaleet[paikka].kappale.sijainti,
                    malli.fysiikalliset[0].nopeus,
                    paivitysaika,
                ),
            )
        }),
        tormaykset(liikutettu(malli, paivitysaika), malli.fysiikalliset, 1) == Seq::<
            (usize, Seq<Tagi>),
        >::empty(),
{
    let liikkuneet = liikutettu(malli, paivitysaika);
    let fysiikalliset = malli.fysiikalliset;
    let tunniste = fysiikalliset[0].kappale;
    let paikka = malli.paikka(tunniste);
    assert(malli.elossa(tunniste));
    lemma_loytopaikan_rajat(malli.kappaleet, tunniste);
    lemma_fysiikka_yhdelle(malli, 0, paikka);
    assert(!tormaa_johonkin(liikkuneet, fysiikalliset, 0));
    assert(!tormaa(liikkuneet, fysiikalliset, 0, 0));
    let tyhja = Seq::<(usize, Seq<Tagi>)>::empty();
    assert(tormaykset(liikkuneet, fysiikalliset, 0) == tyhja);
    assert(rivin_tormaykset(liikkuneet, fysiikalliset, 0, 0, tyhja) == tyhja);
    assert(rivin_tormaykset(liikkuneet, fysiikalliset, 0, 1, tyhja) == tyhja);
}

/// A body that overlaps another once all bodies have moved ends the physics
/// step where it stood before the step, and the collisions recorded hold,
/// for its physics side, the tag of the body it overlaps.
pub proof fn lemma_tormannyt_palaa(malli: Maailmamalli, paivitysaika: u64, i: int, j: int)
    requires
        malli.kunnossa(),
        malli.fysiikalliset.len() <= usize::MAX,
        0 <= i < malli.fysiikalliset.len(),
        0 <= j < malli.fysiikalliset.len(),
        tormaa(liikutettu(malli, paivitysaika), malli.fysiikalliset, i, j),
    ensures
        ({
            let paikka = malli.paikka(malli.fysiikalliset[i].kappale);
            &&& 0 <= paikka < malli.kappaleet.len()
            &&& fysiikan_jalkeen(malli, paivitysaika)[paikka] == malli.kappaleet[paikka]
        }),
        mallissa(
            tormaykset(
                liikutettu(malli, paivitysaika),
                malli.fysiikalliset,
                malli.fysiikalliset.len() as int,
            ),
            i as usize,
            fysiikan_kappale(liikutettu(malli, paivitysaika), malli.fysiikalliset, j).tagi,
        ),
{
    let liikkuneet = liikutettu(malli, paivitysaika);
    let fysiikalliset = malli.fysiikalliset;
    let tunniste = fysiikalliset[i].kappale;
    let paikka = malli.paikka(tunniste);
    assert(malli.elossa(tunniste));
    lemma_loytopaikan_rajat(malli.kappaleet, tunniste);
    lemma_fysiikka_yhdelle(malli, i, paikka);
    assert(tormaa_johonkin(liikkuneet, fysiikalliset, i));
    lemma_tormaykset(liikkuneet, fysiikalliset, fysiikalliset.len() as int);
    assert(tormaa_tagiin_ennen(
        liikkuneet,
        fysiikalliset,
        i,
        fysiikalliset.len() as int,
        fysiikan_kappale(liikkuneet, fysiikalliset, j).tagi,
    ));
}

} // verus!

//! Physics: moving bodies by their velocities, finding the bodies that then
//! overlap, undoing the movement of those, and reporting the collisions.
use vstd::prelude::*;
use crate::maailma::kappale::Tagi;
use crate::maailma::lisaosa::{lemma_loytopaikan_rajat, loytopaikka, Lisaosa, Tunniste};
use crate::maailma::vektori::{jaa_luku, osamaara, rajaa, rajattu, Vektori};
use crate::maailma::{lemma_samat_tunnisteet, samat_tunnisteet, Maailmamalli, Perusmaailma};

pub mod askel;
pub mod paallekkaisyys;
pub mod tormaystiedot;

pub use crate::fysiikka::askel::{
    fysiikan_jalkeen,
    fysiikan_kappale,
    lemma_fysiikka_yhdelle,
    lemma_peruutus_alussa,
    lemma_peruutus_askel,
    lemma_peruutus_lopussa,
    lemma_tormaajat_ovat_fysiikallisia,
    lemma_tormaykset,
    lemma_tormaykset_jarjestyksessa,
    liikutettu,
    liikutettu_olio,
    osin_peruttu,
    paikat_oikein,
    rivin_tormaykset,
    sijainnit_oikein,
    tormaa,
    tormaa_johonkin,
    tormaa_tagiin_ennen,
    tormaykset,
};
pub use crate::fysiikka::paallekkaisyys::{
    ovatko_paallekkain,
    paallekkain,
    ympyran_ja_nelion_tormays,
};
pub use crate::fysiikka::tormaystiedot::{tiedot_jarjestyksessa, Tormaystiedot, Tormaystieto};

verus! {

/// The physics side of a body of the world: the body can collide, and it
/// moves by its velocity.
#[derive(Copy, Clone, Debug, PartialEq, Eq, Structural)]
pub struct Fysiikkakappale {
    /// The body that moves.
    pub kappale: Tunniste,
    /// How far the body moves in a second, and in which direction.
    pub nopeus: Vektori,
}

impl Fysiikkakappale {
    /// Gives the body `kappale` the velocity `nopeus`.
    pub fn new(nopeus: Vektori, kappale: Tunniste) -> (tulos: Fysiikkakappale)
        ensures
            tulos == (Fysiikkakappale { kappale, nopeus }),
    {
        Fysiikkakappale { kappale, nopeus }
    }

    /// The velocity of the body.
    pub fn anna_nopeus(&self) -> (tulos: Vektori)
        ensures
            tulos == self.nopeus,
    {
        self.nopeus
    }

    /// Gives the body the velocity `nopeus`.
    pub fn aseta_nopeus(&mut self, nopeus: Vektori)
        ensures
            *final(self) == (Fysiikkakappale { kappale: old(self).kappale, nopeus }),
    {
        self.nopeus = nopeus;
    }
}

impl Fysiikkakappale {
    /// Where the body stands after it has moved from `sijainti` at its
    /// velocity for `paivitysaika` nanoseconds.
    pub fn laske_uusi_sijainti(&self, sijainti: Vektori, paivitysaika: u64) -> (tulos: Vektori)
        ensures
            tulos == uusi_sijainti(sijainti, self.nopeus, paivitysaika),
    {
        let mikrot: u64 = paivitysaika / 1000;
        Vektori {
            x: rajaa(sijainti.x as i128 + laske_siirtyma(self.nopeus.x, mikrot)),
            y: rajaa(sijainti.y as i128 + laske_siirtyma(self.nopeus.y, mikrot)),
        }
    }
}

impl Fysiikkakappale {
    /// The tag of the body in the world `maailma`, where the world has the
    /// body.
    pub fn anna_tagi(&self, maailma: &Perusmaailma) -> (tulos: Option<Tagi>)
        ensures
            tulos == match maailma@.kappale(self.kappale) {
                Some(kappale) => Some(kappale.tagi),
                None => None,
            },
    {
        match maailma.anna_kappale(self.kappale) {
            Some(kappale) => Some(kappale.tagi),
            None => None,
        }
    }
}

impl Lisaosa for Fysiikkakappale {
    open spec fn kappale_spec(&self) -> Tunniste {
        self.kappale
    }

    fn anna_kappale(&self) -> (tulos: Tunniste) {
        self.kappale
    }
}

/// How far a body moves along one axis in `mikrot` microseconds at the
/// speed `nopeus` in units a second, rounded towards zero.
pub open spec fn siirtyma(nopeus: int, mikrot: int) -> int {
    osamaara(nopeus * mikrot, 1_000_000)
}

/// Where a body that stands at `sijainti` stands after it has moved at
/// `nopeus` for `paivitysaika` nanoseconds. The time counts in whole
/// microseconds, and each coordinate is brought into the range of a
/// coordinate.
pub open spec fn uusi_sijainti(sijainti: Vektori, nopeus: Vektori, paivitysaika: u64) -> Vektori {
    Vektori {
        x: rajattu(sijainti.x + siirtyma(nopeus.x as int, paivitysaika as int / 1000)) as i32,
        y: rajattu(sijainti.y + siirtyma(nopeus.y as int, paivitysaika as int / 1000)) as i32,
    }
}

/// How far a body moves along one axis in the given time at the given
/// speed.
fn laske_siirtyma(nopeus: i32, mikrot: u64) -> (tulos: i128)
    requires
        mikrot <= 0x0080_0000_0000_0000,
    ensures
        tulos == siirtyma(nopeus as int, mikrot as int),
        -0x0040_0000_0000_0000_0000_0000 <= tulos <= 0x0040_0000_0000_0000_0000_0000,
{
    assert(-0x0040_0000_0000_0000_0000_0000 <= nopeus * mikrot <= 0x0040_0000_0000_0000_0000_0000)
        by (nonlinear_arith)
        requires
            -0x8000_0000 <= nopeus <= 0x7fff_ffff,
            0 <= mikrot <= 0x0080_0000_0000_0000,
    ;
    let tulo: i128 = nopeus as i128 * mikrot as i128;
    let osa = jaa_luku(tulo, 1_000_000);
    assert(-0x0040_0000_0000_0000_0000_0000 <= osa <= 0x0040_0000_0000_0000_0000_0000) by {
        if tulo >= 0 {
            assert(0 <= tulo / 1_000_000 <= tulo) by (nonlinear_arith)
                requires
                    tulo >= 0,
            ;
        } else {
            assert(0 <= (-tulo) / 1_000_000 <= -tulo) by (nonlinear_arith)
                requires
                    tulo < 0,
            ;
        }
    }
    osa
}

/// What remembers the latest physics step.
pub struct Fysiikka {
    /// The collisions of the latest physics step.
    pub tormaykset: Tormaystiedot,
}

impl Fysiikka {
    /// A physics that has seen no collisions.
    pub fn new() -> (tulos: Fysiikka)
        ensures
            tulos.tormaykset.malli() == Seq::<(usize, Seq<Tagi>)>::empty(),
    {
        Fysiikka { tormaykset: Tormaystiedot::new() }
    }

    /// Moves every body that has a physics side by its velocity for
    /// `paivitysaika` nanoseconds, finds the bodies that then overlap
    /// another one, puts each of those back where it stood, and remembers
    /// the collisions.
    pub fn laske_uudet_sijainnit(&mut self, maailma: &mut Perusmaailma, paivitysaika: u64)
        requires
            old(maailma)@.kunnossa(),
        ensures
            final(maailma)@.kunnossa(),
            final(maailma)@ == (Maailmamalli {
                kappaleet: fysiikan_jalkeen(old(maailma)@, paivitysaika),
                ..old(maailma)@
            }),
            final(self).tormaykset.malli() == tormaykset(
                liikutettu(old(maailma)@, paivitysaika),
                old(maailma)@.fysiikalliset,
                old(maailma)@.fysiikalliset.len() as int,
            ),
            tiedot_jarjestyksessa(final(self).tormaykset.malli()),
            forall|i: usize| #[trigger]
                final(self).tormaykset.on_tormannyt(i) <==> (i < old(maailma)@.fysiikalliset.len()
                    && tormaa_johonkin(
                    liikutettu(old(maailma)@, paivitysaika),
                    old(maailma)@.fysiikalliset,
                    i as int,
                )),
            forall|i: usize, tagi: Tagi| #[trigger]
                final(self).tormaykset.sisaltaa(i, tagi) <==> (i < old(
                    maailma,
                )@.fysiikalliset.len() && tormaa_tagiin_ennen(
                    liikutettu(old(maailma)@, paivitysaika),
                    old(maailma)@.fysiikalliset,
                    i as int,
                    old(maailma)@.fysiikalliset.len() as int,
                    tagi,
                )),
    {
        let ghost alku = maailma@;
        let maara = maailma.fysiikalliset().len();
        proof {
            let liikkuneet = liikutettu(alku, paivitysaika);
            lemma_tormaykset(liikkuneet, alku.fysiikalliset, maara as int);
            lemma_tormaykset_jarjestyksessa(liikkuneet, alku.fysiikalliset, maara as int);
        }
        // Every body moves before any collision is looked for.
        let (paikat, vanhat_sijainnit) = liikuta_kappaleet(maailma, paivitysaika);
        proof {
            lemma_samat_tunnisteet(alku.kappaleet, maailma@.kappaleet);
        }
        // Collisions are looked for among the bodies as they stand now.
        self.tormaykset = keraa_tormaykset(maailma, &paikat);
        // Whoever collided goes back to where it stood.
        peru_tormanneiden_liike(
            maailma,
            &self.tormaykset,
            &paikat,
            &vanhat_sijainnit,
            Ghost(alku),
            Ghost(paivitysaika),
        );
    }
}

/// Moves every body that has a physics side for `paivitysaika`
/// nanoseconds. Gives, for each physics side, the place of its body among
/// the bodies, and where that body stood before.
fn liikuta_kappaleet(maailma: &mut Perusmaailma, paivitysaika: u64) -> (tulos: (
    Vec<usize>,
    Vec<Vektori>,
))
    requires
        old(maailma)@.kunnossa(),
    ensures
        final(maailma)@.kunnossa(),
        final(maailma)@ == (Maailmamalli {
            kappaleet: liikutettu(old(maailma)@, paivitysaika),
            ..old(maailma)@
        }),
        samat_tunnisteet(old(maailma)@.kappaleet, final(maailma)@.kappaleet),
        paikat_oikein(old(maailma)@.kappaleet, old(maailma)@.fysiikalliset, tulos.0@),
        sijainnit_oikein(old(maailma)@.kappaleet, tulos.0@, tulos.1@),
{
    let ghost alku = maailma@;
    let ghost fysiikalliset = alku.fysiikalliset;
    let maara = maailma.fysiikalliset().len();
    let mut paikat: Vec<usize> = Vec::new();
    let mut vanhat_sijainnit: Vec<Vektori> = Vec::new();
    proof {
        assert forall|k: int| 0 <= k < alku.kappaleet.len() implies loytopaikka(
            fysiikalliset,
            (#[trigger] alku.kappaleet[k]).tunniste,
        ) >= 0 by {
            lemma_loytopaikan_rajat(fysiikalliset, alku.kappaleet[k].tunniste);
        }
    }
    let mut i: usize = 0;
    while i < maara
        invariant
            alku == old(maailma)@,
            fysiikalliset == alku.fysiikalliset,
            alku.kunnossa(),
            maailma@.kunnossa(),
            i <= maara == fysiikalliset.len(),
            maailma@ == (Maailmamalli { kappaleet: maailma@.kappaleet, ..alku }),
            samat_tunnisteet(alku.kappaleet, maailma@.kappaleet),
            paikat@.len() == i,
            vanhat_sijainnit@.len() == i,
            forall|a: int|
                0 <= a < i ==> (#[trigger] paikat@[a]) == loytopaikka(
                    alku.kappaleet,
                    fysiikalliset[a].kappale,
                ) && paikat@[a] < alku.kappaleet.len(),
            forall|a: int|
                0 <= a < i ==> (#[trigger] vanhat_sijainnit@[a])
                    == alku.kappaleet[paikat@[a] as int].kappale.sijainti,
            forall|k: int|
                0 <= k < alku.kappaleet.len() ==> (#[trigger] maailma@.kappaleet[k]) == (if loytopaikka(
                    fysiikalliset,
                    alku.kappaleet[k].tunniste,
                ) < i {
                    liikutettu_olio(alku, paivitysaika, k)
                } else {
                    alku.kappaleet[k]
                }),
        decreases maara - i,
    {
        let ghost ennen = maailma@.kappaleet;
        let fysiikka = maailma.fysiikalliset()[i];
        let paikka = maailma.fysiikkakappaleen_paikka(i);
        let sijainti = maailma.kappaleet()[paikka].kappale.sijainti;
        proof {
            lemma_samat_tunnisteet(alku.kappaleet, ennen);
            lemma_fysiikka_yhdelle(alku, i as int, paikka as int);
            assert(ennen[paikka as int] == alku.kappaleet[paikka as int]);
        }
        let uusi = fysiikka.laske_uusi_sijainti(sijainti, paivitysaika);
        maailma.siirra_kappale(paikka, uusi);
        paikat.push(paikka);
        vanhat_sijainnit.push(sijainti);
        proof {
            assert forall|k: int| 0 <= k < alku.kappaleet.len() implies (
            #[trigger] maailma@.kappaleet[k]) == (if loytopaikka(
                fysiikalliset,
                alku.kappaleet[k].tunniste,
            ) < i + 1 {
                liikutettu_olio(alku, paivitysaika, k)
            } else {
                alku.kappaleet[k]
            }) by {
                if k != paikka {
                    assert(maailma@.kappaleet[k] == ennen[k]);
                }
            }
        }
        i += 1;
    }
    proof {
        assert forall|k: int| 0 <= k < alku.kappaleet.len() implies (
        #[trigger] maailma@.kappaleet[k]) == liikutettu_olio(alku, paivitysaika, k) by {
            lemma_loytopaikan_rajat(fysiikalliset, alku.kappaleet[k].tunniste);
        }
        assert(maailma@.kappaleet =~= liikutettu(alku, paivitysaika));
    }
    (paikat, vanhat_sijainnit)
}

/// Looks at every pair of physics sides and notes, for each body that
/// overlaps another, the tag of that other body.
fn keraa_tormaykset(maailma: &Perusmaailma, paikat: &Vec<usize>) -> (tulos: Tormaystiedot)
    requires
        paikat_oikein(maailma@.kappaleet, maailma@.fysiikalliset, paikat@),
    ensures
        tulos.malli() == tormaykset(
            maailma@.kappaleet,
            maailma@.fysiikalliset,
            maailma@.fysiikalliset.len() as int,
        ),
{
    let ghost kappaleet = maailma@.kappaleet;
    let ghost fysiikalliset = maailma@.fysiikalliset;
    let maara = paikat.len();
    let mut tiedot = Tormaystiedot::new();
    let mut i: usize = 0;
    while i < maara
        invariant
            kappaleet == maailma@.kappaleet,
            fysiikalliset == maailma@.fysiikalliset,
            paikat_oikein(kappaleet, fysiikalliset, paikat@),
            i <= maara == fysiikalliset.len(),
            tiedot.malli() == tormaykset(kappaleet, fysiikalliset, i as int),
        decreases maara - i,
    {
        let mut j: usize = 0;
        while j < maara
            invariant
                kappaleet == maailma@.kappaleet,
                fysiikalliset == maailma@.fysiikalliset,
                paikat_oikein(kappaleet, fysiikalliset, paikat@),
                i < maara == fysiikalliset.len(),
                j <= maara,
                tiedot.malli() == rivin_tormaykset(
                    kappaleet,
                    fysiikalliset,
                    i as int,
                    j as int,
                    tormaykset(kappaleet, fysiikalliset, i as int),
                ),
            decreases maara - j,
        {
            if i != j {
                let tormaaja = maailma.kappaleet()[paikat[i]].kappale;
                let kohde = maailma.kappaleet()[paikat[j]].kappale;
                if ovatko_paallekkain(&tormaaja, &kohde) {
                    tiedot.lisaa_tormays(i, kohde.tagi);
                }
            }
            j += 1;
        }
        i += 1;
    }
    tiedot
}

/// Puts every body that collided back where it stood before it moved.
fn peru_tormanneiden_liike(
    maailma: &mut Perusmaailma,
    tormaykset_nyt: &Tormaystiedot,
    paikat: &Vec<usize>,
    vanhat_sijainnit: &Vec<Vektori>,
    Ghost(alku): Ghost<Maailmamalli>,
    Ghost(paivitysaika): Ghost<u64>,
)
    requires
        alku.kunnossa(),
        old(maailma)@.kunnossa(),
        old(maailma)@ == (Maailmamalli { kappaleet: liikutettu(alku, paivitysaika), ..alku }),
        paikat_oikein(alku.kappaleet, alku.fysiikalliset, paikat@),
        sijainnit_oikein(alku.kappaleet, paikat@, vanhat_sijainnit@),
        tormaykset_nyt.malli() == tormaykset(
            liikutettu(alku, paivitysaika),
            alku.fysiikalliset,
            alku.fysiikalliset.len() as int,
        ),
    ensures
        final(maailma)@.kunnossa(),
        final(maailma)@ == (Maailmamalli {
            kappaleet: fysiikan_jalkeen(alku, paivitysaika),
            ..alku
        }),
{
    let ghost tiedot = tormaykset_nyt.malli();
    let maara = paikat.len();
    proof {
        lemma_peruutus_alussa(alku, paivitysaika, tiedot);
    }
    let tormanneet = tormaykset_nyt.anna_tormaykset();
    let mut r: usize = 0;
    while r < tormanneet.len()
        invariant
            alku.kunnossa(),
            maailma@.kunnossa(),
            tiedot == tormaykset(
                liikutettu(alku, paivitysaika),
                alku.fysiikalliset,
                alku.fysiikalliset.len() as int,
            ),
            maailma@ == (Maailmamalli {
                kappaleet: osin_peruttu(alku, paivitysaika, tiedot, r as int),
                ..alku
            }),
            paikat_oikein(alku.kappaleet, alku.fysiikalliset, paikat@),
            sijainnit_oikein(alku.kappaleet, paikat@, vanhat_sijainnit@),
            r <= tormanneet@.len() == tiedot.len(),
            maara == alku.fysiikalliset.len(),
            forall|k: int|
                0 <= k < tormanneet@.len() ==> (#[trigger] tormanneet@[k]).malli() == tiedot[k],
        decreases tormanneet.len() - r,
    {
        let tormaajan_indeksi = tormanneet[r].indeksi;
        proof {
            assert(tormanneet@[r as int].malli() == tiedot[r as int]);
            lemma_tormaajat_ovat_fysiikallisia(
                liikutettu(alku, paivitysaika),
                alku.fysiikalliset,
                r as int,
            );
        }
        let paikka = paikat[tormaajan_indeksi];
        let sijainti = vanhat_sijainnit[tormaajan_indeksi];
        proof {
            lemma_loytopaikan_rajat(
                alku.kappaleet,
                alku.fysiikalliset[tormaajan_indeksi as int].kappale,
            );
            lemma_peruutus_askel(alku, paivitysaika, tiedot, r as int, paikka as int);
        }
        maailma.siirra_kappale(paikka, sijainti);
        r += 1;
    }
    proof {
        lemma_peruutus_lopussa(alku, paivitysaika);
    }
}

/// Where no coordinate leaves the range of a coordinate, a body that moves
/// ends exactly its velocity times the time away from where it began.
pub proof fn lemma_uusi_sijainti_tarkka(sijainti: Vektori, nopeus: Vektori, paivitysaika: u64)
    requires
        rajattu(sijainti.x + siirtyma(nopeus.x as int, paivitysaika as int / 1000)) == sijainti.x
            + siirtyma(nopeus.x as int, paivitysaika as int / 1000),
        rajattu(sijainti.y + siirtyma(nopeus.y as int, paivitysaika as int / 1000)) == sijainti.y
            + siirtyma(nopeus.y as int, paivitysaika as int / 1000),
    ensures
        uusi_sijainti(sijainti, nopeus, paivitysaika).x == sijainti.x + osamaara(
            nopeus.x * (paivitysaika as int / 1000),
            1_000_000,
        ),
        uusi_sijainti(sijainti, nopeus, paivitysaika).y == sijainti.y + osamaara(
            nopeus.y * (paivitysaika as int / 1000),
            1_000_000,
        ),
{
}

impl Default for Fysiikka {
    /// A physics that has seen no collisions.
    fn default() -> (tulos: Fysiikka)
        ensures
            tulos.tormaykset.malli() == Seq::<(usize, Seq<Tagi>)>::empty(),
    {
        Fysiikka::new()
    }
}

} // verus!

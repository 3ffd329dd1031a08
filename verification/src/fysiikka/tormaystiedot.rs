//! The record of the collisions of one physics step.
use vstd::prelude::*;
use crate::maailma::kappale::{sisaltaa_tagin, Tagi};

verus! {

/// `tagit` with `tagi` at its end, unless `tagit` holds it already.
pub open spec fn lisatty_tagi(tagit: Seq<Tagi>, tagi: Tagi) -> Seq<Tagi> {
    if tagit.contains(tagi) {
        tagit
    } else {
        tagit.push(tagi)
    }
}

/// The place of the first record at or after `alku` whose collider is
/// `indeksi`, or the length of `tiedot` when there is none.
pub open spec fn tormaajan_paikka(
    tiedot: Seq<(usize, Seq<Tagi>)>,
    indeksi: usize,
    alku: int,
) -> int
    decreases tiedot.len() - alku,
{
    if alku < 0 || alku >= tiedot.len() {
        tiedot.len() as int
    } else if tiedot[alku].0 == indeksi {
        alku
    } else {
        tormaajan_paikka(tiedot, indeksi, alku + 1)
    }
}

/// The records after the collision of `indeksi` with a body tagged `tagi`
/// has been noted: the first record of that collider gains the tag, and
/// where the collider has no record yet, a new last record holds the tag.
pub open spec fn lisatty_tormays(
    tiedot: Seq<(usize, Seq<Tagi>)>,
    indeksi: usize,
    tagi: Tagi,
) -> Seq<(usize, Seq<Tagi>)> {
    let paikka = tormaajan_paikka(tiedot, indeksi, 0);
    if paikka < tiedot.len() {
        tiedot.update(paikka, (indeksi, lisatty_tagi(tiedot[paikka].1, tagi)))
    } else {
        tiedot.push((indeksi, seq![tagi]))
    }
}

/// Whether the records `tiedot` hold one for the collider `indeksi`.
pub open spec fn mallissa_tormaaja(tiedot: Seq<(usize, Seq<Tagi>)>, indeksi: usize) -> bool {
    exists|k: int| 0 <= k < tiedot.len() && (#[trigger] tiedot[k]).0 == indeksi
}

/// Whether the records `tiedot` say that the collider `indeksi` hit a body
/// tagged `tagi`.
pub open spec fn mallissa(tiedot: Seq<(usize, Seq<Tagi>)>, indeksi: usize, tagi: Tagi) -> bool {
    exists|k: int|
        0 <= k < tiedot.len() && (#[trigger] tiedot[k]).0 == indeksi && tiedot[k].1.contains(tagi)
}

/// The place found for a collider lies at or after the place where the
/// search began, holds a record of that collider unless it is the length
/// of the records, and no record between the two is one of the collider.
pub proof fn lemma_tormaajan_paikka(tiedot: Seq<(usize, Seq<Tagi>)>, indeksi: usize, alku: int)
    requires
        0 <= alku <= tiedot.len(),
    ensures
        alku <= tormaajan_paikka(tiedot, indeksi, alku) <= tiedot.len(),
        tormaajan_paikka(tiedot, indeksi, alku) < tiedot.len() ==> tiedot[tormaajan_paikka(
            tiedot,
            indeksi,
            alku,
        )].0 == indeksi,
        forall|k: int|
            alku <= k < tormaajan_paikka(tiedot, indeksi, alku) ==> (#[trigger] tiedot[k]).0
                != indeksi,
    decreases tiedot.len() - alku,
{
    if alku < tiedot.len() && tiedot[alku].0 != indeksi {
        lemma_tormaajan_paikka(tiedot, indeksi, alku + 1);
    }
}

/// After a collision was noted the records hold what they held and the
/// collision noted, and nothing else.
pub proof fn lemma_lisatty_tormays(tiedot: Seq<(usize, Seq<Tagi>)>, indeksi: usize, tagi: Tagi)
    ensures
        forall|a: usize|
            #[trigger] mallissa_tormaaja(lisatty_tormays(tiedot, indeksi, tagi), a) <==> (mallissa_tormaaja(
                tiedot,
                a,
            ) || a == indeksi),
        forall|a: usize, u: Tagi|
            #[trigger] mallissa(lisatty_tormays(tiedot, indeksi, tagi), a, u) <==> (mallissa(tiedot, a, u) || (a
                == indeksi && u == tagi)),
{
    let uudet = lisatty_tormays(tiedot, indeksi, tagi);
    let paikka = tormaajan_paikka(tiedot, indeksi, 0);
    lemma_tormaajan_paikka(tiedot, indeksi, 0);
    assert(uudet.len() >= tiedot.len());
    assert forall|a: usize|
        mallissa_tormaaja(uudet, a) <==> (mallissa_tormaaja(tiedot, a) || a == indeksi) by {
        if mallissa_tormaaja(uudet, a) {
            let k = choose|k: int| 0 <= k < uudet.len() && (#[trigger] uudet[k]).0 == a;
            if k < tiedot.len() && k != paikka {
                assert(tiedot[k].0 == a);
            }
        }
        if mallissa_tormaaja(tiedot, a) {
            let k = choose|k: int| 0 <= k < tiedot.len() && (#[trigger] tiedot[k]).0 == a;
            assert(uudet[k].0 == a);
        }
        if a == indeksi {
            if paikka < tiedot.len() {
                assert(uudet[paikka].0 == a);
            } else {
                assert(uudet[tiedot.len() as int].0 == a);
            }
        }
    }
    assert forall|a: usize, u: Tagi|
        mallissa(uudet, a, u) <==> (mallissa(tiedot, a, u) || (a == indeksi && u == tagi)) by {
        if mallissa(uudet, a, u) {
            let k = choose|k: int|
                0 <= k < uudet.len() && (#[trigger] uudet[k]).0 == a && uudet[k].1.contains(u);
            if k < tiedot.len() && k != paikka {
                assert(tiedot[k].0 == a && tiedot[k].1.contains(u));
            } else if k == paikka && paikka < tiedot.len() {
                if u != tagi {
                    let vanhat = tiedot[paikka].1;
                    if !vanhat.contains(tagi) {
                        let m = choose|m: int| 0 <= m < vanhat.push(tagi).len() && vanhat.push(tagi)[m] == u;
                        assert(vanhat[m] == u);
                    }
                    assert(tiedot[paikka].0 == a && tiedot[paikka].1.contains(u));
                }
            } else {
                assert(uudet[k].1 =~= seq![tagi]);
                assert(seq![tagi][0] == tagi);
                let m = choose|m: int| 0 <= m < seq![tagi].len() && seq![tagi][m] == u;
            }
        }
        if mallissa(tiedot, a, u) {
            let k = choose|k: int|
                0 <= k < tiedot.len() && (#[trigger] tiedot[k]).0 == a && tiedot[k].1.contains(u);
            if k == paikka {
                let vanhat = tiedot[paikka].1;
                let m = choose|m: int| 0 <= m < vanhat.len() && vanhat[m] == u;
                assert(lisatty_tagi(vanhat, tagi)[m] == u);
            }
            assert(uudet[k].0 == a && uudet[k].1.contains(u));
        }
        if a == indeksi && u == tagi {
            if paikka < tiedot.len() {
                let vanhat = tiedot[paikka].1;
                if !vanhat.contains(tagi) {
                    assert(vanhat.push(tagi)[vanhat.len() as int] == tagi);
                }
                assert(uudet[paikka].0 == a && uudet[paikka].1.contains(u));
            } else {
                assert(seq![tagi][0] == tagi);
                assert(uudet[tiedot.len() as int].0 == a && uudet[tiedot.len() as int].1.contains(
                    u,
                ));
            }
        }
    }
}

/// Whether the records are as the records of a physics step are: the
/// colliders stand in growing order, each once, and no record holds a tag
/// twice.
pub open spec fn tiedot_jarjestyksessa(tiedot: Seq<(usize, Seq<Tagi>)>) -> bool {
    &&& forall|i: int, j: int|
        0 <= i < j < tiedot.len() ==> (#[trigger] tiedot[i]).0 < (#[trigger] tiedot[j]).0
    &&& forall|k: int| 0 <= k < tiedot.len() ==> (#[trigger] tiedot[k]).1.no_duplicates()
}

/// A tag added to tags that hold no tag twice leaves them so.
pub proof fn lemma_lisatty_tagi_ei_toista(tagit: Seq<Tagi>, tagi: Tagi)
    requires
        tagit.no_duplicates(),
    ensures
        lisatty_tagi(tagit, tagi).no_duplicates(),
{
    if !tagit.contains(tagi) {
        let uudet = tagit.push(tagi);
        assert forall|i: int, j: int| 0 <= i < uudet.len() && 0 <= j < uudet.len() && i != j implies uudet[i]
            != uudet[j] by {
            if i < tagit.len() && j < tagit.len() {
                assert(tagit[i] != tagit[j]);
            } else if i < tagit.len() {
                assert(tagit.contains(tagit[i]));
            } else {
                assert(tagit.contains(tagit[j]));
            }
        }
    }
}

/// Noting a collision of a collider that is no smaller than any collider
/// of the records leaves the records in order.
pub proof fn lemma_lisatty_tormays_jarjestyksessa(
    tiedot: Seq<(usize, Seq<Tagi>)>,
    indeksi: usize,
    tagi: Tagi,
)
    requires
        tiedot_jarjestyksessa(tiedot),
        forall|k: int| 0 <= k < tiedot.len() ==> (#[trigger] tiedot[k]).0 <= indeksi,
    ensures
        tiedot_jarjestyksessa(lisatty_tormays(tiedot, indeksi, tagi)),
        forall|k: int|
            0 <= k < lisatty_tormays(tiedot, indeksi, tagi).len() ==> (#[trigger] lisatty_tormays(
                tiedot,
                indeksi,
                tagi,
            )[k]).0 <= indeksi,
{
    let uudet = lisatty_tormays(tiedot, indeksi, tagi);
    let paikka = tormaajan_paikka(tiedot, indeksi, 0);
    lemma_tormaajan_paikka(tiedot, indeksi, 0);
    if paikka < tiedot.len() {
        lemma_lisatty_tagi_ei_toista(tiedot[paikka].1, tagi);
        assert forall|i: int, j: int| 0 <= i < j < uudet.len() implies (#[trigger] uudet[i]).0 < (
        #[trigger] uudet[j]).0 by {
            assert(tiedot[i].0 < tiedot[j].0);
        }
        assert forall|k: int| 0 <= k < uudet.len() implies (#[trigger] uudet[k]).1.no_duplicates() by {
            if k != paikka {
                assert(tiedot[k].1.no_duplicates());
            }
        }
        assert forall|k: int| 0 <= k < uudet.len() implies (#[trigger] uudet[k]).0 <= indeksi by {
            assert(tiedot[k].0 <= indeksi);
        }
    } else {
        assert(seq![tagi].no_duplicates());
        assert forall|i: int, j: int| 0 <= i < j < uudet.len() implies (#[trigger] uudet[i]).0 < (
        #[trigger] uudet[j]).0 by {
            if j < tiedot.len() {
                assert(tiedot[i].0 < tiedot[j].0);
            } else {
                assert(tiedot[i].0 <= indeksi);
                assert(tiedot[i].0 != indeksi);
            }
        }
        assert forall|k: int| 0 <= k < uudet.len() implies (#[trigger] uudet[k]).1.no_duplicates() by {
            if k < tiedot.len() {
                assert(tiedot[k].1.no_duplicates());
            }
        }
        assert forall|k: int| 0 <= k < uudet.len() implies (#[trigger] uudet[k]).0 <= indeksi by {
            if k < tiedot.len() {
                assert(tiedot[k].0 <= indeksi);
            }
        }
    }
}

/// What one body has collided with: the tags of the bodies it hit.
pub struct Tormaystieto {
    /// The place of the collider among the physics bodies.
    pub indeksi: usize,
    /// The tags of the bodies that were hit, in the order in which they
    /// were first added.
    pub tormatyt_kohteet: Vec<Tagi>,
}

impl Tormaystieto {
    /// The tags that were hit, in the order in which they were first added.
    pub open spec fn tagit(&self) -> Seq<Tagi> {
        self.tormatyt_kohteet@
    }

    /// The record as a pair of the collider and the tags it hit.
    pub open spec fn malli(&self) -> (usize, Seq<Tagi>) {
        (self.indeksi, self.tagit())
    }

    /// A record for the collider `indeksi`, with no tags yet.
    pub fn new(indeksi: usize) -> (tulos: Tormaystieto)
        ensures
            tulos.indeksi == indeksi,
            tulos.tagit() == Seq::<Tagi>::empty(),
    {
        Tormaystieto { indeksi, tormatyt_kohteet: Vec::new() }
    }

    /// Whether `tagi` is among the tags that were hit.
    pub fn sisaltaa_tagin(&self, tagi: Tagi) -> (tulos: bool)
        ensures
            tulos == self.tagit().contains(tagi),
    {
        sisaltaa_tagin(self.tormatyt_kohteet.as_slice(), tagi)
    }

    /// Adds `lisattava_tagi` unless it has been added before.
    pub fn lisaa_tagi(&mut self, lisattava_tagi: Tagi)
        ensures
            final(self).indeksi == old(self).indeksi,
            final(self).tagit() == lisatty_tagi(old(self).tagit(), lisattava_tagi),
    {
        if !self.sisaltaa_tagin(lisattava_tagi) {
            self.tormatyt_kohteet.push(lisattava_tagi)
        }
    }

    /// The tags of the bodies that were hit.
    pub fn anna_tagit(&self) -> (tulos: &[Tagi])
        ensures
            tulos@ == self.tagit(),
    {
        self.tormatyt_kohteet.as_slice()
    }
}

/// The collisions of one physics step. The records speak of places among
/// the physics bodies, so they are of use only until those change.
pub struct Tormaystiedot {
    /// One record for each body that collided.
    tormays_tiedot: Vec<Tormaystieto>,
}

impl Tormaystiedot {
    /// The records as pairs of a collider and the tags it hit.
    pub closed spec fn malli(&self) -> Seq<(usize, Seq<Tagi>)> {
        Seq::new(self.tormays_tiedot@.len(), |k: int| self.tormays_tiedot@[k].malli())
    }

    /// Whether the collider `indeksi` has a record that holds `tagi`.
    pub open spec fn sisaltaa(&self, indeksi: usize, tagi: Tagi) -> bool {
        mallissa(self.malli(), indeksi, tagi)
    }

    /// Whether the collider `indeksi` has a record.
    pub open spec fn on_tormannyt(&self, indeksi: usize) -> bool {
        mallissa_tormaaja(self.malli(), indeksi)
    }

    /// A report without collisions.
    pub fn new() -> (tulos: Tormaystiedot)
        ensures
            tulos.malli() == Seq::<(usize, Seq<Tagi>)>::empty(),
    {
        let tulos = Tormaystiedot { tormays_tiedot: Vec::new() };
        assert(tulos.malli() =~= Seq::<(usize, Seq<Tagi>)>::empty());
        tulos
    }

    /// Notes that the body at `indeksi` hit a body tagged `tagi`, making a
    /// record for the collider where it has none.
    pub fn lisaa_tormays(&mut self, indeksi: usize, tagi: Tagi)
        ensures
            final(self).malli() == lisatty_tormays(old(self).malli(), indeksi, tagi),
    {
        let ghost vanha = self.malli();
        let mut i: usize = 0;
        while i < self.tormays_tiedot.len()
            invariant
                i <= self.tormays_tiedot.len(),
                self.malli() == vanha,
                vanha == old(self).malli(),
                vanha.len() == self.tormays_tiedot@.len(),
                tormaajan_paikka(vanha, indeksi, 0) == tormaajan_paikka(vanha, indeksi, i as int),
            decreases self.tormays_tiedot.len() - i,
        {
            if self.tormays_tiedot[i].indeksi == indeksi {
                self.tormays_tiedot[i].lisaa_tagi(tagi);
                assert(self.malli() =~= lisatty_tormays(vanha, indeksi, tagi));
                return ;
            }
            i += 1;
        }
        let mut uusi_tormaystieto = Tormaystieto::new(indeksi);
        uusi_tormaystieto.lisaa_tagi(tagi);
        assert(uusi_tormaystieto.tagit() =~= seq![tagi]);
        self.tormays_tiedot.push(uusi_tormaystieto);
        assert(self.malli() =~= lisatty_tormays(vanha, indeksi, tagi));
    }

    /// The records of all collisions.
    pub fn anna_tormaykset(&self) -> (tulos: &[Tormaystieto])
        ensures
            tulos@.len() == self.malli().len(),
            forall|k: int| 0 <= k < tulos@.len() ==> (#[trigger] tulos@[k]).malli() == self.malli()[k],
    {
        self.tormays_tiedot.as_slice()
    }
}

/// Whether one of the first `raja` records of `tiedot` is one of the
/// collider `indeksi`.
pub open spec fn tormaaja_ennen(tiedot: Seq<(usize, Seq<Tagi>)>, indeksi: int, raja: int) -> bool {
    exists|k: int| 0 <= k < raja && (#[trigger] tiedot[k]).0 == indeksi
}

impl Default for Tormaystiedot {
    /// A report without collisions.
    fn default() -> (tulos: Tormaystiedot)
        ensures
            tulos.malli() == Seq::<(usize, Seq<Tagi>)>::empty(),
    {
        Tormaystiedot::new()
    }
}

} // verus!

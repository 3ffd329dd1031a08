//! Rules that say what follows from a collision.
use vstd::prelude::*;
use crate::fysiikka::Tormaystieto;
use crate::maailma::kappale::{sisaltaa_tagin, Tagi};
use crate::maailma::{Maailmamalli, Perusmaailma};
use crate::paivitys::Paivitysaika;
use crate::peli::pelinpaivitys::{
    animaatio_tuhoutuminen,
    animaatio_tuhoutunut,
    tormaaja_kelpaa,
    tormaaja_tuhottu,
    tuhoa_tormaaja,
};

verus! {

/// What can follow from a collision.
#[derive(Copy, Clone, Debug, PartialEq, Eq, Structural)]
pub enum Tormaystapahtuma {
    /// The collider is destroyed and leaves the mark of a destroyed
    /// projectile.
    TuhoaTormaaja,
    /// The collider is destroyed and fades away.
    AnimaatioTuhoutuminen,
}

impl Tormaystapahtuma {
    /// The world after this has followed from the collision of the physics
    /// side `indeksi` at the time `aika`.
    pub open spec fn tapahtunut(
        self,
        malli: Maailmamalli,
        indeksi: usize,
        aika: Paivitysaika,
    ) -> Maailmamalli {
        match self {
            Tormaystapahtuma::TuhoaTormaaja => tormaaja_tuhottu(malli, indeksi, aika),
            Tormaystapahtuma::AnimaatioTuhoutuminen => animaatio_tuhoutunut(malli, indeksi, aika),
        }
    }
}

/// Whether one of `tagit` is among `joukko`.
pub open spec fn jokin_joukossa(tagit: Seq<Tagi>, joukko: Seq<Tagi>) -> bool {
    exists|k: int| 0 <= k < tagit.len() && joukko.contains(#[trigger] tagit[k])
}

/// A rule for collisions: what follows when a body with one of the tags
/// `omat_tagit` hits a body with one of the tags `kohteen_tagit`.
pub struct YleinenTormays {
    /// The tags of the colliders that the rule is about.
    pub omat_tagit: Vec<Tagi>,
    /// The tags of the bodies hit that the rule is about.
    pub kohteen_tagit: Vec<Tagi>,
    /// What follows when the rule applies.
    pub tapahtuma: Tormaystapahtuma,
}

/// Something that follows from a collision when the collider has the
/// right tag.
pub trait Tormaystoiminta {
    /// Whether this is about colliders tagged `tagi`.
    spec fn ehto_spec(&self, tagi: Tagi) -> bool;

    /// The world after this has been held against the collision of the
    /// physics side `indeksi` with bodies tagged `tagit`.
    spec fn toiminut(
        &self,
        malli: Maailmamalli,
        indeksi: usize,
        tagit: Seq<Tagi>,
        aika: Paivitysaika,
    ) -> Maailmamalli;

    /// Whether this is about colliders tagged `tagi`.
    fn ehto(&self, tagi: Tagi) -> (tulos: bool)
        ensures
            tulos == self.ehto_spec(tagi),
    ;

    /// Lets follow from `tormays` what this says. Whether this is about
    /// the collider is asked with `ehto`.
    fn toiminta(
        &self,
        tormays: &Tormaystieto,
        maailma: &mut Perusmaailma,
        paivitysaika: &Paivitysaika,
    )
        requires
            old(maailma)@.kunnossa(),
            tormaaja_kelpaa(old(maailma)@, tormays.indeksi, *paivitysaika),
        ensures
            final(maailma)@.kunnossa(),
            final(maailma)@ == self.toiminut(
                old(maailma)@,
                tormays.indeksi,
                tormays.tagit(),
                *paivitysaika,
            ),
    ;
}

impl YleinenTormays {
    /// Whether the rule is about a collision in which bodies with the tags
    /// `tagit` were hit: whether one of the tags of the rule is among them.
    pub open spec fn koskee_spec(&self, tagit: Seq<Tagi>) -> bool {
        jokin_joukossa(self.kohteen_tagit@, tagit)
    }

    /// A rule by its parts.
    pub fn new(omat_tagit: Vec<Tagi>, kohteiden_tagit: Vec<Tagi>, tapahtuma: Tormaystapahtuma) -> (tulos:
        YleinenTormays)
        ensures
            tulos.omat_tagit == omat_tagit,
            tulos.kohteen_tagit == kohteiden_tagit,
            tulos.tapahtuma == tapahtuma,
    {
        YleinenTormays { omat_tagit, kohteen_tagit: kohteiden_tagit, tapahtuma }
    }

    /// Whether the rule is about the bodies that were hit in `tormays`.
    pub fn koskee(&self, tormays: &Tormaystieto) -> (tulos: bool)
        ensures
            tulos == self.koskee_spec(tormays.tagit()),
    {
        let mut i: usize = 0;
        while i < self.kohteen_tagit.len()
            invariant
                i <= self.kohteen_tagit@.len(),
                forall|k: int|
                    0 <= k < i ==> !tormays.tagit().contains(#[trigger] self.kohteen_tagit@[k]),
            decreases self.kohteen_tagit.len() - i,
        {
            if sisaltaa_tagin(tormays.anna_tagit(), self.kohteen_tagit[i]) {
                return true;
            }
            i += 1;
        }
        false
    }
}

impl Tormaystoiminta for YleinenTormays {
    /// The rule is about the colliders whose tag is among its own tags.
    open spec fn ehto_spec(&self, tagi: Tagi) -> bool {
        self.omat_tagit@.contains(tagi)
    }

    /// What the rule says has followed where one of the bodies hit has a tag
    /// that the rule is about; otherwise nothing has.
    open spec fn toiminut(
        &self,
        malli: Maailmamalli,
        indeksi: usize,
        tagit: Seq<Tagi>,
        aika: Paivitysaika,
    ) -> Maailmamalli {
        if self.koskee_spec(tagit) {
            self.tapahtuma.tapahtunut(malli, indeksi, aika)
        } else {
            malli
        }
    }

    fn ehto(&self, tagi: Tagi) -> (tulos: bool) {
        sisaltaa_tagin(self.omat_tagit.as_slice(), tagi)
    }

    fn toiminta(
        &self,
        tormays: &Tormaystieto,
        maailma: &mut Perusmaailma,
        paivitysaika: &Paivitysaika,
    ) {
        if self.koskee(tormays) {
            match self.tapahtuma {
                Tormaystapahtuma::TuhoaTormaaja => tuhoa_tormaaja(tormays, maailma, paivitysaika),
                Tormaystapahtuma::AnimaatioTuhoutuminen => animaatio_tuhoutuminen(
                    tormays,
                    maailma,
                    paivitysaika,
                ),
            }
        }
    }
}

} // verus!

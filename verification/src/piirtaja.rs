//! What the world hands to whoever presents it: bodies with the way in
//! which each is to be drawn. Drawing itself is not done here.
use vstd::prelude::*;
use crate::maailma::kappale::Kappale;
use crate::maailma::lisaosa::{Lisaosa, Tunniste};
use crate::maailma::vektori::Vektori;

verus! {

/// A colour by its red, green, blue and opacity parts.
#[derive(Copy, Clone, Debug, PartialEq, Eq, Structural)]
pub struct Vari {
    pub r: u8,
    pub g: u8,
    pub b: u8,
    pub a: u8,
}

impl Vari {
    /// An opaque colour.
    pub fn rgb(r: u8, g: u8, b: u8) -> (tulos: Vari)
        ensures
            tulos == (Vari { r, g, b, a: 255 }),
    {
        Vari { r, g, b, a: 255 }
    }
}

/// The way in which a body is drawn.
#[derive(Clone, Debug, PartialEq, Eq)]
pub enum Piirtotapa {
    /// Filled with one colour.
    Yksivarinen { vari: Vari },
    /// Covered with the picture of the given name.
    Kuvallinen { kuvan_nimi: String },
}

impl Piirtotapa {
    /// A copy of the way of drawing.
    pub fn kopio(&self) -> (tulos: Piirtotapa)
        ensures
            tulos == *self,
    {
        match self {
            Piirtotapa::Yksivarinen { vari } => Piirtotapa::Yksivarinen { vari: *vari },
            Piirtotapa::Kuvallinen { kuvan_nimi } => Piirtotapa::Kuvallinen {
                kuvan_nimi: kuvan_nimi.clone(),
            },
        }
    }
}

/// The drawable side of a body of the world.
#[derive(Clone, Debug, PartialEq, Eq)]
pub struct PiirrettavaKappale {
    /// The body that is drawn.
    pub kappale: Tunniste,
    /// The way in which it is drawn.
    pub piirtotapa: Piirtotapa,
}

/// A body that is drawn once and then forgotten: a frame of an animation,
/// or a body placed between two remembered states.
#[derive(Clone, Debug, PartialEq, Eq)]
pub struct ValiaikainenPiirrettavaKappale {
    /// The body that is drawn.
    pub kappale: Kappale,
    /// The way in which it is drawn.
    pub piirtotapa: Piirtotapa,
}

impl PiirrettavaKappale {
    /// Makes the body `kappale` drawable in the way `piirtotapa`.
    pub fn new(kappale: Tunniste, piirtotapa: Piirtotapa) -> (tulos: PiirrettavaKappale)
        ensures
            tulos.kappale == kappale,
            tulos.piirtotapa == piirtotapa,
    {
        PiirrettavaKappale { kappale, piirtotapa }
    }

    /// The way in which the body is drawn.
    pub fn anna_piirtotapa(&self) -> (tulos: &Piirtotapa)
        ensures
            *tulos == self.piirtotapa,
    {
        &self.piirtotapa
    }
}

impl ValiaikainenPiirrettavaKappale {
    /// A body to draw once, in the way `piirtotapa`.
    pub fn new(kappale: Kappale, piirtotapa: Piirtotapa) -> (tulos:
        ValiaikainenPiirrettavaKappale)
        ensures
            tulos.kappale == kappale,
            tulos.piirtotapa == piirtotapa,
    {
        ValiaikainenPiirrettavaKappale { kappale, piirtotapa }
    }

    /// The way in which the body is drawn.
    pub fn anna_piirtotapa(&self) -> (tulos: &Piirtotapa)
        ensures
            *tulos == self.piirtotapa,
    {
        &self.piirtotapa
    }
}

/// A world that can be drawn.
pub trait PiirrettavaMaailma {
    /// The drawable sides of the bodies of the world.
    spec fn piirrettavat_spec(&self) -> Seq<PiirrettavaKappale>;

    /// Where the world asks the camera to look, if it asks anything.
    spec fn kameran_sijainti_spec(&self) -> Option<Vektori>;

    /// The drawable sides of the bodies of the world, in the order in which
    /// they were given. `sijainti` tells from which part of the world they
    /// are wanted; every one is given whatever it is.
    fn piirrettavat(&self, sijainti: Vektori) -> (tulos: &Vec<PiirrettavaKappale>)
        ensures
            tulos@ == self.piirrettavat_spec(),
    ;

    /// Where the world asks the camera to look, if it asks anything.
    fn anna_kameran_sijainti(&self) -> (tulos: Option<Vektori>)
        ensures
            tulos == self.kameran_sijainti_spec(),
    ;
}

impl Lisaosa for PiirrettavaKappale {
    open spec fn kappale_spec(&self) -> Tunniste {
        self.kappale
    }

    fn anna_kappale(&self) -> (tulos: Tunniste) {
        self.kappale
    }
}

} // verus!

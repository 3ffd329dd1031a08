//! Bodies and the parts they are made of.
use vstd::prelude::*;
use crate::maailma::vektori::{jaa_luku, osamaara, rajaa, rajattu, Vektori};

verus! {

/// One of the shapes a body can have.
#[derive(Copy, Clone, Debug, PartialEq, Eq, Structural)]
pub enum Muoto {
    /// An axis-aligned rectangle with a width and a height.
    Nelio(i32, i32),
    /// A circle with a radius.
    Ympyra(i32),
}

impl Muoto {
    /// Where the shape's centre lies, seen from its upper left corner:
    /// half the extents of a rectangle, the radius twice for a circle.
    pub open spec fn keskipiste_spec(self) -> Vektori {
        match self {
            Muoto::Nelio(leveys, korkeus) => Vektori {
                x: osamaara(leveys as int, 2) as i32,
                y: osamaara(korkeus as int, 2) as i32,
            },
            Muoto::Ympyra(sade) => Vektori { x: sade, y: sade },
        }
    }

    /// The width of the smallest upright box around the shape.
    pub open spec fn leveys_spec(self) -> int {
        match self {
            Muoto::Nelio(leveys, _) => leveys as int,
            Muoto::Ympyra(sade) => 2 * sade,
        }
    }

    /// The height of the smallest upright box around the shape.
    pub open spec fn korkeus_spec(self) -> int {
        match self {
            Muoto::Nelio(_, korkeus) => korkeus as int,
            Muoto::Ympyra(sade) => 2 * sade,
        }
    }

    /// The position of the centre relative to the upper left corner.
    pub fn keskipiste(&self) -> (tulos: Vektori)
        ensures
            tulos == self.keskipiste_spec(),
    {
        match self {
            Muoto::Nelio(leveys, korkeus) => Vektori {
                x: rajaa(jaa_luku(*leveys as i128, 2)),
                y: rajaa(jaa_luku(*korkeus as i128, 2)),
            },
            Muoto::Ympyra(sade) => Vektori { x: *sade, y: *sade },
        }
    }

    /// The largest width and height of the shape, each brought into the
    /// range of a coordinate. For a circle both are the diameter.
    pub fn koko(&self) -> (tulos: (i32, i32))
        ensures
            tulos.0 == rajattu(self.leveys_spec()),
            tulos.1 == rajattu(self.korkeus_spec()),
    {
        match self {
            Muoto::Nelio(leveys, korkeus) => (*leveys, *korkeus),
            Muoto::Ympyra(sade) => {
                let halkaisija: i32 = rajaa(2 * (*sade as i128));
                (halkaisija, halkaisija)
            },
        }
    }
}

/// The category of a body. It only decides which collision reactions apply.
#[derive(Copy, Clone, Debug, PartialEq, Eq, Structural)]
pub enum Tagi {
    Vihollinen,
    Seina,
    Ammus,
    Pelaaja,
    Partikkeli,
}

/// Whether `tagi` is among `tagit`.
pub fn sisaltaa_tagin(tagit: &[Tagi], tagi: Tagi) -> (tulos: bool)
    ensures
        tulos == tagit@.contains(tagi),
{
    let mut i: usize = 0;
    while i < tagit.len()
        invariant
            i <= tagit@.len(),
            forall|k: int| 0 <= k < i ==> tagit@[k] != tagi,
        decreases tagit.len() - i,
    {
        if tagit[i] == tagi {
            return true;
        }
        i += 1;
    }
    false
}

/// A body: a shape at a position, with a category. The position stored is
/// that of the shape's upper left corner.
#[derive(Copy, Clone, Debug, PartialEq, Eq, Structural)]
pub struct Kappale {
    /// The shape of the body.
    pub muoto: Muoto,
    /// The position of the upper left corner.
    pub sijainti: Vektori,
    /// The category of the body.
    pub tagi: Tagi,
}

impl Kappale {
    /// The x coordinate of the centre, not brought into range.
    pub open spec fn keski_x(self) -> int {
        self.sijainti.x + self.muoto.keskipiste_spec().x
    }

    /// The y coordinate of the centre, not brought into range.
    pub open spec fn keski_y(self) -> int {
        self.sijainti.y + self.muoto.keskipiste_spec().y
    }

    /// The left edge of the box around the body.
    pub open spec fn vasen(self) -> int {
        self.sijainti.x as int
    }

    /// The right edge of the box around the body.
    pub open spec fn oikea(self) -> int {
        self.sijainti.x + self.muoto.leveys_spec()
    }

    /// The edge of the box around the body with the smaller y.
    pub open spec fn ala(self) -> int {
        self.sijainti.y as int
    }

    /// The edge of the box around the body with the larger y.
    pub open spec fn yla(self) -> int {
        self.sijainti.y + self.muoto.korkeus_spec()
    }

    /// The same body with its corner at `sijainti`.
    pub open spec fn siirretty(self, sijainti: Vektori) -> Kappale {
        Kappale { muoto: self.muoto, sijainti, tagi: self.tagi }
    }

    /// The body of the shape `muoto` whose centre lies at `x`, `y`.
    pub open spec fn keskitetty(muoto: Muoto, x: i32, y: i32, tagi: Tagi) -> Kappale {
        Kappale {
            muoto,
            sijainti: (Vektori { x, y }).erotus_spec(muoto.keskipiste_spec()),
            tagi,
        }
    }

    /// A body whose centre lies at `x`, `y`.
    pub fn new_keskipisteella(muoto: Muoto, x: i32, y: i32, tagi: Tagi) -> (tulos: Kappale)
        ensures
            tulos == Self::keskitetty(muoto, x, y, tagi),
    {
        Kappale { muoto, sijainti: Vektori::new(x, y).erotus(muoto.keskipiste()), tagi }
    }

    /// A body whose upper left corner lies at `x`, `y`.
    pub fn new_kulmalla(muoto: Muoto, x: i32, y: i32, tagi: Tagi) -> (tulos: Kappale)
        ensures
            tulos == (Kappale { muoto, sijainti: Vektori { x, y }, tagi }),
    {
        Kappale { muoto, sijainti: Vektori::new(x, y), tagi }
    }

    /// The position of the upper left corner.
    pub fn kulman_sijainti(&self) -> (tulos: Vektori)
        ensures
            tulos == self.sijainti,
    {
        self.sijainti
    }

    /// The position of the centre, brought into the range of a coordinate.
    pub fn keskipisteen_sijainti(&self) -> (tulos: Vektori)
        ensures
            tulos == self.sijainti.summa_spec(self.muoto.keskipiste_spec()),
            tulos.x == rajattu(self.keski_x()),
            tulos.y == rajattu(self.keski_y()),
    {
        self.sijainti.summa(self.muoto.keskipiste())
    }

    /// Puts the upper left corner at `uusi_sijainti`.
    pub fn aseta_kulman_sijainti(&mut self, uusi_sijainti: Vektori)
        ensures
            *final(self) == old(self).siirretty(uusi_sijainti),
    {
        self.sijainti = uusi_sijainti;
    }

    /// Puts the centre at `uusi_sijainti`.
    pub fn aseta_keskipisteen_sijainti(&mut self, uusi_sijainti: Vektori)
        ensures
            *final(self) == old(self).siirretty(
                uusi_sijainti.erotus_spec(old(self).muoto.keskipiste_spec()),
            ),
    {
        self.sijainti = uusi_sijainti.erotus(self.muoto.keskipiste());
    }
}

/// A body made through its centre has that centre, whenever its corner is
/// within the range of a coordinate.
pub proof fn lemma_keskipiste_sailyy(muoto: Muoto, x: i32, y: i32, tagi: Tagi)
    requires
        rajattu(x - muoto.keskipiste_spec().x) == x - muoto.keskipiste_spec().x,
        rajattu(y - muoto.keskipiste_spec().y) == y - muoto.keskipiste_spec().y,
    ensures
        ({
            let kappale = Kappale {
                muoto,
                sijainti: (Vektori { x, y }).erotus_spec(muoto.keskipiste_spec()),
                tagi,
            };
            &&& kappale.sijainti.summa_spec(muoto.keskipiste_spec()) == (Vektori { x, y })
            &&& kappale.keski_x() == x
            &&& kappale.keski_y() == y
        }),
{
}

/// A body made through its corner has that corner.
pub proof fn lemma_kulma_sailyy(muoto: Muoto, x: i32, y: i32, tagi: Tagi)
    ensures
        (Kappale { muoto, sijainti: Vektori { x, y }, tagi }).sijainti == (Vektori { x, y }),
{
}

} // verus!

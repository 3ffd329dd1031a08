//! Bodies that steer themselves.
use vstd::prelude::*;
use crate::maailma::lisaosa::{Lisaosa, Tunniste};
use crate::maailma::pelihahmo::Pelihahmo;
use crate::maailma::vektori::Vektori;
use crate::maailma::{Maailmamalli, Pelihahmollinen, Perusmaailma};

verus! {

/// The speed at which a steering body moves, in units a second.
pub const TEKOALYN_NOPEUS: i32 = 40_000;

/// What a steering body has decided to do.
#[derive(Copy, Clone, Debug, PartialEq, Eq, Structural)]
pub enum AlyToiminta {
    /// Nothing.
    Laiskottele,
    /// To move along `suunta`. Only the direction of the vector matters: it
    /// says nothing of the speed.
    Liiku { suunta: Vektori },
}

impl AlyToiminta {
    /// The velocity that the decision gives its body: the speed of a
    /// steering body along the direction decided. A decision to idle, or to
    /// move along no direction, gives none.
    pub open spec fn nopeus_spec(self) -> Option<Vektori> {
        match self {
            AlyToiminta::Liiku { suunta } => if suunta.x == 0 && suunta.y == 0 {
                None
            } else {
                Some(suunta.venytetty_spec(TEKOALYN_NOPEUS))
            },
            AlyToiminta::Laiskottele => None,
        }
    }

    /// The velocity that the decision gives its body.
    pub fn nopeus(&self) -> (tulos: Option<Vektori>)
        ensures
            tulos == self.nopeus_spec(),
    {
        match self {
            AlyToiminta::Liiku { suunta } => suunta.venyta(TEKOALYN_NOPEUS),
            AlyToiminta::Laiskottele => None,
        }
    }
}

/// What a steering body sees of the world.
pub struct TekoalyMaailma<'a> {
    /// The world that the body is in.
    maailma: &'a Perusmaailma,
}

impl<'a> View for TekoalyMaailma<'a> {
    type V = Maailmamalli;

    closed spec fn view(&self) -> Maailmamalli {
        self.maailma@
    }
}

impl<'a> TekoalyMaailma<'a> {
    /// What a steering body sees of `maailma`.
    pub fn new(maailma: &'a Perusmaailma) -> (tulos: TekoalyMaailma<'a>)
        ensures
            tulos@ == maailma@,
    {
        TekoalyMaailma { maailma }
    }

    /// The centre of the body `kappale`, where the world has the body.
    pub fn anna_keskipiste(&self, kappale: Tunniste) -> (tulos: Option<Vektori>)
        ensures
            tulos == self@.keskipiste(kappale),
    {
        self.maailma.anna_keskipiste(kappale)
    }
}

impl<'a> Pelihahmollinen for TekoalyMaailma<'a> {
    open spec fn pelihahmo_spec(&self) -> Option<Pelihahmo> {
        self@.pelihahmo
    }

    fn anna_pelihahmo(&self) -> (tulos: Option<Pelihahmo>) {
        self.maailma.anna_pelihahmo()
    }
}

/// Steers its body straight towards the character of the player.
#[derive(Copy, Clone, Debug, PartialEq, Eq, Structural)]
pub struct SeurausAly;

impl SeurausAly {
    /// What the body decides, seen from the centres of the character and of
    /// the body itself: to move along the way from itself to the
    /// character, or to idle where the world has no character.
    pub open spec fn alyile_spec(pelihahmo: Option<Vektori>, oma: Vektori) -> AlyToiminta {
        match pelihahmo {
            Some(kohde) => AlyToiminta::Liiku { suunta: kohde.erotus_spec(oma) },
            None => AlyToiminta::Laiskottele,
        }
    }

    /// Decides what the body `oma_kappale` does in the world it sees.
    pub fn alyile(&self, maailma: &TekoalyMaailma, oma_kappale: Tunniste) -> (tulos: AlyToiminta)
        ensures
            tulos == maailma@.alyn_toiminta(Aly::Seuraus(*self), oma_kappale),
    {
        let pelihahmo = match maailma.anna_pelihahmo() {
            Some(hahmo) => maailma.anna_keskipiste(hahmo.anna_kappale()),
            None => None,
        };
        match (pelihahmo, maailma.anna_keskipiste(oma_kappale)) {
            (Some(kohde), Some(oma)) => AlyToiminta::Liiku { suunta: kohde.erotus(oma) },
            _ => AlyToiminta::Laiskottele,
        }
    }
}

/// The ways in which a body can steer itself.
#[derive(Copy, Clone, Debug, PartialEq, Eq, Structural)]
pub enum Aly {
    /// Straight towards the character of the player.
    Seuraus(SeurausAly),
}

impl Aly {
    /// What a body steering in this way decides, seen from the centres of
    /// the character and of the body itself.
    pub open spec fn alyile_spec(self, pelihahmo: Option<Vektori>, oma: Vektori) -> AlyToiminta {
        match self {
            Aly::Seuraus(_) => SeurausAly::alyile_spec(pelihahmo, oma),
        }
    }

    /// Decides what the body `oma_kappale` does in the world it sees.
    pub fn alyile(&self, maailma: &TekoalyMaailma, oma_kappale: Tunniste) -> (tulos: AlyToiminta)
        ensures
            tulos == maailma@.alyn_toiminta(*self, oma_kappale),
    {
        match self {
            Aly::Seuraus(seuraus) => seuraus.alyile(maailma, oma_kappale),
        }
    }
}

/// The steering side of a body of the world.
#[derive(Copy, Clone, Debug, PartialEq, Eq, Structural)]
pub struct Alyllinen {
    /// The body that is steered.
    pub kappale: Tunniste,
    /// The way in which it steers.
    pub aly: Aly,
}

impl Alyllinen {
    /// Lets the body `kappale` steer itself in the way `aly`.
    pub fn new(kappale: Tunniste, aly: Aly) -> (tulos: Alyllinen)
        ensures
            tulos == (Alyllinen { kappale, aly }),
    {
        Alyllinen { kappale, aly }
    }

    /// Decides what the body does in the world it sees.
    pub fn alyile(&self, maailma: &TekoalyMaailma) -> (tulos: AlyToiminta)
        ensures
            tulos == maailma@.alyn_toiminta(self.aly, self.kappale),
    {
        self.aly.alyile(maailma, self.kappale)
    }
}

impl Lisaosa for Alyllinen {
    open spec fn kappale_spec(&self) -> Tunniste {
        self.kappale
    }

    fn anna_kappale(&self) -> (tulos: Tunniste) {
        self.kappale
    }
}

} // verus!

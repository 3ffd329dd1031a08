//! The memory of the two latest states of a body.
use vstd::prelude::*;
use crate::maailma::kappale::Kappale;
use crate::maailma::lisaosa::{Lisaosa, Tunniste};

verus! {

/// Remembers two states of a body: the latest one and the one before it.
#[derive(Copy, Clone, Debug, PartialEq, Eq, Structural)]
pub struct Kappalemuisti {
    /// The older of the two states.
    pub vanhin_versio: Kappale,
    /// The newer of the two states.
    pub uusin_versio: Kappale,
    /// The body whose states these are.
    pub oikea_versio: Tunniste,
}

impl Kappalemuisti {
    /// The memory after `tuleva_versio` has become the newer state.
    pub open spec fn paivitetty(self, tuleva_versio: Kappale) -> Kappalemuisti {
        Kappalemuisti {
            vanhin_versio: self.uusin_versio,
            uusin_versio: tuleva_versio,
            oikea_versio: self.oikea_versio,
        }
    }

    /// A memory of the body `tunniste`, both states being `kappale`.
    pub fn new(tunniste: Tunniste, kappale: Kappale) -> (tulos: Kappalemuisti)
        ensures
            tulos == (Kappalemuisti {
                vanhin_versio: kappale,
                uusin_versio: kappale,
                oikea_versio: tunniste,
            }),
    {
        Kappalemuisti { vanhin_versio: kappale, uusin_versio: kappale, oikea_versio: tunniste }
    }

    /// Remembers the state `nykyinen` that the body is in now: it becomes
    /// the newer state, and the state that was the newer one becomes the
    /// older one.
    pub fn paivita_muistia(&mut self, nykyinen: Kappale)
        ensures
            *final(self) == old(self).paivitetty(nykyinen),
    {
        self.vanhin_versio = self.uusin_versio;
        self.uusin_versio = nykyinen;
    }

    /// Takes `tuleva_versio` as the newer state; the state that was the
    /// newer one becomes the older one.
    pub fn aseta_tuleva_versio(&mut self, tuleva_versio: Kappale)
        ensures
            *final(self) == old(self).paivitetty(tuleva_versio),
    {
        self.vanhin_versio = self.uusin_versio;
        self.uusin_versio = tuleva_versio;
    }

    /// The two remembered states, the older one first.
    pub fn anna_versiot(&self) -> (tulos: (&Kappale, &Kappale))
        ensures
            *tulos.0 == self.vanhin_versio,
            *tulos.1 == self.uusin_versio,
    {
        (&self.vanhin_versio, &self.uusin_versio)
    }
}

impl Lisaosa for Kappalemuisti {
    open spec fn kappale_spec(&self) -> Tunniste {
        self.oikea_versio
    }

    fn anna_kappale(&self) -> (tulos: Tunniste) {
        self.oikea_versio
    }
}

} // verus!

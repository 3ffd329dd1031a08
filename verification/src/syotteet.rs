//! The keys that the game watches, and what has happened to each.
//!
//! A key is known by the number of its place on the keyboard. Which keys
//! are held down is told from outside: this keeps, for each watched key,
//! whether it is down and whether that has just changed.
use vstd::prelude::*;

verus! {

/// Whether the state of a key has changed since it was last looked at.
#[derive(Copy, Clone, Debug, PartialEq, Eq, Structural)]
pub enum Muutos {
    /// The state has changed: the key has just been pressed, or released.
    Muuttunut,
    /// The state is as it was.
    Pysynyt,
}

/// The state of a key: whether it is held down.
#[derive(Copy, Clone, Debug, PartialEq, Eq, Structural)]
pub enum Tila {
    /// The key is held down.
    Pohjassa(Muutos),
    /// The key is not held down.
    EiPohjassa(Muutos),
}

impl Tila {
    /// The state of a key that was in this state and is now seen held down,
    /// or not: the change is noted exactly when the two differ.
    pub open spec fn seuraava(self, pohjassa: bool) -> Tila {
        match (pohjassa, self is Pohjassa) {
            (false, true) => Tila::EiPohjassa(Muutos::Muuttunut),
            (false, false) => Tila::EiPohjassa(Muutos::Pysynyt),
            (true, true) => Tila::Pohjassa(Muutos::Pysynyt),
            (true, false) => Tila::Pohjassa(Muutos::Muuttunut),
        }
    }

    /// The state of a key that is first seen, held down or not.
    pub open spec fn alussa(pohjassa: bool) -> Tila {
        if pohjassa {
            Tila::Pohjassa(Muutos::Pysynyt)
        } else {
            Tila::EiPohjassa(Muutos::Pysynyt)
        }
    }

    /// Whether the key is held down.
    pub fn pohjassa(self) -> (tulos: bool)
        ensures
            tulos == (self is Pohjassa),
    {
        match self {
            Tila::Pohjassa(_) => true,
            Tila::EiPohjassa(_) => false,
        }
    }

    /// Whether the key is not held down.
    pub fn ei_pohjassa(self) -> (tulos: bool)
        ensures
            tulos == (self is EiPohjassa),
    {
        match self {
            Tila::Pohjassa(_) => false,
            Tila::EiPohjassa(_) => true,
        }
    }

    /// Whether the key has just been pressed.
    pub fn painettu(self) -> (tulos: bool)
        ensures
            tulos == (self == Tila::Pohjassa(Muutos::Muuttunut)),
    {
        Tila::Pohjassa(Muutos::Muuttunut) == self
    }

    /// Whether the key has just been released.
    pub fn vapautettu(self) -> (tulos: bool)
        ensures
            tulos == (self == Tila::EiPohjassa(Muutos::Muuttunut)),
    {
        Tila::EiPohjassa(Muutos::Muuttunut) == self
    }
}

/// A watched key with its state.
#[derive(Copy, Clone, Debug, PartialEq, Eq, Structural)]
pub struct Nappain {
    /// The number of the key.
    pub nappain: i32,
    /// The state of the key.
    pub tila: Tila,
}

impl Nappain {
    /// A key that is first seen, held down or not. It counts as having been
    /// so before.
    pub fn new(pohjassa: bool, nappain_koodi: i32) -> (tulos: Nappain)
        ensures
            tulos == (Nappain { nappain: nappain_koodi, tila: Tila::alussa(pohjassa) }),
    {
        if pohjassa {
            Nappain { nappain: nappain_koodi, tila: Tila::Pohjassa(Muutos::Pysynyt) }
        } else {
            Nappain { nappain: nappain_koodi, tila: Tila::EiPohjassa(Muutos::Pysynyt) }
        }
    }

    /// Takes note of whether the key is held down now.
    pub fn paivita_tila(&mut self, pohjassa: bool)
        ensures
            *final(self) == (Nappain {
                nappain: old(self).nappain,
                tila: old(self).tila.seuraava(pohjassa),
            }),
    {
        match (pohjassa, self.tila.pohjassa()) {
            (false, true) => self.tila = Tila::EiPohjassa(Muutos::Muuttunut),
            (false, false) => self.tila = Tila::EiPohjassa(Muutos::Pysynyt),
            (true, true) => self.tila = Tila::Pohjassa(Muutos::Pysynyt),
            (true, false) => self.tila = Tila::Pohjassa(Muutos::Muuttunut),
        }
    }
}

/// Where the first key with the number `koodi` stands among `nappaimet`, or
/// the length of `nappaimet` where none has that number.
pub open spec fn nappaimen_paikka(nappaimet: Seq<Nappain>, koodi: i32, alku: int) -> int
    decreases nappaimet.len() - alku,
{
    if alku < 0 || alku >= nappaimet.len() {
        nappaimet.len() as int
    } else if nappaimet[alku].nappain == koodi {
        alku
    } else {
        nappaimen_paikka(nappaimet, koodi, alku + 1)
    }
}

/// The state of the key with the number `koodi`, where it is watched.
pub open spec fn nappaimen_tila(nappaimet: Seq<Nappain>, koodi: i32) -> Option<Tila> {
    let paikka = nappaimen_paikka(nappaimet, koodi, 0);
    if paikka < nappaimet.len() {
        Some(nappaimet[paikka].tila)
    } else {
        None
    }
}

/// The watched keys after the key with the number `koodi` was asked to be
/// watched: a key that is watched already stays as it is, a new one is
/// added last, held down if its number is among `pohjassa_olevat`.
pub open spec fn nappain_lisatty(
    nappaimet: Seq<Nappain>,
    pohjassa_olevat: Seq<i32>,
    koodi: i32,
) -> Seq<Nappain> {
    if nappaimen_tila(nappaimet, koodi) is Some {
        nappaimet
    } else {
        nappaimet.push(Nappain { nappain: koodi, tila: Tila::alussa(pohjassa_olevat.contains(koodi)) })
    }
}

/// The watched keys after each has taken note of whether it is held down
/// now: it is if its number is among `pohjassa_olevat`.
pub open spec fn nappaimet_paivitetty(nappaimet: Seq<Nappain>, pohjassa_olevat: Seq<i32>) -> Seq<
    Nappain,
> {
    Seq::new(
        nappaimet.len(),
        |k: int|
            Nappain {
                nappain: nappaimet[k].nappain,
                tila: nappaimet[k].tila.seuraava(pohjassa_olevat.contains(nappaimet[k].nappain)),
            },
    )
}

/// Whether the number `koodi` is among `koodit`.
pub fn sisaltaa_koodin(koodit: &Vec<i32>, koodi: i32) -> (tulos: bool)
    ensures
        tulos == koodit@.contains(koodi),
{
    let mut i: usize = 0;
    while i < koodit.len()
        invariant
            i <= koodit@.len(),
            forall|k: int| 0 <= k < i ==> koodit@[k] != koodi,
        decreases koodit.len() - i,
    {
        if koodit[i] == koodi {
            return true;
        }
        i += 1;
    }
    false
}

/// The keys that the game watches.
pub struct Syotteet {
    /// The watched keys, in the order in which they were added.
    tarkkailtavat_nappaimet: Vec<Nappain>,
}

impl View for Syotteet {
    type V = Seq<Nappain>;

    closed spec fn view(&self) -> Seq<Nappain> {
        self.tarkkailtavat_nappaimet@
    }
}

impl Syotteet {
    /// No keys to watch.
    pub fn new() -> (tulos: Syotteet)
        ensures
            tulos@ == Seq::<Nappain>::empty(),
    {
        Syotteet { tarkkailtavat_nappaimet: Vec::new() }
    }

    /// Finds the first watched key with the number `nappain_koodi`.
    fn etsi_nappain(&self, nappain_koodi: i32) -> (tulos: usize)
        ensures
            tulos == nappaimen_paikka(self@, nappain_koodi, 0),
            tulos <= self@.len(),
    {
        let mut i: usize = 0;
        while i < self.tarkkailtavat_nappaimet.len()
            invariant
                i <= self@.len(),
                self@ == self.tarkkailtavat_nappaimet@,
                nappaimen_paikka(self@, nappain_koodi, 0) == nappaimen_paikka(
                    self@,
                    nappain_koodi,
                    i as int,
                ),
            decreases self.tarkkailtavat_nappaimet.len() - i,
        {
            if self.tarkkailtavat_nappaimet[i].nappain == nappain_koodi {
                return i;
            }
            i += 1;
        }
        i
    }

    /// Begins to watch the key with the number `nappain_koodi`, unless it
    /// is watched already. The key is held down now if its number is among
    /// `pohjassa_olevat`.
    pub fn lisaa_nappain(&mut self, pohjassa_olevat: &Vec<i32>, nappain_koodi: i32)
        ensures
            final(self)@ == nappain_lisatty(old(self)@, pohjassa_olevat@, nappain_koodi),
    {
        let paikka = self.etsi_nappain(nappain_koodi);
        if paikka >= self.tarkkailtavat_nappaimet.len() {
            self.tarkkailtavat_nappaimet.push(
                Nappain::new(sisaltaa_koodin(pohjassa_olevat, nappain_koodi), nappain_koodi),
            );
        }
    }

    /// The state of the key with the number `nappain_koodi`, where the key
    /// is watched.
    pub fn anna_nappaimen_tila(&self, nappain_koodi: i32) -> (tulos: Option<Tila>)
        ensures
            tulos == nappaimen_tila(self@, nappain_koodi),
    {
        let paikka = self.etsi_nappain(nappain_koodi);
        if paikka < self.tarkkailtavat_nappaimet.len() {
            Some(self.tarkkailtavat_nappaimet[paikka].tila)
        } else {
            None
        }
    }

    /// Whether the key is watched and held down.
    pub fn nappain_pohjassa(&self, nappain_koodi: i32) -> (tulos: bool)
        ensures
            tulos == match nappaimen_tila(self@, nappain_koodi) {
                Some(tila) => tila is Pohjassa,
                None => false,
            },
    {
        match self.anna_nappaimen_tila(nappain_koodi) {
            Some(tila) => tila.pohjassa(),
            None => false,
        }
    }

    /// Whether the key is watched and has just been pressed.
    pub fn nappain_painettu(&self, nappain_koodi: i32) -> (tulos: bool)
        ensures
            tulos == (nappaimen_tila(self@, nappain_koodi) == Some(
                Tila::Pohjassa(Muutos::Muuttunut),
            )),
    {
        match self.anna_nappaimen_tila(nappain_koodi) {
            Some(tila) => tila.painettu(),
            None => false,
        }
    }

    /// Whether the key is watched and has just been released.
    pub fn nappain_vapautettu(&self, nappain_koodi: i32) -> (tulos: bool)
        ensures
            tulos == (nappaimen_tila(self@, nappain_koodi) == Some(
                Tila::EiPohjassa(Muutos::Muuttunut),
            )),
    {
        match self.anna_nappaimen_tila(nappain_koodi) {
            Some(tila) => tila.vapautettu(),
            None => false,
        }
    }

    /// Whether the key is watched and not held down.
    pub fn nappain_ei_pohjassa(&self, nappain_koodi: i32) -> (tulos: bool)
        ensures
            tulos == match nappaimen_tila(self@, nappain_koodi) {
                Some(tila) => tila is EiPohjassa,
                None => false,
            },
    {
        match self.anna_nappaimen_tila(nappain_koodi) {
            Some(tila) => tila.ei_pohjassa(),
            None => false,
        }
    }

    /// Takes note, for every watched key, of whether it is held down now:
    /// it is if its number is among `pohjassa_olevat`.
    pub fn paivita_nappainten_tilat(&mut self, pohjassa_olevat: &Vec<i32>)
        ensures
            final(self)@ == nappaimet_paivitetty(old(self)@, pohjassa_olevat@),
    {
        let mut i: usize = 0;
        while i < self.tarkkailtavat_nappaimet.len()
            invariant
                i <= self@.len() == old(self)@.len(),
                self@ == self.tarkkailtavat_nappaimet@,
                forall|k: int|
                    0 <= k < i ==> (#[trigger] self@[k]) == (Nappain {
                        nappain: old(self)@[k].nappain,
                        tila: old(self)@[k].tila.seuraava(
                            pohjassa_olevat@.contains(old(self)@[k].nappain),
                        ),
                    }),
                forall|k: int| i <= k < self@.len() ==> (#[trigger] self@[k]) == old(self)@[k],
            decreases self.tarkkailtavat_nappaimet.len() - i,
        {
            let mut nappain = self.tarkkailtavat_nappaimet[i];
            nappain.paivita_tila(sisaltaa_koodin(pohjassa_olevat, nappain.nappain));
            self.tarkkailtavat_nappaimet.set(i, nappain);
            i += 1;
        }
        assert(self@ =~= nappaimet_paivitetty(old(self)@, pohjassa_olevat@));
    }
}

impl Default for Syotteet {
    /// No keys to watch.
    fn default() -> (tulos: Syotteet)
        ensures
            tulos@ == Seq::<Nappain>::empty(),
    {
        Syotteet::new()
    }
}

} // verus!

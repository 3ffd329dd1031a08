//! Animations: things that are drawn for a while and then die.
use vstd::prelude::*;
use crate::maailma::kappale::{Kappale, Muoto, Tagi};
use crate::maailma::vektori::{jaa_etumerkilla, jaettuna, rajaa, rajattu, Vektori};
use crate::paivitys::Paivitysaika;
use crate::piirtaja::{Piirtotapa, ValiaikainenPiirrettavaKappale, Vari};

verus! {

/// The value at `arvo` of the straight line that is `alku_y` at `alku_x`
/// and `loppu_y` at `loppu_x`, rounded towards `alku_y` and brought into the
/// range of a coordinate.
pub open spec fn interpoloitu(
    alku_x: int,
    alku_y: int,
    loppu_x: int,
    loppu_y: int,
    arvo: int,
) -> int
    recommends
        alku_x != loppu_x,
{
    rajattu(alku_y + jaettuna((loppu_y - alku_y) * (arvo - alku_x), loppu_x - alku_x))
}

/// The point at `arvo` of the straight line that is at `alku_y` at `alku_x`
/// and at `loppu_y` at `loppu_x`.
pub open spec fn interpoloitu_vektori(
    alku_x: int,
    alku_y: Vektori,
    loppu_x: int,
    loppu_y: Vektori,
    arvo: int,
) -> Vektori
    recommends
        alku_x != loppu_x,
{
    Vektori {
        x: interpoloitu(alku_x, alku_y.x as int, loppu_x, loppu_y.x as int, arvo) as i32,
        y: interpoloitu(alku_x, alku_y.y as int, loppu_x, loppu_y.y as int, arvo) as i32,
    }
}

/// Interpolates linearly between two points, and beyond them. Where
/// `alku_x` and `loppu_x` are the same there is no line, and nothing is
/// given.
pub fn lineaarinen_interpolaatio(
    alku_x: u64,
    alku_y: i32,
    loppu_x: u64,
    loppu_y: i32,
    interpolaatio_arvo: u64,
) -> (tulos: Option<i32>)
    ensures
        alku_x == loppu_x ==> tulos.is_none(),
        alku_x != loppu_x ==> tulos == Some(
            interpoloitu(
                alku_x as int,
                alku_y as int,
                loppu_x as int,
                loppu_y as int,
                interpolaatio_arvo as int,
            ) as i32,
        ),
{
    if alku_x == loppu_x {
        return None;
    }
    let nousu: i128 = loppu_y as i128 - alku_y as i128;
    let matka: i128 = interpolaatio_arvo as i128 - alku_x as i128;
    let vali: i128 = loppu_x as i128 - alku_x as i128;
    assert(-0x1_0000_0000_0000_0000_0000_0000 <= nousu * matka
        <= 0x1_0000_0000_0000_0000_0000_0000) by (nonlinear_arith)
        requires
            -0x1_0000_0000 <= nousu <= 0x1_0000_0000,
            -0x1_0000_0000_0000_0000 <= matka <= 0x1_0000_0000_0000_0000,
    ;
    let osa: i128 = jaa_etumerkilla(nousu * matka, vali);
    proof {
        let tulo = (nousu * matka) as int;
        assert(-0x1_0000_0000_0000_0000_0000_0000 <= jaettuna(tulo, vali as int)
            <= 0x1_0000_0000_0000_0000_0000_0000) by (nonlinear_arith)
            requires
                -0x1_0000_0000_0000_0000_0000_0000 <= tulo <= 0x1_0000_0000_0000_0000_0000_0000,
                vali != 0,
        ;
    }
    Some(rajaa(alku_y as i128 + osa))
}

/// Interpolates linearly between two points of the plane, and beyond them.
pub fn lineaarinen_interpolaatio_vektori(
    alku_x: u64,
    alku_y: Vektori,
    loppu_x: u64,
    loppu_y: Vektori,
    interpolaatio_arvo: u64,
) -> (tulos: Option<Vektori>)
    ensures
        alku_x == loppu_x ==> tulos.is_none(),
        alku_x != loppu_x ==> tulos == Some(
            interpoloitu_vektori(
                alku_x as int,
                alku_y,
                loppu_x as int,
                loppu_y,
                interpolaatio_arvo as int,
            ),
        ),
{
    match (
        lineaarinen_interpolaatio(alku_x, alku_y.x, loppu_x, loppu_y.x, interpolaatio_arvo),
        lineaarinen_interpolaatio(alku_x, alku_y.y, loppu_x, loppu_y.y, interpolaatio_arvo),
    ) {
        (Some(x), Some(y)) => Some(Vektori { x, y }),
        _ => None,
    }
}

/// Holds something that dies at a given moment. It does not remove what it
/// holds: it can only be asked whether the time has come.
#[derive(Copy, Clone, Debug)]
pub struct Kuolevainen<T> {
    /// The moment at which the content is to be removed, in nanoseconds
    /// since the game began.
    pub kuolin_aika: u64,
    /// The content.
    pub arvo: T,
}

impl<T> Kuolevainen<T> {
    /// Something that is to be removed when `kuolin_aika` has come.
    pub fn new(sisalto: T, kuolin_aika: u64) -> (tulos: Kuolevainen<T>)
        ensures
            tulos.arvo == sisalto,
            tulos.kuolin_aika == kuolin_aika,
    {
        Kuolevainen { arvo: sisalto, kuolin_aika }
    }

    /// Whether the content is to be removed at the moment `peliaika`.
    pub open spec fn kuollut(&self, peliaika: u64) -> bool {
        self.kuolin_aika <= peliaika
    }

    /// Whether the content is to be removed at the moment `peliaika`: it is
    /// from the moment of its death on.
    pub fn kuoleeko(&self, peliaika: u64) -> (tulos: bool)
        ensures
            tulos == self.kuollut(peliaika),
    {
        self.kuolin_aika <= peliaika
    }

    /// The content.
    pub fn anna_arvo(&self) -> (tulos: &T)
        ensures
            *tulos == self.arvo,
    {
        &self.arvo
    }
}

/// A square that changes its size from one to another in a given time.
#[derive(Copy, Clone, Debug, PartialEq, Eq, Structural)]
pub struct KatoamisAnimaatio {
    /// The moment at which the animation begins.
    pub animaation_alku: u64,
    /// The centre of the square.
    pub sijainti: Vektori,
    /// The side of the square in the beginning.
    pub alkukoko: i32,
    /// The side of the square in the end.
    pub loppukoko: i32,
    /// How long the change takes, in nanoseconds.
    pub muutoksen_kesto: u64,
    /// The colour of the square.
    pub kappaleen_vari: Vari,
}

impl KatoamisAnimaatio {
    /// An animation by its parts.
    pub fn new(
        sijainti: Vektori,
        animaation_alku: u64,
        alkukoko: i32,
        loppukoko: i32,
        muutoksen_kesto: u64,
        kappaleen_vari: Vari,
    ) -> (tulos: KatoamisAnimaatio)
        ensures
            tulos == (KatoamisAnimaatio {
                animaation_alku,
                sijainti,
                alkukoko,
                loppukoko,
                muutoksen_kesto,
                kappaleen_vari,
            }),
    {
        KatoamisAnimaatio {
            animaation_alku,
            sijainti,
            alkukoko,
            loppukoko,
            muutoksen_kesto,
            kappaleen_vari,
        }
    }

    /// The place of the animation, to be moved.
    pub fn sijainti_mut(&mut self) -> (tulos: &mut Vektori)
        ensures
            *tulos == old(self).sijainti,
            *final(self) == (KatoamisAnimaatio { sijainti: *final(tulos), ..*old(self) }),
    {
        &mut self.sijainti
    }

    /// The square that the animation shows `framen_aika` nanoseconds after
    /// its beginning. An animation that takes no time shows nothing.
    pub open spec fn pala(self, framen_aika: u64) -> Option<Kappale> {
        if self.muutoksen_kesto == 0 {
            None
        } else {
            let koko = interpoloitu(
                0,
                self.alkukoko as int,
                self.muutoksen_kesto as int,
                self.loppukoko as int,
                framen_aika as int,
            ) as i32;
            let muoto = Muoto::Nelio(koko, koko);
            Some(
                Kappale {
                    muoto,
                    sijainti: self.sijainti.erotus_spec(muoto.keskipiste_spec()),
                    tagi: Tagi::Partikkeli,
                },
            )
        }
    }

    /// Computes the square that the animation shows `framen_aika`
    /// nanoseconds after its beginning.
    pub fn anna_pala(&self, framen_aika: u64) -> (tulos: Option<Kappale>)
        ensures
            tulos == self.pala(framen_aika),
    {
        match lineaarinen_interpolaatio(
            0,
            self.alkukoko,
            self.muutoksen_kesto,
            self.loppukoko,
            framen_aika,
        ) {
            Some(koko) => Some(
                Kappale::new_keskipisteella(
                    Muoto::Nelio(koko, koko),
                    self.sijainti.x,
                    self.sijainti.y,
                    Tagi::Partikkeli,
                ),
            ),
            None => None,
        }
    }
}

/// How far the mark of a destroyed projectile travels.
pub const AMMUKSEN_JALJEN_MATKA: i32 = 20_000;

/// The side of the mark of a destroyed projectile in the beginning.
pub const AMMUKSEN_JALJEN_KOKO: i32 = 10_000;

/// The side of the mark of a destroyed projectile in the end.
pub const AMMUKSEN_JALJEN_LOPPUKOKO: i32 = 100;

/// The mark that a destroyed projectile leaves: a square that travels on
/// along the way of the projectile and shrinks.
#[derive(Copy, Clone, Debug, PartialEq, Eq, Structural)]
pub struct AmmusAnimaatio {
    /// The moment at which the animation begins.
    pub animaation_alku: u64,
    /// Where the square is in the beginning.
    pub sijainti: Vektori,
    /// The direction in which the square travels. Only the direction of
    /// the vector matters.
    pub suunta: Vektori,
    /// How long the animation takes, in nanoseconds.
    pub muutoksen_kesto: u64,
    /// The colour of the square.
    pub kappaleen_vari: Vari,
}

impl AmmusAnimaatio {
    /// An animation by its parts.
    pub fn new(
        sijainti: Vektori,
        animaation_alku: u64,
        suunta: Vektori,
        muutoksen_kesto: u64,
        kappaleen_vari: Vari,
    ) -> (tulos: AmmusAnimaatio)
        ensures
            tulos == (AmmusAnimaatio {
                animaation_alku,
                sijainti,
                suunta,
                muutoksen_kesto,
                kappaleen_vari,
            }),
    {
        AmmusAnimaatio { animaation_alku, sijainti, suunta, muutoksen_kesto, kappaleen_vari }
    }

    /// The place of the animation, to be moved.
    pub fn sijainti_mut(&mut self) -> (tulos: &mut Vektori)
        ensures
            *tulos == old(self).sijainti,
            *final(self) == (AmmusAnimaatio { sijainti: *final(tulos), ..*old(self) }),
    {
        &mut self.sijainti
    }

    /// Where the square is in the end: the fixed distance along the
    /// direction from where it began. Without a direction it stays.
    pub open spec fn paatos_sijainti(self) -> Vektori {
        if self.suunta.x == 0 && self.suunta.y == 0 {
            self.sijainti
        } else {
            self.sijainti.summa_spec(self.suunta.venytetty_spec(AMMUKSEN_JALJEN_MATKA))
        }
    }

    /// The square that the animation shows `framen_aika` nanoseconds after
    /// its beginning. An animation that takes no time shows nothing.
    pub open spec fn pala(self, framen_aika: u64) -> Option<Kappale> {
        if self.muutoksen_kesto == 0 {
            None
        } else {
            let keski = interpoloitu_vektori(
                0,
                self.sijainti,
                self.muutoksen_kesto as int,
                self.paatos_sijainti(),
                framen_aika as int,
            );
            let koko = interpoloitu(
                0,
                AMMUKSEN_JALJEN_KOKO as int,
                self.muutoksen_kesto as int,
                AMMUKSEN_JALJEN_LOPPUKOKO as int,
                framen_aika as int,
            ) as i32;
            let muoto = Muoto::Nelio(koko, koko);
            Some(
                Kappale {
                    muoto,
                    sijainti: keski.erotus_spec(muoto.keskipiste_spec()),
                    tagi: Tagi::Partikkeli,
                },
            )
        }
    }

    /// Computes the square that the animation shows `framen_aika`
    /// nanoseconds after its beginning.
    pub fn anna_pala(&self, framen_aika: u64) -> (tulos: Option<Kappale>)
        ensures
            tulos == self.pala(framen_aika),
    {
        let paatos = match self.suunta.venyta(AMMUKSEN_JALJEN_MATKA) {
            Some(matka) => self.sijainti.summa(matka),
            None => self.sijainti,
        };
        let keski = lineaarinen_interpolaatio_vektori(
            0,
            self.sijainti,
            self.muutoksen_kesto,
            paatos,
            framen_aika,
        );
        let koko = lineaarinen_interpolaatio(
            0,
            AMMUKSEN_JALJEN_KOKO,
            self.muutoksen_kesto,
            AMMUKSEN_JALJEN_LOPPUKOKO,
            framen_aika,
        );
        match (keski, koko) {
            (Some(keski), Some(koko)) => Some(
                Kappale::new_keskipisteella(
                    Muoto::Nelio(koko, koko),
                    keski.x,
                    keski.y,
                    Tagi::Partikkeli,
                ),
            ),
            _ => None,
        }
    }
}

/// An animation: something that shows a picture of itself for any moment
/// after its beginning.
#[derive(Copy, Clone, Debug, PartialEq, Eq, Structural)]
pub enum Animaatio {
    /// A square that changes its size.
    Katoamis(KatoamisAnimaatio),
    /// The mark of a destroyed projectile.
    Ammus(AmmusAnimaatio),
}

impl Animaatio {
    /// The moment at which the animation begins, in nanoseconds since the
    /// game began.
    pub open spec fn alku(self) -> u64 {
        match self {
            Animaatio::Katoamis(a) => a.animaation_alku,
            Animaatio::Ammus(a) => a.animaation_alku,
        }
    }

    /// What the animation shows `framen_aika` nanoseconds after its
    /// beginning: a body in the colour of the animation, or nothing.
    pub open spec fn pala(self, framen_aika: u64) -> Option<ValiaikainenPiirrettavaKappale> {
        match self {
            Animaatio::Katoamis(a) => match a.pala(framen_aika) {
                Some(kappale) => Some(
                    ValiaikainenPiirrettavaKappale {
                        kappale,
                        piirtotapa: Piirtotapa::Yksivarinen { vari: a.kappaleen_vari },
                    },
                ),
                None => None,
            },
            Animaatio::Ammus(a) => match a.pala(framen_aika) {
                Some(kappale) => Some(
                    ValiaikainenPiirrettavaKappale {
                        kappale,
                        piirtotapa: Piirtotapa::Yksivarinen { vari: a.kappaleen_vari },
                    },
                ),
                None => None,
            },
        }
    }

    /// The moment at which the animation begins.
    pub fn animaation_alku(&self) -> (tulos: u64)
        ensures
            tulos == self.alku(),
    {
        match self {
            Animaatio::Katoamis(a) => a.animaation_alku,
            Animaatio::Ammus(a) => a.animaation_alku,
        }
    }

    /// Adds to `palat` what the animation shows `framen_aika` nanoseconds
    /// after its beginning.
    pub fn anna_palat(&self, palat: &mut Vec<ValiaikainenPiirrettavaKappale>, framen_aika: u64)
        ensures
            final(palat)@ == match self.pala(framen_aika) {
                Some(pala) => old(palat)@.push(pala),
                None => old(palat)@,
            },
    {
        let (kappale, vari) = match self {
            Animaatio::Katoamis(a) => (a.anna_pala(framen_aika), a.kappaleen_vari),
            Animaatio::Ammus(a) => (a.anna_pala(framen_aika), a.kappaleen_vari),
        };
        match kappale {
            Some(kappale) => {
                palat.push(
                    ValiaikainenPiirrettavaKappale::new(kappale, Piirtotapa::Yksivarinen { vari }),
                );
            },
            None => {},
        }
    }
}

/// The animations that are still alive at the moment `aika`, in their
/// order.
pub open spec fn elavat(
    animaatiot: Seq<Kuolevainen<Animaatio>>,
    aika: u64,
) -> Seq<Kuolevainen<Animaatio>>
    decreases animaatiot.len(),
{
    if animaatiot.len() == 0 {
        animaatiot
    } else if animaatiot.last().kuollut(aika) {
        elavat(animaatiot.drop_last(), aika)
    } else {
        elavat(animaatiot.drop_last(), aika).push(animaatiot.last())
    }
}

/// What the animations show at the moment `aika`, in their order. An
/// animation that has not begun yet shows nothing.
pub open spec fn kuva(
    animaatiot: Seq<Kuolevainen<Animaatio>>,
    aika: u64,
) -> Seq<ValiaikainenPiirrettavaKappale>
    decreases animaatiot.len(),
{
    if animaatiot.len() == 0 {
        Seq::empty()
    } else {
        let aiemmat = kuva(animaatiot.drop_last(), aika);
        let viimeinen = animaatiot.last().arvo;
        if aika >= viimeinen.alku() {
            match viimeinen.pala((aika - viimeinen.alku()) as u64) {
                Some(pala) => aiemmat.push(pala),
                None => aiemmat,
            }
        } else {
            aiemmat
        }
    }
}

/// Keeps the animations, makes the pictures of them, and removes them as
/// they die.
pub struct Animaatiot {
    /// The animations, each with the moment of its death.
    animaatiot: Vec<Kuolevainen<Animaatio>>,
}

impl View for Animaatiot {
    type V = Seq<Kuolevainen<Animaatio>>;

    closed spec fn view(&self) -> Seq<Kuolevainen<Animaatio>> {
        self.animaatiot@
    }
}

impl Animaatiot {
    /// A keeper without animations.
    pub fn new() -> (tulos: Animaatiot)
        ensures
            tulos@ == Seq::<Kuolevainen<Animaatio>>::empty(),
    {
        Animaatiot { animaatiot: Vec::new() }
    }

    /// Adds an animation.
    pub fn lisaa_animaatio(&mut self, animaatio: Kuolevainen<Animaatio>)
        ensures
            final(self)@ == old(self)@.push(animaatio),
    {
        self.animaatiot.push(animaatio);
    }

    /// The animations that are kept, each with the moment of its death.
    pub fn anna_animaatiot(&self) -> (tulos: &Vec<Kuolevainen<Animaatio>>)
        ensures
            tulos@ == self@,
    {
        &self.animaatiot
    }

    /// How many animations are kept.
    pub fn maara(&self) -> (tulos: usize)
        ensures
            tulos == self@.len(),
    {
        self.animaatiot.len()
    }

    /// Removes the animations that are dead at the moment `aika`.
    pub fn poista_kuolleet(&mut self, aika: u64)
        ensures
            final(self)@ == elavat(old(self)@, aika),
    {
        let ghost vanha = self.animaatiot@;
        let ghost mut kasitelty: int = 0;
        let mut i: usize = 0;
        while i < self.animaatiot.len()
            invariant
                vanha == old(self)@,
                0 <= i <= self.animaatiot.len(),
                0 <= kasitelty <= vanha.len(),
                kasitelty + (self.animaatiot.len() - i) == vanha.len(),
                self.animaatiot@.take(i as int) == elavat(vanha.take(kasitelty), aika),
                self.animaatiot@.skip(i as int) == vanha.skip(kasitelty),
            decreases self.animaatiot.len() - i,
        {
            let ghost ennen = self.animaatiot@;
            assert(ennen[i as int] == ennen.skip(i as int)[0]);
            assert(vanha[kasitelty] == vanha.skip(kasitelty)[0]);
            assert(vanha.take(kasitelty + 1).drop_last() =~= vanha.take(kasitelty));
            assert forall|j: int| i <= j < ennen.len() implies #[trigger] ennen[j] == vanha[j - i
                + kasitelty] by {
                assert(ennen.skip(i as int)[j - i] == vanha.skip(kasitelty)[j - i]);
            }
            if self.animaatiot[i].kuoleeko(aika) {
                self.animaatiot.remove(i);
                assert(self.animaatiot@.take(i as int) =~= ennen.take(i as int));
                let ghost loput = self.animaatiot@.skip(i as int);
                let ghost vanhat = vanha.skip(kasitelty + 1);
                assert forall|m: int| 0 <= m < loput.len() implies #[trigger] loput[m]
                    == vanhat[m] by {
                    assert(ennen[i + m + 1] == vanha[i + m + 1 - i + kasitelty]);
                }
                assert(loput =~= vanhat);
            } else {
                assert(self.animaatiot@.take(i + 1) =~= ennen.take(i as int).push(ennen[i as int]));
                let ghost loput = self.animaatiot@.skip(i + 1);
                let ghost vanhat = vanha.skip(kasitelty + 1);
                assert forall|m: int| 0 <= m < loput.len() implies #[trigger] loput[m]
                    == vanhat[m] by {
                    assert(ennen[i + m + 1] == vanha[i + m + 1 - i + kasitelty]);
                }
                assert(loput =~= vanhat);
                i += 1;
            }
            proof {
                kasitelty = kasitelty + 1;
            }
        }
        assert(self.animaatiot@.take(i as int) =~= self.animaatiot@);
        assert(vanha.take(kasitelty) =~= vanha);
    }

    /// Removes the animations that are dead at the time of the game, and
    /// adds to `piirrettavien_lista` what each of the others shows at that
    /// time.
    pub fn anna_piirrettavat(
        &mut self,
        piirrettavien_lista: &mut Vec<ValiaikainenPiirrettavaKappale>,
        pelimaailman_aika: &Paivitysaika,
    )
        ensures
            final(self)@ == elavat(old(self)@, pelimaailman_aika.kokonais_pelin_aika),
            final(piirrettavien_lista)@ == old(piirrettavien_lista)@ + kuva(
                final(self)@,
                pelimaailman_aika.kokonais_pelin_aika,
            ),
    {
        let aika = pelimaailman_aika.kokonais_pelin_aika;
        self.poista_kuolleet(aika);
        let ghost alussa = piirrettavien_lista@;
        let mut i: usize = 0;
        assert(self.animaatiot@.take(0) =~= Seq::<Kuolevainen<Animaatio>>::empty());
        assert(alussa + kuva(self.animaatiot@.take(0), aika) =~= alussa);
        while i < self.animaatiot.len()
            invariant
                i <= self.animaatiot.len(),
                self@ == elavat(old(self)@, aika),
                self@ == self.animaatiot@,
                alussa == old(piirrettavien_lista)@,
                piirrettavien_lista@ == alussa + kuva(self.animaatiot@.take(i as int), aika),
            decreases self.animaatiot.len() - i,
        {
            let ghost ennen = piirrettavien_lista@;
            let ghost osa = self.animaatiot@.take(i as int);
            let animaatio = self.animaatiot[i].arvo;
            assert(self.animaatiot@.take(i + 1).drop_last() =~= osa);
            assert(self.animaatiot@.take(i + 1).last() == self.animaatiot@[i as int]);
            if aika >= animaatio.animaation_alku() {
                animaatio.anna_palat(piirrettavien_lista, aika - animaatio.animaation_alku());
            }
            assert(piirrettavien_lista@ =~= alussa + kuva(self.animaatiot@.take(i + 1), aika));
            i += 1;
        }
        assert(self.animaatiot@.take(i as int) =~= self.animaatiot@);
    }
}

/// An animation that is dead at a moment is not among the animations that
/// are alive then, and whatever is alive then stays alive until its own
/// death.
pub proof fn lemma_elavat(animaatiot: Seq<Kuolevainen<Animaatio>>, aika: u64)
    ensures
        elavat(animaatiot, aika).len() <= animaatiot.len(),
        forall|k: int|
            0 <= k < elavat(animaatiot, aika).len() ==> !(#[trigger] elavat(
                animaatiot,
                aika,
            )[k]).kuollut(aika) && animaatiot.contains(elavat(animaatiot, aika)[k]),
        forall|k: int|
            0 <= k < animaatiot.len() && !(#[trigger] animaatiot[k]).kuollut(aika) ==> elavat(
                animaatiot,
                aika,
            ).contains(animaatiot[k]),
    decreases animaatiot.len(),
{
    if animaatiot.len() > 0 {
        let alku = animaatiot.drop_last();
        lemma_elavat(alku, aika);
        let tulos = elavat(animaatiot, aika);
        let alun_tulos = elavat(alku, aika);
        assert forall|k: int| 0 <= k < tulos.len() implies !(#[trigger] tulos[k]).kuollut(aika)
            && animaatiot.contains(tulos[k]) by {
            if k < alun_tulos.len() {
                assert(tulos[k] == alun_tulos[k]);
                assert(alku.contains(alun_tulos[k]));
                let j = choose|j: int| 0 <= j < alku.len() && alku[j] == alun_tulos[k];
                assert(animaatiot[j] == tulos[k]);
            } else {
                assert(tulos[k] == animaatiot[animaatiot.len() - 1]);
            }
        }
        assert forall|k: int|
            0 <= k < animaatiot.len() && !(#[trigger] animaatiot[k]).kuollut(aika) implies tulos.contains(
            animaatiot[k],
        ) by {
            if k < alku.len() {
                assert(alku[k] == animaatiot[k]);
                assert(alun_tulos.contains(alku[k]));
                let j = choose|j: int| 0 <= j < alun_tulos.len() && alun_tulos[j] == alku[k];
                assert(tulos[j] == animaatiot[k]);
            } else {
                assert(tulos[tulos.len() - 1] == animaatiot[k]);
            }
        }
    }
}

impl Default for Animaatiot {
    /// A keeper without animations.
    fn default() -> (tulos: Animaatiot)
        ensures
            tulos@ == Seq::<Kuolevainen<Animaatio>>::empty(),
    {
        Animaatiot::new()
    }
}

} // verus!

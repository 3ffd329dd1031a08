//! Two-dimensional vectors over whole units.
//!
//! A coordinate is a whole number of world units, of which a thousand make
//! one point of the picture. Every operation computes in unbounded
//! integers and then brings the result back into the range of a
//! coordinate, so that no operation can overflow.
use vstd::prelude::*;

verus! {

/// How many world units make one point of the picture.
pub const PISTE: i32 = 1000;

/// The smallest coordinate.
pub const PIENIN: i32 = -2147483648i32;

/// The largest coordinate.
pub const SUURIN: i32 = 2147483647i32;

/// `arvo` brought into the range of a coordinate: values below the range
/// become the smallest coordinate, values above it the largest.
pub open spec fn rajattu(arvo: int) -> int {
    if arvo < PIENIN {
        PIENIN as int
    } else if arvo > SUURIN {
        SUURIN as int
    } else {
        arvo
    }
}

/// Brings a wide intermediate result back into the range of a coordinate.
pub fn rajaa(arvo: i128) -> (tulos: i32)
    ensures
        tulos == rajattu(arvo as int),
{
    if arvo < -2147483648i128 {
        PIENIN
    } else if arvo > 2147483647i128 {
        SUURIN
    } else {
        arvo as i32
    }
}

/// The quotient of `jaettava` by `jakaja`, rounded towards zero.
pub open spec fn osamaara(jaettava: int, jakaja: int) -> int
    recommends
        jakaja > 0,
{
    if jaettava >= 0 {
        jaettava / jakaja
    } else {
        -((-jaettava) / jakaja)
    }
}

/// Divides rounding towards zero.
pub(crate) fn jaa_luku(jaettava: i128, jakaja: i128) -> (tulos: i128)
    requires
        jakaja > 0,
        jaettava > i128::MIN,
    ensures
        tulos == osamaara(jaettava as int, jakaja as int),
{
    if jaettava >= 0 {
        jaettava / jakaja
    } else {
        let vasta: i128 = -jaettava;
        let osa: i128 = vasta / jakaja;
        assert(0 <= osa <= vasta) by (nonlinear_arith)
            requires
                osa == vasta / jakaja,
                vasta >= 0,
                jakaja > 0,
        ;
        -osa
    }
}

/// The quotient of `jaettava` by a `jakaja` of either sign, rounded towards
/// zero.
pub open spec fn jaettuna(jaettava: int, jakaja: int) -> int
    recommends
        jakaja != 0,
{
    if jakaja > 0 {
        osamaara(jaettava, jakaja)
    } else {
        osamaara(-jaettava, -jakaja)
    }
}

/// Divides by a divisor of either sign, rounding towards zero.
pub(crate) fn jaa_etumerkilla(jaettava: i128, jakaja: i128) -> (tulos: i128)
    requires
        jakaja != 0,
        jaettava > i128::MIN,
        jakaja > i128::MIN,
    ensures
        tulos == jaettuna(jaettava as int, jakaja as int),
{
    if jakaja > 0 {
        jaa_luku(jaettava, jakaja)
    } else {
        jaa_luku(-jaettava, -jakaja)
    }
}

/// Whether `juuri` is the square root of `luku` rounded down.
pub open spec fn on_neliojuuri(luku: int, juuri: int) -> bool {
    0 <= juuri && juuri * juuri <= luku < (juuri + 1) * (juuri + 1)
}

/// The square root of `luku` rounded down.
pub open spec fn neliojuuri_spec(luku: int) -> int {
    choose|juuri: int| on_neliojuuri(luku, juuri)
}

/// A number has at most one square root rounded down.
pub proof fn lemma_neliojuuri_on_ainoa(luku: int, juuri: int)
    requires
        on_neliojuuri(luku, juuri),
    ensures
        neliojuuri_spec(luku) == juuri,
{
    let toinen = neliojuuri_spec(luku);
    assert(on_neliojuuri(luku, toinen));
    if toinen < juuri {
        assert((toinen + 1) * (toinen + 1) <= juuri * juuri) by (nonlinear_arith)
            requires
                0 <= toinen < juuri,
        ;
    } else if juuri < toinen {
        assert((juuri + 1) * (juuri + 1) <= toinen * toinen) by (nonlinear_arith)
            requires
                0 <= juuri < toinen,
        ;
    }
}

/// Computes the square root of `luku` rounded down.
pub fn neliojuuri(luku: u64) -> (tulos: u32)
    ensures
        on_neliojuuri(luku as int, tulos as int),
        tulos == neliojuuri_spec(luku as int),
{
    let mut ala: u64 = 0;
    let mut yla: u64 = 0x1_0000_0000;
    assert(0 * 0 == 0 && 0x1_0000_0000 * 0x1_0000_0000 > luku) by (nonlinear_arith)
        requires
            luku <= 0xffff_ffff_ffff_ffff,
    ;
    while yla - ala > 1
        invariant
            ala < yla <= 0x1_0000_0000,
            ala * ala <= luku < yla * yla,
        decreases yla - ala,
    {
        let keski: u64 = ala + (yla - ala) / 2;
        assert(keski * keski <= 0xffff_ffff * 0xffff_ffff) by (nonlinear_arith)
            requires
                0 <= keski <= 0xffff_ffff,
        ;
        if keski * keski <= luku {
            ala = keski;
        } else {
            yla = keski;
        }
    }
    proof {
        lemma_neliojuuri_on_ainoa(luku as int, ala as int);
    }
    ala as u32
}

/// A position, an offset or a velocity in the plane. The origin is the upper
/// left corner, x grows to the right and y downwards.
#[derive(Copy, Clone, Debug, PartialEq, Eq, Structural)]
pub struct Vektori {
    /// The x coordinate.
    pub x: i32,
    /// The y coordinate.
    pub y: i32,
}

impl Vektori {
    /// The componentwise sum, each coordinate brought into range.
    pub open spec fn summa_spec(self, toinen: Vektori) -> Vektori {
        Vektori {
            x: rajattu(self.x + toinen.x) as i32,
            y: rajattu(self.y + toinen.y) as i32,
        }
    }

    /// The componentwise difference, each coordinate brought into range.
    pub open spec fn erotus_spec(self, toinen: Vektori) -> Vektori {
        Vektori {
            x: rajattu(self.x - toinen.x) as i32,
            y: rajattu(self.y - toinen.y) as i32,
        }
    }

    /// Both coordinates multiplied by `kerroin`, each brought into range.
    pub open spec fn kerrottu_spec(self, kerroin: i32) -> Vektori {
        Vektori {
            x: rajattu(self.x * kerroin) as i32,
            y: rajattu(self.y * kerroin) as i32,
        }
    }

    /// Both coordinates divided by `jakaja`, rounded towards zero and
    /// brought into range.
    pub open spec fn jaettu_spec(self, jakaja: i32) -> Vektori
        recommends
            jakaja != 0,
    {
        Vektori {
            x: rajattu(jaettuna(self.x as int, jakaja as int)) as i32,
            y: rajattu(jaettuna(self.y as int, jakaja as int)) as i32,
        }
    }

    /// The square of the vector's length.
    pub open spec fn pituuden_nelio_spec(self) -> int {
        self.x * self.x + self.y * self.y
    }

    /// A vector with the given coordinates.
    pub fn new(x: i32, y: i32) -> (tulos: Vektori)
        ensures
            tulos.x == x,
            tulos.y == y,
    {
        Vektori { x, y }
    }

    /// Moves the vector by `x` and `y`.
    pub fn liiku(&mut self, x: i32, y: i32)
        ensures
            *final(self) == old(self).summa_spec(Vektori { x, y }),
    {
        self.x = rajaa(self.x as i128 + x as i128);
        self.y = rajaa(self.y as i128 + y as i128);
    }

    /// The sum of two vectors.
    pub fn summa(self, toinen: Vektori) -> (tulos: Vektori)
        ensures
            tulos == self.summa_spec(toinen),
    {
        Vektori {
            x: rajaa(self.x as i128 + toinen.x as i128),
            y: rajaa(self.y as i128 + toinen.y as i128),
        }
    }

    /// The difference of two vectors.
    pub fn erotus(self, toinen: Vektori) -> (tulos: Vektori)
        ensures
            tulos == self.erotus_spec(toinen),
    {
        Vektori {
            x: rajaa(self.x as i128 - toinen.x as i128),
            y: rajaa(self.y as i128 - toinen.y as i128),
        }
    }

    /// The vector scaled by `kerroin`.
    pub fn kerro(self, kerroin: i32) -> (tulos: Vektori)
        ensures
            tulos == self.kerrottu_spec(kerroin),
    {
        Vektori {
            x: rajaa(kerro_luvut(self.x, kerroin)),
            y: rajaa(kerro_luvut(self.y, kerroin)),
        }
    }

    /// The vector divided by `jakaja`, or nothing when `jakaja` is zero.
    pub fn jaa(self, jakaja: i32) -> (tulos: Option<Vektori>)
        ensures
            jakaja == 0 ==> tulos.is_none(),
            jakaja != 0 ==> tulos == Some(self.jaettu_spec(jakaja)),
    {
        if jakaja == 0 {
            None
        } else {
            Some(
                Vektori {
                    x: rajaa(jaa_etumerkilla(self.x as i128, jakaja as i128)),
                    y: rajaa(jaa_etumerkilla(self.y as i128, jakaja as i128)),
                },
            )
        }
    }

    /// The square of the vector's length.
    pub fn pituuden_nelio(self) -> (tulos: u64)
        ensures
            tulos == self.pituuden_nelio_spec(),
    {
        let xx: i128 = kerro_luvut(self.x, self.x);
        let yy: i128 = kerro_luvut(self.y, self.y);
        assert(0 <= self.x * self.x <= 0x4000_0000_0000_0000) by (nonlinear_arith)
            requires
                -0x8000_0000 <= self.x <= 0x7fff_ffff,
        ;
        assert(0 <= self.y * self.y <= 0x4000_0000_0000_0000) by (nonlinear_arith)
            requires
                -0x8000_0000 <= self.y <= 0x7fff_ffff,
        ;
        (xx + yy) as u64
    }

    /// The length of the vector, rounded down.
    pub open spec fn pituus_spec(self) -> int {
        neliojuuri_spec(self.pituuden_nelio_spec())
    }

    /// The vector stretched or shrunk to the length `pituus` along its
    /// direction: each coordinate times `pituus`, divided by the length of
    /// the vector rounded down, the quotient rounded towards zero and
    /// brought into range.
    pub open spec fn venytetty_spec(self, pituus: i32) -> Vektori
        recommends
            self.pituus_spec() > 0,
    {
        Vektori {
            x: rajattu(osamaara(self.x * pituus, self.pituus_spec())) as i32,
            y: rajattu(osamaara(self.y * pituus, self.pituus_spec())) as i32,
        }
    }

    /// The length of the vector, rounded down.
    pub fn pituus(self) -> (tulos: u32)
        ensures
            tulos == self.pituus_spec(),
            on_neliojuuri(self.pituuden_nelio_spec(), tulos as int),
    {
        neliojuuri(self.pituuden_nelio())
    }

    /// A vector of the length `pituus` that points where this one points.
    /// The zero vector points nowhere: of it nothing is given.
    pub fn venyta(self, pituus: i32) -> (tulos: Option<Vektori>)
        ensures
            self.x == 0 && self.y == 0 ==> tulos.is_none(),
            !(self.x == 0 && self.y == 0) ==> tulos == Some(self.venytetty_spec(pituus))
                && self.pituus_spec() > 0,
    {
        let oma: u32 = self.pituus();
        proof {
            let x = self.x as int;
            let y = self.y as int;
            assert(x * x >= 0 && y * y >= 0) by (nonlinear_arith);
            assert(x != 0 ==> x * x >= 1) by (nonlinear_arith);
            assert(y != 0 ==> y * y >= 1) by (nonlinear_arith);
            assert(oma > 0 ==> oma * oma >= 1) by (nonlinear_arith);
            assert(oma == 0 ==> (oma + 1) * (oma + 1) == 1) by (nonlinear_arith);
            assert(x == 0 ==> x * x == 0);
            assert(y == 0 ==> y * y == 0);
        }
        if oma == 0 {
            return None;
        }
        Some(
            Vektori {
                x: rajaa(jaa_luku(kerro_luvut(self.x, pituus), oma as i128)),
                y: rajaa(jaa_luku(kerro_luvut(self.y, pituus), oma as i128)),
            },
        )
    }

    /// The vector of the length of one point of the picture that points
    /// where this one points. The zero vector points nowhere: of it
    /// nothing is given.
    pub fn yksikkovektori(self) -> (tulos: Option<Vektori>)
        ensures
            self.x == 0 && self.y == 0 ==> tulos.is_none(),
            !(self.x == 0 && self.y == 0) ==> tulos == Some(self.venytetty_spec(PISTE))
                && self.pituus_spec() > 0,
    {
        self.venyta(PISTE)
    }

    /// Whether both coordinates are zero.
    pub fn onko_nolla(self) -> (tulos: bool)
        ensures
            tulos == (self.x == 0 && self.y == 0),
    {
        self.x == 0 && self.y == 0
    }
}

/// The product of two coordinates, which always fits the wide type.
pub fn kerro_luvut(a: i32, b: i32) -> (tulos: i128)
    ensures
        tulos == a * b,
        -0x4000_0000_0000_0000 <= tulos <= 0x4000_0000_0000_0000,
{
    assert(-0x4000_0000_0000_0000 <= a * b <= 0x4000_0000_0000_0000) by (nonlinear_arith)
        requires
            -0x8000_0000 <= a <= 0x7fff_ffff,
            -0x8000_0000 <= b <= 0x7fff_ffff,
    ;
    a as i128 * b as i128
}

impl Default for Vektori {
    /// The zero vector.
    fn default() -> (tulos: Vektori)
        ensures
            tulos.x == 0,
            tulos.y == 0,
    {
        Vektori { x: 0, y: 0 }
    }
}

impl core::ops::Add for Vektori {
    type Output = Vektori;

    /// The sum of two vectors.
    fn add(self, other: Vektori) -> (tulos: Vektori) {
        self.summa(other)
    }
}

impl vstd::std_specs::ops::AddSpecImpl for Vektori {
    open spec fn obeys_add_spec() -> bool {
        true
    }

    open spec fn add_req(self, other: Vektori) -> bool {
        true
    }

    open spec fn add_spec(self, other: Vektori) -> Vektori {
        self.summa_spec(other)
    }
}

impl core::ops::Sub for Vektori {
    type Output = Vektori;

    /// The difference of two vectors.
    fn sub(self, other: Vektori) -> (tulos: Vektori) {
        self.erotus(other)
    }
}

impl vstd::std_specs::ops::SubSpecImpl for Vektori {
    open spec fn obeys_sub_spec() -> bool {
        true
    }

    open spec fn sub_req(self, other: Vektori) -> bool {
        true
    }

    open spec fn sub_spec(self, other: Vektori) -> Vektori {
        self.erotus_spec(other)
    }
}

impl core::ops::Mul<i32> for Vektori {
    type Output = Vektori;

    /// The vector scaled by `other`.
    fn mul(self, other: i32) -> (tulos: Vektori) {
        self.kerro(other)
    }
}

impl vstd::std_specs::ops::MulSpecImpl<i32> for Vektori {
    open spec fn obeys_mul_spec() -> bool {
        true
    }

    open spec fn mul_req(self, other: i32) -> bool {
        true
    }

    open spec fn mul_spec(self, other: i32) -> Vektori {
        self.kerrottu_spec(other)
    }
}

} // verus!

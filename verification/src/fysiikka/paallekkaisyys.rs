//! Whether two bodies overlap.
//!
//! Bodies that only touch do not overlap: every comparison is strict.
//! Distances are compared by their squares, so nothing is rounded.
use vstd::prelude::*;
use crate::maailma::kappale::{Kappale, Muoto};

verus! {

/// Whether a point at the offset `dx`, `dy` from another lies nearer to it
/// than `sade`. Distances are compared by their squares, so a radius that
/// is not positive has no point nearer than it.
pub open spec fn lahempana_kuin(dx: int, dy: int, sade: int) -> bool {
    sade > 0 && dx * dx + dy * dy < sade * sade
}

/// Whether two rectangles overlap: their extents overlap on both axes.
/// Rectangles that only touch along an edge do not overlap.
pub open spec fn neliot_paallekkain(a: Kappale, b: Kappale) -> bool {
    &&& a.vasen() < b.oikea()
    &&& b.vasen() < a.oikea()
    &&& a.ala() < b.yla()
    &&& b.ala() < a.yla()
}

/// Whether two circles overlap: their centres are nearer to each other
/// than the sum of the radii. Circles that only touch do not overlap.
pub open spec fn ympyrat_paallekkain(a: Kappale, sade_a: int, b: Kappale, sade_b: int) -> bool {
    lahempana_kuin(a.keski_x() - b.keski_x(), a.keski_y() - b.keski_y(), sade_a + sade_b)
}

/// Whether a rectangle and a circle of radius `sade` overlap. They do not
/// where the centre of the circle lies at least `sade` outside the
/// rectangle on either axis, nor where it lies beyond a corner of the
/// rectangle on both axes and at least `sade` away from that corner.
pub open spec fn nelio_ja_ympyra_paallekkain(nelio: Kappale, ympyra: Kappale, sade: int) -> bool {
    let x = ympyra.keski_x();
    let y = ympyra.keski_y();
    let vasen = nelio.vasen();
    let oikea = nelio.oikea();
    let ala = nelio.ala();
    let yla = nelio.yla();
    !(x <= vasen - sade || oikea + sade <= x || y <= ala - sade || yla + sade <= y
        || (x < vasen && y > yla && !lahempana_kuin(x - vasen, y - yla, sade))
        || (x > oikea && y > yla && !lahempana_kuin(x - oikea, y - yla, sade))
        || (x < vasen && y < ala && !lahempana_kuin(x - vasen, y - ala, sade))
        || (x > oikea && y < ala && !lahempana_kuin(x - oikea, y - ala, sade)))
}

/// Whether two bodies overlap, by their shapes.
pub open spec fn paallekkain(a: Kappale, b: Kappale) -> bool {
    match (a.muoto, b.muoto) {
        (Muoto::Nelio(_, _), Muoto::Nelio(_, _)) => neliot_paallekkain(a, b),
        (Muoto::Ympyra(sade_a), Muoto::Ympyra(sade_b)) => ympyrat_paallekkain(
            a,
            sade_a as int,
            b,
            sade_b as int,
        ),
        (Muoto::Ympyra(sade), Muoto::Nelio(_, _)) => nelio_ja_ympyra_paallekkain(b, a, sade as int),
        (Muoto::Nelio(_, _), Muoto::Ympyra(sade)) => nelio_ja_ympyra_paallekkain(a, b, sade as int),
    }
}

/// The square of a number that is small enough for the square to fit.
fn nelio_luvusta(luku: i64) -> (tulos: i128)
    requires
        -0x4_0000_0000 <= luku <= 0x4_0000_0000,
    ensures
        tulos == luku * luku,
        0 <= tulos <= 0x10_0000_0000_0000_0000,
{
    assert(0 <= luku * luku <= 0x10_0000_0000_0000_0000) by (nonlinear_arith)
        requires
            -0x4_0000_0000 <= luku <= 0x4_0000_0000,
    ;
    luku as i128 * luku as i128
}

/// Decides whether one point lies nearer to another than `sade`.
fn onko_lahempana_kuin(dx: i64, dy: i64, sade: i64) -> (tulos: bool)
    requires
        -0x4_0000_0000 <= dx <= 0x4_0000_0000,
        -0x4_0000_0000 <= dy <= 0x4_0000_0000,
        -0x4_0000_0000 <= sade <= 0x4_0000_0000,
    ensures
        tulos == lahempana_kuin(dx as int, dy as int, sade as int),
{
    sade > 0 && nelio_luvusta(dx) + nelio_luvusta(dy) < nelio_luvusta(sade)
}

/// The x coordinate of the centre of a body.
fn keskipisteen_x(kappale: &Kappale) -> (tulos: i64)
    ensures
        tulos == kappale.keski_x(),
{
    kappale.sijainti.x as i64 + kappale.muoto.keskipiste().x as i64
}

/// The y coordinate of the centre of a body.
fn keskipisteen_y(kappale: &Kappale) -> (tulos: i64)
    ensures
        tulos == kappale.keski_y(),
{
    kappale.sijainti.y as i64 + kappale.muoto.keskipiste().y as i64
}

/// The right edge of the box around a body.
fn oikea_reuna(kappale: &Kappale) -> (tulos: i64)
    ensures
        tulos == kappale.oikea(),
{
    match kappale.muoto {
        Muoto::Nelio(leveys, _) => kappale.sijainti.x as i64 + leveys as i64,
        Muoto::Ympyra(sade) => kappale.sijainti.x as i64 + 2 * (sade as i64),
    }
}

/// The edge of the box around a body that has the larger y.
fn yla_reuna(kappale: &Kappale) -> (tulos: i64)
    ensures
        tulos == kappale.yla(),
{
    match kappale.muoto {
        Muoto::Nelio(_, korkeus) => kappale.sijainti.y as i64 + korkeus as i64,
        Muoto::Ympyra(sade) => kappale.sijainti.y as i64 + 2 * (sade as i64),
    }
}

/// Decides whether a rectangle and a circle lie on top of each other.
/// Gives `false` unless the first body is a rectangle and the second a
/// circle.
pub fn ympyran_ja_nelion_tormays(nelio: &Kappale, ympyra: &Kappale) -> (tulos: bool)
    ensures
        tulos == match (nelio.muoto, ympyra.muoto) {
            (Muoto::Nelio(_, _), Muoto::Ympyra(sade)) => nelio_ja_ympyra_paallekkain(
                *nelio,
                *ympyra,
                sade as int,
            ),
            _ => false,
        },
{
    if let Muoto::Nelio(_, _) = nelio.muoto {
        if let Muoto::Ympyra(sade_luku) = ympyra.muoto {
            let sade: i64 = sade_luku as i64;
            let x: i64 = keskipisteen_x(ympyra);
            let y: i64 = keskipisteen_y(ympyra);
            let vasen: i64 = nelio.sijainti.x as i64;
            let oikea: i64 = oikea_reuna(nelio);
            let ala: i64 = nelio.sijainti.y as i64;
            let yla: i64 = yla_reuna(nelio);
            if x <= vasen - sade || oikea + sade <= x || y <= ala - sade || yla + sade <= y {
                return false;
            }
            return !((x < vasen && y > yla && !onko_lahempana_kuin(x - vasen, y - yla, sade))
                || (x > oikea && y > yla && !onko_lahempana_kuin(x - oikea, y - yla, sade))
                || (x < vasen && y < ala && !onko_lahempana_kuin(x - vasen, y - ala, sade))
                || (x > oikea && y < ala && !onko_lahempana_kuin(x - oikea, y - ala, sade)));
        }
    }
    false
}

/// Decides whether two bodies lie on top of each other.
pub fn ovatko_paallekkain(kappale_a: &Kappale, kappale_b: &Kappale) -> (tulos: bool)
    ensures
        tulos == paallekkain(*kappale_a, *kappale_b),
{
    match (kappale_a.muoto, kappale_b.muoto) {
        (Muoto::Nelio(_, _), Muoto::Nelio(_, _)) => {
            let vasen_a: i64 = kappale_a.sijainti.x as i64;
            let oikea_a: i64 = oikea_reuna(kappale_a);
            let vasen_b: i64 = kappale_b.sijainti.x as i64;
            let oikea_b: i64 = oikea_reuna(kappale_b);
            let ala_a: i64 = kappale_a.sijainti.y as i64;
            let yla_a: i64 = yla_reuna(kappale_a);
            let ala_b: i64 = kappale_b.sijainti.y as i64;
            let yla_b: i64 = yla_reuna(kappale_b);
            vasen_a < oikea_b && vasen_b < oikea_a && ala_a < yla_b && ala_b < yla_a
        },
        (Muoto::Ympyra(sade_a), Muoto::Ympyra(sade_b)) => {
            let dx: i64 = keskipisteen_x(kappale_a) - keskipisteen_x(kappale_b);
            let dy: i64 = keskipisteen_y(kappale_a) - keskipisteen_y(kappale_b);
            onko_lahempana_kuin(dx, dy, sade_a as i64 + sade_b as i64)
        },
        (Muoto::Ympyra(_), Muoto::Nelio(_, _)) => ympyran_ja_nelion_tormays(kappale_b, kappale_a),
        (Muoto::Nelio(_, _), Muoto::Ympyra(_)) => ympyran_ja_nelion_tormays(kappale_a, kappale_b),
    }
}

/// Two rectangles overlap exactly when their extents overlap on both axes;
/// where one ends at or before the edge at which the other begins, they do
/// not.
pub proof fn lemma_neliot_tormaavat_vain_limittain(a: Kappale, b: Kappale)
    requires
        a.muoto is Nelio,
        b.muoto is Nelio,
    ensures
        paallekkain(a, b) <==> (a.vasen() < b.oikea() && b.vasen() < a.oikea() && a.ala()
            < b.yla() && b.ala() < a.yla()),
        a.oikea() <= b.vasen() || b.oikea() <= a.vasen() || a.yla() <= b.ala() || b.yla()
            <= a.ala() ==> !paallekkain(a, b),
{
}

/// Two circles overlap exactly when the square of the distance between the
/// centres is less than the square of the sum of the radii, that sum being
/// positive; circles that touch do not overlap.
pub proof fn lemma_ympyrat_tormaavat_vain_lahekkain(a: Kappale, b: Kappale)
    requires
        a.muoto is Ympyra,
        b.muoto is Ympyra,
    ensures
        ({
            let dx = a.keski_x() - b.keski_x();
            let dy = a.keski_y() - b.keski_y();
            let summa = a.muoto->Ympyra_0 + b.muoto->Ympyra_0;
            &&& paallekkain(a, b) <==> (summa > 0 && dx * dx + dy * dy < summa * summa)
            &&& dx * dx + dy * dy == summa * summa ==> !paallekkain(a, b)
        }),
{
}

/// Whether two bodies overlap does not depend on the order in which they
/// are given.
pub proof fn lemma_paallekkaisyys_on_symmetrinen(a: Kappale, b: Kappale)
    ensures
        paallekkain(a, b) == paallekkain(b, a),
{
    let dx = a.keski_x() - b.keski_x();
    let dy = a.keski_y() - b.keski_y();
    assert(dx * dx == (-dx) * (-dx)) by (nonlinear_arith);
    assert(dy * dy == (-dy) * (-dy)) by (nonlinear_arith);
}

/// `arvo` brought between `ala` and `yla`.
pub open spec fn valiin(arvo: int, ala: int, yla: int) -> int {
    if arvo < ala {
        ala
    } else if arvo > yla {
        yla
    } else {
        arvo
    }
}

/// A circle with a radius overlaps a rectangle exactly when the point of
/// the rectangle that lies nearest to the centre of the circle lies nearer
/// to it than the radius.
pub proof fn lemma_nelio_ja_ympyra_lahimman_pisteen_mukaan(nelio: Kappale, ympyra: Kappale)
    requires
        nelio.muoto is Nelio,
        nelio.muoto->Nelio_0 >= 0,
        nelio.muoto->Nelio_1 >= 0,
        ympyra.muoto is Ympyra,
        ympyra.muoto->Ympyra_0 > 0,
    ensures
        paallekkain(nelio, ympyra) <==> lahempana_kuin(
            ympyra.keski_x() - valiin(ympyra.keski_x(), nelio.vasen(), nelio.oikea()),
            ympyra.keski_y() - valiin(ympyra.keski_y(), nelio.ala(), nelio.yla()),
            ympyra.muoto->Ympyra_0 as int,
        ),
{
    let sade = ympyra.muoto->Ympyra_0 as int;
    let dx = ympyra.keski_x() - valiin(ympyra.keski_x(), nelio.vasen(), nelio.oikea());
    let dy = ympyra.keski_y() - valiin(ympyra.keski_y(), nelio.ala(), nelio.yla());
    lemma_neliot_jarjestyksessa(dx, sade);
    lemma_neliot_jarjestyksessa(-dx, sade);
    lemma_neliot_jarjestyksessa(dy, sade);
    lemma_neliot_jarjestyksessa(-dy, sade);
    assert(dx * dx == (-dx) * (-dx)) by (nonlinear_arith);
    assert(dy * dy == (-dy) * (-dy)) by (nonlinear_arith);
    assert(dx == 0 ==> dx * dx == 0);
    assert(dy == 0 ==> dy * dy == 0);
}

/// Of two numbers that are not negative the smaller has the smaller
/// square.
proof fn lemma_neliot_jarjestyksessa(a: int, sade: int)
    requires
        sade > 0,
    ensures
        a * a >= 0,
        0 <= a < sade ==> a * a < sade * sade,
        a >= sade ==> a * a >= sade * sade,
{
    assert(a * a >= 0) by (nonlinear_arith);
    if 0 <= a < sade {
        assert(a * a < sade * sade) by (nonlinear_arith)
            requires
                0 <= a < sade,
        ;
    }
    if a >= sade {
        assert(a * a >= sade * sade) by (nonlinear_arith)
            requires
                a >= sade,
                sade > 0,
        ;
    }
}

} // verus!

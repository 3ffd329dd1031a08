use pelimoottori::maailma::vektori::{kerro_luvut, neliojuuri, rajaa, Vektori};

#[test]
fn vektorin_osat_sailyvat() {
    let v = Vektori::new(3, -4);
    assert_eq!(v.x, 3);
    assert_eq!(v.y, -4);
    assert_eq!(Vektori::default(), Vektori::new(0, 0));
}

#[test]
fn summa_ja_erotus_lasketaan_osittain() {
    let a = Vektori::new(1, 2);
    let b = Vektori::new(30, -40);
    assert_eq!(a.summa(b), Vektori::new(31, -38));
    assert_eq!(a.erotus(b), Vektori::new(-29, 42));
}

#[test]
fn laskumerkit_toimivat_vektoreilla() {
    let a = Vektori::new(1, 2);
    let b = Vektori::new(30, -40);
    assert_eq!(a + b, Vektori::new(31, -38));
    assert_eq!(a - b, Vektori::new(-29, 42));
    assert_eq!(b * 3, Vektori::new(90, -120));
    assert_eq!(a + b * 2 - a, Vektori::new(60, -80));
    assert_eq!(Vektori::new(i32::MAX, 0) + a, Vektori::new(i32::MAX, 2));
    assert_eq!(Vektori::new(i32::MIN, 0) - a, Vektori::new(i32::MIN, -2));
    assert_eq!(Vektori::new(i32::MAX, -1) * 2, Vektori::new(i32::MAX, -2));
}

#[test]
fn summa_pysahtyy_lukualueen_reunaan() {
    let reunalla = Vektori::new(i32::MAX, i32::MIN);
    assert_eq!(reunalla.summa(Vektori::new(1, -1)), Vektori::new(i32::MAX, i32::MIN));
    assert_eq!(reunalla.erotus(Vektori::new(-1, 1)), Vektori::new(i32::MAX, i32::MIN));
    assert_eq!(reunalla.summa(Vektori::new(-1, 1)), Vektori::new(i32::MAX - 1, i32::MIN + 1));
}

#[test]
fn liiku_siirtaa_vektoria() {
    let mut v = Vektori::new(10, 20);
    v.liiku(-15, 5);
    assert_eq!(v, Vektori::new(-5, 25));
    v.liiku(i32::MIN, i32::MAX);
    assert_eq!(v, Vektori::new(i32::MIN, i32::MAX));
}

#[test]
fn kertominen_skaalaa_ja_pysahtyy_reunaan() {
    assert_eq!(Vektori::new(3, -4).kerro(5), Vektori::new(15, -20));
    assert_eq!(Vektori::new(3, -4).kerro(-1), Vektori::new(-3, 4));
    assert_eq!(Vektori::new(i32::MAX, 1).kerro(2), Vektori::new(i32::MAX, 2));
    assert_eq!(Vektori::new(i32::MIN, -1).kerro(2), Vektori::new(i32::MIN, -2));
}

#[test]
fn jakaminen_pyoristaa_nollaa_kohti() {
    assert_eq!(Vektori::new(7, -7).jaa(2), Some(Vektori::new(3, -3)));
    assert_eq!(Vektori::new(7, -7).jaa(-2), Some(Vektori::new(-3, 3)));
    assert_eq!(Vektori::new(9, 0).jaa(3), Some(Vektori::new(3, 0)));
    assert_eq!(Vektori::new(i32::MIN, 0).jaa(-1), Some(Vektori::new(i32::MAX, 0)));
}

#[test]
fn nollalla_jakaminen_ei_anna_mitaan() {
    assert_eq!(Vektori::new(7, -7).jaa(0), None);
    assert_eq!(Vektori::new(0, 0).jaa(0), None);
}

#[test]
fn pituuden_nelio_ja_pituus() {
    assert_eq!(Vektori::new(3, 4).pituuden_nelio(), 25);
    assert_eq!(Vektori::new(3, 4).pituus(), 5);
    assert_eq!(Vektori::new(-3, -4).pituus(), 5);
    assert_eq!(Vektori::new(1, 1).pituuden_nelio(), 2);
    assert_eq!(Vektori::new(1, 1).pituus(), 1);
    assert_eq!(Vektori::new(0, 0).pituus(), 0);
    assert_eq!(Vektori::new(i32::MIN, i32::MIN).pituuden_nelio(), 1u64 << 63);
    assert_eq!(Vektori::new(i32::MIN, i32::MIN).pituus(), 3_037_000_499);
}

#[test]
fn neliojuuri_pyoristaa_alas() {
    assert_eq!(neliojuuri(0), 0);
    assert_eq!(neliojuuri(1), 1);
    assert_eq!(neliojuuri(3), 1);
    assert_eq!(neliojuuri(4), 2);
    assert_eq!(neliojuuri(15), 3);
    assert_eq!(neliojuuri(16), 4);
    assert_eq!(neliojuuri(1_000_000), 1000);
    assert_eq!(neliojuuri(999_999), 999);
    assert_eq!(neliojuuri(u64::MAX), u32::MAX);
}

#[test]
fn venyta_antaa_pyydetyn_pituuden() {
    assert_eq!(Vektori::new(3, 4).venyta(10), Some(Vektori::new(6, 8)));
    assert_eq!(Vektori::new(-120, 0).venyta(260), Some(Vektori::new(-260, 0)));
    assert_eq!(Vektori::new(0, 7).venyta(40), Some(Vektori::new(0, 40)));
    // The length of (1, 1) rounds down to one.
    assert_eq!(Vektori::new(1, 1).venyta(40), Some(Vektori::new(40, 40)));
    // 120 * 40 / 169 rounds towards zero.
    assert_eq!(Vektori::new(120, -120).venyta(40), Some(Vektori::new(28, -28)));
}

#[test]
fn yksikkovektori_on_pisteen_pituinen() {
    assert_eq!(Vektori::new(3, 4).yksikkovektori(), Some(Vektori::new(600, 800)));
    assert_eq!(Vektori::new(0, -120_000).yksikkovektori(), Some(Vektori::new(0, -1_000)));
    assert_eq!(Vektori::new(120_000, 120_000).yksikkovektori(), Some(Vektori::new(707, 707)));
    assert_eq!(Vektori::new(0, 0).yksikkovektori(), None);
}

#[test]
fn nollavektoria_ei_voi_venyttaa() {
    assert_eq!(Vektori::new(0, 0).venyta(40), None);
    assert!(Vektori::new(0, 0).onko_nolla());
    assert!(!Vektori::new(0, 1).onko_nolla());
}

#[test]
fn apulaskut() {
    assert_eq!(rajaa(1i128 << 31), i32::MAX);
    assert_eq!(rajaa(-(1i128 << 31) - 1), i32::MIN);
    assert_eq!(rajaa(-17), -17);
    assert_eq!(kerro_luvut(i32::MIN, i32::MIN), 1i128 << 62);
}

use pelimoottori::animointi::{
    lineaarinen_interpolaatio, lineaarinen_interpolaatio_vektori, AmmusAnimaatio, Animaatio,
    Animaatiot, KatoamisAnimaatio, Kuolevainen,
};
use pelimoottori::maailma::kappale::{Kappale, Muoto, Tagi};
use pelimoottori::maailma::vektori::Vektori;
use pelimoottori::paivitys::Paivitysaika;
use pelimoottori::piirtaja::{Piirtotapa, ValiaikainenPiirrettavaKappale, Vari};

fn katoava(alku: u64, kesto: u64) -> Animaatio {
    Animaatio::Katoamis(KatoamisAnimaatio::new(
        Vektori::new(100, 100),
        alku,
        20,
        1,
        kesto,
        Vari::rgb(200, 0, 100),
    ))
}

#[test]
fn interpolaatio_pisteiden_valilla() {
    assert_eq!(lineaarinen_interpolaatio(0, 10, 100, 20, 0), Some(10));
    assert_eq!(lineaarinen_interpolaatio(0, 10, 100, 20, 50), Some(15));
    assert_eq!(lineaarinen_interpolaatio(0, 10, 100, 20, 100), Some(20));
    assert_eq!(lineaarinen_interpolaatio(50, 10, 150, 20, 100), Some(15));
    // -250 / 100 rounds towards the beginning.
    assert_eq!(lineaarinen_interpolaatio(0, 10, 100, 0, 25), Some(8));
    assert_eq!(lineaarinen_interpolaatio(0, -10, 100, 0, 25), Some(-8));
}

#[test]
fn interpolaatio_pisteiden_ulkopuolella() {
    assert_eq!(lineaarinen_interpolaatio(0, 10, 100, 20, 200), Some(30));
    assert_eq!(lineaarinen_interpolaatio(100, 10, 200, 20, 0), Some(0));
    assert_eq!(lineaarinen_interpolaatio(100, 10, 0, 20, 50), Some(15));
    assert_eq!(lineaarinen_interpolaatio(0, 0, 1, i32::MAX, 2), Some(i32::MAX));
    assert_eq!(lineaarinen_interpolaatio(0, i32::MIN, u64::MAX, i32::MAX, u64::MAX), Some(i32::MAX));
}

#[test]
fn interpolaatio_ilman_valia_ei_anna_mitaan() {
    assert_eq!(lineaarinen_interpolaatio(5, 10, 5, 20, 5), None);
    assert_eq!(
        lineaarinen_interpolaatio_vektori(0, Vektori::new(0, 0), 0, Vektori::new(1, 1), 0),
        None
    );
}

#[test]
fn interpolaatio_vektoreilla() {
    assert_eq!(
        lineaarinen_interpolaatio_vektori(0, Vektori::new(0, 100), 4, Vektori::new(100, -100), 1),
        Some(Vektori::new(25, 50))
    );
}

#[test]
fn kuolevainen_kuolee_kuolinhetkellaan() {
    let kuolevainen = Kuolevainen::new(7u8, 100);
    assert_eq!(*kuolevainen.anna_arvo(), 7);
    assert_eq!(kuolevainen.kuolin_aika, 100);
    assert!(!kuolevainen.kuoleeko(0));
    assert!(!kuolevainen.kuoleeko(99));
    assert!(kuolevainen.kuoleeko(100));
    assert!(kuolevainen.kuoleeko(101));
}

#[test]
fn katoamisanimaatio_kutistaa_neliota() {
    let animaatio = KatoamisAnimaatio::new(
        Vektori::new(100, 100),
        0,
        20,
        1,
        1_000_000_000,
        Vari::rgb(1, 2, 3),
    );
    assert_eq!(
        animaatio.anna_pala(0),
        Some(Kappale::new_kulmalla(Muoto::Nelio(20, 20), 90, 90, Tagi::Partikkeli))
    );
    // 20 - 9.5, rounded towards the size in the beginning.
    assert_eq!(
        animaatio.anna_pala(500_000_000),
        Some(Kappale::new_kulmalla(Muoto::Nelio(11, 11), 95, 95, Tagi::Partikkeli))
    );
    assert_eq!(
        animaatio.anna_pala(1_000_000_000),
        Some(Kappale::new_kulmalla(Muoto::Nelio(1, 1), 100, 100, Tagi::Partikkeli))
    );
    let hetkessa = KatoamisAnimaatio::new(Vektori::new(0, 0), 0, 20, 1, 0, Vari::rgb(1, 2, 3));
    assert_eq!(hetkessa.anna_pala(0), None);
}

#[test]
fn ammusanimaatio_kulkee_suuntaansa_ja_kutistuu() {
    let animaatio = AmmusAnimaatio::new(
        Vektori::new(0, 0),
        0,
        Vektori::new(260, 0),
        100_000_000,
        Vari::rgb(1, 2, 3),
    );
    assert_eq!(
        animaatio.anna_pala(0),
        Some(Kappale::new_kulmalla(Muoto::Nelio(10_000, 10_000), -5_000, -5_000, Tagi::Partikkeli))
    );
    // Half way: 10 000 units along, and a side of 10 000 - 9 900 / 2.
    assert_eq!(
        animaatio.anna_pala(50_000_000),
        Some(Kappale::new_kulmalla(Muoto::Nelio(5_050, 5_050), 7_475, -2_525, Tagi::Partikkeli))
    );
    assert_eq!(
        animaatio.anna_pala(100_000_000),
        Some(Kappale::new_kulmalla(Muoto::Nelio(100, 100), 19_950, -50, Tagi::Partikkeli))
    );
    let paikallaan = AmmusAnimaatio::new(
        Vektori::new(7, 7),
        0,
        Vektori::new(0, 0),
        100_000_000,
        Vari::rgb(1, 2, 3),
    );
    assert_eq!(
        paikallaan.anna_pala(100_000_000),
        Some(Kappale::new_kulmalla(Muoto::Nelio(100, 100), -43, -43, Tagi::Partikkeli))
    );
}

#[test]
fn animaation_sijaintia_voi_siirtaa() {
    let mut katoava = KatoamisAnimaatio::new(Vektori::new(1, 2), 0, 20, 1, 10, Vari::rgb(1, 2, 3));
    *katoava.sijainti_mut() = Vektori::new(5, 6);
    katoava.sijainti_mut().liiku(1, 1);
    assert_eq!(
        katoava,
        KatoamisAnimaatio::new(Vektori::new(6, 7), 0, 20, 1, 10, Vari::rgb(1, 2, 3))
    );
    let mut ammus =
        AmmusAnimaatio::new(Vektori::new(1, 2), 0, Vektori::new(1, 0), 10, Vari::rgb(1, 2, 3));
    *ammus.sijainti_mut() = Vektori::new(-1, -2);
    assert_eq!(
        ammus,
        AmmusAnimaatio::new(Vektori::new(-1, -2), 0, Vektori::new(1, 0), 10, Vari::rgb(1, 2, 3))
    );
}

#[test]
fn animaation_pala_piirretaan_animaation_varilla() {
    let animaatio = katoava(50, 1_000_000_000);
    assert_eq!(animaatio.animaation_alku(), 50);
    let mut palat = Vec::new();
    animaatio.anna_palat(&mut palat, 0);
    assert_eq!(
        palat,
        vec![ValiaikainenPiirrettavaKappale::new(
            Kappale::new_kulmalla(Muoto::Nelio(20, 20), 90, 90, Tagi::Partikkeli),
            Piirtotapa::Yksivarinen { vari: Vari { r: 200, g: 0, b: 100, a: 255 } },
        )]
    );
    katoava(0, 0).anna_palat(&mut palat, 0);
    assert_eq!(palat.len(), 1);
}

#[test]
fn kuolleet_animaatiot_poistuvat() {
    let mut animaatiot = Animaatiot::new();
    animaatiot.lisaa_animaatio(Kuolevainen::new(katoava(0, 100), 100));
    animaatiot.lisaa_animaatio(Kuolevainen::new(katoava(0, 200), 200));
    animaatiot.lisaa_animaatio(Kuolevainen::new(katoava(50, 50), 100));
    animaatiot.lisaa_animaatio(Kuolevainen::new(katoava(150, 200), 350));
    assert_eq!(animaatiot.maara(), 4);
    animaatiot.poista_kuolleet(99);
    assert_eq!(animaatiot.maara(), 4);

    let mut lista = vec![ValiaikainenPiirrettavaKappale::new(
        Kappale::new_kulmalla(Muoto::Ympyra(1), 0, 0, Tagi::Seina),
        Piirtotapa::Yksivarinen { vari: Vari::rgb(0, 0, 0) },
    )];
    animaatiot.anna_piirrettavat(&mut lista, &Paivitysaika::new(10, 100));
    // Those that die at 100 are gone; the one that begins at 150 shows nothing yet.
    assert_eq!(animaatiot.maara(), 2);
    assert_eq!(animaatiot.anna_animaatiot()[0].kuolin_aika, 200);
    assert_eq!(animaatiot.anna_animaatiot()[1].kuolin_aika, 350);
    assert_eq!(lista.len(), 2);
    // 20 - 19 * 100 / 200 = 20 - 9.
    assert_eq!(
        lista[1].kappale,
        Kappale::new_kulmalla(Muoto::Nelio(11, 11), 95, 95, Tagi::Partikkeli)
    );

    animaatiot.poista_kuolleet(350);
    assert_eq!(animaatiot.maara(), 0);
}

use pelimoottori::fysiikka::{
    ovatko_paallekkain, ympyran_ja_nelion_tormays, Fysiikka, Fysiikkakappale, Tormaystiedot,
    Tormaystieto,
};
use pelimoottori::maailma::kappale::{Kappale, Muoto, Tagi};
use pelimoottori::maailma::lisaosa::Lisaosa;
use pelimoottori::maailma::vektori::Vektori;
use pelimoottori::maailma::Perusmaailma;

fn nelio(x: i32, y: i32, leveys: i32, korkeus: i32) -> Kappale {
    Kappale::new_kulmalla(Muoto::Nelio(leveys, korkeus), x, y, Tagi::Seina)
}

fn ympyra(x: i32, y: i32, sade: i32) -> Kappale {
    Kappale::new_keskipisteella(Muoto::Ympyra(sade), x, y, Tagi::Ammus)
}

#[test]
fn koskettavat_neliot_eivat_tormaa() {
    let a = nelio(0, 0, 10, 10);
    assert!(!ovatko_paallekkain(&a, &nelio(10, 0, 10, 10)));
    assert!(!ovatko_paallekkain(&nelio(10, 0, 10, 10), &a));
    assert!(!ovatko_paallekkain(&a, &nelio(0, 10, 10, 10)));
    assert!(!ovatko_paallekkain(&a, &nelio(-10, 0, 10, 10)));
    assert!(!ovatko_paallekkain(&a, &nelio(0, -10, 10, 10)));
    assert!(!ovatko_paallekkain(&a, &nelio(10, 10, 10, 10)));
}

#[test]
fn limittaiset_neliot_tormaavat() {
    let a = nelio(0, 0, 10, 10);
    assert!(ovatko_paallekkain(&a, &nelio(9, 9, 10, 10)));
    assert!(ovatko_paallekkain(&nelio(9, 9, 10, 10), &a));
    assert!(ovatko_paallekkain(&a, &nelio(-9, 0, 10, 10)));
    assert!(ovatko_paallekkain(&a, &nelio(2, 2, 3, 3)));
    assert!(ovatko_paallekkain(&a, &a));
    // Overlap on one axis only is no overlap.
    assert!(!ovatko_paallekkain(&a, &nelio(5, 20, 10, 10)));
    assert!(!ovatko_paallekkain(&a, &nelio(20, 5, 10, 10)));
}

#[test]
fn ympyrat_tormaavat_kun_keskipisteet_ovat_lahempana_kuin_sateiden_summa() {
    let a = ympyra(0, 0, 5);
    assert!(ovatko_paallekkain(&a, &ympyra(9, 0, 5)));
    assert!(!ovatko_paallekkain(&a, &ympyra(10, 0, 5)));
    assert!(!ovatko_paallekkain(&a, &ympyra(11, 0, 5)));
    // 6 * 6 + 8 * 8 is 10 * 10: the circles touch.
    assert!(!ovatko_paallekkain(&a, &ympyra(6, 8, 5)));
    assert!(ovatko_paallekkain(&a, &ympyra(6, 7, 5)));
    assert!(ovatko_paallekkain(&ympyra(6, 7, 5), &a));
    assert!(!ovatko_paallekkain(&ympyra(0, 0, 0), &ympyra(0, 0, 0)));
}

#[test]
fn nelion_ja_ympyran_tormays_reunalla() {
    let laatikko = nelio(0, 0, 10, 10);
    // To the right of the rectangle: touching at 15, overlapping at 14.
    assert!(!ovatko_paallekkain(&laatikko, &ympyra(15, 5, 5)));
    assert!(ovatko_paallekkain(&laatikko, &ympyra(14, 5, 5)));
    assert!(!ovatko_paallekkain(&laatikko, &ympyra(-5, 5, 5)));
    assert!(ovatko_paallekkain(&laatikko, &ympyra(-4, 5, 5)));
    assert!(!ovatko_paallekkain(&laatikko, &ympyra(5, 15, 5)));
    assert!(ovatko_paallekkain(&laatikko, &ympyra(5, 14, 5)));
    assert!(!ovatko_paallekkain(&laatikko, &ympyra(5, -5, 5)));
    assert!(ovatko_paallekkain(&laatikko, &ympyra(5, -4, 5)));
    // The centre inside the rectangle.
    assert!(ovatko_paallekkain(&laatikko, &ympyra(5, 5, 1)));
}

#[test]
fn nelion_ja_ympyran_tormays_kulmassa() {
    let laatikko = nelio(0, 0, 10, 10);
    // Beyond the corner (10, 10): 3, 4 away is exactly the radius.
    assert!(!ovatko_paallekkain(&laatikko, &ympyra(13, 14, 5)));
    assert!(ovatko_paallekkain(&laatikko, &ympyra(13, 13, 5)));
    // Beyond the corner (0, 0).
    assert!(!ovatko_paallekkain(&laatikko, &ympyra(-3, -4, 5)));
    assert!(ovatko_paallekkain(&laatikko, &ympyra(-3, -3, 5)));
    // Beyond the corners (10, 0) and (0, 10).
    assert!(!ovatko_paallekkain(&laatikko, &ympyra(14, -3, 5)));
    assert!(ovatko_paallekkain(&laatikko, &ympyra(13, -3, 5)));
    assert!(!ovatko_paallekkain(&laatikko, &ympyra(-4, 13, 5)));
    assert!(ovatko_paallekkain(&laatikko, &ympyra(-3, 13, 5)));
}

#[test]
fn nelion_ja_ympyran_tormays_ei_riipu_jarjestyksesta() {
    let laatikko = nelio(0, 0, 10, 10);
    let paikat = [(15, 5), (14, 5), (13, 14), (13, 13), (5, 5), (-3, -4), (-3, -3), (40, 40)];
    for (x, y) in paikat {
        let pallo = ympyra(x, y, 5);
        assert_eq!(ovatko_paallekkain(&laatikko, &pallo), ovatko_paallekkain(&pallo, &laatikko));
    }
}

#[test]
fn ympyran_ja_nelion_tormays_vaatii_oikeat_muodot() {
    let laatikko = nelio(0, 0, 10, 10);
    let pallo = ympyra(5, 5, 5);
    assert!(ympyran_ja_nelion_tormays(&laatikko, &pallo));
    assert!(!ympyran_ja_nelion_tormays(&pallo, &laatikko));
    assert!(!ympyran_ja_nelion_tormays(&laatikko, &laatikko));
    assert!(!ympyran_ja_nelion_tormays(&pallo, &pallo));
}

#[test]
fn yksinainen_kappale_liikkuu_nopeutensa_verran() {
    let mut maailma = Perusmaailma::new();
    let t = maailma
        .lisaa_kappale(Kappale::new_kulmalla(Muoto::Nelio(10, 10), 100, 200, Tagi::Pelaaja))
        .unwrap();
    assert!(maailma.lisaa_fysiikkakappale(Fysiikkakappale::new(Vektori::new(60, -120), t)));
    let mut fysiikka = Fysiikka::new();
    // Half a second.
    fysiikka.laske_uudet_sijainnit(&mut maailma, 500_000_000);
    let kappale = maailma.anna_kappale(t).unwrap();
    assert_eq!(kappale.kulman_sijainti(), Vektori::new(130, 140));
    assert_eq!(fysiikka.tormaykset.anna_tormaykset().len(), 0);
}

#[test]
fn uusi_sijainti_pyoristaa_nollaa_kohti_ja_laskee_mikrosekunteina() {
    let hidas = Fysiikkakappale::new(
        Vektori::new(7, -7),
        pelimoottori::maailma::lisaosa::Tunniste { arvo: 0 },
    );
    // 3.5 units in half a second.
    assert_eq!(
        hidas.laske_uusi_sijainti(Vektori::new(0, 0), 500_000_000),
        Vektori::new(3, -3)
    );
    let nopea = Fysiikkakappale::new(
        Vektori::new(1_000_000, 0),
        pelimoottori::maailma::lisaosa::Tunniste { arvo: 0 },
    );
    // 1999 nanoseconds count as one microsecond.
    assert_eq!(nopea.laske_uusi_sijainti(Vektori::new(5, 5), 1_999), Vektori::new(6, 5));
    assert_eq!(nopea.laske_uusi_sijainti(Vektori::new(5, 5), 999), Vektori::new(5, 5));
    assert_eq!(
        nopea.laske_uusi_sijainti(Vektori::new(i32::MAX - 1, 0), 1_000_000_000),
        Vektori::new(i32::MAX, 0)
    );
    assert_eq!(nopea.laske_uusi_sijainti(Vektori::new(5, 5), u64::MAX), Vektori::new(i32::MAX, 5));
    assert_eq!(nopea.anna_kappale().arvo, 0);
}

#[test]
fn tormannyt_palaa_ja_tormays_kirjataan() {
    let mut maailma = Perusmaailma::new();
    let ammus = maailma
        .lisaa_kappale(Kappale::new_kulmalla(Muoto::Nelio(10, 10), 0, 0, Tagi::Ammus))
        .unwrap();
    let seina = maailma
        .lisaa_kappale(Kappale::new_kulmalla(Muoto::Nelio(10, 100), 15, 0, Tagi::Seina))
        .unwrap();
    assert!(maailma.lisaa_fysiikkakappale(Fysiikkakappale::new(Vektori::new(10, 0), ammus)));
    assert!(maailma.lisaa_fysiikkakappale(Fysiikkakappale::new(Vektori::new(0, 0), seina)));
    let mut fysiikka = Fysiikka::new();
    fysiikka.laske_uudet_sijainnit(&mut maailma, 1_000_000_000);
    assert_eq!(maailma.anna_kappale(ammus).unwrap().kulman_sijainti(), Vektori::new(0, 0));
    assert_eq!(maailma.anna_kappale(seina).unwrap().kulman_sijainti(), Vektori::new(15, 0));
    let tormaykset = fysiikka.tormaykset.anna_tormaykset();
    assert_eq!(tormaykset.len(), 2);
    assert_eq!(tormaykset[0].indeksi, 0);
    assert_eq!(tormaykset[0].anna_tagit(), &[Tagi::Seina]);
    assert_eq!(tormaykset[1].indeksi, 1);
    assert_eq!(tormaykset[1].anna_tagit(), &[Tagi::Ammus]);
}

#[test]
fn tormaamaton_jatkaa_vaikka_muut_tormaavat() {
    let mut maailma = Perusmaailma::new();
    let a = maailma.lisaa_kappale(nelio(0, 0, 10, 10)).unwrap();
    let b = maailma.lisaa_kappale(nelio(12, 0, 10, 10)).unwrap();
    let c = maailma.lisaa_kappale(nelio(500, 500, 10, 10)).unwrap();
    assert!(maailma.lisaa_fysiikkakappale(Fysiikkakappale::new(Vektori::new(5, 0), a)));
    assert!(maailma.lisaa_fysiikkakappale(Fysiikkakappale::new(Vektori::new(0, 0), b)));
    assert!(maailma.lisaa_fysiikkakappale(Fysiikkakappale::new(Vektori::new(-5, 5), c)));
    let mut fysiikka = Fysiikka::new();
    fysiikka.laske_uudet_sijainnit(&mut maailma, 1_000_000_000);
    assert_eq!(maailma.anna_kappale(a).unwrap().kulman_sijainti(), Vektori::new(0, 0));
    assert_eq!(maailma.anna_kappale(b).unwrap().kulman_sijainti(), Vektori::new(12, 0));
    assert_eq!(maailma.anna_kappale(c).unwrap().kulman_sijainti(), Vektori::new(495, 505));
    // A step in which nothing collides clears the report.
    fysiikka.laske_uudet_sijainnit(&mut maailma, 100_000_000);
    assert_eq!(fysiikka.tormaykset.anna_tormaykset().len(), 0);
    assert_eq!(maailma.anna_kappale(a).unwrap().kulman_sijainti(), Vektori::new(0, 0));
    assert_eq!(maailma.anna_kappale(c).unwrap().kulman_sijainti(), Vektori::new(495, 505));
}

#[test]
fn tormaaja_saa_jokaisen_tagin_kerran() {
    let mut maailma = Perusmaailma::new();
    let keskella = maailma
        .lisaa_kappale(Kappale::new_kulmalla(Muoto::Nelio(10, 10), 0, 0, Tagi::Pelaaja))
        .unwrap();
    let mut muut = Vec::new();
    for (x, tagi) in [(8, Tagi::Seina), (-8, Tagi::Vihollinen), (5, Tagi::Seina)] {
        let t = maailma
            .lisaa_kappale(Kappale::new_kulmalla(Muoto::Nelio(10, 10), x, 0, tagi))
            .unwrap();
        muut.push(t);
    }
    assert!(maailma.lisaa_fysiikkakappale(Fysiikkakappale::new(Vektori::new(0, 0), keskella)));
    for t in &muut {
        assert!(maailma.lisaa_fysiikkakappale(Fysiikkakappale::new(Vektori::new(0, 0), *t)));
    }
    let mut fysiikka = Fysiikka::new();
    fysiikka.laske_uudet_sijainnit(&mut maailma, 16_666_666);
    let tormaykset = fysiikka.tormaykset.anna_tormaykset();
    assert_eq!(tormaykset.len(), 4);
    assert_eq!(tormaykset[0].indeksi, 0);
    assert_eq!(tormaykset[0].anna_tagit(), &[Tagi::Seina, Tagi::Vihollinen]);
    assert_eq!(tormaykset[1].indeksi, 1);
    assert_eq!(tormaykset[1].anna_tagit(), &[Tagi::Pelaaja, Tagi::Seina]);
    assert_eq!(tormaykset[2].indeksi, 2);
    assert_eq!(tormaykset[2].anna_tagit(), &[Tagi::Pelaaja]);
    assert_eq!(tormaykset[3].indeksi, 3);
    assert_eq!(tormaykset[3].anna_tagit(), &[Tagi::Pelaaja, Tagi::Seina]);
}

#[test]
fn kappale_ilman_fysiikkaa_ei_tormaa() {
    let mut maailma = Perusmaailma::new();
    let liikkuja = maailma.lisaa_kappale(nelio(0, 0, 10, 10)).unwrap();
    let _koriste = maailma.lisaa_kappale(nelio(5, 0, 10, 10)).unwrap();
    assert!(maailma.lisaa_fysiikkakappale(Fysiikkakappale::new(Vektori::new(1, 0), liikkuja)));
    let mut fysiikka = Fysiikka::new();
    fysiikka.laske_uudet_sijainnit(&mut maailma, 1_000_000_000);
    assert_eq!(maailma.anna_kappale(liikkuja).unwrap().kulman_sijainti(), Vektori::new(1, 0));
    assert_eq!(fysiikka.tormaykset.anna_tormaykset().len(), 0);
}

#[test]
fn tormaystiedot_eivat_toista_tagia() {
    let mut tiedot = Tormaystiedot::new();
    tiedot.lisaa_tormays(3, Tagi::Seina);
    tiedot.lisaa_tormays(3, Tagi::Seina);
    tiedot.lisaa_tormays(3, Tagi::Vihollinen);
    tiedot.lisaa_tormays(1, Tagi::Seina);
    tiedot.lisaa_tormays(3, Tagi::Vihollinen);
    let kaikki = tiedot.anna_tormaykset();
    assert_eq!(kaikki.len(), 2);
    assert_eq!(kaikki[0].indeksi, 3);
    assert_eq!(kaikki[0].anna_tagit(), &[Tagi::Seina, Tagi::Vihollinen]);
    assert_eq!(kaikki[1].indeksi, 1);
    assert_eq!(kaikki[1].anna_tagit(), &[Tagi::Seina]);
}

#[test]
fn tormaystieto_lisaa_tagin_vain_kerran() {
    let mut tieto = Tormaystieto::new(7);
    assert_eq!(tieto.indeksi, 7);
    assert_eq!(tieto.anna_tagit().len(), 0);
    assert!(!tieto.sisaltaa_tagin(Tagi::Ammus));
    tieto.lisaa_tagi(Tagi::Ammus);
    tieto.lisaa_tagi(Tagi::Pelaaja);
    tieto.lisaa_tagi(Tagi::Ammus);
    assert_eq!(tieto.anna_tagit(), &[Tagi::Ammus, Tagi::Pelaaja]);
    assert!(tieto.sisaltaa_tagin(Tagi::Ammus));
    assert!(!tieto.sisaltaa_tagin(Tagi::Seina));
}

#[test]
fn fysiikkakappaleen_tagi_on_kappaleen_tagi() {
    let mut maailma = Perusmaailma::new();
    let t = maailma.lisaa_kappale(nelio(0, 0, 1, 1)).unwrap();
    assert_eq!(Fysiikkakappale::new(Vektori::new(0, 0), t).anna_tagi(&maailma), Some(Tagi::Seina));
    let vieras = pelimoottori::maailma::lisaosa::Tunniste { arvo: 5 };
    assert_eq!(Fysiikkakappale::new(Vektori::new(0, 0), vieras).anna_tagi(&maailma), None);
}

#[test]
fn fysiikkakappaleen_nopeus() {
    let t = pelimoottori::maailma::lisaosa::Tunniste { arvo: 4 };
    let mut kappale = Fysiikkakappale::new(Vektori::new(1, 2), t);
    assert_eq!(kappale.anna_nopeus(), Vektori::new(1, 2));
    kappale.aseta_nopeus(Vektori::new(-3, 0));
    assert_eq!(kappale.anna_nopeus(), Vektori::new(-3, 0));
    assert_eq!(kappale.anna_kappale(), t);
}

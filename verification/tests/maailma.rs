use pelimoottori::fysiikka::Fysiikkakappale;
use pelimoottori::maailma::kappale::{Kappale, Muoto, Tagi};
use pelimoottori::maailma::kappalemuisti::Kappalemuisti;
use pelimoottori::maailma::lisaosa::{etsi, poista_lisaosat, Lisaosa, Tunniste};
use pelimoottori::maailma::pelihahmo::Pelihahmo;
use pelimoottori::maailma::vektori::Vektori;
use pelimoottori::maailma::{Pelihahmollinen, Perusmaailma};
use pelimoottori::piirtaja::{
    PiirrettavaKappale, Piirtotapa, ValiaikainenPiirrettavaKappale, Vari,
};
use pelimoottori::silmukka::interpoloivasilmukka::Interpolointiarvo;
use pelimoottori::tekoaly::{Aly, AlyToiminta, Alyllinen, SeurausAly, TekoalyMaailma};
use pelimoottori::piirtaja::PiirrettavaMaailma;
use pelimoottori::maailma::LisaosienAntaja;

fn laatikko(x: i32, y: i32, tagi: Tagi) -> Kappale {
    Kappale::new_kulmalla(Muoto::Nelio(10, 10), x, y, tagi)
}

fn punainen() -> Piirtotapa {
    Piirtotapa::Yksivarinen { vari: Vari::rgb(255, 0, 0) }
}

#[test]
fn tyhja_maailma() {
    let maailma = Perusmaailma::new();
    assert_eq!(maailma.kappaleet().len(), 0);
    assert_eq!(maailma.fysiikalliset().len(), 0);
    assert_eq!(maailma.piirrettavat(Vektori::new(0, 0)).len(), 0);
    assert_eq!(maailma.alylliset().len(), 0);
    assert_eq!(maailma.poistettavat().len(), 0);
    assert!(!maailma.onko_pelihahmo());
    assert_eq!(maailma.anna_pelihahmo(), None);
    assert_eq!(maailma.anna_kameran_sijainti(), None);
    assert_eq!(maailma.anna_interpolaatio_arvo(), None);
    assert_eq!(
        Perusmaailma::new_interpoloiva().anna_interpolaatio_arvo(),
        Some(Interpolointiarvo { osoittaja: 0, nimittaja: 1 })
    );
}

#[test]
fn samanlaiset_kappaleet_saavat_eri_tunnisteet() {
    let mut maailma = Perusmaailma::new();
    let a = maailma.lisaa_kappale(laatikko(0, 0, Tagi::Seina)).unwrap();
    let b = maailma.lisaa_kappale(laatikko(0, 0, Tagi::Seina)).unwrap();
    assert_ne!(a, b);
    assert_eq!(a, Tunniste { arvo: 0 });
    assert_eq!(b, Tunniste { arvo: 1 });
    assert!(maailma.onko_elossa(a));
    assert!(maailma.onko_elossa(b));
    assert!(!maailma.onko_elossa(Tunniste { arvo: 2 }));
    assert_eq!(maailma.anna_kappale(a), Some(laatikko(0, 0, Tagi::Seina)));
    assert_eq!(maailma.anna_kappale(Tunniste { arvo: 2 }), None);
    assert_eq!(maailma.kappaleet().len(), 2);
    assert_eq!(maailma.kappaleet()[1].tunniste, b);
}

#[test]
fn lisaosan_saa_vain_maailmassa_oleva_kappale() {
    let mut maailma = Perusmaailma::new();
    let a = maailma.lisaa_kappale(laatikko(0, 0, Tagi::Seina)).unwrap();
    let vieras = Tunniste { arvo: 17 };
    assert!(!maailma.lisaa_fysiikkakappale(Fysiikkakappale::new(Vektori::new(1, 1), vieras)));
    assert!(!maailma.lisaa_piirrettava_kappale(PiirrettavaKappale::new(vieras, punainen())));
    assert!(!maailma.lisaa_aly(Alyllinen::new(vieras, Aly::Seuraus(SeurausAly))));
    maailma.lisaa_pelihahmo(Pelihahmo::new(vieras));
    assert!(!maailma.onko_pelihahmo());
    assert_eq!(maailma.fysiikalliset().len(), 0);
    assert_eq!(maailma.piirrettavat(Vektori::new(0, 0)).len(), 0);
    assert_eq!(maailma.alylliset().len(), 0);

    assert!(maailma.lisaa_fysiikkakappale(Fysiikkakappale::new(Vektori::new(1, 1), a)));
    assert!(maailma.lisaa_piirrettava_kappale(PiirrettavaKappale::new(a, punainen())));
    assert!(maailma.lisaa_aly(Alyllinen::new(a, Aly::Seuraus(SeurausAly))));
    assert_eq!(maailma.fysiikalliset().len(), 1);
    assert_eq!(maailma.piirrettavat(Vektori::new(0, 0)).len(), 1);
    assert_eq!(maailma.alylliset().len(), 1);
}

#[test]
fn kappaleella_on_enintaan_yksi_fysiikka() {
    let mut maailma = Perusmaailma::new();
    let a = maailma.lisaa_kappale(laatikko(0, 0, Tagi::Seina)).unwrap();
    assert!(maailma.lisaa_fysiikkakappale(Fysiikkakappale::new(Vektori::new(1, 1), a)));
    assert!(!maailma.lisaa_fysiikkakappale(Fysiikkakappale::new(Vektori::new(2, 2), a)));
    assert_eq!(maailma.fysiikalliset().len(), 1);
    assert_eq!(maailma.anna_fysiikka(a), Some(Fysiikkakappale::new(Vektori::new(1, 1), a)));
    // Several drawable sides are allowed; the first one is found.
    assert!(maailma.lisaa_piirrettava_kappale(PiirrettavaKappale::new(a, punainen())));
    assert!(maailma.lisaa_piirrettava_kappale(PiirrettavaKappale::new(
        a,
        Piirtotapa::Kuvallinen { kuvan_nimi: String::from("ammus") }
    )));
    assert_eq!(maailma.piirrettavat(Vektori::new(0, 0)).len(), 2);
    assert_eq!(maailma.anna_piirrettavyys(a).unwrap().anna_piirtotapa(), &punainen());
}

#[test]
fn puuttuva_lisaosa_on_tyhja_vastaus() {
    let mut maailma = Perusmaailma::new();
    let a = maailma.lisaa_kappale(laatikko(0, 0, Tagi::Seina)).unwrap();
    assert_eq!(maailma.anna_fysiikka(a), None);
    assert!(maailma.anna_piirrettavyys(a).is_none());
    assert!(!maailma.aseta_nopeus(a, Vektori::new(1, 1)));
    assert!(!maailma.aseta_kappaleen_sijainti(Tunniste { arvo: 9 }, Vektori::new(1, 1)));
}

#[test]
fn nopeuden_ja_sijainnin_asettaminen() {
    let mut maailma = Perusmaailma::new();
    let a = maailma.lisaa_kappale(laatikko(0, 0, Tagi::Seina)).unwrap();
    let b = maailma.lisaa_kappale(laatikko(50, 50, Tagi::Ammus)).unwrap();
    assert!(maailma.lisaa_fysiikkakappale(Fysiikkakappale::new(Vektori::new(0, 0), a)));
    assert!(maailma.lisaa_fysiikkakappale(Fysiikkakappale::new(Vektori::new(0, 0), b)));
    assert!(maailma.aseta_nopeus(b, Vektori::new(7, 8)));
    assert_eq!(maailma.anna_fysiikka(a).unwrap().anna_nopeus(), Vektori::new(0, 0));
    assert_eq!(maailma.anna_fysiikka(b).unwrap().anna_nopeus(), Vektori::new(7, 8));
    assert!(maailma.aseta_kappaleen_sijainti(b, Vektori::new(-1, -2)));
    assert_eq!(maailma.anna_kappale(b), Some(laatikko(-1, -2, Tagi::Ammus)));
    assert_eq!(maailma.anna_kappale(a), Some(laatikko(0, 0, Tagi::Seina)));
    assert!(maailma.aseta_kappaleen_sijainti(a, Vektori::new(3, 3)));
    assert_eq!(maailma.anna_kappale(a), Some(laatikko(3, 3, Tagi::Seina)));
    assert_eq!(maailma.anna_keskipiste(a), Some(Vektori::new(8, 8)));
}

#[test]
fn ensimmainen_pelihahmo_jaa() {
    let mut maailma = Perusmaailma::new();
    let a = maailma.lisaa_kappale(laatikko(0, 0, Tagi::Pelaaja)).unwrap();
    let b = maailma.lisaa_kappale(laatikko(100, 100, Tagi::Pelaaja)).unwrap();
    maailma.lisaa_pelihahmo(Pelihahmo::new(a));
    maailma.lisaa_pelihahmo(Pelihahmo::new(b));
    assert!(maailma.onko_pelihahmo());
    assert_eq!(maailma.anna_pelihahmo().unwrap().anna_kappale(), a);
    assert_eq!(maailma.anna_pelihahmo().unwrap().anna_suunta(), Vektori::new(1, 0));
    assert_eq!(maailma.anna_kameran_sijainti(), Some(Vektori::new(5, 5)));
}

#[test]
fn pelihahmon_suunta_ei_vaihdu_nollavektoriin() {
    let mut maailma = Perusmaailma::new();
    let a = maailma.lisaa_kappale(laatikko(0, 0, Tagi::Pelaaja)).unwrap();
    maailma.aseta_pelihahmon_suunta(Vektori::new(0, 5));
    assert!(!maailma.onko_pelihahmo());
    maailma.lisaa_pelihahmo(Pelihahmo::new(a));
    maailma.aseta_pelihahmon_suunta(Vektori::new(0, -120));
    assert_eq!(maailma.anna_pelihahmo().unwrap().anna_suunta(), Vektori::new(0, -120));
    maailma.aseta_pelihahmon_suunta(Vektori::new(0, 0));
    assert_eq!(maailma.anna_pelihahmo().unwrap().anna_suunta(), Vektori::new(0, -120));
    let mut hahmo = Pelihahmo::new(a);
    hahmo.aseta_suunta(Vektori::new(0, 0));
    assert_eq!(hahmo.anna_suunta(), Vektori::new(1, 0));
    hahmo.aseta_suunta(Vektori::new(-3, 0));
    assert_eq!(hahmo.anna_suunta(), Vektori::new(-3, 0));
}

#[test]
fn poisto_tyhjalla_listalla_ei_muuta_mitaan() {
    let mut maailma = Perusmaailma::new();
    let a = maailma.lisaa_kappale(laatikko(0, 0, Tagi::Pelaaja)).unwrap();
    assert!(maailma.lisaa_fysiikkakappale(Fysiikkakappale::new(Vektori::new(1, 1), a)));
    assert!(maailma.lisaa_piirrettava_kappale(PiirrettavaKappale::new(a, punainen())));
    maailma.lisaa_pelihahmo(Pelihahmo::new(a));
    for _ in 0..2 {
        maailma.poista_poistettavat();
        assert_eq!(maailma.kappaleet().len(), 1);
        assert_eq!(maailma.fysiikalliset().len(), 1);
        assert_eq!(maailma.piirrettavat(Vektori::new(0, 0)).len(), 1);
        assert_eq!(maailma.poistettavat().len(), 0);
        assert!(maailma.onko_pelihahmo());
        assert_eq!(maailma.anna_kappale(a), Some(laatikko(0, 0, Tagi::Pelaaja)));
    }
    let mut tyhja = Perusmaailma::new();
    tyhja.poista_poistettavat();
    tyhja.poista_poistettavat();
    assert_eq!(tyhja.kappaleet().len(), 0);
}

#[test]
fn poisto_vie_kappaleen_kaikkialta() {
    let mut maailma = Perusmaailma::new_interpoloiva();
    let a = maailma.lisaa_kappale(laatikko(0, 0, Tagi::Pelaaja)).unwrap();
    let b = maailma.lisaa_kappale(laatikko(0, 0, Tagi::Pelaaja)).unwrap();
    let c = maailma.lisaa_kappale(laatikko(9, 9, Tagi::Vihollinen)).unwrap();
    for t in [a, b, c] {
        assert!(maailma.lisaa_fysiikkakappale(Fysiikkakappale::new(Vektori::new(1, 1), t)));
        assert!(maailma.lisaa_piirrettava_kappale(PiirrettavaKappale::new(t, punainen())));
        assert!(maailma.lisaa_piirrettava_kappale(PiirrettavaKappale::new(t, punainen())));
        assert!(maailma.lisaa_aly(Alyllinen::new(t, Aly::Seuraus(SeurausAly))));
    }
    maailma.lisaa_pelihahmo(Pelihahmo::new(b));
    assert_eq!(maailma.kappalemuistit().len(), 3);

    maailma.lisaa_poistettava(b);
    // Marking alone removes nothing.
    assert_eq!(maailma.poistettavat(), &vec![b]);
    assert!(maailma.onko_elossa(b));
    assert_eq!(maailma.fysiikalliset().len(), 3);

    maailma.poista_poistettavat();
    assert!(!maailma.onko_elossa(b));
    assert!(maailma.onko_elossa(a));
    assert!(maailma.onko_elossa(c));
    assert_eq!(maailma.poistettavat().len(), 0);
    assert_eq!(maailma.kappaleet().len(), 2);
    assert_eq!(maailma.kappaleet()[0].tunniste, a);
    assert_eq!(maailma.kappaleet()[1].tunniste, c);
    assert_eq!(maailma.fysiikalliset().len(), 2);
    assert_eq!(maailma.piirrettavat(Vektori::new(0, 0)).len(), 4);
    assert_eq!(maailma.alylliset().len(), 2);
    assert_eq!(maailma.kappalemuistit().len(), 2);
    assert_eq!(maailma.anna_fysiikka(b), None);
    assert!(maailma.anna_piirrettavyys(b).is_none());
    assert!(maailma.piirrettavat(Vektori::new(0, 0)).iter().all(|p| p.anna_kappale() != b));
    assert!(maailma.alylliset().iter().all(|p| p.anna_kappale() != b));
    assert!(maailma.kappalemuistit().iter().all(|p| p.anna_kappale() != b));
    assert!(!maailma.onko_pelihahmo());
    // The body that is equal in value but not the same stays.
    assert_eq!(maailma.anna_kappale(a), Some(laatikko(0, 0, Tagi::Pelaaja)));
    // A removed handle is not given out again.
    let d = maailma.lisaa_kappale(laatikko(1, 1, Tagi::Seina)).unwrap();
    assert_eq!(d, Tunniste { arvo: 3 });
}

#[test]
fn poisto_sietaa_kahdesti_merkityn_ja_tuntemattoman() {
    let mut maailma = Perusmaailma::new();
    let a = maailma.lisaa_kappale(laatikko(0, 0, Tagi::Ammus)).unwrap();
    let b = maailma.lisaa_kappale(laatikko(5, 5, Tagi::Seina)).unwrap();
    maailma.lisaa_poistettava(a);
    maailma.lisaa_poistettava(Tunniste { arvo: 77 });
    maailma.lisaa_poistettava(a);
    maailma.poista_poistettavat();
    assert_eq!(maailma.kappaleet().len(), 1);
    assert_eq!(maailma.kappaleet()[0].tunniste, b);
    assert_eq!(maailma.poistettavat().len(), 0);
}

#[test]
fn kappalemuisti_muistaa_kaksi_tilaa() {
    let t = Tunniste { arvo: 1 };
    let mut muisti = Kappalemuisti::new(t, laatikko(0, 0, Tagi::Ammus));
    assert_eq!(muisti.anna_kappale(), t);
    assert_eq!(
        muisti.anna_versiot(),
        (&laatikko(0, 0, Tagi::Ammus), &laatikko(0, 0, Tagi::Ammus))
    );
    muisti.aseta_tuleva_versio(laatikko(10, 0, Tagi::Ammus));
    muisti.paivita_muistia(laatikko(20, 0, Tagi::Ammus));
    assert_eq!(
        muisti.anna_versiot(),
        (&laatikko(10, 0, Tagi::Ammus), &laatikko(20, 0, Tagi::Ammus))
    );
}

#[test]
fn maailma_piirtaa_kappaleet_muistettujen_tilojen_valiin() {
    let mut maailma = Perusmaailma::new_interpoloiva();
    let a = maailma.lisaa_kappale(laatikko(0, 0, Tagi::Ammus)).unwrap();
    let nakymaton = maailma.lisaa_kappale(laatikko(0, 0, Tagi::Seina)).unwrap();
    assert!(maailma.lisaa_piirrettava_kappale(PiirrettavaKappale::new(a, punainen())));
    assert!(maailma.aseta_kappaleen_sijainti(a, Vektori::new(100, -50)));
    assert!(maailma.aseta_kappaleen_sijainti(nakymaton, Vektori::new(100, -50)));
    maailma.paivita_kappalemuistia();
    assert_eq!(
        maailma.kappalemuistit()[0].anna_versiot(),
        (&laatikko(0, 0, Tagi::Ammus), &laatikko(100, -50, Tagi::Ammus))
    );

    let mut lista = Vec::new();
    maailma.anna_piirrettavat(&mut lista);
    // Nothing of the way has been made: the older state is drawn. The body
    // without a drawable side is not drawn at all.
    assert_eq!(
        lista,
        vec![ValiaikainenPiirrettavaKappale::new(laatikko(0, 0, Tagi::Ammus), punainen())]
    );

    maailma.aseta_interpolaatio_arvo(Interpolointiarvo { osoittaja: 1, nimittaja: 4 });
    maailma.anna_piirrettavat(&mut lista);
    assert_eq!(lista.len(), 2);
    // -50 / 4 rounds towards the older state.
    assert_eq!(
        lista[1],
        ValiaikainenPiirrettavaKappale::new(laatikko(25, -12, Tagi::Ammus), punainen())
    );

    // Drawing ahead of the newer state.
    maailma.aseta_interpolaatio_arvo(Interpolointiarvo { osoittaja: 6, nimittaja: 4 });
    let mut edella = Vec::new();
    maailma.anna_piirrettavat(&mut edella);
    assert_eq!(
        edella,
        vec![ValiaikainenPiirrettavaKappale::new(laatikko(150, -75, Tagi::Ammus), punainen())]
    );

    // A way without parts draws nothing.
    maailma.aseta_interpolaatio_arvo(Interpolointiarvo { osoittaja: 1, nimittaja: 0 });
    let mut tyhja = Vec::new();
    maailma.anna_piirrettavat(&mut tyhja);
    assert_eq!(tyhja.len(), 0);
}

#[test]
fn maailma_ilman_muisteja_ei_piirra_valikuvaa() {
    let mut maailma = Perusmaailma::new();
    let a = maailma.lisaa_kappale(laatikko(0, 0, Tagi::Ammus)).unwrap();
    assert!(maailma.lisaa_piirrettava_kappale(PiirrettavaKappale::new(a, punainen())));
    assert_eq!(maailma.kappalemuistit().len(), 0);
    maailma.paivita_kappalemuistia();
    let mut lista = Vec::new();
    maailma.anna_piirrettavat(&mut lista);
    assert_eq!(lista.len(), 0);
}

#[test]
fn tekoaly_ohjaa_kohti_pelihahmoa() {
    let mut maailma = Perusmaailma::new();
    let pelaaja = maailma.lisaa_kappale(laatikko(0, 0, Tagi::Pelaaja)).unwrap();
    let seuraaja = maailma.lisaa_kappale(laatikko(30, 40, Tagi::Vihollinen)).unwrap();
    let paikallaan = maailma.lisaa_kappale(laatikko(0, 0, Tagi::Vihollinen)).unwrap();
    let fysiikaton = maailma.lisaa_kappale(laatikko(7, 0, Tagi::Vihollinen)).unwrap();
    assert!(maailma.lisaa_fysiikkakappale(Fysiikkakappale::new(Vektori::new(1, 1), seuraaja)));
    assert!(maailma.lisaa_fysiikkakappale(Fysiikkakappale::new(Vektori::new(2, 2), paikallaan)));
    for t in [seuraaja, paikallaan, fysiikaton] {
        assert!(maailma.lisaa_aly(Alyllinen::new(t, Aly::Seuraus(SeurausAly))));
    }

    // Without a character to follow nothing changes.
    maailma.laske_tekoalyt();
    assert_eq!(maailma.anna_fysiikka(seuraaja).unwrap().anna_nopeus(), Vektori::new(1, 1));

    maailma.lisaa_pelihahmo(Pelihahmo::new(pelaaja));
    maailma.laske_tekoalyt();
    // The way to the character is (-30, -40), of length 50.
    assert_eq!(
        maailma.anna_fysiikka(seuraaja).unwrap().anna_nopeus(),
        Vektori::new(-24_000, -32_000)
    );
    // A body at the place of the character has no way to go and keeps its velocity.
    assert_eq!(maailma.anna_fysiikka(paikallaan).unwrap().anna_nopeus(), Vektori::new(2, 2));
    assert_eq!(maailma.anna_fysiikka(fysiikaton), None);
}

#[test]
fn lisaosien_haku_ja_poisto() {
    let a = Tunniste { arvo: 1 };
    let b = Tunniste { arvo: 2 };
    let mut osat = vec![
        Fysiikkakappale::new(Vektori::new(1, 0), a),
        Fysiikkakappale::new(Vektori::new(2, 0), b),
        Fysiikkakappale::new(Vektori::new(3, 0), a),
        Fysiikkakappale::new(Vektori::new(4, 0), b),
    ];
    assert_eq!(etsi(&osat, b), Some(1));
    assert_eq!(etsi(&osat, a), Some(0));
    assert_eq!(etsi(&osat, Tunniste { arvo: 3 }), None);
    poista_lisaosat(&mut osat, a);
    assert_eq!(
        osat,
        vec![
            Fysiikkakappale::new(Vektori::new(2, 0), b),
            Fysiikkakappale::new(Vektori::new(4, 0), b),
        ]
    );
    poista_lisaosat(&mut osat, a);
    assert_eq!(osat.len(), 2);
    poista_lisaosat(&mut osat, b);
    assert_eq!(osat.len(), 0);
}

#[test]
fn seurausaly_suuntaa_pelihahmoon() {
    let mut maailma = Perusmaailma::new();
    let pelaaja = maailma.lisaa_kappale(laatikko(0, 0, Tagi::Pelaaja)).unwrap();
    let seuraaja = maailma.lisaa_kappale(laatikko(30, -40, Tagi::Vihollinen)).unwrap();
    {
        let nakyma = TekoalyMaailma::new(&maailma);
        assert_eq!(nakyma.anna_pelihahmo(), None);
        assert_eq!(SeurausAly.alyile(&nakyma, seuraaja), AlyToiminta::Laiskottele);
    }
    maailma.lisaa_pelihahmo(Pelihahmo::new(pelaaja));
    let nakyma = TekoalyMaailma::new(&maailma);
    assert_eq!(nakyma.anna_pelihahmo(), Some(Pelihahmo::new(pelaaja)));
    assert_eq!(nakyma.anna_keskipiste(seuraaja), Some(Vektori::new(35, -35)));
    assert_eq!(
        SeurausAly.alyile(&nakyma, seuraaja),
        AlyToiminta::Liiku { suunta: Vektori::new(-30, 40) }
    );
    assert_eq!(
        Alyllinen::new(seuraaja, Aly::Seuraus(SeurausAly)).alyile(&nakyma),
        AlyToiminta::Liiku { suunta: Vektori::new(-30, 40) }
    );
    // A body that is not in the world idles.
    assert_eq!(
        Aly::Seuraus(SeurausAly).alyile(&nakyma, Tunniste { arvo: 9 }),
        AlyToiminta::Laiskottele
    );
    assert_eq!(AlyToiminta::Laiskottele.nopeus(), None);
    assert_eq!(AlyToiminta::Liiku { suunta: Vektori::new(0, 0) }.nopeus(), None);
    assert_eq!(
        AlyToiminta::Liiku { suunta: Vektori::new(-30, 40) }.nopeus(),
        Some(Vektori::new(-24_000, 32_000))
    );
}

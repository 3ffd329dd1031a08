use pelimoottori::maailma::kappale::{Kappale, Muoto, Tagi};
use pelimoottori::maailma::lisaosa::Tunniste;
use pelimoottori::maailma::vektori::Vektori;
use pelimoottori::maailma::Perusmaailma;
use pelimoottori::paivitys::{Paivitys, Paivitysaika, YhdistettyPaivitys};
use pelimoottori::peli::pelihahmonpaivitys::{
    PelihahmonPaivitys, AMPUMINEN, OIKEALLE_LIIKKUMINEN,
};
use pelimoottori::peli::pelinpaivitys::{
    AnimaatioidenPaivitys, FysiikanPaivitys, SpawnerinPaivitys, TekoalynPaivitys,
};
use pelimoottori::silmukka::erillisetpaivityksetsilmukka::ErillisetPaivityksetSilmukka;
use pelimoottori::silmukka::interpoloivasilmukka::{InterpoloivaSilmukka, Interpolointiarvo};
use pelimoottori::silmukka::perussilmukka::Perussilmukka;
use pelimoottori::silmukka::saannollinensilmukka::{SaannollinenKierros, SaannollinenSilmukka};
use pelimoottori::syotteet::Syotteet;
use pelimoottori::piirtaja::PiirrettavaMaailma;

fn saannolliset() -> YhdistettyPaivitys {
    YhdistettyPaivitys::new(vec![
        Paivitys::Spawnerit(SpawnerinPaivitys::new()),
        Paivitys::Tekoaly(TekoalynPaivitys),
        Paivitys::Fysiikka(FysiikanPaivitys),
    ])
}

fn epasaannolliset() -> YhdistettyPaivitys {
    YhdistettyPaivitys::new(vec![
        Paivitys::Pelihahmo(PelihahmonPaivitys::new(String::from("ammus"))),
        Paivitys::Animaatiot(AnimaatioidenPaivitys),
    ])
}

fn kaikki() -> YhdistettyPaivitys {
    YhdistettyPaivitys::new(vec![
        Paivitys::Spawnerit(SpawnerinPaivitys::new()),
        Paivitys::Tekoaly(TekoalynPaivitys),
        Paivitys::Pelihahmo(PelihahmonPaivitys::new(String::from("ammus"))),
        Paivitys::Fysiikka(FysiikanPaivitys),
        Paivitys::Animaatiot(AnimaatioidenPaivitys),
    ])
}

const PELAAJA: Tunniste = Tunniste { arvo: 0 };

fn pelaajan_kulma(maailma: &Perusmaailma) -> Vektori {
    maailma.anna_kappale(PELAAJA).unwrap().kulman_sijainti()
}

#[test]
fn perussilmukan_kierros_liikuttaa_pelaajaa_kuluneen_ajan_verran() {
    let mut maailma = Perusmaailma::new();
    let mut syotteet = Syotteet::new();
    let mut paivitys = kaikki();
    paivitys.alusta(&mut maailma, &mut syotteet, &vec![]);
    let mut silmukka = Perussilmukka::new();
    let oikealle = vec![OIKEALLE_LIIKKUMINEN];
    silmukka.kierros(100_000_000, &oikealle, &mut maailma, &mut syotteet, &mut paivitys);
    // 120 points a second for a tenth of a second.
    assert_eq!(pelaajan_kulma(&maailma), Vektori::new(322_000, 230_000));
    silmukka.kierros(50_000_000, &oikealle, &mut maailma, &mut syotteet, &mut paivitys);
    assert_eq!(pelaajan_kulma(&maailma), Vektori::new(328_000, 230_000));
    silmukka.kierros(50_000_000, &vec![], &mut maailma, &mut syotteet, &mut paivitys);
    assert_eq!(pelaajan_kulma(&maailma), Vektori::new(328_000, 230_000));
    assert_eq!(silmukka.kokonaisaika, 200_000_000);
}

#[test]
fn saannollisen_silmukan_kierros_paivittaa_vasta_valin_kuluttua() {
    let mut maailma = Perusmaailma::new();
    let mut syotteet = Syotteet::new();
    let mut paivitys = kaikki();
    paivitys.alusta(&mut maailma, &mut syotteet, &vec![]);
    let mut silmukka = SaannollinenSilmukka::new(10);
    let oikealle = vec![OIKEALLE_LIIKKUMINEN];
    let tulos = silmukka.kierros(99_000_000, &oikealle, &mut maailma, &mut syotteet, &mut paivitys);
    assert_eq!(tulos, SaannollinenKierros::Odota { lepoaika: Some(5) });
    assert_eq!(pelaajan_kulma(&maailma), Vektori::new(310_000, 230_000));
    // The keys were not looked at either.
    assert!(syotteet.nappain_ei_pohjassa(OIKEALLE_LIIKKUMINEN));
    let tulos =
        silmukka.kierros(250_000_000, &oikealle, &mut maailma, &mut syotteet, &mut paivitys);
    assert_eq!(
        tulos,
        SaannollinenKierros::Paivita { aika: Paivitysaika::new(100_000_000, 100_000_000) }
    );
    assert_eq!(pelaajan_kulma(&maailma), Vektori::new(322_000, 230_000));
}

#[test]
fn erillisten_paivitysten_kierros_ajaa_velkaantuneet_askeleet() {
    let mut maailma = Perusmaailma::new();
    let mut syotteet = Syotteet::new();
    let mut saannollinen = saannolliset();
    let mut epasaannollinen = epasaannolliset();
    saannollinen.alusta(&mut maailma, &mut syotteet, &vec![]);
    epasaannollinen.alusta(&mut maailma, &mut syotteet, &vec![]);
    let mut silmukka = ErillisetPaivityksetSilmukka::new(100);
    let oikealle = vec![OIKEALLE_LIIKKUMINEN];

    // The velocity is set by the irregular update, after the regular ones:
    // in the first round the character does not move yet.
    silmukka.kierros(
        36_000_000,
        &oikealle,
        &mut maailma,
        &mut syotteet,
        &mut saannollinen,
        &mut epasaannollinen,
    );
    assert_eq!(pelaajan_kulma(&maailma), Vektori::new(310_000, 230_000));
    assert_eq!(silmukka.saannollinen_kokonaisaika, 30_000_000);
    assert_eq!(silmukka.kertynyt, 6_000_000);

    // 6 + 16 ms make two steps of 10 ms, each of 1.2 points.
    silmukka.kierros(
        16_000_000,
        &oikealle,
        &mut maailma,
        &mut syotteet,
        &mut saannollinen,
        &mut epasaannollinen,
    );
    assert_eq!(pelaajan_kulma(&maailma), Vektori::new(312_400, 230_000));
    assert_eq!(silmukka.saannollinen_kokonaisaika, 50_000_000);
    assert_eq!(silmukka.kertynyt, 2_000_000);

    // A round without a whole interval runs no regular update.
    silmukka.kierros(
        7_000_000,
        &oikealle,
        &mut maailma,
        &mut syotteet,
        &mut saannollinen,
        &mut epasaannollinen,
    );
    assert_eq!(pelaajan_kulma(&maailma), Vektori::new(312_400, 230_000));
    assert_eq!(silmukka.kertynyt, 9_000_000);
    assert_eq!(silmukka.kokonaisaika, 59_000_000);
}

#[test]
fn kierros_poistaa_tuhotut_kierroksen_lopussa() {
    let mut maailma = Perusmaailma::new();
    let mut syotteet = Syotteet::new();
    let mut saannollinen = saannolliset();
    let mut epasaannollinen = epasaannolliset();
    saannollinen.alusta(&mut maailma, &mut syotteet, &vec![]);
    epasaannollinen.alusta(&mut maailma, &mut syotteet, &vec![]);
    // Move the character next to the right wall, facing it.
    assert!(maailma.aseta_kappaleen_sijainti(PELAAJA, Vektori::new(900_000, 300_000)));
    let mut silmukka = ErillisetPaivityksetSilmukka::new(100);
    // The projectile appears 25 points ahead of the centre (910, 310), at 935.
    silmukka.kierros(
        1_000_000,
        &vec![AMPUMINEN],
        &mut maailma,
        &mut syotteet,
        &mut saannollinen,
        &mut epasaannollinen,
    );
    assert_eq!(maailma.kappaleet().len(), 8);
    let ammus = maailma.kappaleet()[7];
    assert_eq!(ammus.kappale.tagi, Tagi::Ammus);
    assert_eq!(ammus.kappale.keskipisteen_sijainti(), Vektori::new(935_000, 310_000));
    // In 70 ms at 260 points a second the projectile flies 7 steps of 2.6
    // points and stays clear of the wall at 960.
    silmukka.kierros(
        70_000_000,
        &vec![AMPUMINEN],
        &mut maailma,
        &mut syotteet,
        &mut saannollinen,
        &mut epasaannollinen,
    );
    assert_eq!(
        maailma.anna_keskipiste(ammus.tunniste),
        Some(Vektori::new(953_200, 310_000))
    );
    // The next step would overlap the wall: the projectile is destroyed and
    // removed at the end of the round, leaving its mark.
    silmukka.kierros(
        10_000_000,
        &vec![AMPUMINEN],
        &mut maailma,
        &mut syotteet,
        &mut saannollinen,
        &mut epasaannollinen,
    );
    assert!(!maailma.onko_elossa(ammus.tunniste));
    assert_eq!(maailma.kappaleet().len(), 7);
    assert_eq!(maailma.fysiikalliset().len(), 6);
    assert_eq!(maailma.piirrettavat(Vektori::new(0, 0)).len(), 7);
    assert_eq!(maailma.poistettavat().len(), 0);
    assert_eq!(maailma.animaatiot().maara(), 1);
    assert_eq!(maailma.animaatio_kuva().len(), 1);
}

#[test]
fn interpoloivan_silmukan_kierros_antaa_valikuvan() {
    let mut maailma = Perusmaailma::new_interpoloiva();
    let mut syotteet = Syotteet::new();
    let mut saannollinen = saannolliset();
    let mut epasaannollinen = epasaannolliset();
    saannollinen.alusta(&mut maailma, &mut syotteet, &vec![]);
    epasaannollinen.alusta(&mut maailma, &mut syotteet, &vec![]);
    assert_eq!(maailma.kappalemuistit().len(), 7);
    let mut silmukka = InterpoloivaSilmukka::new(10);
    let oikealle = vec![OIKEALLE_LIIKKUMINEN];
    let kuva = silmukka.kierros(
        100_000_000,
        &oikealle,
        &mut maailma,
        &mut syotteet,
        &mut saannollinen,
        &mut epasaannollinen,
    );
    assert_eq!(kuva.len(), 7);
    assert_eq!(
        maailma.anna_interpolaatio_arvo(),
        Some(Interpolointiarvo { osoittaja: 0, nimittaja: 100_000_000 })
    );
    // One and a half intervals later the character has made one step of 12
    // points, and is drawn half way between the two remembered states.
    let kuva = silmukka.kierros(
        150_000_000,
        &oikealle,
        &mut maailma,
        &mut syotteet,
        &mut saannollinen,
        &mut epasaannollinen,
    );
    assert_eq!(pelaajan_kulma(&maailma), Vektori::new(322_000, 230_000));
    assert_eq!(
        maailma.anna_interpolaatio_arvo(),
        Some(Interpolointiarvo { osoittaja: 50_000_000, nimittaja: 100_000_000 })
    );
    assert_eq!(
        kuva[0].kappale,
        Kappale::new_kulmalla(Muoto::Nelio(20_000, 20_000), 316_000, 230_000, Tagi::Pelaaja)
    );
}

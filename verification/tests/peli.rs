use pelimoottori::animointi::{AmmusAnimaatio, Animaatio, KatoamisAnimaatio};
use pelimoottori::fysiikka::{Fysiikkakappale, Tormaystiedot, Tormaystieto};
use pelimoottori::maailma::kappale::{sisaltaa_tagin, Kappale, Muoto, Tagi};
use pelimoottori::maailma::lisaosa::{Lisaosa, Tunniste};
use pelimoottori::maailma::pelihahmo::Pelihahmo;
use pelimoottori::maailma::vektori::Vektori;
use pelimoottori::maailma::{Pelihahmollinen, Perusmaailma};
use pelimoottori::paivitys::{Paivitys, Paivitysaika, YhdistettyPaivitys};
use pelimoottori::peli::pelihahmonpaivitys::{
    PelihahmonPaivitys, ALAS_LIIKKUMINEN, AMPUMINEN, OIKEALLE_LIIKKUMINEN, VASEMMALLE_LIIKKUMINEN,
    YLOS_LIIKKUMINEN,
};
use pelimoottori::peli::pelinpaivitys::{
    animaatio_tuhoutuminen, tuhoa_tormaaja, AnimaatioidenPaivitys, FysiikanPaivitys,
    SpawnerinPaivitys, TekoalynPaivitys, TormaystenKasittely,
};
use pelimoottori::peli::{lisaa_fysiikka_kappale, lisaa_kappale, lisaa_kuvallinen_kappale};
use pelimoottori::piirtaja::{PiirrettavaKappale, Piirtotapa, Vari};
use pelimoottori::syotteet::Syotteet;
use pelimoottori::tormays::{Tormaystapahtuma, Tormaystoiminta, YleinenTormays};
use pelimoottori::piirtaja::PiirrettavaMaailma;
use pelimoottori::maailma::LisaosienAntaja;

fn laatikko(x: i32, y: i32, tagi: Tagi) -> Kappale {
    Kappale::new_kulmalla(Muoto::Nelio(10, 10), x, y, tagi)
}

fn lisaa_liikkuva(maailma: &mut Perusmaailma, kappale: Kappale, nopeus: Vektori) -> Tunniste {
    let tunniste = lisaa_kappale(maailma, kappale, Vari::rgb(9, 9, 9)).unwrap();
    assert!(maailma.lisaa_fysiikkakappale(Fysiikkakappale::new(nopeus, tunniste)));
    tunniste
}

#[test]
fn seinaan_osunut_ammus_tuhoutuu() {
    let mut maailma = Perusmaailma::new();
    let ammus = lisaa_liikkuva(&mut maailma, laatikko(0, 0, Tagi::Ammus), Vektori::new(100, 0));
    let seina = lisaa_liikkuva(&mut maailma, laatikko(15, 0, Tagi::Seina), Vektori::new(0, 0));
    let aika = Paivitysaika::new(100_000_000, 7_000_000_000);
    FysiikanPaivitys.paivita(&mut maailma, &aika);

    // The projectile is back where it was and waits to be removed.
    assert_eq!(maailma.anna_kappale(ammus), Some(laatikko(0, 0, Tagi::Ammus)));
    assert_eq!(maailma.poistettavat(), &vec![ammus]);
    assert!(maailma.onko_elossa(ammus));

    maailma.poista_poistettavat();
    assert!(!maailma.onko_elossa(ammus));
    assert_eq!(maailma.anna_kappale(ammus), None);
    assert_eq!(maailma.anna_fysiikka(ammus), None);
    assert!(maailma.anna_piirrettavyys(ammus).is_none());
    assert!(maailma.kappaleet().iter().all(|olio| olio.tunniste != ammus));
    assert!(maailma.fysiikalliset().iter().all(|f| f.anna_kappale() != ammus));
    assert!(maailma.piirrettavat(Vektori::new(0, 0)).iter().all(|p| p.anna_kappale() != ammus));
    // The wall is untouched.
    assert_eq!(maailma.anna_kappale(seina), Some(laatikko(15, 0, Tagi::Seina)));
    assert!(maailma.anna_fysiikka(seina).is_some());
    assert!(maailma.anna_piirrettavyys(seina).is_some());
}

#[test]
fn ammuksen_osuma_viholliseen_kaynnistaa_animaation_joka_kuolee_ajallaan() {
    let mut maailma = Perusmaailma::new();
    let vihollinen =
        lisaa_liikkuva(&mut maailma, laatikko(0, 0, Tagi::Vihollinen), Vektori::new(0, 0));
    let ammus = lisaa_liikkuva(&mut maailma, laatikko(-12, 0, Tagi::Ammus), Vektori::new(260, 0));
    let nyt = 3_000_000_000u64;
    FysiikanPaivitys.paivita(&mut maailma, &Paivitysaika::new(16_666_666, nyt));

    let animaatiot = maailma.animaatiot().anna_animaatiot();
    assert_eq!(animaatiot.len(), 2);
    // The enemy fades away for a second.
    assert_eq!(animaatiot[0].kuolin_aika, nyt + 1_000_000_000);
    assert_eq!(
        *animaatiot[0].anna_arvo(),
        Animaatio::Katoamis(KatoamisAnimaatio::new(
            Vektori::new(5, 5),
            nyt,
            10,
            1_000,
            1_000_000_000,
            Vari::rgb(200, 0, 100),
        ))
    );
    // The projectile leaves its mark for a tenth of a second.
    assert_eq!(animaatiot[1].kuolin_aika, nyt + 100_000_000);
    assert_eq!(
        *animaatiot[1].anna_arvo(),
        Animaatio::Ammus(AmmusAnimaatio::new(
            Vektori::new(-7, 5),
            nyt,
            Vektori::new(260, 0),
            100_000_000,
            Vari::rgb(200, 0, 100),
        ))
    );
    assert_eq!(maailma.poistettavat(), &vec![vihollinen, ammus]);

    let mut animaatioiden_paivitys = AnimaatioidenPaivitys;
    animaatioiden_paivitys.paivita(&mut maailma, &Paivitysaika::new(1, nyt + 99_999_999));
    assert_eq!(maailma.animaatiot().maara(), 2);
    assert_eq!(maailma.animaatio_kuva().len(), 2);
    animaatioiden_paivitys.paivita(&mut maailma, &Paivitysaika::new(1, nyt + 100_000_000));
    assert_eq!(maailma.animaatiot().maara(), 1);
    assert_eq!(maailma.animaatio_kuva().len(), 1);
    animaatioiden_paivitys.paivita(&mut maailma, &Paivitysaika::new(1, nyt + 999_999_999));
    assert_eq!(maailma.animaatiot().maara(), 1);
    animaatioiden_paivitys.paivita(&mut maailma, &Paivitysaika::new(1, nyt + 1_000_000_000));
    assert_eq!(maailma.animaatiot().maara(), 0);
    assert_eq!(maailma.animaatio_kuva().len(), 0);
}

#[test]
fn pelaajan_tormays_seinaan_ei_tuhoa_ketaan() {
    let mut maailma = Perusmaailma::new();
    let pelaaja = lisaa_liikkuva(&mut maailma, laatikko(0, 0, Tagi::Pelaaja), Vektori::new(120, 0));
    let _seina = lisaa_liikkuva(&mut maailma, laatikko(11, 0, Tagi::Seina), Vektori::new(0, 0));
    FysiikanPaivitys.paivita(&mut maailma, &Paivitysaika::new(16_666_666, 16_666_666));
    // 120 units a second for a sixtieth of a second is one unit: no overlap yet.
    assert_eq!(maailma.anna_kappale(pelaaja), Some(laatikko(1, 0, Tagi::Pelaaja)));
    FysiikanPaivitys.paivita(&mut maailma, &Paivitysaika::new(16_666_666, 33_333_332));
    // The second step would overlap the wall: the character did not move.
    assert_eq!(maailma.anna_kappale(pelaaja), Some(laatikko(1, 0, Tagi::Pelaaja)));
    assert_eq!(maailma.poistettavat().len(), 0);
    assert_eq!(maailma.animaatiot().maara(), 0);
}

#[test]
fn saanto_koskee_vain_omia_tagejaan() {
    let saanto = YleinenTormays::new(
        vec![Tagi::Ammus],
        vec![Tagi::Seina, Tagi::Vihollinen],
        Tormaystapahtuma::TuhoaTormaaja,
    );
    assert!(saanto.ehto(Tagi::Ammus));
    assert!(!saanto.ehto(Tagi::Seina));
    assert!(!saanto.ehto(Tagi::Pelaaja));
    let mut tieto = Tormaystieto::new(0);
    assert!(!saanto.koskee(&tieto));
    tieto.lisaa_tagi(Tagi::Pelaaja);
    assert!(!saanto.koskee(&tieto));
    tieto.lisaa_tagi(Tagi::Vihollinen);
    assert!(saanto.koskee(&tieto));
    assert!(sisaltaa_tagin(&[Tagi::Seina, Tagi::Ammus], Tagi::Ammus));
    assert!(!sisaltaa_tagin(&[Tagi::Seina, Tagi::Ammus], Tagi::Pelaaja));
}

#[test]
fn saannon_toiminta_vaatii_sopivan_kohteen() {
    let mut maailma = Perusmaailma::new();
    let ammus = lisaa_liikkuva(&mut maailma, laatikko(0, 0, Tagi::Ammus), Vektori::new(3, 4));
    let saanto = YleinenTormays::new(
        vec![Tagi::Ammus],
        vec![Tagi::Seina],
        Tormaystapahtuma::AnimaatioTuhoutuminen,
    );
    let aika = Paivitysaika::new(1, 10);
    let mut tieto = Tormaystieto::new(0);
    tieto.lisaa_tagi(Tagi::Pelaaja);
    saanto.toiminta(&tieto, &mut maailma, &aika);
    assert_eq!(maailma.poistettavat().len(), 0);
    assert_eq!(maailma.animaatiot().maara(), 0);
    tieto.lisaa_tagi(Tagi::Seina);
    saanto.toiminta(&tieto, &mut maailma, &aika);
    assert_eq!(maailma.poistettavat(), &vec![ammus]);
    assert_eq!(maailma.animaatiot().maara(), 1);
    assert_eq!(maailma.animaatiot().anna_animaatiot()[0].kuolin_aika, 1_000_000_010);
}

#[test]
fn tormaajan_voi_tuhota_useampi_saanto_samalla_paivityksella() {
    let mut maailma = Perusmaailma::new();
    let ammus = lisaa_liikkuva(&mut maailma, laatikko(0, 0, Tagi::Ammus), Vektori::new(3, 4));
    let aika = Paivitysaika::new(1, 10);
    let tieto = Tormaystieto::new(0);
    tuhoa_tormaaja(&tieto, &mut maailma, &aika);
    animaatio_tuhoutuminen(&tieto, &mut maailma, &aika);
    assert_eq!(maailma.poistettavat(), &vec![ammus, ammus]);
    assert_eq!(maailma.animaatiot().maara(), 2);
    assert_eq!(maailma.animaatiot().anna_animaatiot()[0].kuolin_aika, 100_000_010);
    assert_eq!(maailma.animaatiot().anna_animaatiot()[1].kuolin_aika, 1_000_000_010);
    maailma.poista_poistettavat();
    assert!(!maailma.onko_elossa(ammus));
    assert_eq!(maailma.kappaleet().len(), 0);
}

#[test]
fn pelin_saannot() {
    let saannot = TormaystenKasittely::saannot();
    assert_eq!(saannot.len(), 2);
    assert_eq!(saannot[0].omat_tagit, vec![Tagi::Ammus]);
    assert_eq!(
        saannot[0].kohteen_tagit,
        vec![Tagi::Seina, Tagi::Vihollinen, Tagi::Ammus, Tagi::Pelaaja]
    );
    assert_eq!(saannot[0].tapahtuma, Tormaystapahtuma::TuhoaTormaaja);
    assert_eq!(saannot[1].omat_tagit, vec![Tagi::Vihollinen]);
    assert_eq!(saannot[1].kohteen_tagit, vec![Tagi::Ammus]);
    assert_eq!(saannot[1].tapahtuma, Tormaystapahtuma::AnimaatioTuhoutuminen);
}

#[test]
fn tormaysten_kasittely_kay_lapi_kaikki_tiedot() {
    let mut maailma = Perusmaailma::new();
    let ammus = lisaa_liikkuva(&mut maailma, laatikko(0, 0, Tagi::Ammus), Vektori::new(1, 0));
    let vihollinen =
        lisaa_liikkuva(&mut maailma, laatikko(50, 0, Tagi::Vihollinen), Vektori::new(0, 0));
    let _pelaaja = lisaa_liikkuva(&mut maailma, laatikko(90, 0, Tagi::Pelaaja), Vektori::new(0, 0));
    let mut tiedot = Tormaystiedot::new();
    tiedot.lisaa_tormays(2, Tagi::Vihollinen);
    tiedot.lisaa_tormays(1, Tagi::Seina);
    tiedot.lisaa_tormays(1, Tagi::Ammus);
    tiedot.lisaa_tormays(0, Tagi::Partikkeli);
    tiedot.lisaa_tormays(0, Tagi::Pelaaja);
    TormaystenKasittely::kasittele_tormaykset(tiedot, &mut maailma, &Paivitysaika::new(1, 5));
    // The player is no collider of any rule; the enemy hit a projectile; the
    // projectile hit the player.
    assert_eq!(maailma.poistettavat(), &vec![vihollinen, ammus]);
    assert_eq!(maailma.animaatiot().maara(), 2);
}

#[test]
fn pelin_alustus() {
    let mut maailma = Perusmaailma::new();
    let mut fysiikka = FysiikanPaivitys;
    fysiikka.alusta(&mut maailma);
    assert_eq!(maailma.kappaleet().len(), 7);
    assert_eq!(maailma.piirrettavat(Vektori::new(0, 0)).len(), 7);
    assert_eq!(maailma.fysiikalliset().len(), 6);
    assert_eq!(maailma.alylliset().len(), 1);
    let hahmo = maailma.anna_pelihahmo().unwrap();
    assert_eq!(hahmo.anna_kappale(), Tunniste { arvo: 0 });
    assert_eq!(
        maailma.anna_kappale(hahmo.anna_kappale()),
        Some(Kappale::new_kulmalla(Muoto::Nelio(20_000, 20_000), 310_000, 230_000, Tagi::Pelaaja))
    );
    assert_eq!(maailma.anna_kameran_sijainti(), Some(Vektori::new(320_000, 240_000)));
    let odotetut = [
        Kappale::new_kulmalla(Muoto::Nelio(20_000, 20_000), 310_000, 230_000, Tagi::Pelaaja),
        Kappale::new_kulmalla(Muoto::Ympyra(30_000), -30_000, -30_000, Tagi::Seina),
        Kappale::new_kulmalla(Muoto::Nelio(1_000_000, 40_000), 0, 0, Tagi::Seina),
        Kappale::new_kulmalla(Muoto::Nelio(1_000_000, 40_000), 0, 740_000, Tagi::Seina),
        Kappale::new_kulmalla(Muoto::Nelio(40_000, 700_000), 0, 40_000, Tagi::Seina),
        Kappale::new_kulmalla(Muoto::Nelio(40_000, 700_000), 960_000, 40_000, Tagi::Seina),
        Kappale::new_kulmalla(Muoto::Nelio(20_000, 20_000), 590_000, 530_000, Tagi::Vihollinen),
    ];
    for (olio, odotettu) in maailma.kappaleet().iter().zip(odotetut.iter()) {
        assert_eq!(&olio.kappale, odotettu);
    }
    // The round obstacle has no physics side.
    assert_eq!(maailma.anna_fysiikka(Tunniste { arvo: 1 }), None);
    assert_eq!(maailma.alylliset()[0].anna_kappale(), Tunniste { arvo: 6 });
    assert_eq!(
        maailma.piirrettavat(Vektori::new(0, 0))[2].anna_piirtotapa(),
        &Piirtotapa::Yksivarinen { vari: Vari::rgb(10, 100, 200) }
    );
    // Nothing of the set-up overlaps: a step moves nobody back and destroys nobody.
    fysiikka.paivita(&mut maailma, &Paivitysaika::new(16_666_666, 16_666_666));
    assert_eq!(maailma.poistettavat().len(), 0);
}

#[test]
fn kappaleiden_lisaajat() {
    let mut maailma = Perusmaailma::new();
    let a = lisaa_kappale(&mut maailma, laatikko(0, 0, Tagi::Seina), Vari::rgb(1, 2, 3)).unwrap();
    let b = lisaa_kuvallinen_kappale(
        &mut maailma,
        laatikko(50, 0, Tagi::Ammus),
        String::from("ammus"),
    )
    .unwrap();
    let c = lisaa_fysiikka_kappale(&mut maailma, laatikko(90, 0, Tagi::Seina), Vari::rgb(4, 5, 6))
        .unwrap();
    assert_eq!(maailma.kappaleet().len(), 3);
    assert_eq!(
        maailma.piirrettavat(Vektori::new(0, 0)),
        &vec![
            PiirrettavaKappale::new(a, Piirtotapa::Yksivarinen { vari: Vari::rgb(1, 2, 3) }),
            PiirrettavaKappale::new(b, Piirtotapa::Kuvallinen { kuvan_nimi: String::from("ammus") }),
            PiirrettavaKappale::new(c, Piirtotapa::Yksivarinen { vari: Vari::rgb(4, 5, 6) }),
        ]
    );
    assert_eq!(maailma.fysiikalliset(), &vec![Fysiikkakappale::new(Vektori::new(0, 0), c)]);
}

fn pelaajan_maailma() -> (Perusmaailma, Tunniste, Syotteet, PelihahmonPaivitys) {
    let mut maailma = Perusmaailma::new();
    let pelaaja = lisaa_fysiikka_kappale(
        &mut maailma,
        Kappale::new_keskipisteella(
            Muoto::Nelio(20_000, 20_000),
            320_000,
            240_000,
            Tagi::Pelaaja,
        ),
        Vari::rgb(255, 30, 30),
    )
    .unwrap();
    maailma.lisaa_pelihahmo(Pelihahmo::new(pelaaja));
    let paivitys = PelihahmonPaivitys::new(String::from("ammus"));
    let mut syotteet = Syotteet::new();
    paivitys.alusta(&mut syotteet, &vec![]);
    (maailma, pelaaja, syotteet, paivitys)
}

#[test]
fn pelihahmo_liikkuu_nappainten_mukaan() {
    let (mut maailma, pelaaja, mut syotteet, paivitys) = pelaajan_maailma();
    for koodi in [
        OIKEALLE_LIIKKUMINEN,
        VASEMMALLE_LIIKKUMINEN,
        YLOS_LIIKKUMINEN,
        ALAS_LIIKKUMINEN,
        AMPUMINEN,
    ] {
        assert!(syotteet.nappain_ei_pohjassa(koodi));
    }
    let tapaukset = [
        (vec![OIKEALLE_LIIKKUMINEN], Vektori::new(120_000, 0), Vektori::new(120_000, 0)),
        (
            vec![OIKEALLE_LIIKKUMINEN, YLOS_LIIKKUMINEN],
            Vektori::new(120_000, -120_000),
            Vektori::new(120_000, -120_000),
        ),
        // Opposite keys cancel; the character keeps facing where it faced.
        (
            vec![OIKEALLE_LIIKKUMINEN, VASEMMALLE_LIIKKUMINEN],
            Vektori::new(0, 0),
            Vektori::new(120_000, -120_000),
        ),
        (
            vec![VASEMMALLE_LIIKKUMINEN, ALAS_LIIKKUMINEN],
            Vektori::new(-120_000, 120_000),
            Vektori::new(-120_000, 120_000),
        ),
        (vec![], Vektori::new(0, 0), Vektori::new(-120_000, 120_000)),
    ];
    for (pohjassa, nopeus, suunta) in tapaukset {
        syotteet.paivita_nappainten_tilat(&pohjassa);
        paivitys.paivita(&mut maailma, &syotteet);
        assert_eq!(maailma.anna_fysiikka(pelaaja).unwrap().anna_nopeus(), nopeus);
        assert_eq!(maailma.anna_pelihahmo().unwrap().anna_suunta(), suunta);
        assert_eq!(maailma.kappaleet().len(), 1);
    }
}

#[test]
fn pelihahmo_ampuu_kun_nappain_painetaan() {
    let (mut maailma, _pelaaja, mut syotteet, paivitys) = pelaajan_maailma();
    syotteet.paivita_nappainten_tilat(&vec![AMPUMINEN]);
    paivitys.paivita(&mut maailma, &syotteet);
    assert_eq!(maailma.kappaleet().len(), 2);
    let ammus = maailma.kappaleet()[1];
    // Half the character, the radius of the projectile and the gap: 25 points to the right.
    assert_eq!(
        ammus.kappale,
        Kappale::new_keskipisteella(Muoto::Ympyra(5_000), 345_000, 240_000, Tagi::Ammus)
    );
    assert_eq!(ammus.kappale.kulman_sijainti(), Vektori::new(340_000, 235_000));
    assert_eq!(
        maailma.anna_fysiikka(ammus.tunniste),
        Some(Fysiikkakappale::new(Vektori::new(260_000, 0), ammus.tunniste))
    );
    assert_eq!(
        maailma.anna_piirrettavyys(ammus.tunniste).unwrap().anna_piirtotapa(),
        &Piirtotapa::Kuvallinen { kuvan_nimi: String::from("ammus") }
    );
    // Holding the key down does not shoot again.
    syotteet.paivita_nappainten_tilat(&vec![AMPUMINEN]);
    paivitys.paivita(&mut maailma, &syotteet);
    assert_eq!(maailma.kappaleet().len(), 2);
    // Shooting while moving up and left.
    syotteet.paivita_nappainten_tilat(&vec![YLOS_LIIKKUMINEN, VASEMMALLE_LIIKKUMINEN]);
    paivitys.paivita(&mut maailma, &syotteet);
    syotteet.paivita_nappainten_tilat(&vec![YLOS_LIIKKUMINEN, VASEMMALLE_LIIKKUMINEN, AMPUMINEN]);
    paivitys.paivita(&mut maailma, &syotteet);
    assert_eq!(maailma.kappaleet().len(), 3);
    let viisto = maailma.kappaleet()[2];
    // The length of (-120 000, -120 000) rounds down to 169 705.
    assert_eq!(
        viisto.kappale,
        Kappale::new_keskipisteella(Muoto::Ympyra(5_000), 302_323, 222_323, Tagi::Ammus)
    );
    assert_eq!(
        maailma.anna_fysiikka(viisto.tunniste).unwrap().anna_nopeus(),
        Vektori::new(-183_848, -183_848)
    );
}

#[test]
fn maailma_ilman_pelihahmoa_ei_paivity() {
    let mut maailma = Perusmaailma::new();
    let a = lisaa_fysiikka_kappale(&mut maailma, laatikko(0, 0, Tagi::Seina), Vari::rgb(1, 1, 1))
        .unwrap();
    let paivitys = PelihahmonPaivitys::new(String::from("ammus"));
    let mut syotteet = Syotteet::new();
    paivitys.alusta(&mut syotteet, &vec![OIKEALLE_LIIKKUMINEN, AMPUMINEN]);
    assert!(syotteet.nappain_pohjassa(OIKEALLE_LIIKKUMINEN));
    syotteet.paivita_nappainten_tilat(&vec![]);
    syotteet.paivita_nappainten_tilat(&vec![OIKEALLE_LIIKKUMINEN, AMPUMINEN]);
    paivitys.paivita(&mut maailma, &syotteet);
    assert_eq!(maailma.kappaleet().len(), 1);
    assert_eq!(maailma.anna_fysiikka(a).unwrap().anna_nopeus(), Vektori::new(0, 0));
}

#[test]
fn spawnerin_paivitys_spawnaa_vihollisia() {
    let mut maailma = Perusmaailma::new();
    let mut paivitys = SpawnerinPaivitys::new();
    paivitys.paivita(&mut maailma, &Paivitysaika::new(60_000_000_000, 60_000_000_000));
    assert_eq!(maailma.kappaleet().len(), 0);
    paivitys.alusta();
    paivitys.paivita(&mut maailma, &Paivitysaika::new(4_999_999_999, 4_999_999_999));
    assert_eq!(maailma.kappaleet().len(), 0);
    paivitys.paivita(&mut maailma, &Paivitysaika::new(1, 5_000_000_000));
    assert_eq!(maailma.kappaleet().len(), 1);
    assert_eq!(
        maailma.kappaleet()[0].kappale,
        Kappale::new_kulmalla(Muoto::Nelio(20_000, 20_000), 590_000, 530_000, Tagi::Vihollinen)
    );
    assert_eq!(maailma.alylliset().len(), 1);
    assert_eq!(maailma.fysiikalliset().len(), 1);
}

#[test]
fn yhdistetty_paivitys_ajaa_osansa_jarjestyksessa() {
    let mut maailma = Perusmaailma::new();
    let mut syotteet = Syotteet::new();
    let mut paivitys = YhdistettyPaivitys::new(vec![
        Paivitys::Spawnerit(SpawnerinPaivitys::new()),
        Paivitys::Tekoaly(TekoalynPaivitys),
        Paivitys::Pelihahmo(PelihahmonPaivitys::new(String::from("ammus"))),
        Paivitys::Fysiikka(FysiikanPaivitys),
        Paivitys::Animaatiot(AnimaatioidenPaivitys),
    ]);
    paivitys.alusta(&mut maailma, &mut syotteet, &vec![]);
    assert_eq!(maailma.kappaleet().len(), 7);
    assert!(syotteet.nappain_ei_pohjassa(AMPUMINEN));

    // The enemy at (600, 540) steers towards the character at (320, 240) and then moves.
    paivitys.paivita(&mut maailma, &syotteet, &Paivitysaika::new(1_000_000_000, 1_000_000_000));
    let vihollinen = Tunniste { arvo: 6 };
    // The way is (-280 000, -300 000), of length 410 365.
    assert_eq!(
        maailma.anna_fysiikka(vihollinen).unwrap().anna_nopeus(),
        Vektori::new(-27_292, -29_242)
    );
    assert_eq!(
        maailma.anna_kappale(vihollinen),
        Some(Kappale::new_kulmalla(
            Muoto::Nelio(20_000, 20_000),
            562_708,
            500_758,
            Tagi::Vihollinen
        ))
    );
    // Five seconds in, the spawner makes an enemy before the others update.
    paivitys.paivita(&mut maailma, &syotteet, &Paivitysaika::new(4_000_000_000, 5_000_000_000));
    assert_eq!(maailma.kappaleet().len(), 8);
    assert_eq!(maailma.alylliset().len(), 2);
}

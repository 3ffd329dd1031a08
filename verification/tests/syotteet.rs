use pelimoottori::syotteet::{sisaltaa_koodin, Muutos, Nappain, Syotteet, Tila};

#[test]
fn tilan_kyselyt() {
    let pohjaan = Tila::Pohjassa(Muutos::Muuttunut);
    let pohjassa = Tila::Pohjassa(Muutos::Pysynyt);
    let ylos = Tila::EiPohjassa(Muutos::Muuttunut);
    let ylhaalla = Tila::EiPohjassa(Muutos::Pysynyt);
    assert!(pohjaan.pohjassa() && pohjassa.pohjassa());
    assert!(!ylos.pohjassa() && !ylhaalla.pohjassa());
    assert!(ylos.ei_pohjassa() && ylhaalla.ei_pohjassa());
    assert!(!pohjaan.ei_pohjassa() && !pohjassa.ei_pohjassa());
    assert!(pohjaan.painettu());
    assert!(!pohjassa.painettu() && !ylos.painettu() && !ylhaalla.painettu());
    assert!(ylos.vapautettu());
    assert!(!pohjaan.vapautettu() && !pohjassa.vapautettu() && !ylhaalla.vapautettu());
}

#[test]
fn nappaimen_tila_muuttuu_kun_painallus_muuttuu() {
    let mut nappain = Nappain::new(false, 44);
    assert_eq!(nappain, Nappain { nappain: 44, tila: Tila::EiPohjassa(Muutos::Pysynyt) });
    nappain.paivita_tila(false);
    assert_eq!(nappain.tila, Tila::EiPohjassa(Muutos::Pysynyt));
    nappain.paivita_tila(true);
    assert_eq!(nappain.tila, Tila::Pohjassa(Muutos::Muuttunut));
    nappain.paivita_tila(true);
    assert_eq!(nappain.tila, Tila::Pohjassa(Muutos::Pysynyt));
    nappain.paivita_tila(false);
    assert_eq!(nappain.tila, Tila::EiPohjassa(Muutos::Muuttunut));
    nappain.paivita_tila(false);
    assert_eq!(nappain.tila, Tila::EiPohjassa(Muutos::Pysynyt));
    assert_eq!(nappain.nappain, 44);
    assert_eq!(Nappain::new(true, 79).tila, Tila::Pohjassa(Muutos::Pysynyt));
}

#[test]
fn tarkkailematonta_nappainta_ei_tunneta() {
    let syotteet = Syotteet::new();
    assert_eq!(syotteet.anna_nappaimen_tila(79), None);
    assert!(!syotteet.nappain_pohjassa(79));
    assert!(!syotteet.nappain_ei_pohjassa(79));
    assert!(!syotteet.nappain_painettu(79));
    assert!(!syotteet.nappain_vapautettu(79));
}

#[test]
fn nappain_lisataan_vain_kerran() {
    let mut syotteet = Syotteet::new();
    syotteet.lisaa_nappain(&vec![79], 79);
    syotteet.lisaa_nappain(&vec![79], 80);
    assert_eq!(syotteet.anna_nappaimen_tila(79), Some(Tila::Pohjassa(Muutos::Pysynyt)));
    assert_eq!(syotteet.anna_nappaimen_tila(80), Some(Tila::EiPohjassa(Muutos::Pysynyt)));
    // Adding the key again does not look at the keyboard.
    syotteet.lisaa_nappain(&vec![], 79);
    assert_eq!(syotteet.anna_nappaimen_tila(79), Some(Tila::Pohjassa(Muutos::Pysynyt)));
}

#[test]
fn nappainten_tilat_paivittyvat() {
    let mut syotteet = Syotteet::new();
    syotteet.lisaa_nappain(&vec![], 79);
    syotteet.lisaa_nappain(&vec![], 44);
    syotteet.paivita_nappainten_tilat(&vec![44, 5]);
    assert!(syotteet.nappain_painettu(44));
    assert!(syotteet.nappain_pohjassa(44));
    assert!(syotteet.nappain_ei_pohjassa(79));
    assert!(!syotteet.nappain_vapautettu(79));
    syotteet.paivita_nappainten_tilat(&vec![44, 79]);
    assert!(!syotteet.nappain_painettu(44));
    assert!(syotteet.nappain_pohjassa(44));
    assert!(syotteet.nappain_painettu(79));
    syotteet.paivita_nappainten_tilat(&vec![]);
    assert!(syotteet.nappain_vapautettu(44));
    assert!(syotteet.nappain_vapautettu(79));
    assert_eq!(syotteet.anna_nappaimen_tila(5), None);
    syotteet.paivita_nappainten_tilat(&vec![]);
    assert!(!syotteet.nappain_vapautettu(44));
    assert!(syotteet.nappain_ei_pohjassa(44));
}

#[test]
fn koodin_haku_listasta() {
    assert!(sisaltaa_koodin(&vec![1, 2, 3], 3));
    assert!(!sisaltaa_koodin(&vec![1, 2, 3], 4));
    assert!(!sisaltaa_koodin(&vec![], 0));
}

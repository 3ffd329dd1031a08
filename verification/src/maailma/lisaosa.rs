//! Handles of bodies, and what every attachment to a body has in common.
use vstd::prelude::*;

verus! {

/// The handle of a body in a world. Two bodies of one world never share a
/// handle, however alike they are, and a handle is never given out twice.
#[derive(Copy, Clone, Debug, PartialEq, Eq, Structural)]
pub struct Tunniste {
    /// The number that tells this handle from all others of its world.
    pub arvo: u64,
}

/// Something that belongs to one body of the world and leaves the world
/// together with it.
pub trait Lisaosa {
    /// The handle of the body that this belongs to.
    spec fn kappale_spec(&self) -> Tunniste;

    /// Gives the handle of the body that this belongs to.
    fn anna_kappale(&self) -> (tulos: Tunniste)
        ensures
            tulos == self.kappale_spec(),
    ;
}

/// Whether something in `osat` belongs to the body `tunniste`.
pub open spec fn sisaltaa_tunnisteen<T: Lisaosa>(osat: Seq<T>, tunniste: Tunniste) -> bool {
    exists|k: int| 0 <= k < osat.len() && (#[trigger] osat[k]).kappale_spec() == tunniste
}

/// Whether no two members of `osat` belong to the same body.
pub open spec fn eri_tunnisteet<T: Lisaosa>(osat: Seq<T>) -> bool {
    forall|i: int, j: int|
        0 <= i < j < osat.len() ==> (#[trigger] osat[i]).kappale_spec() != (
        #[trigger] osat[j]).kappale_spec()
}

/// Whether `paikka` is where the first member of `osat` that belongs to
/// `tunniste` stands.
pub open spec fn ensimmainen_paikka<T: Lisaosa>(
    osat: Seq<T>,
    tunniste: Tunniste,
    paikka: int,
) -> bool {
    &&& 0 <= paikka < osat.len()
    &&& osat[paikka].kappale_spec() == tunniste
    &&& forall|k: int| 0 <= k < paikka ==> (#[trigger] osat[k]).kappale_spec() != tunniste
}

/// Where the first member of `osat` that belongs to `tunniste` stands, or
/// the length of `osat` where none belongs to it.
pub open spec fn loytopaikka<T: Lisaosa>(osat: Seq<T>, tunniste: Tunniste) -> int {
    if sisaltaa_tunnisteen(osat, tunniste) {
        choose|k: int| ensimmainen_paikka(osat, tunniste, k)
    } else {
        osat.len() as int
    }
}

/// Among the first `raja` members of `osat`, one that belongs to `tunniste`
/// has a first one before it or is itself the first.
proof fn lemma_ensimmainen_on<T: Lisaosa>(osat: Seq<T>, tunniste: Tunniste, raja: int)
    requires
        0 <= raja <= osat.len(),
    ensures
        (exists|k: int| 0 <= k < raja && (#[trigger] osat[k]).kappale_spec() == tunniste)
            ==> exists|p: int| p < raja && ensimmainen_paikka(osat, tunniste, p),
    decreases raja,
{
    if raja > 0 {
        lemma_ensimmainen_on(osat, tunniste, raja - 1);
        if exists|k: int| 0 <= k < raja - 1 && (#[trigger] osat[k]).kappale_spec() == tunniste {
        } else if osat[raja - 1].kappale_spec() == tunniste {
            assert(ensimmainen_paikka(osat, tunniste, raja - 1));
        }
    }
}

/// Where something belongs to `tunniste`, the place found is that of the
/// first member that does.
pub proof fn lemma_loytopaikka<T: Lisaosa>(osat: Seq<T>, tunniste: Tunniste)
    requires
        sisaltaa_tunnisteen(osat, tunniste),
    ensures
        ensimmainen_paikka(osat, tunniste, loytopaikka(osat, tunniste)),
{
    lemma_ensimmainen_on(osat, tunniste, osat.len() as int);
}

/// The place found lies within `osat` exactly where something belongs to
/// `tunniste`, and is the length of `osat` otherwise.
pub proof fn lemma_loytopaikan_rajat<T: Lisaosa>(osat: Seq<T>, tunniste: Tunniste)
    ensures
        0 <= loytopaikka(osat, tunniste) <= osat.len(),
        loytopaikka(osat, tunniste) < osat.len() <==> sisaltaa_tunnisteen(osat, tunniste),
        loytopaikka(osat, tunniste) < osat.len() ==> osat[loytopaikka(
            osat,
            tunniste,
        )].kappale_spec() == tunniste,
{
    if sisaltaa_tunnisteen(osat, tunniste) {
        lemma_loytopaikka(osat, tunniste);
    }
}

/// The place of the first member that belongs to `tunniste` is the place
/// found; where no two members belong to one body, it is the only place.
pub proof fn lemma_paikka_on_loytopaikka<T: Lisaosa>(osat: Seq<T>, tunniste: Tunniste, paikka: int)
    requires
        0 <= paikka < osat.len(),
        osat[paikka].kappale_spec() == tunniste,
        ensimmainen_paikka(osat, tunniste, paikka) || eri_tunnisteet(osat),
    ensures
        sisaltaa_tunnisteen(osat, tunniste),
        paikka == loytopaikka(osat, tunniste),
{
    lemma_loytopaikka(osat, tunniste);
    let loydetty = loytopaikka(osat, tunniste);
    if loydetty < paikka {
        assert(osat[loydetty].kappale_spec() == tunniste);
    } else if paikka < loydetty {
        assert(osat[paikka].kappale_spec() == tunniste);
    }
}

/// `osat` without the members that belong to `tunniste`, the others in
/// their order.
pub open spec fn ilman<T: Lisaosa>(osat: Seq<T>, tunniste: Tunniste) -> Seq<T>
    decreases osat.len(),
{
    if osat.len() == 0 {
        osat
    } else if osat.last().kappale_spec() == tunniste {
        ilman(osat.drop_last(), tunniste)
    } else {
        ilman(osat.drop_last(), tunniste).push(osat.last())
    }
}

/// Finds the first member of `osat` that belongs to `tunniste`.
pub fn etsi<T: Lisaosa>(osat: &Vec<T>, tunniste: Tunniste) -> (tulos: Option<usize>)
    ensures
        match tulos {
            Some(paikka) => sisaltaa_tunnisteen(osat@, tunniste) && paikka == loytopaikka(
                osat@,
                tunniste,
            ) && paikka < osat@.len() && osat@[paikka as int].kappale_spec() == tunniste,
            None => !sisaltaa_tunnisteen(osat@, tunniste),
        },
{
    let mut i: usize = 0;
    while i < osat.len()
        invariant
            i <= osat.len(),
            forall|k: int| 0 <= k < i ==> (#[trigger] osat@[k]).kappale_spec() != tunniste,
        decreases osat.len() - i,
    {
        if osat[i].anna_kappale() == tunniste {
            proof {
                lemma_paikka_on_loytopaikka(osat@, tunniste, i as int);
            }
            return Some(i);
        }
        i += 1;
    }
    None
}

/// Removes from `osat` every member that belongs to `tunniste`.
pub fn poista_lisaosat<T: Lisaosa>(osat: &mut Vec<T>, tunniste: Tunniste)
    ensures
        final(osat)@ == ilman(old(osat)@, tunniste),
{
    let ghost vanha = osat@;
    let ghost mut kasitelty: int = 0;
    let mut i: usize = 0;
    while i < osat.len()
        invariant
            vanha == old(osat)@,
            0 <= i <= osat.len(),
            0 <= kasitelty <= vanha.len(),
            kasitelty + (osat.len() - i) == vanha.len(),
            osat@.take(i as int) == ilman(vanha.take(kasitelty), tunniste),
            osat@.skip(i as int) == vanha.skip(kasitelty),
        decreases osat.len() - i,
    {
        assert(osat@[i as int] == osat@.skip(i as int)[0]);
        assert(vanha[kasitelty] == vanha.skip(kasitelty)[0]);
        assert(vanha.take(kasitelty + 1).drop_last() =~= vanha.take(kasitelty));
        let ghost ennen = osat@;
        assert forall|j: int| i <= j < ennen.len() implies #[trigger] ennen[j] == vanha[j - i
            + kasitelty] by {
            assert(ennen.skip(i as int)[j - i] == vanha.skip(kasitelty)[j - i]);
        }
        if osat[i].anna_kappale() == tunniste {
            osat.remove(i);
            assert(osat@.take(i as int) =~= ennen.take(i as int));
            let ghost loput = osat@.skip(i as int);
            let ghost vanhat = vanha.skip(kasitelty + 1);
            assert forall|m: int| 0 <= m < loput.len() implies #[trigger] loput[m]
                == vanhat[m] by {
                assert(ennen[i + m + 1] == vanha[i + m + 1 - i + kasitelty]);
            }
            assert(osat@.skip(i as int) =~= vanha.skip(kasitelty + 1));
        } else {
            assert(osat@.take(i + 1) =~= osat@.take(i as int).push(osat@[i as int]));
            let ghost loput = osat@.skip(i + 1);
            let ghost vanhat = vanha.skip(kasitelty + 1);
            assert forall|m: int| 0 <= m < loput.len() implies #[trigger] loput[m]
                == vanhat[m] by {
                assert(ennen[i + m + 1] == vanha[i + m + 1 - i + kasitelty]);
            }
            assert(osat@.skip(i + 1) =~= vanha.skip(kasitelty + 1));
            i += 1;
        }
        proof {
            kasitelty = kasitelty + 1;
        }
    }
    assert(osat@.take(i as int) =~= osat@);
    assert(vanha.take(kasitelty) =~= vanha);
}

/// What is left after the members of one body were removed: every member
/// left stood in `osat` and belongs to another body, and every member of
/// `osat` that belongs to another body is left.
pub proof fn lemma_ilman_sailyttaa<T: Lisaosa>(osat: Seq<T>, tunniste: Tunniste)
    ensures
        ilman(osat, tunniste).len() <= osat.len(),
        forall|k: int|
            0 <= k < ilman(osat, tunniste).len() ==> (#[trigger] ilman(
                osat,
                tunniste,
            )[k]).kappale_spec() != tunniste && osat.contains(ilman(osat, tunniste)[k]),
        forall|k: int|
            0 <= k < osat.len() && (#[trigger] osat[k]).kappale_spec() != tunniste ==> ilman(
                osat,
                tunniste,
            ).contains(osat[k]),
        !sisaltaa_tunnisteen(osat, tunniste) ==> ilman(osat, tunniste) == osat,
        !sisaltaa_tunnisteen(ilman(osat, tunniste), tunniste),
    decreases osat.len(),
{
    if osat.len() > 0 {
        let alku = osat.drop_last();
        lemma_ilman_sailyttaa(alku, tunniste);
        let tulos = ilman(osat, tunniste);
        let alun_tulos = ilman(alku, tunniste);
        assert forall|k: int| 0 <= k < tulos.len() implies (#[trigger] tulos[k]).kappale_spec()
            != tunniste && osat.contains(tulos[k]) by {
            if k < alun_tulos.len() {
                assert(tulos[k] == alun_tulos[k]);
                assert(alku.contains(alun_tulos[k]));
                let j = choose|j: int| 0 <= j < alku.len() && alku[j] == alun_tulos[k];
                assert(osat[j] == tulos[k]);
            } else {
                assert(tulos[k] == osat[osat.len() - 1]);
            }
        }
        assert forall|k: int|
            0 <= k < osat.len() && (#[trigger] osat[k]).kappale_spec() != tunniste implies tulos.contains(
            osat[k],
        ) by {
            if k < alku.len() {
                assert(alku[k] == osat[k]);
                assert(alun_tulos.contains(alku[k]));
                let j = choose|j: int| 0 <= j < alun_tulos.len() && alun_tulos[j] == alku[k];
                assert(tulos[j] == osat[k]);
            } else {
                assert(tulos[tulos.len() - 1] == osat[k]);
            }
        }
        if !sisaltaa_tunnisteen(osat, tunniste) {
            assert(osat[osat.len() - 1].kappale_spec() != tunniste);
            assert forall|k: int| 0 <= k < alku.len() implies (#[trigger] alku[k]).kappale_spec()
                != tunniste by {
                assert(alku[k] == osat[k]);
            }
            assert(tulos =~= osat);
        }
    }
}

/// Removing the members of one body leaves members of different bodies
/// different.
pub proof fn lemma_ilman_eri_tunnisteet<T: Lisaosa>(osat: Seq<T>, tunniste: Tunniste)
    requires
        eri_tunnisteet(osat),
    ensures
        eri_tunnisteet(ilman(osat, tunniste)),
    decreases osat.len(),
{
    if osat.len() > 0 {
        let alku = osat.drop_last();
        assert(eri_tunnisteet(alku)) by {
            assert forall|i: int, j: int| 0 <= i < j < alku.len() implies (#[trigger] alku[i]).kappale_spec()
                != (#[trigger] alku[j]).kappale_spec() by {
                assert(alku[i] == osat[i] && alku[j] == osat[j]);
            }
        }
        lemma_ilman_eri_tunnisteet(alku, tunniste);
        lemma_ilman_sailyttaa(alku, tunniste);
        let tulos = ilman(osat, tunniste);
        let alun_tulos = ilman(alku, tunniste);
        if osat.last().kappale_spec() != tunniste {
            assert forall|i: int, j: int| 0 <= i < j < tulos.len() implies (#[trigger] tulos[i]).kappale_spec()
                != (#[trigger] tulos[j]).kappale_spec() by {
                if j < alun_tulos.len() {
                    assert(tulos[i] == alun_tulos[i] && tulos[j] == alun_tulos[j]);
                } else {
                    assert(tulos[i] == alun_tulos[i]);
                    assert(alku.contains(alun_tulos[i]));
                    let k = choose|k: int| 0 <= k < alku.len() && alku[k] == alun_tulos[i];
                    assert(osat[k] == tulos[i]);
                    assert(tulos[j] == osat[osat.len() - 1]);
                }
            }
        }
    }
}

} // verus!

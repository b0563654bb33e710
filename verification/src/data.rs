//! The built-in salts.
//!
//! The micronutrient fractions of the macronutrient salts are zero. The two
//! micronutrient mixes have no fractions at all: they are dosed at a fixed
//! rate and take no part in the optimization.
use vstd::prelude::*;
use crate::models::{Salt, SaltView, salt_views};

verus! {

/// A built-in salt with the given composition, in millionths, and no
/// micronutrients.
pub open spec fn built_in(
    name: Seq<char>,
    formula: Seq<char>,
    stock_solution: Seq<char>,
    nh4: nat,
    no3: nat,
    p: nat,
    k: nat,
    ca: nat,
    mg: nat,
    s: nat,
    cl: nat,
) -> SaltView {
    SaltView {
        name,
        formula,
        is_custom: false,
        enabled: true,
        stock_solution,
        nh4,
        no3,
        p,
        k,
        ca,
        mg,
        s,
        cl,
        fe: 0,
        mn: 0,
        zn: 0,
        cu: 0,
        b: 0,
        mo: 0,
    }
}

/// The built-in salts: the calcium and magnesium salts in stock solution A,
/// the phosphates and the others in stock solution B.
pub open spec fn predefined_salts() -> Seq<SaltView> {
    seq![
        built_in("Ca(NO₃)₂·4H₂O"@, "Ca(NO₃)₂·4H₂O"@, "A"@, 14_200, 637_500, 0, 0, 169_717, 0, 0, 0),
        built_in("Mg(NO₃)₂·6H₂O"@, "Mg(NO₃)₂·6H₂O"@, "A"@, 0, 483_645, 0, 0, 0, 94_792, 0, 0),
        built_in("CaCl₂·2H₂O"@, "CaCl₂·2H₂O"@, "A"@, 0, 0, 0, 0, 272_625, 0, 0, 482_287),
        built_in("Ferty 72"@, "Micronutrient Mix"@, "A"@, 0, 0, 0, 0, 0, 0, 0, 0),
        built_in("KNO₃"@, "KNO₃"@, "B"@, 0, 613_282, 0, 386_718, 0, 0, 0, 0),
        built_in("(NH₄)₂SO₄"@, "(NH₄)₂SO₄"@, "B"@, 273_031, 0, 0, 0, 0, 0, 242_661, 0),
        built_in("NH₄H₂PO₄"@, "NH₄H₂PO₄"@, "B"@, 156_827, 0, 269_281, 0, 0, 0, 0, 0),
        built_in("NH₄Cl"@, "NH₄Cl"@, "B"@, 337_247, 0, 0, 0, 0, 0, 0, 662_753),
        built_in("KH₂PO₄"@, "KH₂PO₄"@, "B"@, 0, 0, 227_609, 287_308, 0, 0, 0, 0),
        built_in("K₂SO₄"@, "K₂SO₄"@, "B"@, 0, 0, 0, 448_740, 0, 0, 184_010, 0),
        built_in("MgSO₄·7H₂O"@, "MgSO₄·7H₂O"@, "B"@, 0, 0, 0, 0, 0, 98_612, 130_096, 0),
        built_in("Ferty 10"@, "Micronutrient Mix"@, "B"@, 0, 0, 0, 0, 0, 0, 0, 0),
    ]
}

fn built_in_salt(
    name: &str,
    formula: &str,
    stock_solution: &str,
    nh4: u32,
    no3: u32,
    p: u32,
    k: u32,
    ca: u32,
    mg: u32,
    s: u32,
    cl: u32,
) -> (salt: Salt)
    ensures
        salt@ == built_in(
            name@,
            formula@,
            stock_solution@,
            nh4 as nat,
            no3 as nat,
            p as nat,
            k as nat,
            ca as nat,
            mg as nat,
            s as nat,
            cl as nat,
        ),
{
    Salt::predefined(name, formula, stock_solution, nh4, no3, p, k, ca, mg, s, cl, 0, 0, 0, 0, 0, 0)
}

/// The built-in salts, each enabled and assigned to its stock solution.
pub fn get_predefined_salts() -> (salts: Vec<Salt>)
    ensures
        salt_views(salts@) == predefined_salts(),
{
    let mut salts: Vec<Salt> = Vec::new();
    salts.push(built_in_salt("Ca(NO₃)₂·4H₂O", "Ca(NO₃)₂·4H₂O", "A", 14_200, 637_500, 0, 0, 169_717, 0, 0, 0));
    salts.push(built_in_salt("Mg(NO₃)₂·6H₂O", "Mg(NO₃)₂·6H₂O", "A", 0, 483_645, 0, 0, 0, 94_792, 0, 0));
    salts.push(built_in_salt("CaCl₂·2H₂O", "CaCl₂·2H₂O", "A", 0, 0, 0, 0, 272_625, 0, 0, 482_287));
    salts.push(built_in_salt("Ferty 72", "Micronutrient Mix", "A", 0, 0, 0, 0, 0, 0, 0, 0));
    salts.push(built_in_salt("KNO₃", "KNO₃", "B", 0, 613_282, 0, 386_718, 0, 0, 0, 0));
    salts.push(built_in_salt("(NH₄)₂SO₄", "(NH₄)₂SO₄", "B", 273_031, 0, 0, 0, 0, 0, 242_661, 0));
    salts.push(built_in_salt("NH₄H₂PO₄", "NH₄H₂PO₄", "B", 156_827, 0, 269_281, 0, 0, 0, 0, 0));
    salts.push(built_in_salt("NH₄Cl", "NH₄Cl", "B", 337_247, 0, 0, 0, 0, 0, 0, 662_753));
    salts.push(built_in_salt("KH₂PO₄", "KH₂PO₄", "B", 0, 0, 227_609, 287_308, 0, 0, 0, 0));
    salts.push(built_in_salt("K₂SO₄", "K₂SO₄", "B", 0, 0, 0, 448_740, 0, 0, 184_010, 0));
    salts.push(built_in_salt("MgSO₄·7H₂O", "MgSO₄·7H₂O", "B", 0, 0, 0, 0, 0, 98_612, 130_096, 0));
    salts.push(built_in_salt("Ferty 10", "Micronutrient Mix", "B", 0, 0, 0, 0, 0, 0, 0, 0));
    salts
}

} // verus!

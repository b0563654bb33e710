//! The data model: nutrients, salts, and the outcome of an optimization.
use vstd::prelude::*;

verus! {

/// The label of a salt that belongs to no stock solution.
pub const UNASSIGNED: &'static str = "Unassigned";

/// The fourteen nutrients a recipe is balanced for: eight macronutrients and
/// major ions, then six micronutrients.
#[derive(Clone, Copy, Debug, PartialEq, Eq, Structural)]
pub enum Nutrient {
    Nh4,
    No3,
    P,
    K,
    Ca,
    Mg,
    S,
    Cl,
    Fe,
    Mn,
    Zn,
    Cu,
    B,
    Mo,
}

/// A salt: what it is called, where it is kept, and how much of each nutrient
/// a gram of it holds. The fractions count millionths of a gram per gram.
#[derive(Debug, PartialEq, Eq)]
pub struct Salt {
    pub name: String,
    pub formula: String,
    pub is_custom: bool,
    pub enabled: bool,
    /// The label of a stock solution, or [`UNASSIGNED`].
    pub stock_solution: String,
    pub nh4: u32,
    pub no3: u32,
    /// Elemental phosphorus.
    pub p: u32,
    pub k: u32,
    pub ca: u32,
    pub mg: u32,
    /// Elemental sulfur.
    pub s: u32,
    pub cl: u32,
    pub fe: u32,
    pub mn: u32,
    pub zn: u32,
    pub cu: u32,
    pub b: u32,
    pub mo: u32,
}

/// What a [`Salt`] is, as a mathematical value.
pub struct SaltView {
    pub name: Seq<char>,
    pub formula: Seq<char>,
    pub is_custom: bool,
    pub enabled: bool,
    pub stock_solution: Seq<char>,
    pub nh4: nat,
    pub no3: nat,
    pub p: nat,
    pub k: nat,
    pub ca: nat,
    pub mg: nat,
    pub s: nat,
    pub cl: nat,
    pub fe: nat,
    pub mn: nat,
    pub zn: nat,
    pub cu: nat,
    pub b: nat,
    pub mo: nat,
}

impl SaltView {
    /// The mass fraction of `nutrient`, in millionths.
    pub open spec fn fraction(self, nutrient: Nutrient) -> nat {
        match nutrient {
            Nutrient::Nh4 => self.nh4,
            Nutrient::No3 => self.no3,
            Nutrient::P => self.p,
            Nutrient::K => self.k,
            Nutrient::Ca => self.ca,
            Nutrient::Mg => self.mg,
            Nutrient::S => self.s,
            Nutrient::Cl => self.cl,
            Nutrient::Fe => self.fe,
            Nutrient::Mn => self.mn,
            Nutrient::Zn => self.zn,
            Nutrient::Cu => self.cu,
            Nutrient::B => self.b,
            Nutrient::Mo => self.mo,
        }
    }
}

impl View for Salt {
    type V = SaltView;

    open spec fn view(&self) -> SaltView {
        SaltView {
            name: self.name@,
            formula: self.formula@,
            is_custom: self.is_custom,
            enabled: self.enabled,
            stock_solution: self.stock_solution@,
            nh4: self.nh4 as nat,
            no3: self.no3 as nat,
            p: self.p as nat,
            k: self.k as nat,
            ca: self.ca as nat,
            mg: self.mg as nat,
            s: self.s as nat,
            cl: self.cl as nat,
            fe: self.fe as nat,
            mn: self.mn as nat,
            zn: self.zn as nat,
            cu: self.cu as nat,
            b: self.b as nat,
            mo: self.mo as nat,
        }
    }
}

/// The views of a sequence of salts, in order.
pub open spec fn salt_views(salts: Seq<Salt>) -> Seq<SaltView> {
    Seq::new(salts.len(), |i: int| salts[i]@)
}

impl Clone for Salt {
    fn clone(&self) -> (r: Self)
        ensures
            r@ == self@,
    {
        Salt {
            name: self.name.clone(),
            formula: self.formula.clone(),
            is_custom: self.is_custom,
            enabled: self.enabled,
            stock_solution: self.stock_solution.clone(),
            nh4: self.nh4,
            no3: self.no3,
            p: self.p,
            k: self.k,
            ca: self.ca,
            mg: self.mg,
            s: self.s,
            cl: self.cl,
            fe: self.fe,
            mn: self.mn,
            zn: self.zn,
            cu: self.cu,
            b: self.b,
            mo: self.mo,
        }
    }
}

impl Salt {
    /// A salt of the built-in catalog: enabled, and kept in `stock_solution`.
    pub fn predefined(
        name: &str,
        formula: &str,
        stock_solution: &str,
        nh4: u32,
        no3: u32,
        p: u32,
        k: u32,
        ca: u32,
        mg: u32,
        s: u32,
        cl: u32,
        fe: u32,
        mn: u32,
        zn: u32,
        cu: u32,
        b: u32,
        mo: u32,
    ) -> (salt: Self)
        ensures
            salt@ == (SaltView {
                name: name@,
                formula: formula@,
                is_custom: false,
                enabled: true,
                stock_solution: stock_solution@,
                nh4: nh4 as nat,
                no3: no3 as nat,
                p: p as nat,
                k: k as nat,
                ca: ca as nat,
                mg: mg as nat,
                s: s as nat,
                cl: cl as nat,
                fe: fe as nat,
                mn: mn as nat,
                zn: zn as nat,
                cu: cu as nat,
                b: b as nat,
                mo: mo as nat,
            }),
    {
        Salt {
            name: String::from_str(name),
            formula: String::from_str(formula),
            is_custom: false,
            enabled: true,
            stock_solution: String::from_str(stock_solution),
            nh4,
            no3,
            p,
            k,
            ca,
            mg,
            s,
            cl,
            fe,
            mn,
            zn,
            cu,
            b,
            mo,
        }
    }

    /// A salt that the user describes: enabled, and not yet assigned to a
    /// stock solution.
    pub fn custom(
        name: String,
        formula: String,
        nh4: u32,
        no3: u32,
        p: u32,
        k: u32,
        ca: u32,
        mg: u32,
        s: u32,
        cl: u32,
        fe: u32,
        mn: u32,
        zn: u32,
        cu: u32,
        b: u32,
        mo: u32,
    ) -> (salt: Self)
        ensures
            salt@ == (SaltView {
                name: name@,
                formula: formula@,
                is_custom: true,
                enabled: true,
                stock_solution: UNASSIGNED@,
                nh4: nh4 as nat,
                no3: no3 as nat,
                p: p as nat,
                k: k as nat,
                ca: ca as nat,
                mg: mg as nat,
                s: s as nat,
                cl: cl as nat,
                fe: fe as nat,
                mn: mn as nat,
                zn: zn as nat,
                cu: cu as nat,
                b: b as nat,
                mo: mo as nat,
            }),
    {
        Salt {
            name,
            formula,
            is_custom: true,
            enabled: true,
            stock_solution: String::from_str(UNASSIGNED),
            nh4,
            no3,
            p,
            k,
            ca,
            mg,
            s,
            cl,
            fe,
            mn,
            zn,
            cu,
            b,
            mo,
        }
    }

    /// The mass fraction of `nutrient`, in millionths.
    pub fn fraction(&self, nutrient: Nutrient) -> (r: u32)
        ensures
            r == self@.fraction(nutrient),
    {
        match nutrient {
            Nutrient::Nh4 => self.nh4,
            Nutrient::No3 => self.no3,
            Nutrient::P => self.p,
            Nutrient::K => self.k,
            Nutrient::Ca => self.ca,
            Nutrient::Mg => self.mg,
            Nutrient::S => self.s,
            Nutrient::Cl => self.cl,
            Nutrient::Fe => self.fe,
            Nutrient::Mn => self.mn,
            Nutrient::Zn => self.zn,
            Nutrient::Cu => self.cu,
            Nutrient::B => self.b,
            Nutrient::Mo => self.mo,
        }
    }
}

/// A recipe and the nutrient levels it gives.
///
/// A dosage counts millionths of a gram per litre. A level has twelve
/// decimals: it counts millionths of millionths of a gram per litre for the
/// macronutrients, and of a milligram per litre for the micronutrients.
#[derive(Debug, PartialEq, Eq)]
pub struct OptimizationResult {
    /// The salts to dissolve, by name, each with its dosage.
    pub recipe: Vec<(String, u32)>,
    pub nh4_actual: u128,
    pub no3_actual: u128,
    pub k_actual: u128,
    pub p_actual: u128,
    pub ca_actual: u128,
    pub mg_actual: u128,
    pub s_actual: u128,
    pub cl_actual: u128,
    pub fe_actual: u128,
    pub mn_actual: u128,
    pub zn_actual: u128,
    pub cu_actual: u128,
    pub b_actual: u128,
    pub mo_actual: u128,
}

/// What an [`OptimizationResult`] is, as a mathematical value.
pub struct ResultView {
    pub recipe: Seq<(Seq<char>, int)>,
    pub nh4_actual: int,
    pub no3_actual: int,
    pub k_actual: int,
    pub p_actual: int,
    pub ca_actual: int,
    pub mg_actual: int,
    pub s_actual: int,
    pub cl_actual: int,
    pub fe_actual: int,
    pub mn_actual: int,
    pub zn_actual: int,
    pub cu_actual: int,
    pub b_actual: int,
    pub mo_actual: int,
}

/// The entries of a recipe as mathematical values, in order.
pub open spec fn recipe_view(recipe: Seq<(String, u32)>) -> Seq<(Seq<char>, int)> {
    Seq::new(recipe.len(), |i: int| (recipe[i].0@, recipe[i].1 as int))
}

impl View for OptimizationResult {
    type V = ResultView;

    open spec fn view(&self) -> ResultView {
        ResultView {
            recipe: recipe_view(self.recipe@),
            nh4_actual: self.nh4_actual as int,
            no3_actual: self.no3_actual as int,
            k_actual: self.k_actual as int,
            p_actual: self.p_actual as int,
            ca_actual: self.ca_actual as int,
            mg_actual: self.mg_actual as int,
            s_actual: self.s_actual as int,
            cl_actual: self.cl_actual as int,
            fe_actual: self.fe_actual as int,
            mn_actual: self.mn_actual as int,
            zn_actual: self.zn_actual as int,
            cu_actual: self.cu_actual as int,
            b_actual: self.b_actual as int,
            mo_actual: self.mo_actual as int,
        }
    }
}

impl Clone for OptimizationResult {
    fn clone(&self) -> (r: Self)
        ensures
            r@ == self@,
    {
        let mut recipe: Vec<(String, u32)> = Vec::new();
        let mut i: usize = 0;
        while i < self.recipe.len()
            invariant
                i <= self.recipe@.len(),
                recipe@.len() == i,
                forall|j: int|
                    0 <= j < i ==> recipe@[j].0@ == self.recipe@[j].0@ && recipe@[j].1
                        == self.recipe@[j].1,
            decreases self.recipe@.len() - i,
        {
            recipe.push((self.recipe[i].0.clone(), self.recipe[i].1));
            i += 1;
        }
        assert(recipe_view(recipe@) =~= recipe_view(self.recipe@));
        OptimizationResult {
            recipe,
            nh4_actual: self.nh4_actual,
            no3_actual: self.no3_actual,
            k_actual: self.k_actual,
            p_actual: self.p_actual,
            ca_actual: self.ca_actual,
            mg_actual: self.mg_actual,
            s_actual: self.s_actual,
            cl_actual: self.cl_actual,
            fe_actual: self.fe_actual,
            mn_actual: self.mn_actual,
            zn_actual: self.zn_actual,
            cu_actual: self.cu_actual,
            b_actual: self.b_actual,
            mo_actual: self.mo_actual,
        }
    }
}

/// A saved result, with the label it was saved under.
#[derive(Debug, PartialEq, Eq)]
pub struct ComparisonEntry {
    pub result: OptimizationResult,
    /// What the entry is shown as: the ammonium share at the time of saving.
    pub timestamp: String,
}

impl View for ComparisonEntry {
    type V = (ResultView, Seq<char>);

    open spec fn view(&self) -> (ResultView, Seq<char>) {
        (self.result@, self.timestamp@)
    }
}

impl Clone for ComparisonEntry {
    fn clone(&self) -> (r: Self)
        ensures
            r@ == self@,
    {
        ComparisonEntry { result: self.result.clone(), timestamp: self.timestamp.clone() }
    }
}

} // verus!

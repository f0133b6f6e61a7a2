//! Selection engine: spin modes, the pizza and phrase catalogs, and a
//! uniformly random pick over the entries a mode admits.

use vstd::prelude::*;
use crate::text::str_eq;

verus! {

/// The closed set of selection filters derived from a command keyword.
#[derive(Clone, Copy, Debug, PartialEq, Eq, Structural)]
pub enum SpinMode {
    Any,
    Vegan,
    Vegetarian,
}

/// The spin mode a command keyword maps to, if any.
pub open spec fn spin_mode_of(s: Seq<char>) -> Option<SpinMode> {
    if s == "/spin"@ {
        Some(SpinMode::Any)
    } else if s == "/spin-vegan"@ {
        Some(SpinMode::Vegan)
    } else if s == "/spin-vegetarian"@ {
        Some(SpinMode::Vegetarian)
    } else {
        None
    }
}

impl SpinMode {
    /// Map a command keyword to its spin mode; unknown keywords map to none.
    pub fn from_command(s: &str) -> (r: Option<Self>)
        ensures
            r == spin_mode_of(s@),
    {
        if str_eq(s, "/spin") {
            Some(SpinMode::Any)
        } else if str_eq(s, "/spin-vegan") {
            Some(SpinMode::Vegan)
        } else if str_eq(s, "/spin-vegetarian") {
            Some(SpinMode::Vegetarian)
        } else {
            None
        }
    }
}

/// One pizza of the catalog: display texts and three independent tags.
#[derive(Debug)]
pub struct PizzaEntry {
    pub name: String,
    pub extra: String,
    pub description: String,
    /// The pizza contains only vegan-friendly ingredients.
    pub vegan: bool,
    /// The pizza contains only vegetarian-friendly ingredients.
    pub vegetarian: bool,
    /// The pizza is a personal size.
    pub personal: bool,
}

/// One phrase of the fortune catalog.
#[derive(Debug)]
pub struct FortunePhraseEntry {
    pub phrase: String,
}

/// Whether a pizza is eligible under a spin mode.
///
/// Under `Any` every non-personal pizza is eligible; under `Vegan` exactly
/// the vegan pizzas; under `Vegetarian` the non-personal pizzas that are both
/// vegetarian and vegan.
pub open spec fn eligible(p: PizzaEntry, mode: SpinMode) -> bool {
    match mode {
        SpinMode::Any => !p.personal,
        SpinMode::Vegan => p.vegan,
        SpinMode::Vegetarian => !p.personal && p.vegetarian && p.vegan,
    }
}

/// Eligibility, mode by mode: under `Any` a pizza is eligible exactly
/// when it is not personal size; under `Vegan` exactly when it is vegan;
/// under `Vegetarian` exactly when it is vegetarian, vegan and not
/// personal size.
pub proof fn lemma_eligibility(p: PizzaEntry)
    ensures
        eligible(p, SpinMode::Any) <==> !p.personal,
        eligible(p, SpinMode::Vegan) <==> p.vegan,
        eligible(p, SpinMode::Vegetarian) <==> p.vegetarian && p.vegan && !p.personal,
{
}

/// Whether any pizza of the catalog is eligible under the mode.
pub open spec fn some_eligible(pizzas: Seq<PizzaEntry>, mode: SpinMode) -> bool {
    exists|i: int| 0 <= i < pizzas.len() && eligible(pizzas[i], mode)
}

/// The indices below `n` of the catalog entries eligible under the mode,
/// in catalog order.
pub open spec fn eligible_indices(pizzas: Seq<PizzaEntry>, mode: SpinMode, n: int) -> Seq<usize>
    decreases n,
{
    if n <= 0 {
        Seq::empty()
    } else {
        let pre = eligible_indices(pizzas, mode, n - 1);
        if eligible(pizzas[n - 1], mode) {
            pre.push((n - 1) as usize)
        } else {
            pre
        }
    }
}

/// Every index an eligible-index sequence holds is in range and eligible.
pub proof fn lemma_eligible_indices_sound(pizzas: Seq<PizzaEntry>, mode: SpinMode, n: int)
    requires
        n <= pizzas.len() <= usize::MAX,
    ensures
        forall|k: int|
            0 <= k < eligible_indices(pizzas, mode, n).len() ==> {
                let j = #[trigger] eligible_indices(pizzas, mode, n)[k];
                j < n && eligible(pizzas[j as int], mode)
            },
    decreases n,
{
    if n > 0 {
        lemma_eligible_indices_sound(pizzas, mode, n - 1);
        let pre = eligible_indices(pizzas, mode, n - 1);
        let cur = eligible_indices(pizzas, mode, n);
        assert forall|k: int| 0 <= k < cur.len() implies {
            let j = #[trigger] cur[k];
            j < n && eligible(pizzas[j as int], mode)
        } by {
            if eligible(pizzas[n - 1], mode) {
                assert(cur == pre.push((n - 1) as usize));
                if k < pre.len() {
                    assert(cur[k] == pre[k]);
                } else {
                    assert(cur[k] == (n - 1) as usize);
                    assert(0 <= n - 1 < pizzas.len());
                }
            } else {
                assert(cur == pre);
                assert(cur[k] == pre[k]);
            }
        }
    }
}

/// No eligible entry is ever excluded: each index of an eligible entry
/// appears in the eligible-index sequence, so some draw of the selection
/// engine returns that entry.
pub proof fn lemma_no_permanent_exclusion(pizzas: Seq<PizzaEntry>, mode: SpinMode, j: int)
    requires
        0 <= j < pizzas.len() <= usize::MAX,
        eligible(pizzas[j], mode),
    ensures
        eligible_indices(pizzas, mode, pizzas.len() as int).contains(j as usize),
{
    lemma_eligible_indices_contains(pizzas, mode, pizzas.len() as int, j);
}

proof fn lemma_eligible_indices_contains(pizzas: Seq<PizzaEntry>, mode: SpinMode, n: int, j: int)
    requires
        0 <= j < n <= pizzas.len() <= usize::MAX,
        eligible(pizzas[j], mode),
    ensures
        eligible_indices(pizzas, mode, n).contains(j as usize),
    decreases n,
{
    if j == n - 1 {
        let pre = eligible_indices(pizzas, mode, n - 1);
        assert(eligible_indices(pizzas, mode, n)[pre.len() as int] == j as usize);
    } else {
        lemma_eligible_indices_contains(pizzas, mode, n - 1, j);
        let pre = eligible_indices(pizzas, mode, n - 1);
        let k = choose|k: int| 0 <= k < pre.len() && pre[k] == j as usize;
        assert(eligible_indices(pizzas, mode, n)[k] == j as usize);
    }
}

/// The catalog held no eligible entry: a configuration-integrity failure.
#[derive(Clone, Copy, Debug, PartialEq, Eq, Structural)]
pub struct EmptySelection;

/// Relies on `rand::Rng::gen_range` over `0..len` on `rand::thread_rng()`:
/// for a nonempty range it returns a uniformly random value of the range,
/// so the result is below `len`.
#[verifier::external_body]
fn choose_index(len: usize) -> (r: usize)
    requires
        len > 0,
    ensures
        r < len,
{
    rand::Rng::gen_range(&mut rand::thread_rng(), 0..len)
}

/// The indices of the catalog entries eligible under the mode, in order.
pub fn filtered_pizza_indices(pizzas: &Vec<PizzaEntry>, mode: SpinMode) -> (r: Vec<usize>)
    ensures
        r@ == eligible_indices(pizzas@, mode, pizzas@.len() as int),
{
    let mut r: Vec<usize> = Vec::new();
    let mut i: usize = 0;
    while i < pizzas.len()
        invariant
            i <= pizzas@.len(),
            r@ == eligible_indices(pizzas@, mode, i as int),
        decreases pizzas@.len() - i,
    {
        let p = &pizzas[i];
        let keep = match mode {
            SpinMode::Any => !p.personal,
            SpinMode::Vegan => p.vegan,
            SpinMode::Vegetarian => !p.personal && p.vegetarian && p.vegan,
        };
        if keep {
            r.push(i);
        }
        i = i + 1;
    }
    r
}

proof fn lemma_some_eligible_indices_nonempty(pizzas: Seq<PizzaEntry>, mode: SpinMode)
    requires
        pizzas.len() <= usize::MAX,
    ensures
        some_eligible(pizzas, mode) <==> eligible_indices(pizzas, mode, pizzas.len() as int).len()
            > 0,
{
    if some_eligible(pizzas, mode) {
        let j = choose|j: int| 0 <= j < pizzas.len() && eligible(pizzas[j], mode);
        lemma_eligible_indices_contains(pizzas, mode, pizzas.len() as int, j);
    }
    if eligible_indices(pizzas, mode, pizzas.len() as int).len() > 0 {
        lemma_eligible_indices_sound(pizzas, mode, pizzas.len() as int);
        let j = eligible_indices(pizzas, mode, pizzas.len() as int)[0];
        assert(eligible(pizzas[j as int], mode));
    }
}

/// Pick a uniformly random pizza among those the mode admits.
///
/// Succeeds exactly when some catalog entry is eligible under the mode; the
/// returned entry is an eligible entry of the catalog.
pub fn get_random_pizza<'a>(pizzas: &'a Vec<PizzaEntry>, mode: SpinMode) -> (r: Result<
    &'a PizzaEntry,
    EmptySelection,
>)
    ensures
        r is Ok <==> some_eligible(pizzas@, mode),
        r matches Ok(p) ==> eligible(*p, mode) && exists|i: int|
            0 <= i < pizzas@.len() && pizzas@[i] == *p,
{
    proof {
        assert(pizzas.len() == pizzas@.len());
    }
    let indices = filtered_pizza_indices(pizzas, mode);
    proof {
        lemma_some_eligible_indices_nonempty(pizzas@, mode);
        lemma_eligible_indices_sound(pizzas@, mode, pizzas@.len() as int);
    }
    if indices.len() == 0 {
        Err(EmptySelection)
    } else {
        let k = choose_index(indices.len());
        let j = indices[k];
        assert(eligible(pizzas@[j as int], mode));
        Ok(&pizzas[j])
    }
}

/// Pick a uniformly random fortune phrase; no filter applies.
///
/// Succeeds exactly when the phrase catalog is nonempty, with an entry of
/// the catalog.
pub fn get_random_fortune_phrase<'a>(phrases: &'a Vec<FortunePhraseEntry>) -> (r: Result<
    &'a FortunePhraseEntry,
    EmptySelection,
>)
    ensures
        r is Ok <==> phrases@.len() > 0,
        r matches Ok(p) ==> exists|i: int| 0 <= i < phrases@.len() && phrases@[i] == *p,
{
    if phrases.len() == 0 {
        Err(EmptySelection)
    } else {
        let k = choose_index(phrases.len());
        Ok(&phrases[k])
    }
}

} // verus!

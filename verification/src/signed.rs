//! The signed cloud layer, as the facts it states and the answers it gives.

use vstd::prelude::*;
use crate::lists::{lemma_filter_ends, lemma_filter_step};
use crate::offering::{rows_of, CatalogOffering, OfferingView};
use crate::pair_map::PairKey;
use crate::text::same_text;

verus! {

/// What a signed fact does to a model.
#[derive(Debug, Clone, Copy, PartialEq, Eq, Structural)]
pub enum ModelOp {
    /// Add the model, or correct the fields that the fact states.
    Upsert,
    /// Withdraw the model.
    Hide,
    /// Mark the model as deprecated.
    Deprecate,
}

/// One signed statement about one model.
#[derive(Debug)]
pub struct ModelFact {
    pub provider: String,
    pub id: String,
    pub op: ModelOp,
    pub context_window: Option<u64>,
    pub max_output: Option<u64>,
    pub reasoning: Option<bool>,
    /// Whether the fact states a price.
    pub priced: bool,
}

/// The mathematical view of a [`ModelFact`].
#[verifier::ext_equal]
pub struct FactView {
    pub provider: Seq<char>,
    pub id: Seq<char>,
    pub op: ModelOp,
    pub context_window: Option<u64>,
    pub max_output: Option<u64>,
    pub reasoning: Option<bool>,
    pub priced: bool,
}

impl View for ModelFact {
    type V = FactView;

    open spec fn view(&self) -> FactView {
        FactView {
            provider: self.provider@,
            id: self.id@,
            op: self.op,
            context_window: self.context_window,
            max_output: self.max_output,
            reasoning: self.reasoning,
            priced: self.priced,
        }
    }
}

impl Clone for ModelFact {
    fn clone(&self) -> (r: Self)
        ensures
            r@ == self@,
    {
        ModelFact {
            provider: self.provider.clone(),
            id: self.id.clone(),
            op: self.op,
            context_window: self.context_window,
            max_output: self.max_output,
            reasoning: self.reasoning,
            priced: self.priced,
        }
    }
}

/// One model of one provider.
#[derive(Debug)]
pub struct ModelRef {
    pub provider: String,
    pub model: String,
}

/// A signed layer with its answers on the rows that it was asked about.
///
/// Which rows those are, the function that takes the layer says.
#[derive(Debug)]
pub struct SignedLayer {
    /// The facts that the layer states.
    pub facts: Vec<ModelFact>,
    /// The catalog rows below the layer, with its patches applied.
    pub patched: Vec<CatalogOffering>,
    /// The roster rows, position by position, each completed where the roster
    /// stated nothing. A row of another model than the one at its position is
    /// not taken.
    pub completed: Vec<CatalogOffering>,
    /// The rows that the patches make of an empty catalog.
    pub unlisted: Vec<CatalogOffering>,
    /// The models that the layer attests exist though a roster omits them.
    pub attested: Vec<ModelRef>,
}

/// The mathematical view of a [`SignedLayer`].
#[verifier::ext_equal]
pub struct SignedView {
    pub facts: Seq<FactView>,
    pub patched: Seq<OfferingView>,
    pub completed: Seq<OfferingView>,
    pub unlisted: Seq<OfferingView>,
    pub attested: Seq<PairKey>,
}

/// The views of a list of facts.
pub open spec fn facts_of(list: Seq<ModelFact>) -> Seq<FactView> {
    list.map_values(|f: ModelFact| f@)
}

/// The keys of a list of models.
pub open spec fn attested_keys(list: Seq<ModelRef>) -> Seq<PairKey> {
    list.map_values(|m: ModelRef| (m.provider@, m.model@))
}

impl View for SignedLayer {
    type V = SignedView;

    open spec fn view(&self) -> SignedView {
        SignedView {
            facts: facts_of(self.facts@),
            patched: rows_of(self.patched@),
            completed: rows_of(self.completed@),
            unlisted: rows_of(self.unlisted@),
            attested: attested_keys(self.attested@),
        }
    }
}

/// The view of an optional signed layer.
pub open spec fn layer_view(layer: Option<&SignedLayer>) -> Option<SignedView> {
    match layer {
        Some(l) => Some(l@),
        None => None,
    }
}

/// Whether the layer attests that a model exists though a roster omits it.
pub fn is_attested(layer: &SignedLayer, provider: &str, model: &str) -> (r: bool)
    ensures
        r == layer@.attested.contains((provider@, model@)),
{
    let mut i: usize = 0;
    while i < layer.attested.len()
        invariant
            i <= layer.attested.len(),
            forall|k: int| 0 <= k < i ==> layer@.attested[k] != (provider@, model@),
        decreases layer.attested.len() - i,
    {
        if same_text(layer.attested[i].provider.as_str(), provider) && same_text(
            layer.attested[i].model.as_str(),
            model,
        ) {
            assert(layer@.attested[i as int] == (provider@, model@));
            return true;
        }
        i += 1;
    }
    false
}

/// The facts that a layer states of one provider, in order.
pub open spec fn facts_for_provider(facts: Seq<FactView>, provider: Seq<char>) -> Seq<FactView> {
    facts.filter(|f: FactView| f.provider == provider)
}

/// The facts that a layer states of one provider, in order: the scope in which
/// it is applied to the rows of that provider.
#[must_use]
pub fn scoped_facts(facts: &Vec<ModelFact>, provider: &str) -> (r: Vec<ModelFact>)
    ensures
        facts_of(r@) == facts_for_provider(facts_of(facts@), provider@),
{
    let ghost all = facts_of(facts@);
    let ghost keep = |f: FactView| f.provider == provider@;
    proof {
        lemma_filter_ends(all, keep);
    }
    let mut out: Vec<ModelFact> = Vec::new();
    assert(facts_of(out@) =~= Seq::<FactView>::empty());
    let mut i: usize = 0;
    while i < facts.len()
        invariant
            i <= facts.len(),
            all == facts_of(facts@),
            keep == (|f: FactView| f.provider == provider@),
            facts_of(out@) == all.take(i as int).filter(keep),
        decreases facts.len() - i,
    {
        proof {
            assert(all[i as int] == facts@[i as int]@);
            lemma_filter_step(all, keep, i as int);
        }
        if same_text(facts[i].provider.as_str(), provider) {
            let ghost before = out@;
            out.push(facts[i].clone());
            assert(facts_of(out@) =~= facts_of(before).push(all[i as int]));
        }
        i += 1;
    }
    assert(all.take(i as int) =~= all);
    out
}

} // verus!

//! Which models a client is set up with, and which credentials open them.

use vstd::prelude::*;
use crate::provider::{LLMProvider, LLMProviderAPIKeys, family_of};
use crate::types::{FloatBits, LLMType};

verus! {

/// How one model is set up.
#[derive(Clone, Copy, Debug, PartialEq, Eq, Structural)]
pub struct Model {
    pub context_length: u32,
    pub temperature: FloatBits,
    pub provider: LLMProvider,
}

/// The models a client is set up with and the credentials it holds. The
/// table of models lists each model once.
#[derive(Debug)]
pub struct LLMClientConfig {
    pub slow_model: LLMType,
    pub fast_model: LLMType,
    pub models: Vec<(LLMType, Model)>,
    pub providers: Vec<LLMProviderAPIKeys>,
}

/// How `model` is set up according to the table, if the table lists it.
pub open spec fn model_entry(models: Seq<(LLMType, Model)>, model: LLMType) -> Option<Model>
    decreases models.len(),
{
    if models.len() == 0 {
        None
    } else if models[0].0 == model {
        Some(models[0].1)
    } else {
        model_entry(models.drop_first(), model)
    }
}

/// The place of the first credentials that belong to `family`, if there are
/// any.
pub open spec fn first_of_family(providers: Seq<LLMProviderAPIKeys>, family: LLMProvider) -> Option<
    int,
>
    decreases providers.len(),
{
    if providers.len() == 0 {
        None
    } else if family_of(providers[0]@) == family {
        Some(0)
    } else {
        match first_of_family(providers.drop_first(), family) {
            Some(place) => Some(place + 1),
            None => None,
        }
    }
}

/// The place of the credentials that open `model`: the first that belong to
/// the family that the table sets the model up with. There are none where
/// the table does not list the model or no credentials belong to the family.
pub open spec fn provider_place(
    models: Seq<(LLMType, Model)>,
    providers: Seq<LLMProviderAPIKeys>,
    model: LLMType,
) -> Option<int> {
    match model_entry(models, model) {
        Some(entry) => first_of_family(providers, entry.provider),
        None => None,
    }
}

/// The table lists no model twice.
pub open spec fn lists_each_model_once(models: Seq<(LLMType, Model)>) -> bool {
    forall|i: int, j: int|
        0 <= i < j < models.len() ==> (#[trigger] models[i]).0 != (#[trigger] models[j]).0
}

/// In a table that lists no model twice, every line is the one that its
/// model is looked up to.
pub proof fn lemma_entry_of_listed_model(models: Seq<(LLMType, Model)>, i: int)
    requires
        lists_each_model_once(models),
        0 <= i < models.len(),
    ensures
        model_entry(models, models[i].0) == Some(models[i].1),
    decreases models.len(),
{
    if i > 0 {
        let rest = models.drop_first();
        assert(models[0].0 != models[i].0);
        assert forall|a: int, b: int| 0 <= a < b < rest.len() implies (#[trigger] rest[a]).0 != (
        #[trigger] rest[b]).0 by {
            assert(rest[a] == models[a + 1]);
            assert(rest[b] == models[b + 1]);
        }
        lemma_entry_of_listed_model(rest, i - 1);
    }
}

/// The credentials that are found belong to the family that is asked for,
/// and none before them does.
pub proof fn lemma_first_of_family(providers: Seq<LLMProviderAPIKeys>, family: LLMProvider)
    ensures
        match first_of_family(providers, family) {
            Some(place) => 0 <= place < providers.len() && family_of(providers[place]@) == family
                && forall|k: int| 0 <= k < place ==> family_of(#[trigger] providers[k]@) != family,
            None => forall|k: int|
                0 <= k < providers.len() ==> family_of(#[trigger] providers[k]@) != family,
        },
    decreases providers.len(),
{
    if providers.len() > 0 && family_of(providers[0]@) != family {
        let rest = providers.drop_first();
        lemma_first_of_family(rest, family);
        match first_of_family(rest, family) {
            Some(place) => {
                assert(providers[place + 1] == rest[place]);
                assert forall|k: int| 0 <= k < place + 1 implies family_of(
                    #[trigger] providers[k]@,
                ) != family by {
                    if k > 0 {
                        assert(providers[k] == rest[k - 1]);
                    }
                }
            },
            None => {
                assert forall|k: int| 0 <= k < providers.len() implies family_of(
                    #[trigger] providers[k]@,
                ) != family by {
                    if k > 0 {
                        assert(providers[k] == rest[k - 1]);
                    }
                }
            },
        }
    }
}

/// Whether the table lists no model twice.
fn lists_once(models: &Vec<(LLMType, Model)>) -> (answer: bool)
    ensures
        answer == lists_each_model_once(models@),
{
    let mut j: usize = 0;
    while j < models.len()
        invariant
            j <= models@.len(),
            forall|a: int, b: int|
                0 <= a < b < j ==> (#[trigger] models@[a]).0 != (#[trigger] models@[b]).0,
        decreases models.len() - j,
    {
        let mut i: usize = 0;
        while i < j
            invariant
                i <= j < models@.len(),
                forall|a: int| 0 <= a < i ==> (#[trigger] models@[a]).0 != models@[j as int].0,
            decreases j - i,
        {
            if models[i].0 == models[j].0 {
                assert(models@[i as int].0 == models@[j as int].0);
                return false;
            }
            i += 1;
        }
        j += 1;
    }
    true
}

impl LLMClientConfig {
    /// The table lists each model once.
    pub open spec fn well_formed(&self) -> bool {
        lists_each_model_once(self.models@)
    }

    /// The configuration with the fields given, where the table lists each
    /// model once; nothing where it lists a model twice.
    pub fn new(
        slow_model: LLMType,
        fast_model: LLMType,
        models: Vec<(LLMType, Model)>,
        providers: Vec<LLMProviderAPIKeys>,
    ) -> (config: Option<Self>)
        ensures
            config is Some <==> lists_each_model_once(models@),
            config matches Some(config) ==> config.well_formed() && config.slow_model
                == slow_model && config.fast_model == fast_model && config.models == models
                && config.providers == providers,
    {
        if lists_once(&models) {
            Some(Self { slow_model, fast_model, models, providers })
        } else {
            None
        }
    }

    /// How `model` is set up.
    fn model(&self, model: LLMType) -> (entry: Option<Model>)
        ensures
            entry == model_entry(self.models@, model),
    {
        assert(self.models@.skip(0) == self.models@);
        let mut i: usize = 0;
        while i < self.models.len()
            invariant
                i <= self.models@.len(),
                model_entry(self.models@, model) == model_entry(self.models@.skip(i as int), model),
            decreases self.models.len() - i,
        {
            let line = self.models[i];
            assert(self.models@.skip(i as int)[0] == self.models@[i as int]);
            if line.0 == model {
                return Some(line.1);
            }
            assert(self.models@.skip(i as int).drop_first() == self.models@.skip(i + 1));
            i += 1;
        }
        None
    }

    /// The credentials that open `model`.
    fn provider_for(&self, model: LLMType) -> (found: Option<&LLMProviderAPIKeys>)
        ensures
            match provider_place(self.models@, self.providers@, model) {
                Some(place) => 0 <= place < self.providers@.len() && found == Some(
                    &self.providers@[place],
                ),
                None => found is None,
            },
    {
        let entry = match self.model(model) {
            Some(entry) => entry,
            None => {
                return None;
            },
        };
        let provider = entry.provider;
        let mut i: usize = 0;
        while i < self.providers.len()
            invariant
                i <= self.providers@.len(),
                provider_place(self.models@, self.providers@, model) == first_of_family(
                    self.providers@,
                    provider,
                ),
                forall|k: int| 0 <= k < i ==> family_of(#[trigger] self.providers@[k]@) != provider,
            decreases self.providers.len() - i,
        {
            if self.providers[i].key(&provider).is_some() {
                proof {
                    lemma_first_of_family(self.providers@, provider);
                }
                return Some(&self.providers[i]);
            }
            i += 1;
        }
        proof {
            lemma_first_of_family(self.providers@, provider);
        }
        None
    }

    /// The credentials that open the slow model.
    pub fn provider_for_slow_model(&self) -> (found: Option<&LLMProviderAPIKeys>)
        ensures
            match provider_place(self.models@, self.providers@, self.slow_model) {
                Some(place) => 0 <= place < self.providers@.len() && found == Some(
                    &self.providers@[place],
                ),
                None => found is None,
            },
    {
        self.provider_for(self.slow_model)
    }

    /// The credentials that open the fast model.
    pub fn provider_for_fast_model(&self) -> (found: Option<&LLMProviderAPIKeys>)
        ensures
            match provider_place(self.models@, self.providers@, self.fast_model) {
                Some(place) => 0 <= place < self.providers@.len() && found == Some(
                    &self.providers@[place],
                ),
                None => found is None,
            },
    {
        self.provider_for(self.fast_model)
    }
}

} // verus!

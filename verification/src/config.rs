//! Pipelines: ordered sequences of rules, built name by name, and the engine
//! that runs one over text.

use crate::catalog::{catalog, is_identifier, rule_named, Transformation};
use crate::selection::{all_known, chosen, selected, ProcessorConfigNames};
use vstd::prelude::*;
use vstd::string::StringExecFns;

verus! {

/// Why a pipeline could not be built.
#[derive(Clone, Debug, PartialEq, Eq)]
pub enum ConfigError {
    /// The name, carried here, is not the identifier of any rule of the catalog.
    UnknownTransformation(String),
}

impl ConfigError {
    /// The name that was not found.
    pub open spec fn unknown_name(self) -> Seq<char> {
        match self {
            ConfigError::UnknownTransformation(name) => name@,
        }
    }

    /// The name that was not found.
    pub fn name(&self) -> (name: &str)
        ensures
            name@ == self.unknown_name(),
    {
        match self {
            ConfigError::UnknownTransformation(name) => name.as_str(),
        }
    }

    /// A sentence that reports the error.
    pub fn message(&self) -> (text: String)
        ensures
            text@ == "Processor "@ + self.unknown_name() + " does not exist"@,
    {
        let mut text = String::from_str("Processor ");
        text.append(self.name());
        text.append(" does not exist");
        text
    }
}

/// What running the rules `rules` over `text` gives: each rule in order, from
/// the first to the last, reads what the one before it wrote.
pub open spec fn run(rules: Seq<Transformation>, text: Seq<char>) -> Seq<char>
    decreases rules.len(),
{
    if rules.len() == 0 {
        text
    } else {
        rules.last().output(run(rules.drop_last(), text))
    }
}

/// Running no rule gives the text back.
pub proof fn lemma_run_none(text: Seq<char>)
    ensures
        run(Seq::empty(), text) == text,
{
}

/// Running one rule more applies it to what the rules before it gave.
pub proof fn lemma_run_push(rules: Seq<Transformation>, rule: Transformation, text: Seq<char>)
    ensures
        run(rules.push(rule), text) == rule.output(run(rules, text)),
{
    assert(rules.push(rule).drop_last() =~= rules);
}

/// The rules that the names `names` identify, in order, or `None` where one
/// of the names identifies no rule.
pub open spec fn named(names: Seq<String>) -> Option<Seq<Transformation>>
    decreases names.len(),
{
    if names.len() == 0 {
        Some(Seq::empty())
    } else {
        match (named(names.drop_last()), rule_named(names.last()@)) {
            (Some(rules), Some(rule)) => Some(rules.push(rule)),
            _ => None,
        }
    }
}

/// Whether `names[i]` is the first of `names` that identifies no rule.
pub open spec fn first_unknown(names: Seq<String>, i: int) -> bool {
    &&& 0 <= i < names.len()
    &&& !is_identifier(names[i]@)
    &&& forall|j: int| 0 <= j < i ==> is_identifier(#[trigger] names[j]@)
}

/// Where all of `names` identify rules, each of them does.
pub proof fn lemma_named_prefix(names: Seq<String>, j: int)
    requires
        named(names) is Some,
        0 <= j < names.len(),
    ensures
        is_identifier(names[j]@),
    decreases names.len(),
{
    if j < names.len() - 1 {
        lemma_named_prefix(names.drop_last(), j);
    }
}

/// A pipeline under construction: the rules added so far, in the order they
/// will be applied.
pub struct ProcessorConfig {
    functions: Vec<Transformation>,
}

impl View for ProcessorConfig {
    type V = Seq<Transformation>;

    closed spec fn view(&self) -> Seq<Transformation> {
        self.functions@
    }
}

impl ProcessorConfig {
    /// The empty pipeline.
    pub fn new() -> (config: Self)
        ensures
            config@ == Seq::<Transformation>::empty(),
    {
        ProcessorConfig { functions: Vec::new() }
    }

    /// Appends `f` to the end of the pipeline.
    pub fn chain(&mut self, f: Transformation)
        ensures
            final(self)@ == old(self)@.push(f),
    {
        self.functions.push(f);
    }

    /// Looks `name` up in the catalog and appends the rule it identifies.
    /// Fails exactly where `name` identifies no rule; the error carries the
    /// name, and the pipeline keeps the rules it had.
    pub fn try_add(&mut self, name: &str) -> (added: Result<(), ConfigError>)
        ensures
            match added {
                Ok(_) => rule_named(name@) matches Some(rule) && final(self)@ == old(self)@.push(
                    rule,
                ),
                Err(e) => !is_identifier(name@) && e.unknown_name() == name@ && final(self)@
                    == old(self)@,
            },
    {
        match Transformation::from_name(name) {
            Some(rule) => {
                self.chain(rule);
                Ok(())
            },
            None => Err(ConfigError::UnknownTransformation(name.to_owned())),
        }
    }

    /// Builds the pipeline of a selection. A selection has no order of its
    /// own, so the rules are taken in the declared order of the catalog.
    /// Fails exactly where the selection holds a name that identifies no
    /// rule; the error carries such a name.
    pub fn try_from(config_names: &ProcessorConfigNames) -> (built: Result<Self, ConfigError>)
        ensures
            match built {
                Ok(config) => all_known(config_names.names()) && config@ == selected(
                    config_names.names(),
                ),
                Err(e) => config_names.names().contains(e.unknown_name()) && !is_identifier(
                    e.unknown_name(),
                ),
            },
    {
        match config_names.unknown_name() {
            Some(name) => Err(ConfigError::UnknownTransformation(name)),
            None => {
                let rules = Transformation::all();
                let mut config = ProcessorConfig::new();
                let mut i: usize = 0;
                while i < rules.len()
                    invariant
                        i <= rules.len(),
                        rules@ == catalog(),
                        config@ == chosen(catalog().take(i as int), config_names.names()),
                    decreases rules.len() - i,
                {
                    proof {
                        reveal(Seq::filter);
                        assert(catalog().take(i + 1).drop_last() =~= catalog().take(i as int));
                    }
                    let rule = rules[i];
                    if config_names.contains(rule.identifier()) {
                        config.chain(rule);
                    }
                    i += 1;
                }
                proof {
                    assert(catalog().take(rules.len() as int) =~= catalog());
                }
                Ok(config)
            },
        }
    }

    /// Builds the pipeline of a list of names, in the order of the list.
    /// Fails at the first name that identifies no rule; the error carries
    /// that name.
    pub fn from_names(names: &Vec<String>) -> (built: Result<Self, ConfigError>)
        ensures
            match built {
                Ok(config) => named(names@) == Some(config@),
                Err(e) => named(names@) is None && exists|i: int|
                    0 <= i < names.len() && #[trigger] first_unknown(names@, i)
                        && e.unknown_name() == names@[i]@,
            },
    {
        let mut config = ProcessorConfig::new();
        let mut i: usize = 0;
        while i < names.len()
            invariant
                i <= names.len(),
                named(names@.take(i as int)) == Some(config@),
            decreases names.len() - i,
        {
            proof {
                assert(names@.take(i + 1).drop_last() =~= names@.take(i as int));
            }
            match config.try_add(names[i].as_str()) {
                Ok(_) => {},
                Err(e) => {
                    proof {
                        assert(first_unknown(names@, i as int)) by {
                            assert forall|j: int| 0 <= j < i implies is_identifier(
                                #[trigger] names@[j]@,
                            ) by {
                                lemma_named_prefix(names@.take(i as int), j);
                            }
                        }
                    }
                    proof {
                        if named(names@) is Some {
                            lemma_named_prefix(names@, i as int);
                        }
                    }
                    return Err(e);
                },
            }
            i += 1;
        }
        proof {
            assert(names@.take(names.len() as int) =~= names@);
        }
        Ok(config)
    }

    /// The number of rules in the pipeline.
    pub fn len(&self) -> (n: usize)
        ensures
            n == self@.len(),
    {
        self.functions.len()
    }

    /// The rule at position `i`.
    pub fn get(&self, i: usize) -> (rule: Option<Transformation>)
        ensures
            rule == if i < self@.len() {
                Some(self@[i as int])
            } else {
                None
            },
    {
        if i < self.functions.len() {
            Some(self.functions[i])
        } else {
            None
        }
    }
}

impl Default for ProcessorConfig {
    /// The empty pipeline.
    fn default() -> (config: Self)
        ensures
            config@ == Seq::<Transformation>::empty(),
    {
        ProcessorConfig::new()
    }
}

/// The engine: one built pipeline, run over as many texts as are handed to it.
pub struct TextProcessor {
    config: ProcessorConfig,
}

impl TextProcessor {
    /// The rules of the engine's pipeline, in the order they are applied.
    pub closed spec fn pipeline(&self) -> Seq<Transformation> {
        self.config@
    }

    /// An engine with the empty pipeline, which gives every text back as it is.
    pub fn new() -> (processor: Self)
        ensures
            processor.pipeline() == Seq::<Transformation>::empty(),
    {
        TextProcessor { config: ProcessorConfig::new() }
    }

    /// An engine that runs the pipeline of the selection `config_names`, its
    /// rules in the declared order of the catalog. Fails exactly where the
    /// selection holds a name that identifies no rule.
    pub fn with_config_names(config_names: &ProcessorConfigNames) -> (built: Result<
        Self,
        ConfigError,
    >)
        ensures
            match built {
                Ok(processor) => all_known(config_names.names()) && processor.pipeline()
                    == selected(config_names.names()),
                Err(e) => config_names.names().contains(e.unknown_name()) && !is_identifier(
                    e.unknown_name(),
                ),
            },
    {
        match ProcessorConfig::try_from(config_names) {
            Ok(config) => Ok(TextProcessor { config }),
            Err(e) => Err(e),
        }
    }

    /// An engine that runs `config`.
    pub fn with_config(config: ProcessorConfig) -> (processor: Self)
        ensures
            processor.pipeline() == config@,
    {
        TextProcessor { config }
    }

    /// Runs the pipeline over `text`: the rules are applied from the first to
    /// the last, each to what the one before it gave.
    pub fn process(&self, text: &str) -> (cleaned: String)
        ensures
            cleaned@ == run(self.pipeline(), text@),
    {
        let mut cleaned = text.to_owned();
        let mut i: usize = 0;
        while i < self.config.functions.len()
            invariant
                i <= self.config.functions.len(),
                cleaned@ == run(self.config.functions@.take(i as int), text@),
            decreases self.config.functions.len() - i,
        {
            proof {
                assert(self.config.functions@.take(i + 1).drop_last()
                    =~= self.config.functions@.take(i as int));
            }
            cleaned = self.config.functions[i].apply(cleaned.as_str());
            i += 1;
        }
        proof {
            assert(self.config.functions@.take(self.config.functions.len() as int)
                =~= self.config.functions@);
        }
        cleaned
    }
}

} // verus!

//! The metadata synthesizer: one structured parameter descriptor per
//! extractible argument, merged into the operation's parameter set.
//!
//! A [`Parameter`]'s identity key is its (name, location) pair; an
//! [`Operation`] keeps at most one parameter per identity key, and inserting
//! under a key that is already present replaces the earlier entry, so the
//! most recently registered content wins.

use vstd::prelude::*;
use vstd::string::*;

use crate::extract::{ContractViolation, PathParam};
use crate::table;

verus! {

/// Where a parameter is read from.
#[derive(Clone, Copy, Debug, PartialEq, Eq, Structural)]
pub enum ParameterIn {
    Path,
    Query,
    Header,
    Cookie,
    Body,
}

/// The abstract value of a [`Parameter`].
#[verifier::ext_equal]
pub struct ParameterAbs {
    /// The parameter's name.
    pub name: Seq<char>,
    /// Where the parameter is read from.
    pub parameter_in: ParameterIn,
    /// A human-readable description.
    pub description: Seq<char>,
    /// Whether a request must supply the parameter.
    pub required: bool,
    /// The declared schema, if any.
    pub schema: Option<Seq<char>>,
}

/// A parameter's identity key within an operation.
pub open spec fn param_identity(p: ParameterAbs) -> (Seq<char>, ParameterIn) {
    (p.name, p.parameter_in)
}

/// A structured descriptor of one request input, contributing to the
/// operation's API documentation.
#[derive(Debug)]
pub struct Parameter {
    /// The parameter's name.
    pub name: String,
    /// Where the parameter is read from.
    pub parameter_in: ParameterIn,
    /// A human-readable description.
    pub description: String,
    /// Whether a request must supply the parameter.
    pub required: bool,
    /// The declared schema, if any.
    pub schema: Option<String>,
}

impl Parameter {
    /// A fresh descriptor named `name`: located in the query by default, not
    /// required, with an empty description and no schema.
    pub fn new(name: &str) -> (r: Parameter)
        ensures
            r@ == (ParameterAbs {
                name: name@,
                parameter_in: ParameterIn::Query,
                description: Seq::<char>::empty(),
                required: false,
                schema: None,
            }),
    {
        Parameter {
            name: name.to_owned(),
            parameter_in: ParameterIn::Query,
            description: String::new(),
            required: false,
            schema: None,
        }
    }

    /// Sets the location. A parameter located in the path is always required,
    /// so moving it there also marks it required; `required` can override
    /// that afterwards.
    pub fn parameter_in(self, parameter_in: ParameterIn) -> (r: Parameter)
        ensures
            r@ == (ParameterAbs {
                parameter_in,
                required: self@.required || parameter_in is Path,
                ..self@
            }),
    {
        let required = self.required || matches!(parameter_in, ParameterIn::Path);
        Parameter { parameter_in, required, ..self }
    }

    /// Replaces the description.
    pub fn description(self, description: &str) -> (r: Parameter)
        ensures
            r@ == (ParameterAbs { description: description@, ..self@ }),
    {
        Parameter { description: description.to_owned(), ..self }
    }

    /// Overrides whether the parameter is required.
    pub fn required(self, required: bool) -> (r: Parameter)
        ensures
            r@ == (ParameterAbs { required, ..self@ }),
    {
        Parameter { required, ..self }
    }

    /// Replaces the declared schema.
    pub fn schema(self, schema: &str) -> (r: Parameter)
        ensures
            r@ == (ParameterAbs { schema: Some(schema@), ..self@ }),
    {
        Parameter { schema: Some(schema.to_owned()), ..self }
    }
}

impl View for Parameter {
    type V = ParameterAbs;

    open spec fn view(&self) -> ParameterAbs {
        ParameterAbs {
            name: self.name@,
            parameter_in: self.parameter_in,
            description: self.description@,
            required: self.required,
            schema: match self.schema {
                Some(ref s) => Some(s@),
                None => None,
            },
        }
    }
}

/// The aggregate description of one route-and-method's API surface: its
/// parameter set, keyed by parameter identity.
pub struct Operation {
    parameters: Vec<Parameter>,
}

impl Operation {
    /// The stored parameters, keyed by their identity.
    pub closed spec fn entry_seq(&self) -> Seq<((Seq<char>, ParameterIn), ParameterAbs)> {
        self.parameters@.map_values(|p: Parameter| (param_identity(p@), p@))
    }

    /// Identity keys are unique: no duplicate ever persists.
    pub open spec fn wf(&self) -> bool {
        table::keys_unique(self.entry_seq())
    }

    /// How many parameters the operation holds.
    pub open spec fn spec_len(&self) -> nat {
        self.entry_seq().len()
    }

    /// An operation with no parameters.
    pub fn new() -> (r: Operation)
        ensures
            r.wf(),
            r@ == Map::<(Seq<char>, ParameterIn), ParameterAbs>::empty(),
            r.spec_len() == 0,
    {
        let r = Operation { parameters: Vec::new() };
        proof {
            assert(r.entry_seq() =~= Seq::<((Seq<char>, ParameterIn), ParameterAbs)>::empty());
        }
        r
    }

    /// Number of parameters.
    pub fn parameters_len(&self) -> (n: usize)
        ensures
            n == self.spec_len(),
    {
        self.parameters.len()
    }

    /// Inserts `p` into the parameter set. An entry sharing `p`'s identity
    /// key is replaced, so registering the same (name, location) twice leaves
    /// exactly one entry, with the most recently inserted content.
    pub fn insert_parameter(&mut self, p: Parameter)
        requires
            old(self).wf(),
        ensures
            final(self).wf(),
            final(self)@ == old(self)@.insert(param_identity(p@), p@),
            final(self).spec_len() == old(self).spec_len() + (if old(self)@.contains_key(
                param_identity(p@),
            ) {
                0int
            } else {
                1int
            }),
    {
        let ghost s0 = self.entry_seq();
        let ghost k = param_identity(p@);
        let n = self.parameters.len();
        let mut i: usize = 0;
        while i < n
            invariant
                n == self.parameters@.len(),
                i <= n,
                forall|t: int| 0 <= t < i ==> self.entry_seq()[t].0 != k,
                self.wf(),
                self.entry_seq() == s0,
                s0 == old(self).entry_seq(),
                k == param_identity(p@),
            decreases n - i,
        {
            let same_name = self.parameters[i].name == p.name;
            let same_loc = self.parameters[i].parameter_in == p.parameter_in;
            if same_name && same_loc {
                assert(self.entry_seq()[i as int].0 == k);
                self.parameters[i] = p;
                proof {
                    assert(self.entry_seq() =~= s0.update(i as int, (k, p@)));
                    table::lemma_keys_unique_update(s0, i as int, p@);
                    table::lemma_as_map_update(s0, i as int, p@);
                    table::lemma_as_map_contains(s0, k);
                }
                return ;
            }
            i += 1;
        }
        self.parameters.push(p);
        proof {
            assert(self.entry_seq() =~= s0.push((k, p@)));
            table::lemma_keys_unique_push(s0, k, p@);
            table::lemma_as_map_push(s0, k, p@);
            table::lemma_as_map_contains(s0, k);
        }
    }

    /// The parameter stored under (`name`, `parameter_in`), if any.
    pub fn get_parameter(&self, name: &str, parameter_in: ParameterIn) -> (r: Option<&Parameter>)
        requires
            self.wf(),
        ensures
            match r {
                Some(p) => self@.contains_key((name@, parameter_in)) && p@ == self@[
                    (name@, parameter_in)
                ],
                None => !self@.contains_key((name@, parameter_in)),
            },
    {
        let owned = name.to_owned();
        let n = self.parameters.len();
        let mut i: usize = 0;
        while i < n
            invariant
                self.wf(),
                n == self.parameters@.len(),
                i <= n,
                owned@ == name@,
                forall|t: int| 0 <= t < i ==> self.entry_seq()[t].0 != (name@, parameter_in),
            decreases n - i,
        {
            let same_name = self.parameters[i].name == owned;
            let same_loc = self.parameters[i].parameter_in == parameter_in;
            if same_name && same_loc {
                proof {
                    table::lemma_as_map_get(self.entry_seq(), i as int);
                }
                return Some(&self.parameters[i]);
            }
            i += 1;
        }
        proof {
            table::lemma_as_map_contains(self.entry_seq(), (name@, parameter_in));
        }
        None
    }
}

impl View for Operation {
    type V = Map<(Seq<char>, ParameterIn), ParameterAbs>;

    closed spec fn view(&self) -> Map<(Seq<char>, ParameterIn), ParameterAbs> {
        table::as_map(self.entry_seq())
    }
}

/// Two registrations under one identity key keep only the most recent
/// content: the parameter set ends exactly as if only the later one had been
/// inserted.
pub proof fn lemma_duplicate_registration_last_wins(
    m: Map<(Seq<char>, ParameterIn), ParameterAbs>,
    a: ParameterAbs,
    b: ParameterAbs,
)
    requires
        param_identity(a) == param_identity(b),
    ensures
        m.insert(param_identity(a), a).insert(param_identity(b), b) == m.insert(
            param_identity(b),
            b,
        ),
{
    assert(m.insert(param_identity(a), a).insert(param_identity(b), b) =~= m.insert(
        param_identity(b),
        b,
    ));
}

/// The description synthesized for path parameter `name`.
pub open spec fn path_description_text(name: Seq<char>) -> Seq<char> {
    "Get parameter `"@ + name + "` from request url path"@
}

/// The descriptor synthesized for path parameter `name`: a pure function of
/// the name, so repeated synthesis yields structurally identical descriptors.
pub open spec fn path_parameter_abs(name: Seq<char>) -> ParameterAbs {
    ParameterAbs {
        name,
        parameter_in: ParameterIn::Path,
        description: path_description_text(name),
        required: true,
        schema: None,
    }
}

/// Builds the synthesized description for path parameter `arg`.
fn path_description(arg: &str) -> (d: String)
    ensures
        d@ == path_description_text(arg@),
{
    let mut d = "Get parameter `".to_owned();
    d.append(arg);
    d.append("` from request url path");
    d
}

impl<T> PathParam<T> {
    /// Unqualified synthesis is a contract violation for a path parameter:
    /// its descriptor needs the argument name, which the type alone cannot
    /// supply.
    pub fn parameter() -> (r: Result<Parameter, ContractViolation>)
        ensures
            match r {
                Ok(_) => false,
                Err(e) => e@ == "path parameter must have a argument"@,
            },
    {
        Err(ContractViolation::new("path parameter must have a argument"))
    }

    /// Synthesizes the descriptor for the path parameter named `arg`:
    /// located in the path, required, described as read from the request url
    /// path. A pure function of `arg`.
    pub fn parameter_with_arg(arg: &str) -> (p: Parameter)
        ensures
            p@ == path_parameter_abs(arg@),
    {
        let d = path_description(arg);
        Parameter::new(arg).parameter_in(ParameterIn::Path).description(d.as_str())
    }

    /// Unqualified operation modification is the same contract violation as
    /// unqualified synthesis; the operation stays untouched.
    pub fn modify(operation: &mut Operation) -> (r: Result<(), ContractViolation>)
        ensures
            *final(operation) == *old(operation),
            match r {
                Ok(_) => false,
                Err(e) => e@ == "path parameter can not modify operation without argument"@,
            },
    {
        Err(ContractViolation::new("path parameter can not modify operation without argument"))
    }

    /// Merges the descriptor synthesized for `arg` into the operation's
    /// parameter set, replacing an earlier registration of the same identity.
    pub fn modify_with_arg(operation: &mut Operation, arg: &str)
        requires
            old(operation).wf(),
        ensures
            final(operation).wf(),
            final(operation)@ == old(operation)@.insert(
                (arg@, ParameterIn::Path),
                path_parameter_abs(arg@),
            ),
    {
        operation.insert_parameter(Self::parameter_with_arg(arg));
    }
}

} // verus!

//! The variables and functions that the user has defined.

use vstd::prelude::*;
use vstd::hash_map::StringHashMap;
use crate::function::Function;
use crate::number::Number;

verus! {

/// What lines leave behind for the lines that follow: the variables that were set,
/// and the functions that were defined, each under its name.
pub struct Environment {
    functions: StringHashMap<Function>,
    variables: StringHashMap<Number>,
}

/// An environment as a value of specifications: two maps from names to what they
/// stand for.
pub struct EnvironmentView {
    pub functions: Map<Seq<char>, Function>,
    pub variables: Map<Seq<char>, Number>,
}

impl EnvironmentView {
    /// The environment in which no name is defined.
    pub open spec fn empty() -> EnvironmentView {
        EnvironmentView { functions: Map::empty(), variables: Map::empty() }
    }

    /// The value of the variable `name`, if it has been set.
    pub open spec fn variable(self, name: Seq<char>) -> Option<Number> {
        if self.variables.contains_key(name) {
            Some(self.variables[name])
        } else {
            None
        }
    }

    /// The function defined under `name`, if there is one.
    pub open spec fn function(self, name: Seq<char>) -> Option<Function> {
        if self.functions.contains_key(name) {
            Some(self.functions[name])
        } else {
            None
        }
    }

    /// The environment in which `name` stands for `value` and every other name
    /// for what it stood for before.
    pub open spec fn with_variable(self, name: Seq<char>, value: Number) -> EnvironmentView {
        EnvironmentView { functions: self.functions, variables: self.variables.insert(name, value) }
    }
}

impl View for Environment {
    type V = EnvironmentView;

    closed spec fn view(&self) -> EnvironmentView {
        EnvironmentView { functions: self.functions@, variables: self.variables@ }
    }
}

impl Environment {
    /// An environment in which no name is defined.
    pub fn new() -> (env: Environment)
        ensures
            env@ == EnvironmentView::empty(),
    {
        Environment { functions: StringHashMap::new(), variables: StringHashMap::new() }
    }

    /// Sets the variable `name` to `value`, whether or not it was set before.
    pub fn set_var(&mut self, name: &str, value: Number)
        ensures
            final(self)@ == old(self)@.with_variable(name@, value),
    {
        self.variables.insert(name.to_owned(), value);
    }

    /// The function defined under `name`, if there is one.
    pub fn get_fn(&self, name: &str) -> (r: Option<Function>)
        ensures
            r == self@.function(name@),
    {
        match self.functions.get(name) {
            Some(f) => Some(*f),
            None => None,
        }
    }

    /// The value of the variable `name`, if it has been set.
    pub fn get_var(&self, name: &str) -> (r: Option<Number>)
        ensures
            r == self@.variable(name@),
    {
        match self.variables.get(name) {
            Some(x) => Some(*x),
            None => None,
        }
    }
}

} // verus!

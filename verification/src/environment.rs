//! Environment variables for containers

use vstd::prelude::*;

verus! {

/// The views of a sequence of environment variables: their names and values, in order
pub open spec fn variables_view(s: Seq<Variable>) -> Seq<(Seq<char>, Seq<char>)> {
    s.map_values(|v: Variable| v@)
}

/// An environment variable that is set in a container
#[derive(Clone, Debug)]
pub struct Variable {
    /// The name of the variable, e.g. `LOG_LEVEL`
    name: String,
    /// The value of the variable, e.g. `debug`
    value: String,
}

impl View for Variable {
    type V = (Seq<char>, Seq<char>);

    /// A variable is the pair of its name and its value
    closed spec fn view(&self) -> (Seq<char>, Seq<char>) {
        (self.name@, self.value@)
    }
}

impl Variable {
    /// Creates a new environment variable with the given name and value
    pub fn new(name: &str, value: &str) -> (var: Self)
        ensures
            var@ == (name@, value@),
    {
        Variable { name: name.to_owned(), value: value.to_owned() }
    }

    /// The name of the variable
    pub fn name(&self) -> (name: &String)
        ensures
            name@ == self@.0,
    {
        &self.name
    }

    /// The value of the variable
    pub fn value(&self) -> (value: &String)
        ensures
            value@ == self@.1,
    {
        &self.value
    }

    /// A copy of this variable that stands for the same name and value
    pub fn duplicate(&self) -> (copy: Self)
        ensures
            copy@ == self@,
    {
        Variable { name: self.name.clone(), value: self.value.clone() }
    }
}

/// Copies a list of variables, keeping their order
pub fn copy_variables(vars: &Vec<Variable>) -> (copy: Vec<Variable>)
    ensures
        copy@.len() == vars@.len(),
        forall|i: int| 0 <= i < vars@.len() ==> (#[trigger] copy@[i])@ == vars@[i]@,
{
    let mut copy: Vec<Variable> = Vec::new();
    let mut i: usize = 0;
    while i < vars.len()
        invariant
            i <= vars@.len(),
            copy@.len() == i,
            forall|j: int| 0 <= j < i ==> (#[trigger] copy@[j])@ == vars@[j]@,
        decreases vars@.len() - i,
    {
        copy.push(vars[i].duplicate());
        i = i + 1;
    }
    copy
}

} // verus!

//! The variable store of a shell session.

use crate::ast::Node;
use vstd::hash_map::StringHashMap;
use vstd::prelude::*;

verus! {

/// What a store holds: the value of each variable that is defined, by name.
pub type Store = Map<Seq<char>, Seq<char>>;

/// A shell variable: a name and the value it stands for.
#[derive(Debug, PartialEq)]
pub struct Variable {
    name: String,
    value: String,
}

impl Variable {
    pub closed spec fn name(&self) -> Seq<char> {
        self.name@
    }

    pub closed spec fn value(&self) -> Seq<char> {
        self.value@
    }

    pub fn new(name: String, value: String) -> (v: Variable)
        ensures
            v.name() == name@,
            v.value() == value@,
    {
        Variable { name, value }
    }
}

/// A named piece of program. The language has no syntax that defines one;
/// a session's store of functions is always empty.
#[derive(Debug, PartialEq)]
pub struct Function {
    name: String,
    body: Node,
}

/// The variables of a session. Names are case-sensitive; a name has at most
/// one value.
pub struct Memory {
    variables: StringHashMap<Variable>,
    /// The functions of the session: none, as long as none can be defined.
    functions: StringHashMap<Function>,
    /// The exit code of the session, 0 from its start.
    exit_code: i32,
}

impl Memory {
    /// The value of each defined variable, by name.
    pub closed spec fn view(&self) -> Store {
        self.variables@.map_values(|v: Variable| v.value())
    }

    /// The store of a session that has just begun: nothing is defined.
    pub fn new() -> (m: Memory)
        ensures
            m@ == Store::empty(),
    {
        let m = Memory {
            variables: StringHashMap::new(),
            functions: StringHashMap::new(),
            exit_code: 0,
        };
        assert(m@ =~= Store::empty());
        m
    }

    /// Defines `variable`, in place of any variable of the same name.
    pub fn push(&mut self, variable: Variable)
        ensures
            final(self)@ == old(self)@.insert(variable.name(), variable.value()),
    {
        let name = variable.name.clone();
        self.variables.insert(name, variable);
        assert(self@ =~= old(self)@.insert(variable.name(), variable.value()));
    }

    /// Gives `name` the value `value`, whether or not it had one.
    pub fn define(&mut self, name: String, value: String)
        ensures
            final(self)@ == old(self)@.insert(name@, value@),
    {
        self.push(Variable::new(name, value));
    }

    /// The value of `name`, if it is defined. The store is left as it is.
    pub fn lookup(&self, name: &str) -> (value: Option<String>)
        ensures
            match value {
                Some(v) => self@.contains_key(name@) && v@ == self@[name@],
                None => !self@.contains_key(name@),
            },
    {
        match self.variables.get(name) {
            Some(variable) => Some(variable.value.clone()),
            None => None,
        }
    }
}

} // verus!

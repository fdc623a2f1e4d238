//! The variables that are in scope while an expression is built.

use vstd::prelude::*;

use crate::templater::{Level, PropertyPlaceholder};

verus! {

/// The type of the items that a variable goes through.
#[derive(Clone, Copy, Debug, PartialEq, Eq)]
pub enum ItemKind<T> {
    /// A string.
    String,
    /// A type of the language.
    Language(T),
}

/// Model of [`BuildContext`]: the name of each variable, with the type of its items.
pub type Variables<T> = Seq<(Seq<char>, ItemKind<T>)>;

/// The variables that enclosing lambdas bind, from the outside in.
///
/// The variable at index `n` goes through the items of list operation `n`.
pub struct BuildContext<'i, T> {
    local_variables: Vec<(&'i str, ItemKind<T>)>,
}

impl<'i, T> View for BuildContext<'i, T> {
    type V = Variables<T>;

    closed spec fn view(&self) -> Variables<T> {
        self.local_variables@.map_values(|v: (&'i str, ItemKind<T>)| (v.0@, v.1))
    }
}

/// The innermost variable of the name: its index and the type of its items.
pub open spec fn lookup<T>(variables: Variables<T>, name: Seq<char>) -> Option<(Level, ItemKind<T>)>
    decreases variables.len(),
{
    if variables.len() == 0 {
        None
    } else if variables.last().0 == name {
        Some(((variables.len() - 1) as Level, variables.last().1))
    } else {
        lookup(variables.drop_last(), name)
    }
}

impl<'i, T: Copy> BuildContext<'i, T> {
    /// No variables.
    pub fn new() -> (build_ctx: Self)
        ensures
            build_ctx@ == Variables::<T>::empty(),
    {
        let build_ctx = BuildContext { local_variables: Vec::new() };
        assert(build_ctx@ =~= Seq::empty());
        build_ctx
    }

    /// The innermost variable of the name.
    pub(crate) fn get(&self, name: &str) -> (variable: Option<(PropertyPlaceholder, ItemKind<T>)>)
        ensures
            match lookup(self@, name@) {
                Some((level, kind)) => variable matches Some((p, k)) && p.model() == level && k
                    == kind,
                None => variable is None,
            },
    {
        let mut n: usize = self.local_variables.len();
        assert(self@.take(n as int) =~= self@);
        while n > 0
            invariant
                n <= self.local_variables@.len(),
                lookup(self@, name@) == lookup(self@.take(n as int), name@),
            decreases n,
        {
            n = n - 1;
            let (variable, kind) = self.local_variables[n];
            assert(self@.take(n + 1).drop_last() =~= self@.take(n as int));
            if *variable == *name {
                return Some((PropertyPlaceholder { level: n }, kind));
            }
        }
        None
    }

    /// The placeholder that no variable in scope stands for yet.
    pub(crate) fn next_placeholder(&self) -> (placeholder: PropertyPlaceholder)
        ensures
            placeholder.model() == self@.len(),
    {
        PropertyPlaceholder { level: self.local_variables.len() }
    }

    /// The variables in scope and one more, inside of them.
    pub(crate) fn with_variable(&self, name: &'i str, kind: ItemKind<T>) -> (build_ctx: Self)
        ensures
            build_ctx@ == self@.push((name@, kind)),
    {
        let mut local_variables: Vec<(&'i str, ItemKind<T>)> = Vec::new();
        for n in 0..self.local_variables.len()
            invariant
                local_variables@ == self.local_variables@.take(n as int),
        {
            local_variables.push(self.local_variables[n]);
        }
        assert(local_variables@ =~= self.local_variables@);
        local_variables.push((name, kind));
        let build_ctx = BuildContext { local_variables };
        assert(build_ctx@ =~= self@.push((name@, kind)));
        build_ctx
    }
}

} // verus!

use vstd::prelude::*;

verus! {

/// Task executor, known by its name. Spawning tasks on it is done by the
/// async runtime that hosts it.
pub struct Executor {
    name: String,
}

impl View for Executor {
    type V = Seq<char>;

    /// The executor's name.
    closed spec fn view(&self) -> Seq<char> {
        self.name@
    }
}

impl Executor {
    /// An executor called `name`.
    pub fn new(name: &str) -> (e: Self)
        ensures
            e@ == name@,
    {
        Executor { name: name.to_owned() }
    }

    /// The executor's name.
    pub fn name(&self) -> (n: &str)
        ensures
            n@ == self@,
    {
        self.name.as_str()
    }
}

impl Default for Executor {
    /// An executor called "default".
    fn default() -> (e: Self)
        ensures
            e@ == "default"@,
    {
        Executor::new("default")
    }
}

} // verus!

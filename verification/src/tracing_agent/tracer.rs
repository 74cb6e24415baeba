use vstd::prelude::*;

use crate::clock::{nanos_since, now};

verus! {

/// A named span of time, started when it was created.
#[derive(Debug)]
pub struct Span {
    name: String,
    start: std::time::Instant,
}

impl View for Span {
    type V = Seq<char>;

    /// The span's name.
    closed spec fn view(&self) -> Seq<char> {
        self.name@
    }
}

impl Span {
    /// A span called `name`, starting now.
    pub fn new(name: &str) -> (s: Self)
        ensures
            s@ == name@,
    {
        Span { name: name.to_owned(), start: now() }
    }

    /// The span's name.
    pub fn name(&self) -> (n: &str)
        ensures
            n@ == self@,
    {
        self.name.as_str()
    }

    /// The time since the span started, in nanoseconds.
    pub fn elapsed(&self) -> (n: u128) {
        nanos_since(&self.start)
    }
}

/// Tracer: hands out spans while it is enabled.
pub struct Tracer {
    enabled: bool,
}

impl Tracer {
    /// Whether the tracer is enabled.
    pub closed spec fn spec_enabled(&self) -> bool {
        self.enabled
    }

    /// A tracer, enabled or not.
    pub fn new(enabled: bool) -> (t: Self)
        ensures
            t.spec_enabled() == enabled,
    {
        Tracer { enabled }
    }

    /// A span called `name` when the tracer is enabled, nothing otherwise.
    pub fn span(&self, name: &str) -> (s: Option<Span>)
        ensures
            s is Some <==> self.spec_enabled(),
            s matches Some(sp) ==> sp@ == name@,
    {
        if self.enabled {
            Some(Span::new(name))
        } else {
            None
        }
    }

    /// Whether the tracer is enabled.
    pub fn is_enabled(&self) -> (b: bool)
        ensures
            b == self.spec_enabled(),
    {
        self.enabled
    }
}

impl Default for Tracer {
    /// An enabled tracer.
    fn default() -> (t: Self)
        ensures
            t.spec_enabled(),
    {
        Tracer::new(true)
    }
}

} // verus!

use vstd::prelude::*;

verus! {

/// The sample packages that exercise an installation.
#[derive(Clone, Copy, Debug, PartialEq, Eq, Structural)]
pub enum Fixture {
    ExampleDot,
    ExampleDotWithLinkAdded,
    ExampleDotWithDirectory,
    ConflictingDot,
}

pub open spec fn fixture_name(f: Fixture) -> Seq<char> {
    match f {
        Fixture::ExampleDotWithDirectory => "example_dot_with_directory"@,
        Fixture::ExampleDotWithLinkAdded => "example_dot"@,
        Fixture::ExampleDot => "example_dot"@,
        Fixture::ConflictingDot => "conflicting_dot"@,
    }
}

impl Fixture {
    /// The name of the sample's package and of the folder that holds it.
    /// The sample with a link added is a later state of the example
    /// package and has its name.
    pub fn name(&self) -> (r: &'static str)
        ensures
            r@ == fixture_name(*self),
    {
        match self {
            Fixture::ExampleDotWithDirectory => "example_dot_with_directory",
            Fixture::ExampleDotWithLinkAdded => "example_dot",
            Fixture::ExampleDot => "example_dot",
            Fixture::ConflictingDot => "conflicting_dot",
        }
    }
}

} // verus!

//! Builder for the workspace's architectural configuration.
use vstd::prelude::*;

verus! {

/// Builder for workspace architectural configuration: carries the project
/// name read from `[project].name`.
#[derive(Debug)]
pub struct ArchitectureConfigBuilder {
    name: String,
}

impl ArchitectureConfigBuilder {
    /// The project name held by this builder.
    pub closed spec fn name_spec(&self) -> Seq<char> {
        self.name@
    }

    /// Constructs a builder for the given project name.
    pub fn new(name: &str) -> (b: Self)
        ensures
            b.name_spec() == name@,
    {
        ArchitectureConfigBuilder { name: String::from_str(name) }
    }

    /// Returns the project name.
    pub fn project_name(&self) -> (name: &str)
        ensures
            name@ == self.name_spec(),
    {
        self.name.as_str()
    }
}

impl Default for ArchitectureConfigBuilder {
    /// A builder with an empty project name.
    fn default() -> (b: Self)
        ensures
            b.name_spec() == Seq::<char>::empty(),
    {
        ArchitectureConfigBuilder { name: String::new() }
    }
}

} // verus!

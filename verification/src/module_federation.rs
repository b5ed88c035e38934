//! The module-federation plugin: so far its name, and nothing that it does.

use vstd::prelude::*;

verus! {

/// A plugin without state.
pub struct MyFarmPlugin {}

impl MyFarmPlugin {
    /// Makes the plugin. It reads none of its options yet.
    pub fn new(_options: String) -> Self {
        Self {  }
    }

    /// The name under which the bundler knows the plugin.
    pub fn name(&self) -> (name: &str)
        ensures
            name@ == "MyFarmPlugin"@,
    {
        "MyFarmPlugin"
    }
}

} // verus!

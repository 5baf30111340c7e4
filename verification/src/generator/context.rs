//! What generation knows beside the declaration at hand.

use vstd::prelude::*;
use vstd::string::*;
use crate::config::{Naming, NamingConfig};
use crate::names::NameSet;

verus! {

/// The context of code generation.
#[derive(Debug)]
pub struct GeneratorContext {
    /// How generated names are decorated.
    pub naming: NamingConfig,
    /// The names of the declared types that are generated.
    pub custom_types: NameSet,
}

/// The model of a generation context.
pub struct GeneratorModel {
    pub naming: Naming,
    pub custom_types: Set<Seq<char>>,
}

impl View for GeneratorContext {
    type V = GeneratorModel;

    open spec fn view(&self) -> GeneratorModel {
        GeneratorModel { naming: self.naming@, custom_types: self.custom_types@ }
    }
}

/// A type name with the configured prefix and suffix.
pub open spec fn decorated_type_name(naming: Naming, name: Seq<char>) -> Seq<char> {
    naming.type_prefix + name + naming.type_suffix
}

/// A function name with the configured prefix and suffix.
pub open spec fn decorated_function_name(naming: Naming, name: Seq<char>) -> Seq<char> {
    naming.function_prefix + name + naming.function_suffix
}

impl GeneratorContext {
    /// A context with the given naming and no registered type.
    pub fn new(naming: NamingConfig) -> (r: Self)
        ensures
            r@ == (GeneratorModel { naming: naming@, custom_types: Set::empty() }),
    {
        GeneratorContext { naming, custom_types: NameSet::new() }
    }

    /// Registers the name of a declared type.
    pub fn register_type(&mut self, name: &str)
        ensures
            final(self)@ == (GeneratorModel {
                naming: old(self)@.naming,
                custom_types: old(self)@.custom_types.insert(name@),
            }),
    {
        self.custom_types.insert(String::from_str(name));
    }

    /// Whether the name is registered as a declared type.
    pub fn is_custom_type(&self, name: &str) -> (r: bool)
        ensures
            r == self@.custom_types.contains(name@),
    {
        self.custom_types.contains(name)
    }

    /// The type name with the configured prefix and suffix.
    pub fn format_type_name(&self, name: &str) -> (r: String)
        ensures
            r@ == decorated_type_name(self@.naming, name@),
    {
        let mut r = String::from_str(self.naming.type_prefix.as_str());
        r.append(name);
        r.append(self.naming.type_suffix.as_str());
        r
    }

    /// The function name with the configured prefix and suffix.
    pub fn format_function_name(&self, name: &str) -> (r: String)
        ensures
            r@ == decorated_function_name(self@.naming, name@),
    {
        let mut r = String::from_str(self.naming.function_prefix.as_str());
        r.append(name);
        r.append(self.naming.function_suffix.as_str());
        r
    }
}

} // verus!

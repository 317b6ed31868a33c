use vstd::prelude::*;

verus! {

/// The mathematical view of a backend's static metadata.
#[verifier::ext_equal]
pub struct DescriptorModel {
    pub name: Seq<char>,
    pub host_key: Seq<char>,
    pub rev_key: Seq<char>,
    pub hash_key: Seq<char>,
    pub keys: Seq<Seq<char>>,
    pub submodules_key: Option<Seq<char>>,
    pub submodules_default: bool,
    pub host: Option<Seq<char>>,
    pub group: Option<Seq<char>>,
}

/// A backend's static metadata: its declarative name, the field names it
/// emits, the identifier key names (whose count is the backend's arity),
/// its submodules quirk, and optional fixed host and group values.
pub struct BackendDescriptor {
    pub name: String,
    pub host_key: String,
    pub rev_key: String,
    pub hash_key: String,
    pub keys: Vec<String>,
    pub submodules_key: Option<String>,
    pub submodules_default: bool,
    pub host: Option<String>,
    pub group: Option<String>,
}

impl View for BackendDescriptor {
    type V = DescriptorModel;

    open spec fn view(&self) -> DescriptorModel {
        DescriptorModel {
            name: self.name@,
            host_key: self.host_key@,
            rev_key: self.rev_key@,
            hash_key: self.hash_key@,
            keys: self.keys.deep_view(),
            submodules_key: self.submodules_key.deep_view(),
            submodules_default: self.submodules_default,
            host: self.host.deep_view(),
            group: self.group.deep_view(),
        }
    }
}

impl BackendDescriptor {
    /// The backend's arity: how many identifiers it extracts from a URL.
    pub fn arity(&self) -> (n: usize)
        ensures
            n == self@.keys.len(),
    {
        self.keys.len()
    }
}

} // verus!

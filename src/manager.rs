//! The state of one container class: its image prefix, its target replica count and the
//! count last observed.
use vstd::prelude::*;

verus! {

/// One tracked class of containers.
pub struct ContainerManager {
    target_count: u16,
    current_count: u16,
    image_hash: String,
}

impl ContainerManager {
    /// The configured image-digest prefix that recognises containers of this class.
    pub closed spec fn hash_prefix(&self) -> Seq<char> {
        self.image_hash@
    }

    /// The desired number of running containers.
    pub closed spec fn target(&self) -> nat {
        self.target_count as nat
    }

    /// The number of running containers seen at the last successful reconciliation.
    pub closed spec fn current(&self) -> nat {
        self.current_count as nat
    }

    /// A class with the given prefix and target, with nothing observed yet.
    pub fn new(image_hash: String, target: u16) -> (r: Self)
        ensures
            r.hash_prefix() == image_hash@,
            r.target() == target as nat,
            r.current() == 0,
    {
        Self { image_hash, target_count: target, current_count: 0 }
    }

    pub fn get_image_hash(&self) -> (r: &str)
        ensures
            r@ == self.hash_prefix(),
    {
        self.image_hash.as_str()
    }

    pub fn get_target(&self) -> (r: u16)
        ensures
            r as nat == self.target(),
    {
        self.target_count
    }

    pub fn get_current(&self) -> (r: u16)
        ensures
            r as nat == self.current(),
    {
        self.current_count
    }

    /// Replaces the observed count and returns the new value; prefix and target stay.
    pub fn set_current(&mut self, curr: u16) -> (r: u16)
        ensures
            r == curr,
            final(self).current() == curr as nat,
            final(self).target() == old(self).target(),
            final(self).hash_prefix() == old(self).hash_prefix(),
    {
        self.current_count = curr;
        self.current_count
    }
}

} // verus!

//! Checking the configured class prefixes against the runtime's image catalog before
//! the controller starts.
use vstd::prelude::*;
use crate::classifier::{classify, digest_has_prefix, image_matches};

verus! {

/// Why the controller refuses to start.
#[derive(Debug)]
pub enum StartupError {
    /// One configured prefix is a prefix of the other, so a digest could fall in both
    /// classes.
    AmbiguousPrefixes,
    /// No image of the catalog belongs to the class of this prefix.
    ImageMissing(String),
}

/// Two prefixes are ambiguous when either is a prefix of the other.
pub open spec fn ambiguous(a: Seq<char>, b: Seq<char>) -> bool {
    a.is_prefix_of(b) || b.is_prefix_of(a)
}

/// Some image identifier of the catalog belongs to the class of `prefix`.
pub open spec fn catalog_has(prefix: Seq<char>, images: Seq<String>) -> bool {
    exists|i: int| 0 <= i < images.len() && image_matches(prefix, #[trigger] images[i]@)
}

/// Whether some image identifier in `images` belongs to the class of `prefix`.
pub fn any_image_matches(prefix: &str, images: &Vec<String>) -> (r: bool)
    ensures
        r == catalog_has(prefix@, images@),
{
    let mut i: usize = 0;
    while i < images.len()
        invariant
            i <= images@.len(),
            forall|j: int| 0 <= j < i ==> !image_matches(prefix@, #[trigger] images@[j]@),
        decreases images.len() - i,
    {
        if classify(prefix, images[i].as_str()) {
            return true;
        }
        i = i + 1;
    }
    false
}

/// Validates the two configured prefixes against the image identifiers of the catalog:
/// they must not be ambiguous, and each must match at least one image, the worker's
/// being checked first.
pub fn validate_config(worker_prefix: &str, coordinator_prefix: &str, images: &Vec<String>) -> (r:
    Result<(), StartupError>)
    ensures
        ambiguous(worker_prefix@, coordinator_prefix@) ==> r matches Err(
            StartupError::AmbiguousPrefixes,
        ),
        !ambiguous(worker_prefix@, coordinator_prefix@) && !catalog_has(worker_prefix@, images@)
            ==> (r matches Err(StartupError::ImageMissing(p)) && p@ == worker_prefix@),
        !ambiguous(worker_prefix@, coordinator_prefix@) && catalog_has(worker_prefix@, images@)
            && !catalog_has(coordinator_prefix@, images@) ==> (r matches Err(
            StartupError::ImageMissing(p),
        ) && p@ == coordinator_prefix@),
        !ambiguous(worker_prefix@, coordinator_prefix@) && catalog_has(worker_prefix@, images@)
            && catalog_has(coordinator_prefix@, images@) ==> r is Ok,
{
    if digest_has_prefix(worker_prefix, coordinator_prefix) || digest_has_prefix(
        coordinator_prefix,
        worker_prefix,
    ) {
        return Err(StartupError::AmbiguousPrefixes);
    }
    if !any_image_matches(worker_prefix, images) {
        return Err(StartupError::ImageMissing(worker_prefix.to_owned()));
    }
    if !any_image_matches(coordinator_prefix, images) {
        return Err(StartupError::ImageMissing(coordinator_prefix.to_owned()));
    }
    Ok(())
}

} // verus!

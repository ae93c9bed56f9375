use vstd::prelude::*;

verus! {

/// The size above which the default policy compresses a request body.
pub const DEFAULT_GZIP_THRESHOLD: usize = 1024;

/// The policy under which the body of a request is compressed with gzip.
#[derive(Debug, Clone, Copy, PartialEq, Eq, Structural)]
pub enum GzipPolicy {
    /// Compress only a body that is larger than the given number of bytes.
    /// The default is 1024 bytes.
    ZipGreaterThanTreshold(usize),
    /// Never compress the body.
    Never,
    /// Always compress the body.
    Always,
}

impl GzipPolicy {
    /// Whether a serialized body of `len` bytes is compressed under this policy.
    pub open spec fn compresses(self, len: nat) -> bool {
        match self {
            GzipPolicy::ZipGreaterThanTreshold(threshold) => len > threshold,
            GzipPolicy::Never => false,
            GzipPolicy::Always => true,
        }
    }

    /// Decides, from the size of the serialized body alone, whether to compress it.
    pub fn should_compress(&self, len: usize) -> (compress: bool)
        ensures
            compress == self.compresses(len as nat),
    {
        match self {
            GzipPolicy::ZipGreaterThanTreshold(threshold) => len > *threshold,
            GzipPolicy::Never => false,
            GzipPolicy::Always => true,
        }
    }

    /// Under the default policy a body is compressed exactly when it is longer
    /// than 1024 bytes; `Always` and `Never` decide without looking at the size.
    pub proof fn lemma_policy_effects(len: nat)
        ensures
            GzipPolicy::ZipGreaterThanTreshold(DEFAULT_GZIP_THRESHOLD).compresses(len) <==> len
                > 1024,
            GzipPolicy::Always.compresses(len),
            !GzipPolicy::Never.compresses(len),
    {
    }
}

impl Default for GzipPolicy {
    fn default() -> (policy: Self)
        ensures
            policy == GzipPolicy::ZipGreaterThanTreshold(DEFAULT_GZIP_THRESHOLD),
    {
        GzipPolicy::ZipGreaterThanTreshold(DEFAULT_GZIP_THRESHOLD)
    }
}

} // verus!

use vstd::prelude::*;

verus! {

/// The Parquet format version that the writer stamps on the output file.
#[derive(Clone, Copy, Debug, PartialEq, Eq, Structural)]
pub enum FormatVersion {
    /// The baseline format, version 1.0.
    V1_0,
    /// Format version 2.0.
    V2_0,
}

/// The output-side encoding policy: a format version and a flag enabling
/// dictionary encoding for eligible columns. Immutable once built.
#[derive(Clone, Copy, Debug, PartialEq, Eq, Structural)]
pub struct WriterConfiguration {
    /// The format version written to the output file.
    pub version: FormatVersion,
    /// Whether dictionary encoding is enabled for eligible columns.
    pub dictionary_enabled: bool,
}

impl WriterConfiguration {
    /// Builds a configuration from its two parts.
    pub fn new(version: FormatVersion, dictionary_enabled: bool) -> (c: WriterConfiguration)
        ensures
            c.version == version,
            c.dictionary_enabled == dictionary_enabled,
    {
        WriterConfiguration { version, dictionary_enabled }
    }

    /// The configuration the rewriter always uses: the baseline format
    /// version, with dictionary encoding enabled.
    pub fn dictionary_rewrite() -> (c: WriterConfiguration)
        ensures
            c.version == FormatVersion::V1_0,
            c.dictionary_enabled,
    {
        WriterConfiguration { version: FormatVersion::V1_0, dictionary_enabled: true }
    }
}

} // verus!

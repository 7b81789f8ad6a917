use vstd::prelude::*;

verus! {

/// The settings that every search shares: where to look and how.
#[derive(Debug)]
pub struct CommonParams {
    /// Worker threads for the search; 0 lets the search choose.
    pub thread_number: u32,
    pub directories: Vec<String>,
    pub excluded_directories: Option<Vec<String>>,
    pub excluded_items: Option<Vec<String>>,
    pub allowed_extensions: Option<Vec<String>>,
    pub is_recursive: bool,
    pub use_cache: bool,
}

/// How alike two images must be to count as similar.
#[derive(Debug, Clone, Copy, PartialEq, Eq, Structural)]
pub enum SimilarityPresetDef {
    Original,
    VeryHigh,
    High,
    Medium,
    Small,
    VerySmall,
    Minimal,
    /// No preset chosen (`None` in requests).
    NoPreset,
}

/// What to do with the duplicates found.
#[derive(Debug, Clone, Copy, PartialEq, Eq, Structural)]
pub enum DeleteMethodRef {
    /// Delete nothing (`None` in requests).
    NoDeletion,
    /// Just delete items.
    Delete,
    AllExceptNewest,
    AllExceptOldest,
    OneOldest,
    OneNewest,
    HardLink,
    AllExceptBiggest,
    AllExceptSmallest,
    OneBiggest,
    OneSmallest,
}

} // verus!

//! The records that plugins hand to the host.
use vstd::prelude::*;

verus! {

/// Where the pictures of a catalog entry are found; each may be absent.
#[derive(Debug, Clone, PartialEq, Eq)]
pub struct TitleImage {
    pub original: Option<String>,
    pub preview: Option<String>,
    pub x96: Option<String>,
    pub x48: Option<String>,
}

/// One catalog entry, as a plugin reports it. A value made fresh for each query.
#[derive(Debug, Clone, PartialEq, Eq)]
pub struct Title {
    pub id: usize,
    pub eng_name: String,
    pub russian_name: String,
    pub score: String,
    pub description: Option<String>,
    pub image: TitleImage,
    pub url: String,
}

/// What a plugin reports about itself.
#[derive(Debug, Clone, PartialEq, Eq)]
pub struct PluginInfo {
    pub name: String,
    pub version: String,
    pub description: String,
    pub icon_data: &'static [u8],
}

} // verus!

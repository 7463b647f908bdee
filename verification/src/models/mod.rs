//! Model entries, fit scoring, quantization advice, the curated registry,
//! HuggingFace helpers and download decisions.

pub mod download;
pub mod fit;
pub mod huggingface;
pub mod quant;
pub mod registry;

use vstd::prelude::*;

verus! {

/// A model entry in the curated registry or from HuggingFace search.
#[derive(Debug, Clone)]
pub struct ModelEntry {
    pub name: String,
    pub repo: String,
    pub params: String,
    pub quantization: String,
    pub size_label: String,
    pub context_length: String,
    pub min_vram_mb: u64,
    pub min_ram_mb: u64,
    pub description: String,
    pub estimated_toks: String,
}

/// The abstract content of a `ModelEntry`: every text field as characters.
pub struct ModelSpec {
    pub name: Seq<char>,
    pub repo: Seq<char>,
    pub params: Seq<char>,
    pub quantization: Seq<char>,
    pub size_label: Seq<char>,
    pub context_length: Seq<char>,
    pub min_vram_mb: u64,
    pub min_ram_mb: u64,
    pub description: Seq<char>,
    pub estimated_toks: Seq<char>,
}

impl View for ModelEntry {
    type V = ModelSpec;

    open spec fn view(&self) -> ModelSpec {
        ModelSpec {
            name: self.name@,
            repo: self.repo@,
            params: self.params@,
            quantization: self.quantization@,
            size_label: self.size_label@,
            context_length: self.context_length@,
            min_vram_mb: self.min_vram_mb,
            min_ram_mb: self.min_ram_mb,
            description: self.description@,
            estimated_toks: self.estimated_toks@,
        }
    }
}

impl ModelEntry {
    /// A field-by-field copy of this entry.
    pub fn duplicate(&self) -> (r: ModelEntry)
        ensures
            r@ == self@,
    {
        ModelEntry {
            name: self.name.clone(),
            repo: self.repo.clone(),
            params: self.params.clone(),
            quantization: self.quantization.clone(),
            size_label: self.size_label.clone(),
            context_length: self.context_length.clone(),
            min_vram_mb: self.min_vram_mb,
            min_ram_mb: self.min_ram_mb,
            description: self.description.clone(),
            estimated_toks: self.estimated_toks.clone(),
        }
    }

    /// The entry as shown in lists: `name [quantization] (size)`.
    pub fn display_string(&self) -> (r: String)
        ensures
            r@ == self.name@ + " ["@ + self.quantization@ + "] ("@ + self.size_label@ + ")"@,
    {
        let mut s = self.name.clone();
        s.append(" [");
        s.append(self.quantization.as_str());
        s.append("] (");
        s.append(self.size_label.as_str());
        s.append(")");
        s
    }
}

/// Result from a HuggingFace search.
#[derive(Debug, Clone)]
pub struct SearchResult {
    pub id: String,
    pub downloads: u64,
}

} // verus!

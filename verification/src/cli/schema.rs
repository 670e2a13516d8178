//! The command line and the configuration file.

use crate::text::{chars_of, equals};
use vstd::prelude::*;

verus! {

/// The arguments of the command line.
#[derive(Debug, Clone, PartialEq, Eq)]
pub struct Cli {
    /// The configuration file to use.
    pub config: String,
    /// The log level: `info`, `debug` or `trace`.
    pub loglevel: String,
}

/// The configuration of the application.
#[derive(Debug, Clone, PartialEq, Eq)]
pub struct ApplicationConfig {
    pub kind: String,
    pub api_version: String,
    pub spec: Spec,
}

/// The model to load and how to run it.
#[derive(Debug, Clone, PartialEq, Eq)]
pub struct Spec {
    /// The name of the model.
    pub model: String,
    /// The block size of the attention cache.
    pub block_size: usize,
    /// The context size that the cache is laid out for.
    pub context_size: usize,
    /// The name of the quantization to load the model with.
    pub isq: String,
    /// The message that goes before every question.
    pub system_message: String,
}

/// The quantizations that a model can be loaded with.
#[allow(non_camel_case_types)]
#[derive(Debug, Clone, Copy, PartialEq, Eq, Structural)]
pub enum QuantizationKind {
    Q4_0,
    Q4_1,
    Q5_0,
    Q5_1,
    Q8_0,
    Q8_1,
    Q2K,
    Q3K,
    Q4K,
    Q5K,
    Q6K,
    Q8K,
    HQQ8,
    HQQ4,
    F8E4M3,
    AFQ8,
    AFQ6,
    AFQ4,
    AFQ3,
    AFQ2,
}

impl QuantizationKind {
    /// The quantization that `name` stands for. Each kind is named as it is
    /// written; anything else stands for `Q8_0`.
    pub open spec fn named(name: Seq<char>) -> QuantizationKind {
        if name == "Q4_0"@ {
            QuantizationKind::Q4_0
        } else if name == "Q4_1"@ {
            QuantizationKind::Q4_1
        } else if name == "Q5_0"@ {
            QuantizationKind::Q5_0
        } else if name == "Q5_1"@ {
            QuantizationKind::Q5_1
        } else if name == "Q8_0"@ {
            QuantizationKind::Q8_0
        } else if name == "Q8_1"@ {
            QuantizationKind::Q8_1
        } else if name == "Q2K"@ {
            QuantizationKind::Q2K
        } else if name == "Q3K"@ {
            QuantizationKind::Q3K
        } else if name == "Q4K"@ {
            QuantizationKind::Q4K
        } else if name == "Q5K"@ {
            QuantizationKind::Q5K
        } else if name == "Q6K"@ {
            QuantizationKind::Q6K
        } else if name == "Q8K"@ {
            QuantizationKind::Q8K
        } else if name == "HQQ8"@ {
            QuantizationKind::HQQ8
        } else if name == "HQQ4"@ {
            QuantizationKind::HQQ4
        } else if name == "F8E4M3"@ {
            QuantizationKind::F8E4M3
        } else if name == "AFQ8"@ {
            QuantizationKind::AFQ8
        } else if name == "AFQ6"@ {
            QuantizationKind::AFQ6
        } else if name == "AFQ4"@ {
            QuantizationKind::AFQ4
        } else if name == "AFQ3"@ {
            QuantizationKind::AFQ3
        } else if name == "AFQ2"@ {
            QuantizationKind::AFQ2
        } else {
            QuantizationKind::Q8_0
        }
    }

    /// The quantization that `name` stands for.
    pub fn from_name(name: &str) -> (kind: QuantizationKind)
        ensures
            kind == Self::named(name@),
    {
        let name = chars_of(name);
        if equals(&name, "Q4_0") {
            QuantizationKind::Q4_0
        } else if equals(&name, "Q4_1") {
            QuantizationKind::Q4_1
        } else if equals(&name, "Q5_0") {
            QuantizationKind::Q5_0
        } else if equals(&name, "Q5_1") {
            QuantizationKind::Q5_1
        } else if equals(&name, "Q8_0") {
            QuantizationKind::Q8_0
        } else if equals(&name, "Q8_1") {
            QuantizationKind::Q8_1
        } else if equals(&name, "Q2K") {
            QuantizationKind::Q2K
        } else if equals(&name, "Q3K") {
            QuantizationKind::Q3K
        } else if equals(&name, "Q4K") {
            QuantizationKind::Q4K
        } else if equals(&name, "Q5K") {
            QuantizationKind::Q5K
        } else if equals(&name, "Q6K") {
            QuantizationKind::Q6K
        } else if equals(&name, "Q8K") {
            QuantizationKind::Q8K
        } else if equals(&name, "HQQ8") {
            QuantizationKind::HQQ8
        } else if equals(&name, "HQQ4") {
            QuantizationKind::HQQ4
        } else if equals(&name, "F8E4M3") {
            QuantizationKind::F8E4M3
        } else if equals(&name, "AFQ8") {
            QuantizationKind::AFQ8
        } else if equals(&name, "AFQ6") {
            QuantizationKind::AFQ6
        } else if equals(&name, "AFQ4") {
            QuantizationKind::AFQ4
        } else if equals(&name, "AFQ3") {
            QuantizationKind::AFQ3
        } else if equals(&name, "AFQ2") {
            QuantizationKind::AFQ2
        } else {
            QuantizationKind::Q8_0
        }
    }
}

impl Spec {
    /// The quantization to load the model with.
    pub fn quantization(&self) -> (kind: QuantizationKind)
        ensures
            kind == QuantizationKind::named(self.isq@),
    {
        QuantizationKind::from_name(self.isq.as_str())
    }
}

} // verus!

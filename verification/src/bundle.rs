//! What the runtime reads of a bundle's configuration.

use std::collections::HashMap;
use vstd::prelude::*;

verus! {

/// The process block of a bundle's configuration.
#[derive(Clone, Debug, PartialEq)]
pub struct ProcessSpec {
    /// The program and its arguments.
    pub args: Option<Vec<String>>,
    /// Environment entries, each of the shape `KEY=VALUE`.
    pub env: Option<Vec<String>>,
    /// The working directory of the payload.
    pub cwd: String,
}

/// The process block as plain mathematical values.
pub struct ProcessSpecView {
    pub args: Option<Seq<Seq<char>>>,
    pub env: Option<Seq<Seq<char>>>,
    pub cwd: Seq<char>,
}

impl View for ProcessSpec {
    type V = ProcessSpecView;

    open spec fn view(&self) -> ProcessSpecView {
        ProcessSpecView {
            args: self.args.deep_view(),
            env: self.env.deep_view(),
            cwd: self.cwd@,
        }
    }
}

/// The parts of a bundle's configuration that the runtime reads.
#[derive(Clone, Debug, PartialEq)]
pub struct Spec {
    /// Version of the runtime specification the bundle was written for.
    pub version: String,
    /// Path of the root filesystem.
    pub root_path: Option<String>,
    pub process: Option<ProcessSpec>,
    pub annotations: Option<HashMap<String, String>>,
}

/// A configuration as plain mathematical values.
pub struct SpecView {
    pub version: Seq<char>,
    pub root_path: Option<Seq<char>>,
    pub process: Option<ProcessSpecView>,
    pub annotations: Option<Map<Seq<char>, Seq<char>>>,
}

impl View for Spec {
    type V = SpecView;

    open spec fn view(&self) -> SpecView {
        SpecView {
            version: self.version@,
            root_path: self.root_path.deep_view(),
            process: match self.process {
                Some(process) => Some(process@),
                None => None,
            },
            annotations: self.annotations.deep_view(),
        }
    }
}

} // verus!

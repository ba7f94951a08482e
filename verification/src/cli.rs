//! What one run is asked to do.

use crate::key::{build_prefix, prefix_spec, DEFAULT_PREFIX_KEY};
use crate::transfer::{Action, ActionView, Phase, Transfer, TransferView};
use std::path::PathBuf;
use vstd::prelude::*;

verus! {

/// The direction of a run.
#[derive(Clone, Copy, Debug, PartialEq, Eq, Structural)]
pub enum Commands {
    /// Archive the path and store it.
    Upload,
    /// Fetch what is stored for the artifact and unpack it below the path.
    Download,
}

/// The parameters of one run.
#[derive(Clone, Debug)]
pub struct Cli {
    /// The bucket to upload to or to download from.
    pub bucket: String,
    /// The name of the artifact.
    pub name: String,
    /// The file or directory to upload, or the directory to download into.
    pub path: PathBuf,
    /// What tells this build or run of the artifact from the others.
    pub identifier: String,
    /// The credential profile to use, where it is not the default one.
    pub profile: Option<String>,
    /// The first segment of the artifact's keys, where it is not the
    /// default one.
    pub prefix_key: Option<String>,
    /// Whether to upload or to download.
    pub command: Commands,
}

impl Cli {
    /// The first segment of the artifact's keys: the one that was chosen,
    /// or else the default.
    pub open spec fn prefix_key_spec(&self) -> Seq<char> {
        match self.prefix_key {
            Some(chosen) => chosen@,
            None => DEFAULT_PREFIX_KEY@,
        }
    }

    /// The prefix under which the payloads of the artifact are stored.
    pub open spec fn object_prefix_spec(&self) -> Seq<char> {
        prefix_spec(self.prefix_key_spec(), self.identifier@, self.name@)
    }

    /// The state in which a run begins.
    pub open spec fn start_spec(&self) -> TransferView {
        TransferView {
            bucket: self.bucket@,
            prefix: self.object_prefix_spec(),
            path: self.path,
            phase: match self.command {
                Commands::Upload => Phase::Inspecting,
                Commands::Download => Phase::Listing,
            },
            remaining: Seq::empty(),
        }
    }

    /// The action with which a run begins.
    pub open spec fn first_action_spec(&self) -> ActionView {
        match self.command {
            Commands::Upload => ActionView::Inspect { path: self.path },
            Commands::Download => ActionView::List {
                bucket: self.bucket@,
                prefix: self.object_prefix_spec(),
            },
        }
    }

    /// Builds the prefix under which the payloads of the artifact are
    /// stored.
    pub fn object_prefix(&self) -> (prefix: String)
        ensures
            prefix@ == self.object_prefix_spec(),
    {
        match &self.prefix_key {
            Some(chosen) => build_prefix(
                chosen.as_str(),
                self.identifier.as_str(),
                self.name.as_str(),
            ),
            None => build_prefix(
                DEFAULT_PREFIX_KEY,
                self.identifier.as_str(),
                self.name.as_str(),
            ),
        }
    }

    /// Begins the run: an upload starts by inspecting the source path, a
    /// download by listing the keys under the artifact's prefix. The result
    /// is the transfer to drive and its first action.
    pub fn execute(&self) -> (run: (Transfer, Action))
        ensures
            run.0@.wf(),
            run.0@ == self.start_spec(),
            run.1@ == self.first_action_spec(),
    {
        let prefix = self.object_prefix();
        match self.command {
            Commands::Upload => Transfer::upload(self.bucket.clone(), prefix, self.path.clone()),
            Commands::Download => Transfer::download(
                self.bucket.clone(),
                prefix,
                self.path.clone(),
            ),
        }
    }
}

} // verus!

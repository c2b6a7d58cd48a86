use vstd::prelude::*;

verus! {

/// The parameters of a run that stores a local copy of a configuration.
#[derive(Clone, Debug, PartialEq, Eq)]
pub struct FetchCommand {
    pub source_config_file_path: String,
    pub output_file_path: String,
}

impl FetchCommand {
    /// A run that copies the configuration at `source_config_file_path` (a
    /// URL or a local path) to `output_file_path`.
    pub fn new(source_config_file_path: String, output_file_path: String) -> (r: Self)
        ensures
            r.source_config_file_path == source_config_file_path,
            r.output_file_path == output_file_path,
    {
        FetchCommand { source_config_file_path, output_file_path }
    }
}

} // verus!

//! Loading every repository definition of a directory: which files count,
//! and what becomes of each of them.

use crate::error::SourcesError;
use crate::repository::{loads_as, Deb822Repository};
use vstd::prelude::*;
use vstd::string::StrSliceExecFns;

verus! {

/// The directory in which APT keeps its repository definitions.
pub const SOURCES_DIRECTORY: &'static str = "/etc/apt/sources.list.d";

/// The file name has the extension `sources`: it ends in `.sources`, in
/// exactly this case, and something stands before the dot.
pub open spec fn is_sources_name(file_name: Seq<char>) -> bool {
    &&& file_name.len() > 8
    &&& file_name.subrange(file_name.len() - 8, file_name.len() as int) == ".sources"@
}

/// Whether a file of this name holds a repository definition.
pub fn has_sources_extension(file_name: &str) -> (wanted: bool)
    ensures
        wanted == is_sources_name(file_name@),
{
    let length = file_name.unicode_len();
    if length <= 8 {
        return false;
    }
    let ending = file_name.substring_char(length - 8, length);
    ending.to_owned() == ".sources".to_owned()
}

/// A file of the directory, as it was found and read.
#[derive(Debug, PartialEq, Eq)]
pub struct SourceFile {
    /// The name of the file within the directory.
    pub file_name: String,
    /// The path of the file.
    pub path: String,
    /// The text of the file, or the message of the error that kept it from
    /// being read.
    pub contents: Result<String, String>,
}

/// What became of one file.
#[derive(Debug, PartialEq, Eq)]
pub struct LoadOutcome {
    /// The path of the file.
    pub path: String,
    /// The definition in the file, or the reason why there is none.
    pub result: Result<Deb822Repository, SourcesError>,
}

/// The files that hold repository definitions, in the order given.
pub open spec fn selected(files: Seq<SourceFile>) -> Seq<SourceFile> {
    files.filter(|file: SourceFile| is_sources_name(file.file_name@))
}

/// Files are selected one by one: what is selected from a run of files is
/// what is selected from its parts, so no file bears on another.
pub proof fn lemma_selected_part_by_part(first: Seq<SourceFile>, second: Seq<SourceFile>)
    ensures
        selected(first + second) == selected(first) + selected(second),
{
    Seq::filter_distributes_over_add(
        first,
        second,
        |file: SourceFile| is_sources_name(file.file_name@),
    );
}

/// `outcome` is what loading `file` comes to. A file that could not be read
/// gives `Io` with the message; a file that was read gives what its text
/// loads as.
pub open spec fn is_outcome_of(outcome: LoadOutcome, file: SourceFile) -> bool {
    &&& outcome.path@ == file.path@
    &&& match file.contents {
        Ok(text) => loads_as(file.path@, text@, outcome.result),
        Err(message) => match outcome.result {
            Err(SourcesError::Io(reported)) => reported@ == message@,
            _ => false,
        },
    }
}

impl Deb822Repository {
    /// Loads the repository definitions among the files of a directory.
    ///
    /// Files without the extension `sources` are passed over. Every other
    /// file gives one outcome, in the order of the files, and each outcome
    /// depends on its own file alone: a file that fails keeps no other file
    /// from loading.
    pub fn get_deb822_sources(files: &Vec<SourceFile>) -> (outcomes: Vec<LoadOutcome>)
        ensures
            outcomes.len() == selected(files@).len(),
            forall|i: int|
                0 <= i < outcomes.len() ==> is_outcome_of(
                    #[trigger] outcomes[i],
                    selected(files@)[i],
                ),
    {
        let mut outcomes: Vec<LoadOutcome> = Vec::new();
        let mut i: usize = 0;
        proof {
            reveal(Seq::filter);
        }
        while i < files.len()
            invariant
                i <= files.len(),
                outcomes.len() == selected(files@.take(i as int)).len(),
                forall|j: int|
                    0 <= j < outcomes.len() ==> is_outcome_of(
                        #[trigger] outcomes[j],
                        selected(files@.take(i as int))[j],
                    ),
            decreases files.len() - i,
        {
            let file = &files[i];
            proof {
                reveal(Seq::filter);
                assert(files@.take(i + 1).drop_last() =~= files@.take(i as int));
            }
            if has_sources_extension(file.file_name.as_str()) {
                let result = match &file.contents {
                    Ok(text) => Deb822Repository::fn_new_from_file(
                        file.path.clone(),
                        text.as_str(),
                    ),
                    Err(message) => Err(SourcesError::Io(message.clone())),
                };
                outcomes.push(LoadOutcome { path: file.path.clone(), result });
            }
            i += 1;
        }
        assert(files@.take(files.len() as int) =~= files@);
        outcomes
    }
}

} // verus!

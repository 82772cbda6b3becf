use vstd::prelude::*;

use crate::script::MunScript;
use crate::text::{ends_with, has_suffix, is_text, text, texts};
use crate::uid_map::{uid_of, UidMap};

verus! {

/// The file extension of Mun source files.
pub const EXTENSION: &'static str = "mun";

/// The suffix of a path to a Mun source file.
pub const PATH_SUFFIX: &'static str = ".mun";

/// The resource type of Mun scripts.
pub const RESOURCE_TYPE: &'static str = "Mun";

/// The text a script is stored as: its source, verbatim.
pub open spec fn stored_text(script: MunScript) -> Seq<char> {
    script.source_code@
}

/// The source of the script loaded from a stored text: the text, verbatim.
pub open spec fn loaded_source(text: Seq<char>) -> Seq<char> {
    text
}

/// Storing a script and loading the stored text gives back its source
/// exactly.
pub proof fn lemma_save_then_load(script: MunScript)
    ensures
        loaded_source(stored_text(script)) == script.source_code@,
{
}

/// Loads Mun scripts from their source files.
pub struct MunFormatLoader;

/// Stores Mun scripts to their source files and records the identifiers
/// assigned to them.
pub struct MunFormatSaver;

impl MunFormatLoader {
    /// The file extensions this loader reads.
    pub fn get_recognized_extensions(&self) -> (r: Vec<String>)
        ensures
            texts(r@) == seq![EXTENSION@],
    {
        let mut r: Vec<String> = Vec::new();
        r.push(text(EXTENSION));
        assert(texts(r@) =~= seq![EXTENSION@]);
        r
    }

    /// Whether this loader produces resources of the type named `type_`.
    pub fn handles_type(&self, type_: &String) -> (r: bool)
        ensures
            r == (type_@ == "Script"@ || type_@ == RESOURCE_TYPE@),
    {
        is_text(type_, "Script") || is_text(type_, RESOURCE_TYPE)
    }

    /// The resource type of the file at `path`: Mun for a `.mun` file, else
    /// the empty string.
    pub fn get_resource_type(&self, path: &String) -> (r: String)
        ensures
            r@ == (if has_suffix(path@, PATH_SUFFIX@) {
                RESOURCE_TYPE@
            } else {
                Seq::empty()
            }),
    {
        if ends_with(path.as_str(), PATH_SUFFIX) {
            text(RESOURCE_TYPE)
        } else {
            String::new()
        }
    }

    /// The identifier recorded for `path`, or the unassigned identifier.
    pub fn get_resource_uid(&self, uids: &UidMap, path: &String) -> (r: i64)
        requires
            uids.wf(),
        ensures
            r == uid_of(uids@, path@),
    {
        uids.get_uid(path)
    }

    /// The script whose source is the text read from its file.
    pub fn load(&self, contents: String) -> (r: MunScript)
        ensures
            r.source_code@ == loaded_source(contents@),
    {
        MunScript { source_code: contents }
    }
}

impl MunFormatSaver {
    /// The text to write to the script's file.
    pub fn save(&self, script: &MunScript) -> (r: String)
        ensures
            r@ == stored_text(*script),
    {
        script.source_code.clone()
    }

    /// Records `uid` as the identifier of `path`.
    pub fn set_uid(&self, uids: &mut UidMap, path: String, uid: i64)
        requires
            old(uids).wf(),
        ensures
            final(uids).wf(),
            final(uids)@ == old(uids)@.insert(path@, uid),
    {
        uids.set_uid(path, uid);
    }

    /// Whether this saver stores resources of the class named `class_name`.
    pub fn recognize(&self, class_name: &String) -> (r: bool)
        ensures
            r == (class_name@ == "MunScript"@),
    {
        is_text(class_name, "MunScript")
    }

    /// The file extensions this saver writes.
    pub fn get_recognized_extensions(&self) -> (r: Vec<String>)
        ensures
            texts(r@) == seq![EXTENSION@],
    {
        let mut r: Vec<String> = Vec::new();
        r.push(text(EXTENSION));
        assert(texts(r@) =~= seq![EXTENSION@]);
        r
    }
}

} // verus!

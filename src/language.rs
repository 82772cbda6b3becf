use vstd::prelude::*;
use vstd::string::StringExecFns;

use crate::header::{base_type_of, get_base_type};
use crate::resource::{EXTENSION, RESOURCE_TYPE};
use crate::script::MunScript;
use crate::text::{is_text, text, texts};

verus! {

/// The delimiter that starts a comment running to the end of the line.
pub const LINE_COMMENT: &'static str = "//";

/// The reserved words of the Mun language.
pub open spec fn reserved_words() -> Seq<Seq<char>> {
    seq![
        "pub"@,
        "fn"@,
        "if"@,
        "else"@,
        "let"@,
        "super"@,
        "break"@,
        "while"@,
        "ext"@ + "ern"@,
        "mut"@,
        "use"@,
    ]
}

/// The words that steer control flow.
pub open spec fn is_control_flow_word(w: Seq<char>) -> bool {
    w == "if"@ || w == "else"@ || w == "while"@ || w == "break"@ || w == "loop"@
}

/// What the host reflects on about the Mun language: names, file
/// extensions, keywords and delimiters, and script templates.
pub struct MunExtension;

impl MunExtension {
    pub fn get_recognized_extensions(&self) -> (r: Vec<String>)
        ensures
            texts(r@) == seq![EXTENSION@],
    {
        let mut r: Vec<String> = Vec::new();
        r.push(text(EXTENSION));
        assert(texts(r@) =~= seq![EXTENSION@]);
        r
    }

    /// The default file extension.
    pub fn get_extension(&self) -> (r: String)
        ensures
            r@ == EXTENSION@,
    {
        text(EXTENSION)
    }

    /// The language's name.
    pub fn get_name(&self) -> (r: String)
        ensures
            r@ == RESOURCE_TYPE@,
    {
        text(RESOURCE_TYPE)
    }

    /// The type of the scripts made in this language.
    pub fn get_type(&self) -> (r: String)
        ensures
            r@ == RESOURCE_TYPE@,
    {
        text(RESOURCE_TYPE)
    }

    /// Whether global classes of type `type_` are this language's.
    pub fn handles_global_class_type(&self, type_: &String) -> (r: bool)
        ensures
            r == (type_@ == RESOURCE_TYPE@),
    {
        is_text(type_, RESOURCE_TYPE)
    }

    /// A new script for a class named `class_name`: its source is the header
    /// comment that names it.
    pub fn make_template(&self, class_name: &String) -> (r: MunScript)
        ensures
            r.source_code@ == "// "@ + class_name@,
    {
        let mut source = text("// ");
        source.append(class_name.as_str());
        MunScript { source_code: source }
    }

    pub fn get_comment_delimiters(&self) -> (r: Vec<String>)
        ensures
            texts(r@) == seq![LINE_COMMENT@],
    {
        let mut r: Vec<String> = Vec::new();
        r.push(text(LINE_COMMENT));
        assert(texts(r@) =~= seq![LINE_COMMENT@]);
        r
    }

    /// The language has no string delimiters to report.
    pub fn get_string_delimiters(&self) -> (r: Vec<String>)
        ensures
            r@.len() == 0,
    {
        Vec::new()
    }

    pub fn get_reserved_words(&self) -> (r: Vec<String>)
        ensures
            texts(r@) == reserved_words(),
    {
        let mut r: Vec<String> = Vec::new();
        r.push(text("pub"));
        r.push(text("fn"));
        r.push(text("if"));
        r.push(text("else"));
        r.push(text("let"));
        r.push(text("super"));
        r.push(text("break"));
        r.push(text("while"));
        let mut foreign = text("ext");
        foreign.append("ern");
        r.push(foreign);
        r.push(text("mut"));
        r.push(text("use"));
        assert(texts(r@) =~= reserved_words());
        r
    }

    pub fn is_control_flow_keyword(&self, keyword: &String) -> (r: bool)
        ensures
            r == is_control_flow_word(keyword@),
    {
        is_text(keyword, "if") || is_text(keyword, "else") || is_text(keyword, "while")
            || is_text(keyword, "break") || is_text(keyword, "loop")
    }

    /// The class name declared by a script file, from the file's first line.
    pub fn get_global_class_name(&self, first_line: &str) -> (r: String)
        ensures
            r@ == base_type_of(first_line@),
    {
        get_base_type(first_line)
    }
}

} // verus!
